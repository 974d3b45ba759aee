//! A single voxel block: an active flag plus a palette index.

use vstd::prelude::*;

verus! {

/// One block of a chunk: whether it is visible, and which palette entry
/// colors it.
#[derive(Clone, Copy, Debug, Hash, PartialEq, Eq, Structural)]
pub struct Block {
    pub active: bool,
    pub color_id: u8,
}

impl Block {
    /// A block with the given active status and palette index.
    pub fn new(active: bool, color_id: u8) -> (b: Block)
        ensures
            b == (Block { active, color_id }),
    {
        Block { active, color_id }
    }

    /// The palette index coloring the block.
    pub fn color(&self) -> (r: u8)
        ensures
            r == self.color_id,
    {
        self.color_id
    }

    /// Replaces the palette index, leaving the active status unchanged.
    pub fn set_color(&mut self, color_id: u8)
        ensures
            *final(self) == (Block { active: old(self).active, color_id }),
    {
        self.color_id = color_id;
    }

    /// Whether the block is active.
    pub fn is_active(&self) -> (r: bool)
        ensures
            r == self.active,
    {
        self.active
    }

    /// Replaces the active status, leaving the palette index unchanged.
    pub fn set_active(&mut self, active: bool)
        ensures
            *final(self) == (Block { active, color_id: old(self).color_id }),
    {
        self.active = active;
    }
}

impl Default for Block {
    /// An inactive block with palette index 0.
    fn default() -> (b: Block)
        ensures
            b == (Block { active: false, color_id: 0 }),
    {
        Block { active: false, color_id: 0 }
    }
}

} // verus!
