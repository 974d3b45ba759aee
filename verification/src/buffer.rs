//! Typed GPU buffer model.
//!
//! A [`Buffer`] tracks what this code knows about one device-side buffer:
//! its element capacity, its usage bits, the elements written so far, and a
//! generation number that stands for the identity of the backing
//! allocation.  Every reallocation bumps the generation; a resource
//! binding built against an older generation is stale and must be rebuilt.

use vstd::prelude::*;

use crate::error::RenderError;
use crate::types::{BufferUsages, ShaderStages, BUFFER_USAGE_COPY_DST};

verus! {

/// Index of a vertex buffer registered with the renderer.
#[derive(Clone, Copy, Debug, Hash, PartialEq, Eq, Structural)]
pub struct BufferId(pub usize);

/// Error returned when a buffer id does not name a registered buffer.
#[derive(Clone, Copy, Debug, PartialEq, Eq, Structural)]
pub struct InvalidBufferId(pub BufferId);

/// How a buffer is bound to a shader.
#[derive(Clone, Copy, Debug, PartialEq, Eq, Structural)]
pub enum BufferBindingType {
    Uniform,
    Storage { read_only: bool },
}

/// How a buffer participates in a resource binding: the stages that see it
/// and the binding type it takes there.
#[derive(Clone, Copy, Debug, PartialEq, Eq, Structural)]
pub struct BufferResourceDescriptor {
    pub visibility: ShaderStages,
    pub buffer_type: BufferBindingType,
}

/// A typed buffer of `capacity` elements of `T`.
///
/// `contents[i]` is `Some(v)` when element `i` was written by this code
/// and `None` when it still holds the zeroes the allocation started with.
pub struct Buffer<T> {
    pub contents: Vec<Option<T>>,
    pub capacity: usize,
    pub usage: BufferUsages,
    pub generation: u64,
}

impl<T: Copy> Buffer<T> {
    /// The tracked contents cover exactly the allocated capacity.
    pub open spec fn wf(&self) -> bool {
        self.contents@.len() == self.capacity
    }

    /// A fresh buffer of `capacity` unwritten elements.  The backing
    /// allocation additionally always accepts queued copies, so the copy
    /// destination bit joins the requested usage.
    pub fn new(capacity: usize, usage: BufferUsages) -> (b: Buffer<T>)
        ensures
            b.wf(),
            b.capacity == capacity,
            b.usage.bits == usage.bits | BUFFER_USAGE_COPY_DST,
            b.generation == 0,
            forall|i: int| 0 <= i < capacity ==> b.contents@[i] is None,
    {
        let mut contents: Vec<Option<T>> = Vec::new();
        let mut i: usize = 0;
        while i < capacity
            invariant
                i <= capacity,
                contents@.len() == i,
                forall|j: int| 0 <= j < i ==> contents@[j] is None,
            decreases capacity - i,
        {
            contents.push(None);
            i = i + 1;
        }
        Buffer {
            contents,
            capacity,
            usage: BufferUsages { bits: usage.bits | BUFFER_USAGE_COPY_DST },
            generation: 0,
        }
    }

    /// Writes `data` at element `offset` without ever growing: the write
    /// succeeds exactly when `offset + data.len()` fits in the capacity,
    /// and on overflow nothing is written at all.
    pub fn fill_exact(&mut self, offset: u64, data: &[T]) -> (r: Result<(), RenderError>)
        requires
            old(self).wf(),
        ensures
            final(self).wf(),
            final(self).capacity == old(self).capacity,
            final(self).usage == old(self).usage,
            final(self).generation == old(self).generation,
            r is Ok <==> offset + data@.len() <= old(self).capacity,
            r is Ok ==> forall|i: int|
                0 <= i < old(self).capacity ==> final(self).contents@[i] == (
                    if offset <= i < offset + data@.len() {
                        Some(data@[i - offset])
                    } else {
                        old(self).contents@[i]
                    }),
            r is Err ==> final(self).contents@ == old(self).contents@,
            r is Err ==> r == Err::<(), RenderError>(RenderError::BufferOverflow(data@.len() as usize)),
    {
        if data.len() > self.capacity || offset > (self.capacity - data.len()) as u64 {
            return Err(RenderError::BufferOverflow(data.len()));
        }
        let base: usize = offset as usize;
        let mut k: usize = 0;
        while k < data.len()
            invariant
                self.wf(),
                self.capacity == old(self).capacity,
                self.usage == old(self).usage,
                self.generation == old(self).generation,
                k <= data@.len(),
                base == offset,
                base + data@.len() <= self.capacity,
                forall|i: int| 0 <= i < self.capacity ==> self.contents@[i] == (
                    if base <= i < base + k {
                        Some(data@[i - base])
                    } else {
                        old(self).contents@[i]
                    }),
            decreases data@.len() - k,
        {
            self.contents.set(base + k, Some(data[k]));
            k = k + 1;
        }
        Ok(())
    }

    /// Writes `data`, growing the buffer when `offset + data.len()`
    /// exceeds the capacity.  The grow path reallocates to exactly
    /// `data.len()` elements, discards all prior contents together with
    /// the requested offset, and writes the data at element 0; the
    /// non-growing path writes at `offset` and preserves the rest.
    pub fn fill(&mut self, offset: u64, data: &[T])
        requires
            old(self).wf(),
            old(self).generation < u64::MAX,
        ensures
            final(self).wf(),
            final(self).usage == old(self).usage,
            final(self).capacity >= data@.len(),
            offset + data@.len() <= old(self).capacity ==> {
                &&& final(self).capacity == old(self).capacity
                &&& final(self).generation == old(self).generation
                &&& forall|i: int| 0 <= i < old(self).capacity ==> final(self).contents@[i] == (
                    if offset <= i < offset + data@.len() {
                        Some(data@[i - offset])
                    } else {
                        old(self).contents@[i]
                    })
            },
            offset + data@.len() > old(self).capacity ==> {
                &&& final(self).capacity == data@.len()
                &&& final(self).generation == old(self).generation + 1
                &&& forall|i: int| 0 <= i < final(self).capacity ==> final(self).contents@[i] == Some(
                    data@[i],
                )
            },
    {
        let grows = if data.len() > self.capacity {
            true
        } else {
            offset > (self.capacity - data.len()) as u64
        };
        if grows {
            self.resize(data.len());
            let _ = self.fill_exact(0, data);
        } else {
            let _ = self.fill_exact(offset, data);
        }
    }

    /// Reallocates to `capacity` elements, discarding all contents and
    /// preserving the usage bits.  The backing allocation is replaced, so
    /// the generation moves on and existing bindings become stale.
    pub fn resize(&mut self, capacity: usize)
        requires
            old(self).wf(),
            old(self).generation < u64::MAX,
        ensures
            final(self).wf(),
            final(self).capacity == capacity,
            final(self).usage == old(self).usage,
            final(self).generation == old(self).generation + 1,
            forall|i: int| 0 <= i < capacity ==> final(self).contents@[i] is None,
    {
        let mut contents: Vec<Option<T>> = Vec::new();
        let mut i: usize = 0;
        while i < capacity
            invariant
                i <= capacity,
                contents@.len() == i,
                forall|j: int| 0 <= j < i ==> contents@[j] is None,
            decreases capacity - i,
        {
            contents.push(None);
            i = i + 1;
        }
        self.contents = contents;
        self.capacity = capacity;
        self.generation = self.generation + 1;
    }

    /// The element capacity.
    pub fn capacity(&self) -> (r: usize)
        ensures
            r == self.capacity,
    {
        self.capacity
    }

    /// The usage bits of the backing allocation.
    pub fn usage(&self) -> (r: BufferUsages)
        ensures
            r == self.usage,
    {
        self.usage
    }

    /// The generation of the backing allocation.
    pub fn generation(&self) -> (r: u64)
        ensures
            r == self.generation,
    {
        self.generation
    }

    /// The element at `index`: `Some` of what was written there, or
    /// `None` when the slot is untouched since the last (re)allocation.
    pub fn get(&self, index: usize) -> (r: Option<T>)
        requires
            self.wf(),
            index < self.capacity,
        ensures
            r == self.contents@[index as int],
    {
        self.contents[index]
    }
}

} // verus!
