//! Triangle mesh built from unit block faces.
//!
//! Every face of a unit cube at integer position (x, y, z) contributes two
//! triangles as six non-indexed vertices.  Positions stay integers here:
//! a block face only ever touches corners of the integer grid, and the
//! floating-point vertex stream a GPU consumes is derived outside the
//! core, one float per coordinate.

use vstd::prelude::*;

use crate::types::Color;

verus! {

/// A corner of the integer block grid.
#[derive(Clone, Copy, Debug, PartialEq, Eq, Structural)]
pub struct Position {
    pub x: usize,
    pub y: usize,
    pub z: usize,
}

/// The axis-aligned direction a face points at.
#[derive(Clone, Copy, Debug, PartialEq, Eq, Structural)]
pub enum FaceDirection {
    Front,
    Back,
    Left,
    Right,
    Bottom,
    Top,
}

impl FaceDirection {
    /// The unit normal of a face pointing this way.
    pub open spec fn normal_spec(self) -> (int, int, int) {
        match self {
            FaceDirection::Front => (0, 0, 1),
            FaceDirection::Back => (0, 0, -1),
            FaceDirection::Left => (-1, 0, 0),
            FaceDirection::Right => (1, 0, 0),
            FaceDirection::Bottom => (0, -1, 0),
            FaceDirection::Top => (0, 1, 0),
        }
    }

    /// The unit normal of a face pointing this way.
    pub fn normal(self) -> (r: (i32, i32, i32))
        ensures
            (r.0 as int, r.1 as int, r.2 as int) == self.normal_spec(),
    {
        match self {
            FaceDirection::Front => (0, 0, 1),
            FaceDirection::Back => (0, 0, -1),
            FaceDirection::Left => (-1, 0, 0),
            FaceDirection::Right => (1, 0, 0),
            FaceDirection::Bottom => (0, -1, 0),
            FaceDirection::Top => (0, 1, 0),
        }
    }
}

/// One mesh vertex: a grid corner, the direction of the face it belongs
/// to, and the palette-resolved block color.
#[derive(Clone, Copy, Debug, PartialEq, Eq, Structural)]
pub struct Vertex {
    pub position: Position,
    pub normal: FaceDirection,
    pub color: Color,
}

/// Shorthand for one vertex of the face being emitted.
pub open spec fn face_vertex(
    x: int,
    y: int,
    z: int,
    normal: FaceDirection,
    color: Color,
) -> Vertex {
    Vertex { position: Position { x: x as usize, y: y as usize, z: z as usize }, normal, color }
}

/// The six vertices of the top face (+y) of the unit block at (x, y, z).
pub open spec fn top_face_vertices(x: int, y: int, z: int, color: Color) -> Seq<Vertex> {
    let n = FaceDirection::Top;
    seq![
        face_vertex(x, y + 1, z, n, color),
        face_vertex(x, y + 1, z + 1, n, color),
        face_vertex(x + 1, y + 1, z, n, color),
        face_vertex(x + 1, y + 1, z, n, color),
        face_vertex(x, y + 1, z + 1, n, color),
        face_vertex(x + 1, y + 1, z + 1, n, color),
    ]
}

/// The six vertices of the bottom face (-y) of the unit block at (x, y, z).
pub open spec fn bottom_face_vertices(x: int, y: int, z: int, color: Color) -> Seq<Vertex> {
    let n = FaceDirection::Bottom;
    seq![
        face_vertex(x, y, z, n, color),
        face_vertex(x + 1, y, z, n, color),
        face_vertex(x, y, z + 1, n, color),
        face_vertex(x + 1, y, z, n, color),
        face_vertex(x + 1, y, z + 1, n, color),
        face_vertex(x, y, z + 1, n, color),
    ]
}

/// The six vertices of the front face (low z) of the unit block at (x, y, z).
pub open spec fn front_face_vertices(x: int, y: int, z: int, color: Color) -> Seq<Vertex> {
    let n = FaceDirection::Front;
    seq![
        face_vertex(x, y, z, n, color),
        face_vertex(x, y + 1, z, n, color),
        face_vertex(x + 1, y, z, n, color),
        face_vertex(x + 1, y, z, n, color),
        face_vertex(x, y + 1, z, n, color),
        face_vertex(x + 1, y + 1, z, n, color),
    ]
}

/// The six vertices of the back face (high z) of the unit block at (x, y, z).
pub open spec fn back_face_vertices(x: int, y: int, z: int, color: Color) -> Seq<Vertex> {
    let n = FaceDirection::Back;
    seq![
        face_vertex(x, y, z + 1, n, color),
        face_vertex(x + 1, y, z + 1, n, color),
        face_vertex(x, y + 1, z + 1, n, color),
        face_vertex(x + 1, y, z + 1, n, color),
        face_vertex(x + 1, y + 1, z + 1, n, color),
        face_vertex(x, y + 1, z + 1, n, color),
    ]
}

/// The six vertices of the left face (-x) of the unit block at (x, y, z).
pub open spec fn left_face_vertices(x: int, y: int, z: int, color: Color) -> Seq<Vertex> {
    let n = FaceDirection::Left;
    seq![
        face_vertex(x, y, z, n, color),
        face_vertex(x, y, z + 1, n, color),
        face_vertex(x, y + 1, z, n, color),
        face_vertex(x, y + 1, z, n, color),
        face_vertex(x, y, z + 1, n, color),
        face_vertex(x, y + 1, z + 1, n, color),
    ]
}

/// The six vertices of the right face (+x) of the unit block at (x, y, z).
pub open spec fn right_face_vertices(x: int, y: int, z: int, color: Color) -> Seq<Vertex> {
    let n = FaceDirection::Right;
    seq![
        face_vertex(x + 1, y, z, n, color),
        face_vertex(x + 1, y + 1, z, n, color),
        face_vertex(x + 1, y, z + 1, n, color),
        face_vertex(x + 1, y, z + 1, n, color),
        face_vertex(x + 1, y + 1, z, n, color),
        face_vertex(x + 1, y + 1, z + 1, n, color),
    ]
}

/// The six vertices of the face of the block at (x, y, z) facing `d`.
pub open spec fn face_vertices(d: FaceDirection, x: int, y: int, z: int, color: Color) -> Seq<
    Vertex,
> {
    match d {
        FaceDirection::Front => front_face_vertices(x, y, z, color),
        FaceDirection::Back => back_face_vertices(x, y, z, color),
        FaceDirection::Left => left_face_vertices(x, y, z, color),
        FaceDirection::Right => right_face_vertices(x, y, z, color),
        FaceDirection::Bottom => bottom_face_vertices(x, y, z, color),
        FaceDirection::Top => top_face_vertices(x, y, z, color),
    }
}

/// A triangle list of block-face vertices.
#[derive(Clone, Debug)]
pub struct Mesh {
    pub vertex_data: Vec<Vertex>,
}

impl Default for Mesh {
    /// An empty mesh.
    fn default() -> (m: Mesh)
        ensures
            m.vertex_data@ == Seq::<Vertex>::empty(),
    {
        Mesh { vertex_data: Vec::new() }
    }
}

impl Mesh {
    /// Appends the top face of the block at (x, y, z).
    pub fn add_top_face(&mut self, x: usize, y: usize, z: usize, color: Color)
        requires
            x < usize::MAX,
            y < usize::MAX,
            z < usize::MAX,
        ensures
            final(self).vertex_data@ == old(self).vertex_data@ + top_face_vertices(
                x as int,
                y as int,
                z as int,
                color,
            ),
    {
        let n = FaceDirection::Top;
        self.vertex_data.push(Vertex { position: Position { x, y: y + 1, z }, normal: n, color });
        self.vertex_data.push(
            Vertex { position: Position { x, y: y + 1, z: z + 1 }, normal: n, color },
        );
        self.vertex_data.push(
            Vertex { position: Position { x: x + 1, y: y + 1, z }, normal: n, color },
        );
        self.vertex_data.push(
            Vertex { position: Position { x: x + 1, y: y + 1, z }, normal: n, color },
        );
        self.vertex_data.push(
            Vertex { position: Position { x, y: y + 1, z: z + 1 }, normal: n, color },
        );
        self.vertex_data.push(
            Vertex { position: Position { x: x + 1, y: y + 1, z: z + 1 }, normal: n, color },
        );
        proof {
            assert(final(self).vertex_data@ =~= old(self).vertex_data@ + top_face_vertices(
                x as int,
                y as int,
                z as int,
                color,
            ));
        }
    }

    /// Appends the bottom face of the block at (x, y, z).
    pub fn add_bottom_face(&mut self, x: usize, y: usize, z: usize, color: Color)
        requires
            x < usize::MAX,
            y < usize::MAX,
            z < usize::MAX,
        ensures
            final(self).vertex_data@ == old(self).vertex_data@ + bottom_face_vertices(
                x as int,
                y as int,
                z as int,
                color,
            ),
    {
        let n = FaceDirection::Bottom;
        self.vertex_data.push(Vertex { position: Position { x, y, z }, normal: n, color });
        self.vertex_data.push(Vertex { position: Position { x: x + 1, y, z }, normal: n, color });
        self.vertex_data.push(Vertex { position: Position { x, y, z: z + 1 }, normal: n, color });
        self.vertex_data.push(Vertex { position: Position { x: x + 1, y, z }, normal: n, color });
        self.vertex_data.push(
            Vertex { position: Position { x: x + 1, y, z: z + 1 }, normal: n, color },
        );
        self.vertex_data.push(Vertex { position: Position { x, y, z: z + 1 }, normal: n, color });
        proof {
            assert(final(self).vertex_data@ =~= old(self).vertex_data@ + bottom_face_vertices(
                x as int,
                y as int,
                z as int,
                color,
            ));
        }
    }

    /// Appends the front face of the block at (x, y, z).
    pub fn add_front_face(&mut self, x: usize, y: usize, z: usize, color: Color)
        requires
            x < usize::MAX,
            y < usize::MAX,
            z < usize::MAX,
        ensures
            final(self).vertex_data@ == old(self).vertex_data@ + front_face_vertices(
                x as int,
                y as int,
                z as int,
                color,
            ),
    {
        let n = FaceDirection::Front;
        self.vertex_data.push(Vertex { position: Position { x, y, z }, normal: n, color });
        self.vertex_data.push(Vertex { position: Position { x, y: y + 1, z }, normal: n, color });
        self.vertex_data.push(Vertex { position: Position { x: x + 1, y, z }, normal: n, color });
        self.vertex_data.push(Vertex { position: Position { x: x + 1, y, z }, normal: n, color });
        self.vertex_data.push(Vertex { position: Position { x, y: y + 1, z }, normal: n, color });
        self.vertex_data.push(
            Vertex { position: Position { x: x + 1, y: y + 1, z }, normal: n, color },
        );
        proof {
            assert(final(self).vertex_data@ =~= old(self).vertex_data@ + front_face_vertices(
                x as int,
                y as int,
                z as int,
                color,
            ));
        }
    }

    /// Appends the back face of the block at (x, y, z).
    pub fn add_back_face(&mut self, x: usize, y: usize, z: usize, color: Color)
        requires
            x < usize::MAX,
            y < usize::MAX,
            z < usize::MAX,
        ensures
            final(self).vertex_data@ == old(self).vertex_data@ + back_face_vertices(
                x as int,
                y as int,
                z as int,
                color,
            ),
    {
        let n = FaceDirection::Back;
        self.vertex_data.push(Vertex { position: Position { x, y, z: z + 1 }, normal: n, color });
        self.vertex_data.push(
            Vertex { position: Position { x: x + 1, y, z: z + 1 }, normal: n, color },
        );
        self.vertex_data.push(
            Vertex { position: Position { x, y: y + 1, z: z + 1 }, normal: n, color },
        );
        self.vertex_data.push(
            Vertex { position: Position { x: x + 1, y, z: z + 1 }, normal: n, color },
        );
        self.vertex_data.push(
            Vertex { position: Position { x: x + 1, y: y + 1, z: z + 1 }, normal: n, color },
        );
        self.vertex_data.push(
            Vertex { position: Position { x, y: y + 1, z: z + 1 }, normal: n, color },
        );
        proof {
            assert(final(self).vertex_data@ =~= old(self).vertex_data@ + back_face_vertices(
                x as int,
                y as int,
                z as int,
                color,
            ));
        }
    }

    /// Appends the left face of the block at (x, y, z).
    pub fn add_left_face(&mut self, x: usize, y: usize, z: usize, color: Color)
        requires
            x < usize::MAX,
            y < usize::MAX,
            z < usize::MAX,
        ensures
            final(self).vertex_data@ == old(self).vertex_data@ + left_face_vertices(
                x as int,
                y as int,
                z as int,
                color,
            ),
    {
        let n = FaceDirection::Left;
        self.vertex_data.push(Vertex { position: Position { x, y, z }, normal: n, color });
        self.vertex_data.push(Vertex { position: Position { x, y, z: z + 1 }, normal: n, color });
        self.vertex_data.push(Vertex { position: Position { x, y: y + 1, z }, normal: n, color });
        self.vertex_data.push(Vertex { position: Position { x, y: y + 1, z }, normal: n, color });
        self.vertex_data.push(Vertex { position: Position { x, y, z: z + 1 }, normal: n, color });
        self.vertex_data.push(
            Vertex { position: Position { x, y: y + 1, z: z + 1 }, normal: n, color },
        );
        proof {
            assert(final(self).vertex_data@ =~= old(self).vertex_data@ + left_face_vertices(
                x as int,
                y as int,
                z as int,
                color,
            ));
        }
    }

    /// Appends the right face of the block at (x, y, z).
    pub fn add_right_face(&mut self, x: usize, y: usize, z: usize, color: Color)
        requires
            x < usize::MAX,
            y < usize::MAX,
            z < usize::MAX,
        ensures
            final(self).vertex_data@ == old(self).vertex_data@ + right_face_vertices(
                x as int,
                y as int,
                z as int,
                color,
            ),
    {
        let n = FaceDirection::Right;
        self.vertex_data.push(Vertex { position: Position { x: x + 1, y, z }, normal: n, color });
        self.vertex_data.push(
            Vertex { position: Position { x: x + 1, y: y + 1, z }, normal: n, color },
        );
        self.vertex_data.push(
            Vertex { position: Position { x: x + 1, y, z: z + 1 }, normal: n, color },
        );
        self.vertex_data.push(
            Vertex { position: Position { x: x + 1, y, z: z + 1 }, normal: n, color },
        );
        self.vertex_data.push(
            Vertex { position: Position { x: x + 1, y: y + 1, z }, normal: n, color },
        );
        self.vertex_data.push(
            Vertex { position: Position { x: x + 1, y: y + 1, z: z + 1 }, normal: n, color },
        );
        proof {
            assert(final(self).vertex_data@ =~= old(self).vertex_data@ + right_face_vertices(
                x as int,
                y as int,
                z as int,
                color,
            ));
        }
    }
}

} // verus!
