//! Quad geometry: the four corners and six indices of one sprite.

use vstd::prelude::*;
use crate::ecs::Transform;
use crate::scalar::Scalar;

verus! {

/// Vertices that make up one quad.
pub const VERTICES_PER_QUAD: usize = 4;

/// Indices that make up one quad: two triangles.
pub const INDICES_PER_QUAD: usize = 6;

/// Bytes one vertex takes in a vertex buffer: position and texture
/// coordinate, two single-precision numbers each.
pub const VERTEX_STRIDE: u64 = 16;

/// Byte offset of the position within a vertex.
pub const POSITION_OFFSET: u64 = 0;

/// Byte offset of the texture coordinate within a vertex.
pub const TEXCOORD_OFFSET: u64 = 8;

/// Bytes one index takes in an index buffer.
pub const INDEX_STRIDE: u64 = 2;

/// One coordinate of a vertex position.
///
/// The far edges of a quad lie at `x + w` and `y + h`. Adding two
/// single-precision numbers is left to whoever turns the vertex into bytes;
/// until then the sum is carried as its two operands.
#[derive(Clone, Copy, Debug, PartialEq, Eq, Structural)]
pub enum Coord {
    /// The number itself.
    At(Scalar),
    /// The sum of two numbers, in this order.
    Sum(Scalar, Scalar),
}

/// A vertex of a quad: a position in logical coordinates and a texture
/// coordinate, each component of which is 0 or 1.
#[derive(Clone, Copy, Debug, PartialEq, Eq, Structural)]
pub struct Vertex {
    pub x: Coord,
    pub y: Coord,
    pub u: u8,
    pub v: u8,
}

/// The vertex at `corner` of the quad that `t` describes. Corners are
/// numbered in winding order: 0 top-left, 1 top-right, 2 bottom-right,
/// 3 bottom-left. The origin of `t` is its bottom-left corner; texture
/// coordinates have their origin at the top-left.
pub open spec fn corner_vertex(t: Transform, corner: int) -> Vertex {
    if corner == 0 {
        Vertex { x: Coord::At(t.x), y: Coord::Sum(t.y, t.h), u: 0, v: 0 }
    } else if corner == 1 {
        Vertex { x: Coord::Sum(t.x, t.w), y: Coord::Sum(t.y, t.h), u: 1, v: 0 }
    } else if corner == 2 {
        Vertex { x: Coord::Sum(t.x, t.w), y: Coord::At(t.y), u: 1, v: 1 }
    } else {
        Vertex { x: Coord::At(t.x), y: Coord::At(t.y), u: 0, v: 1 }
    }
}

/// The corner that the `k`-th index of a quad refers to: the two triangles
/// `0, 1, 2` and `2, 3, 0`.
pub open spec fn corner_of_index(k: int) -> int {
    if k == 0 {
        0
    } else if k == 1 {
        1
    } else if k == 2 {
        2
    } else if k == 3 {
        2
    } else if k == 4 {
        3
    } else {
        0
    }
}

/// The four vertices of the quad that `t` describes, in winding order.
pub open spec fn quad_vertices(t: Transform) -> Seq<Vertex> {
    Seq::new(4, |corner: int| corner_vertex(t, corner))
}

/// The six indices of the quad whose first vertex has index `base`.
pub open spec fn quad_indices(base: int) -> Seq<int> {
    Seq::new(6, |k: int| base + corner_of_index(k))
}

/// Builds the four vertices of one quad.
pub fn build_quad(t: &Transform) -> (quad: [Vertex; 4])
    ensures
        quad@ == quad_vertices(*t),
{
    let quad = [
        Vertex { x: Coord::At(t.x), y: Coord::Sum(t.y, t.h), u: 0, v: 0 },
        Vertex { x: Coord::Sum(t.x, t.w), y: Coord::Sum(t.y, t.h), u: 1, v: 0 },
        Vertex { x: Coord::Sum(t.x, t.w), y: Coord::At(t.y), u: 1, v: 1 },
        Vertex { x: Coord::At(t.x), y: Coord::At(t.y), u: 0, v: 1 },
    ];
    assert(quad@ =~= quad_vertices(*t));
    quad
}

/// Builds the six indices of the quad whose first vertex has index `base`.
pub fn build_quad_indices(base: u16) -> (indices: [u16; 6])
    requires
        base + 3 <= u16::MAX,
    ensures
        indices@.len() == 6,
        forall|k: int| 0 <= k < 6 ==> indices@[k] as int == #[trigger] quad_indices(base as int)[k],
{
    let indices = [base, base + 1, base + 2, base + 2, base + 3, base];
    indices
}

} // verus!
