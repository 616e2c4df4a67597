//! The vertex data model for quad-based 2D drawing.
//!
//! Coordinates and color channels are plain integers in logical units;
//! the layer that talks to the GPU converts them to its floating-point
//! wire format. Field order of [`Vertex`] mirrors the shader's layout:
//! position, then color, then uv.

use vstd::prelude::*;

verus! {

/// A 2D position in logical pixel coordinates.
#[derive(Clone, Copy, Debug, PartialEq)]
pub struct Position {
    pub x: i64,
    pub y: i64,
}

/// An RGBA color, one integer per channel.
#[derive(Clone, Copy, Debug, PartialEq)]
pub struct Rgba {
    pub r: i64,
    pub g: i64,
    pub b: i64,
    pub a: i64,
}

/// Texture coordinates.
#[derive(Clone, Copy, Debug, PartialEq)]
pub struct TexCoord {
    pub u: i64,
    pub v: i64,
}

/// A single vertex with a 2D position, color and uv coordinates.
#[derive(Clone, Copy, Debug, PartialEq)]
pub struct Vertex {
    pub position: Position,
    pub color: Rgba,
    pub uv: TexCoord,
}

/// Fully opaque black, the default fill color of a bare quad.
pub open spec fn opaque_black() -> Rgba {
    Rgba { r: 0, g: 0, b: 0, a: 1 }
}

/// The vertex produced for a point: uv defaults to (1, 1), a texture-less fill.
pub open spec fn vertex_spec(x: i64, y: i64, color: Rgba) -> Vertex {
    Vertex { position: Position { x, y }, color, uv: TexCoord { u: 1, v: 1 } }
}

/// True when the far corner of a quad at `(x, y)` with the given extent
/// still fits in the coordinate type.
pub open spec fn quad_fits(width: i64, height: i64, x: i64, y: i64) -> bool {
    &&& i64::MIN <= x + width <= i64::MAX
    &&& i64::MIN <= y + height <= i64::MAX
}

/// The six vertices of an axis-aligned quad, as two triangles sharing the
/// top-right/bottom-left diagonal, in the order the triangle-list draw mode
/// requires: top-left, top-right, bottom-left, top-right, bottom-left,
/// bottom-right.
pub open spec fn quad_spec(width: i64, height: i64, x: i64, y: i64, color: Rgba) -> Seq<Vertex> {
    let xw = (x + width) as i64;
    let yh = (y + height) as i64;
    seq![
        vertex_spec(x, y, color),
        vertex_spec(xw, y, color),
        vertex_spec(x, yh, color),
        vertex_spec(xw, y, color),
        vertex_spec(x, yh, color),
        vertex_spec(xw, yh, color),
    ]
}

impl Vertex {
    /// Creates a new [`Vertex`]; the position and color are unconstrained.
    pub fn new(x: i64, y: i64, color: Rgba) -> (v: Vertex)
        ensures
            v == vertex_spec(x, y, color),
    {
        Vertex { position: Position { x, y }, color, uv: TexCoord { u: 1, v: 1 } }
    }

    /// Tessellates a rectangle into 6 vertices, two triangles, filled with
    /// the given color. A zero or negative extent still yields 6 vertices
    /// (a zero-area quad), never an error.
    pub fn quad_colored(width: i64, height: i64, x: i64, y: i64, color: Rgba) -> (r: Vec<
        Vertex,
    >)
        requires
            quad_fits(width, height, x, y),
        ensures
            r@ == quad_spec(width, height, x, y, color),
            r@.len() == 6,
            r@[0].position == (Position { x, y }),
            r@[5].position == (Position { x: (x + width) as i64, y: (y + height) as i64 }),
    {
        let top_left = Vertex::new(x, y, color);
        let top_right = Vertex::new(x + width, y, color);
        let bottom_left = Vertex::new(x, y + height, color);
        let bottom_right = Vertex::new(x + width, y + height, color);
        let r = vec![top_left, top_right, bottom_left, top_right, bottom_left, bottom_right];
        proof {
            assert(r@ =~= quad_spec(width, height, x, y, color));
        }
        r
    }

    /// Creates a `Vec` of 6 vertices in a quad layout, filled with opaque
    /// black.
    pub fn quad(width: i64, height: i64, x: i64, y: i64) -> (r: Vec<Vertex>)
        requires
            quad_fits(width, height, x, y),
        ensures
            r@ == quad_spec(width, height, x, y, opaque_black()),
            r@.len() == 6,
            r@[0].position == (Position { x, y }),
            r@[5].position == (Position { x: (x + width) as i64, y: (y + height) as i64 }),
    {
        Vertex::quad_colored(width, height, x, y, Rgba { r: 0, g: 0, b: 0, a: 1 })
    }
}

/// Quad tessellation is deterministic: two quads produced from identical
/// inputs are vertex-for-vertex identical, in the same order.
pub proof fn lemma_quad_deterministic(
    a: Seq<Vertex>,
    b: Seq<Vertex>,
    width: i64,
    height: i64,
    x: i64,
    y: i64,
    color: Rgba,
)
    requires
        a == quad_spec(width, height, x, y, color),
        b == quad_spec(width, height, x, y, color),
    ensures
        a == b,
{
}

} // verus!
