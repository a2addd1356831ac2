//! The layout of a drawable quad.
//!
//! An object is drawn as a rectangle of two triangles, six vertices in all.
//! Which corner each vertex sits on, on which side of the centre that corner
//! lies and which texture coordinates it carries is fixed here. The caller
//! places a vertex by adding the half-width and the half-height of the
//! rectangle to its centre, each multiplied by the sign the layout gives.

use vstd::prelude::*;

verus! {

/// A corner of the rectangle. The vertical axis points down: the top
/// corners lie on the negative side.
#[derive(Clone, Copy, Debug, PartialEq, Eq, Structural)]
pub enum Corner {
    TopRight,
    TopLeft,
    BottomLeft,
    BottomRight,
}

/// One vertex of a quad before it is placed.
#[derive(Clone, Copy, Debug, PartialEq, Eq, Structural)]
pub struct VertexLayout {
    /// The corner the vertex sits on.
    pub corner: Corner,
    /// 1 if the corner lies right of the centre, -1 if left.
    pub sign_x: i8,
    /// 1 if the corner lies below the centre, -1 if above.
    pub sign_y: i8,
    /// Index of the object's texture.
    pub tex_i: u32,
    /// Horizontal texture coordinate of the corner, 0 or 1.
    pub tex_u: u8,
    /// Vertical texture coordinate of the corner, 0 or 1.
    pub tex_v: u8,
}

impl Corner {
    /// The side of the centre on which the corner lies, per axis.
    pub open spec fn signs(self) -> (int, int) {
        match self {
            Corner::TopRight => (1, -1),
            Corner::TopLeft => (-1, -1),
            Corner::BottomLeft => (-1, 1),
            Corner::BottomRight => (1, 1),
        }
    }

    /// The texture coordinates of the corner.
    pub open spec fn coords(self) -> (int, int) {
        match self {
            Corner::TopRight => (1, 0),
            Corner::TopLeft => (0, 0),
            Corner::BottomLeft => (0, 1),
            Corner::BottomRight => (1, 1),
        }
    }

    /// The vertex on this corner for an object with texture `tex_i`.
    pub open spec fn layout(self, tex_i: u32) -> VertexLayout {
        VertexLayout {
            corner: self,
            sign_x: self.signs().0 as i8,
            sign_y: self.signs().1 as i8,
            tex_i,
            tex_u: self.coords().0 as u8,
            tex_v: self.coords().1 as u8,
        }
    }

    /// Builds the vertex on this corner for an object with texture `tex_i`.
    pub fn vertex(self, tex_i: u32) -> (v: VertexLayout)
        ensures
            v == self.layout(tex_i),
            v.corner == self,
            v.tex_i == tex_i,
            (v.sign_x as int, v.sign_y as int) == self.signs(),
            (v.tex_u as int, v.tex_v as int) == self.coords(),
    {
        match self {
            Corner::TopRight => {
                let (tex_u, tex_v) = top_right_coords();
                VertexLayout { corner: self, sign_x: 1, sign_y: -1, tex_i, tex_u, tex_v }
            },
            Corner::TopLeft => {
                let (tex_u, tex_v) = top_left_coords();
                VertexLayout { corner: self, sign_x: -1, sign_y: -1, tex_i, tex_u, tex_v }
            },
            Corner::BottomLeft => {
                let (tex_u, tex_v) = bottom_left_coords();
                VertexLayout { corner: self, sign_x: -1, sign_y: 1, tex_i, tex_u, tex_v }
            },
            Corner::BottomRight => {
                let (tex_u, tex_v) = bottom_right_coords();
                VertexLayout { corner: self, sign_x: 1, sign_y: 1, tex_i, tex_u, tex_v }
            },
        }
    }
}

/// Where the top right corner lies on the image that is drawn.
pub fn top_right_coords() -> (r: (u8, u8))
    ensures
        r == (1u8, 0u8),
{
    (1, 0)
}

/// Where the top left corner lies on the image that is drawn.
pub fn top_left_coords() -> (r: (u8, u8))
    ensures
        r == (0u8, 0u8),
{
    (0, 0)
}

/// Where the bottom right corner lies on the image that is drawn.
pub fn bottom_right_coords() -> (r: (u8, u8))
    ensures
        r == (1u8, 1u8),
{
    (1, 1)
}

/// Where the bottom left corner lies on the image that is drawn.
pub fn bottom_left_coords() -> (r: (u8, u8))
    ensures
        r == (0u8, 1u8),
{
    (0, 1)
}

/// The corners of the six vertices in the order in which they are emitted:
/// the triangle top right, top left, bottom left, then the triangle top
/// right, bottom left, bottom right.
pub open spec fn quad_corners() -> Seq<Corner> {
    seq![
        Corner::TopRight,
        Corner::TopLeft,
        Corner::BottomLeft,
        Corner::TopRight,
        Corner::BottomLeft,
        Corner::BottomRight,
    ]
}

/// Lays out the six vertices of an object with texture `tex_i`.
pub fn construct_vertices(tex_i: u32) -> (vertices: [VertexLayout; 6])
    ensures
        forall|i: int| 0 <= i < 6 ==> #[trigger] vertices@[i] == quad_corners()[i].layout(tex_i),
{
    [
        Corner::TopRight.vertex(tex_i),
        Corner::TopLeft.vertex(tex_i),
        Corner::BottomLeft.vertex(tex_i),
        Corner::TopRight.vertex(tex_i),
        Corner::BottomLeft.vertex(tex_i),
        Corner::BottomRight.vertex(tex_i),
    ]
}

/// Twice the signed area of the triangle `a`, `b`, `c`; its sign tells the
/// direction in which the triangle winds.
pub open spec fn winding(a: (int, int), b: (int, int), c: (int, int)) -> int {
    (b.0 - a.0) * (c.1 - a.1) - (b.1 - a.1) * (c.0 - a.0)
}

/// The place of a corner of the rectangle with the given centre,
/// half-width and half-height.
pub open spec fn placed(corner: Corner, centre: (int, int), half_w: int, half_h: int) -> (
    int,
    int,
) {
    (centre.0 + corner.signs().0 * half_w, centre.1 + corner.signs().1 * half_h)
}

/// The texture spans the rectangle: a corner's texture coordinate is 0 on
/// the negative side of the centre and 1 on the positive side, on each axis.
pub proof fn lemma_texture_spans_quad(corner: Corner)
    ensures
        2 * corner.coords().0 == corner.signs().0 + 1,
        2 * corner.coords().1 == corner.signs().1 + 1,
{
}

/// The two triangles of a quad cover all four corners, share the diagonal
/// from top right to bottom left, and wind in the same direction wherever
/// the rectangle lies and whatever its positive size is.
pub proof fn lemma_quad_triangles(centre: (int, int), half_w: int, half_h: int)
    requires
        half_w > 0,
        half_h > 0,
    ensures
        quad_corners().len() == 6,
        forall|corner: Corner| quad_corners().contains(corner),
        quad_corners()[0] == quad_corners()[3],
        quad_corners()[2] == quad_corners()[4],
        winding(
            placed(quad_corners()[0], centre, half_w, half_h),
            placed(quad_corners()[1], centre, half_w, half_h),
            placed(quad_corners()[2], centre, half_w, half_h),
        ) == -4 * half_w * half_h,
        winding(
            placed(quad_corners()[3], centre, half_w, half_h),
            placed(quad_corners()[4], centre, half_w, half_h),
            placed(quad_corners()[5], centre, half_w, half_h),
        ) == -4 * half_w * half_h,
        -4 * half_w * half_h < 0,
{
    assert forall|corner: Corner| quad_corners().contains(corner) by {
        match corner {
            Corner::TopRight => assert(quad_corners()[0] == corner),
            Corner::TopLeft => assert(quad_corners()[1] == corner),
            Corner::BottomLeft => assert(quad_corners()[2] == corner),
            Corner::BottomRight => assert(quad_corners()[5] == corner),
        }
    }
    assert(-4 * half_w * half_h < 0) by (nonlinear_arith)
        requires
            half_w > 0,
            half_h > 0,
    ;
    let top_right = placed(Corner::TopRight, centre, half_w, half_h);
    let top_left = placed(Corner::TopLeft, centre, half_w, half_h);
    let bottom_left = placed(Corner::BottomLeft, centre, half_w, half_h);
    let bottom_right = placed(Corner::BottomRight, centre, half_w, half_h);
    assert(1 * half_w == half_w && -1 * half_w == -half_w) by (nonlinear_arith);
    assert(1 * half_h == half_h && -1 * half_h == -half_h) by (nonlinear_arith);
    assert(winding(top_right, top_left, bottom_left) == -4 * half_w * half_h)
        by (nonlinear_arith)
        requires
            top_right == (centre.0 + half_w, centre.1 - half_h),
            top_left == (centre.0 - half_w, centre.1 - half_h),
            bottom_left == (centre.0 - half_w, centre.1 + half_h),
    ;
    assert(winding(top_right, bottom_left, bottom_right) == -4 * half_w * half_h)
        by (nonlinear_arith)
        requires
            top_right == (centre.0 + half_w, centre.1 - half_h),
            bottom_left == (centre.0 - half_w, centre.1 + half_h),
            bottom_right == (centre.0 + half_w, centre.1 + half_h),
    ;
}

} // verus!
