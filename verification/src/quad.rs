//! The quad of a sprite: four corners, drawn as two triangles.

use vstd::prelude::*;
use crate::math::{Rect, Scalar, Vec2};
use crate::prepare::SpriteQuad;

verus! {

/// The pattern of one half.
pub const HALF_BITS: u32 = 0x3f00_0000;

/// The pattern of minus one half.
pub const MINUS_HALF_BITS: u32 = 0xbf00_0000;

/// The corners of the two triangles of a quad: first the bottom left
/// triangle, then the top right one.
pub open spec fn quad_indices() -> Seq<usize> {
    seq![0, 2, 3, 0, 1, 2]
}

/// The corners of the two triangles of a quad.
pub fn indices() -> (indices: [usize; 6])
    ensures
        indices@ == quad_indices(),
{
    let indices: [usize; 6] = [0, 2, 3, 0, 1, 2];
    assert(indices@ =~= quad_indices());
    indices
}

/// The corners of the unit quad about the origin: top left, top right,
/// bottom right, bottom left.
pub open spec fn quad_vertex_positions() -> Seq<Vec2> {
    seq![
        Vec2 { x: Scalar { bits: MINUS_HALF_BITS }, y: Scalar { bits: MINUS_HALF_BITS } },
        Vec2 { x: Scalar { bits: HALF_BITS }, y: Scalar { bits: MINUS_HALF_BITS } },
        Vec2 { x: Scalar { bits: HALF_BITS }, y: Scalar { bits: HALF_BITS } },
        Vec2 { x: Scalar { bits: MINUS_HALF_BITS }, y: Scalar { bits: HALF_BITS } },
    ]
}

/// The corners of the unit quad about the origin.
pub fn vertex_positions() -> (positions: [Vec2; 4])
    ensures
        positions@ == quad_vertex_positions(),
{
    let low = Scalar::from_bits(MINUS_HALF_BITS);
    let high = Scalar::from_bits(HALF_BITS);
    let positions: [Vec2; 4] = [
        Vec2::new(low, low),
        Vec2::new(high, low),
        Vec2::new(high, high),
        Vec2::new(low, high),
    ];
    assert(positions@ =~= quad_vertex_positions());
    positions
}

/// The texture coordinates of the four corners of a quad that shows its
/// texture upright: top left, top right, bottom right, bottom left.
pub open spec fn quad_uvs() -> Seq<Vec2> {
    seq![
        Vec2 { x: Scalar { bits: 0 }, y: Scalar { bits: crate::math::ONE_BITS } },
        Vec2 { x: Scalar { bits: crate::math::ONE_BITS }, y: Scalar { bits: crate::math::ONE_BITS } },
        Vec2 { x: Scalar { bits: crate::math::ONE_BITS }, y: Scalar { bits: 0 } },
        Vec2 { x: Scalar { bits: 0 }, y: Scalar { bits: 0 } },
    ]
}

/// The texture coordinates of the four corners of an upright quad.
pub fn uvs() -> (uvs: [Vec2; 4])
    ensures
        uvs@ == quad_uvs(),
{
    let zero = Scalar::zero();
    let one = Scalar::one();
    let uvs: [Vec2; 4] = [
        Vec2::new(zero, one),
        Vec2::new(one, one),
        Vec2::new(one, zero),
        Vec2::new(zero, zero),
    ];
    assert(uvs@ =~= quad_uvs());
    uvs
}

/// Four corner values with left and right exchanged.
pub open spec fn flipped_x<T>(corners: Seq<T>) -> Seq<T> {
    seq![corners[1], corners[0], corners[3], corners[2]]
}

/// Four corner values with top and bottom exchanged.
pub open spec fn flipped_y<T>(corners: Seq<T>) -> Seq<T> {
    seq![corners[3], corners[2], corners[1], corners[0]]
}

/// Four corner values after the flips that are asked for, the horizontal one
/// first.
pub open spec fn flipped<T>(corners: Seq<T>, flip_x: bool, flip_y: bool) -> Seq<T> {
    let across = if flip_x {
        flipped_x(corners)
    } else {
        corners
    };
    if flip_y {
        flipped_y(across)
    } else {
        across
    }
}

/// Flipping horizontally and then vertically gives the same corners as
/// flipping vertically and then horizontally, and either flip undoes itself.
pub proof fn lemma_flips_commute<T>(corners: Seq<T>)
    requires
        corners.len() == 4,
    ensures
        flipped_y(flipped_x(corners)) == flipped_x(flipped_y(corners)),
        flipped_y(flipped_x(corners)) == seq![corners[2], corners[3], corners[0], corners[1]],
        flipped_x(flipped_x(corners)) == corners,
        flipped_y(flipped_y(corners)) == corners,
{
    assert(flipped_y(flipped_x(corners)) =~= flipped_x(flipped_y(corners)));
    assert(flipped_y(flipped_x(corners)) =~= seq![corners[2], corners[3], corners[0], corners[1]]);
    assert(flipped_x(flipped_x(corners)) =~= corners);
    assert(flipped_y(flipped_y(corners)) =~= corners);
}

/// The texture coordinates of the four corners of a quad, before they are
/// narrowed to a rectangle of the texture.
pub fn flipped_uvs(flip_x: bool, flip_y: bool) -> (uvs: [Vec2; 4])
    ensures
        uvs@ == flipped(quad_uvs(), flip_x, flip_y),
{
    let mut uvs: [Vec2; 4] = uvs();
    if flip_x {
        uvs = [uvs[1], uvs[0], uvs[3], uvs[2]];
        assert(uvs@ =~= flipped_x(quad_uvs()));
    }
    let ghost across = uvs@;
    if flip_y {
        uvs = [uvs[3], uvs[2], uvs[1], uvs[0]];
        assert(uvs@ =~= flipped_y(across));
    }
    uvs
}

/// What decides the size of a quad.
#[derive(Clone, Copy, Debug, PartialEq, Eq, Structural)]
pub enum QuadSize {
    /// The size of the whole texture.
    Image(Vec2),
    /// The size of a rectangle of the texture.
    Rect(Rect),
    /// A size given with the sprite.
    Custom(Vec2),
}

/// One of the six vertices of a quad, before its place in the world and in
/// the texture are worked out.
#[derive(Clone, Copy, Debug, PartialEq, Eq, Structural)]
pub struct QuadVertex {
    /// Which of the quad's four corners the vertex is.
    pub corner: usize,
    /// The corner of the unit quad about the origin.
    pub position: Vec2,
    /// The texture coordinate of the corner within the whole texture.
    pub uv: Vec2,
}

impl SpriteQuad {
    /// What decides the quad's size: the size given with the sprite; that
    /// failing, the sprite's rectangle; that failing, the whole texture.
    pub open spec fn spec_size(self) -> QuadSize {
        match self.sprite.custom_size {
            Some(custom_size) => QuadSize::Custom(custom_size),
            None => match self.sprite.rect {
                Some(rect) => QuadSize::Rect(rect),
                None => QuadSize::Image(self.image_size),
            },
        }
    }

    /// The vertex at place `i` of the quad's six.
    pub open spec fn spec_vertex(self, i: int) -> QuadVertex {
        QuadVertex {
            corner: quad_indices()[i],
            position: quad_vertex_positions()[quad_indices()[i] as int],
            uv: flipped(quad_uvs(), self.sprite.flip_x, self.sprite.flip_y)[quad_indices()[i] as int],
        }
    }

    /// What decides the quad's size.
    pub fn size(&self) -> (size: QuadSize)
        ensures
            size == self.spec_size(),
    {
        // By default, the size of the quad is the size of the texture
        let mut quad_size = QuadSize::Image(self.image_size);

        // If a rect is specified, adjust the size of the quad
        if let Some(rect) = self.sprite.rect {
            quad_size = QuadSize::Rect(rect);
        }
        // Override the size if a custom one is specified

        if let Some(custom_size) = self.sprite.custom_size {
            quad_size = QuadSize::Custom(custom_size);
        }
        quad_size
    }

    /// The six vertices of the quad, in the order in which they stand in the
    /// vertex buffer.
    pub fn vertices(&self) -> (vertices: Vec<QuadVertex>)
        ensures
            vertices@.len() == 6,
            forall|i: int| 0 <= i < 6 ==> #[trigger] vertices@[i] == self.spec_vertex(i),
    {
        let indices = indices();
        let positions = vertex_positions();
        let uvs = flipped_uvs(self.sprite.flip_x, self.sprite.flip_y);
        let mut vertices: Vec<QuadVertex> = Vec::new();
        let mut i: usize = 0;
        while i < 6
            invariant
                i <= 6,
                indices@ == quad_indices(),
                positions@ == quad_vertex_positions(),
                uvs@ == flipped(quad_uvs(), self.sprite.flip_x, self.sprite.flip_y),
                vertices@.len() == i,
                forall|k: int| 0 <= k < i ==> #[trigger] vertices@[k] == self.spec_vertex(k),
            decreases 6 - i,
        {
            let corner: usize = indices[i];
            vertices.push(QuadVertex { corner, position: positions[corner], uv: uvs[corner] });
            i += 1;
        }
        vertices
    }
}

} // verus!
