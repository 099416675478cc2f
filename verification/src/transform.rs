//! The affine transform that draws a sprite turned about its own centre.

use vstd::prelude::*;
use crate::units::{
    clamp_to_i64, clamped, lemma_scaled_by_unit, lemma_scaled_is_odd, scale, scaled, HEADING_UNIT,
};
use crate::vector::{Heading, Vec2d, Vector};

verus! {

/// An affine map of the plane over the mathematical integers: a matrix
///
/// ```text
/// a  b  tx
/// c  d  ty
/// ```
///
/// whose linear entries `a`, `b`, `c`, `d` count millionths and whose
/// offset `tx`, `ty` is a length in nanopixels.
pub struct Affine {
    pub a: int,
    pub b: int,
    pub c: int,
    pub d: int,
    pub tx: int,
    pub ty: int,
}

impl Affine {
    /// The map that leaves every point where it is.
    pub open spec fn identity() -> Affine {
        Affine { a: HEADING_UNIT as int, b: 0, c: 0, d: HEADING_UNIT as int, tx: 0, ty: 0 }
    }

    /// The linear part applied to the displacement `v`, each product rounded
    /// toward zero.
    pub open spec fn turn(self, v: Vector) -> Vector {
        Vector {
            x: scaled(self.a, v.x) + scaled(self.b, v.y),
            y: scaled(self.c, v.x) + scaled(self.d, v.y),
        }
    }

    /// Where the map sends the point `p`.
    pub open spec fn apply(self, p: Vector) -> Vector {
        self.turn(p).plus(Vector { x: self.tx, y: self.ty })
    }

    /// The map that first moves a point by `by` and then applies `self`.
    pub open spec fn then_translate(self, by: Vector) -> Affine {
        Affine { tx: self.tx + self.turn(by).x, ty: self.ty + self.turn(by).y, ..self }
    }

    /// The map that first turns a point about the origin by the rotation
    /// whose cosine and sine `heading` holds, and then applies `self`.
    pub open spec fn then_rotate(self, heading: Vector) -> Affine {
        Affine {
            a: scaled(self.a, heading.x) + scaled(self.b, heading.y),
            b: scaled(self.b, heading.x) - scaled(self.a, heading.y),
            c: scaled(self.c, heading.x) + scaled(self.d, heading.y),
            d: scaled(self.d, heading.x) - scaled(self.c, heading.y),
            ..self
        }
    }

    /// The map with its offset clamped to the range of `i64`.
    pub open spec fn clamped(self) -> Affine {
        Affine { tx: clamped(self.tx), ty: clamped(self.ty), ..self }
    }
}

/// The map that draws a sprite of half extent `half_extent`, whose own
/// geometry has its top-left corner at the origin, turned by `heading` about
/// its centre, with the unturned top-left corner at `position`: the
/// rotation `heading`, and the offset that keeps the centre fixed at
/// `position + half_extent`.
pub open spec fn placement(half_extent: Vector, position: Vector, heading: Vector) -> Affine {
    let turned = Vector {
        x: scaled(heading.x, half_extent.x) - scaled(heading.y, half_extent.y),
        y: scaled(heading.y, half_extent.x) + scaled(heading.x, half_extent.y),
    };
    Affine {
        a: heading.x,
        b: -heading.y,
        c: heading.y,
        d: heading.x,
        tx: position.x + half_extent.x - turned.x,
        ty: position.y + half_extent.y - turned.y,
    }
}

/// An affine transform of the plane: linear entries in millionths, offset in
/// nanopixels.
#[derive(Clone, Copy, Debug, PartialEq, Eq)]
pub struct Transform {
    pub a: i64,
    pub b: i64,
    pub c: i64,
    pub d: i64,
    pub tx: i64,
    pub ty: i64,
}

impl View for Transform {
    type V = Affine;

    open spec fn view(&self) -> Affine {
        Affine {
            a: self.a as int,
            b: self.b as int,
            c: self.c as int,
            d: self.d as int,
            tx: self.tx as int,
            ty: self.ty as int,
        }
    }
}

impl Transform {
    /// Where the transform sends `point`, clamped to the range of `i64`.
    pub fn apply(&self, point: Vec2d) -> (image: Vec2d)
        ensures
            image@ == self@.apply(point@).clamped(),
    {
        Vec2d {
            x: clamp_to_i64(scale(self.a, point.x) + scale(self.b, point.y) + self.tx as i128),
            y: clamp_to_i64(scale(self.c, point.x) + scale(self.d, point.y) + self.ty as i128),
        }
    }
}

/// Builds the transform that draws a sprite turned by `heading` about its
/// own centre.
///
/// The sprite's geometry has its top-left corner at the origin and its
/// centre at `half_extent`. The transform is the product, each factor
/// multiplied on from the right, of a translation to `position`, a
/// translation by `half_extent`, the rotation `heading` and a translation
/// back by `half_extent`. It takes pixels to pixels: the surface's own base
/// transform is multiplied on from the left by whoever draws.
pub fn build_transform(half_extent: Vec2d, position: Vec2d, heading: Heading) -> (t: Transform)
    ensures
        t@ == placement(half_extent@, position@, heading@).clamped(),
{
    let cos: i64 = heading.cos as i64;
    let sin: i64 = heading.sin as i64;
    let turned_x: i128 = scale(cos, half_extent.x) - scale(sin, half_extent.y);
    let turned_y: i128 = scale(sin, half_extent.x) + scale(cos, half_extent.y);
    Transform {
        a: cos,
        b: -sin,
        c: sin,
        d: cos,
        tx: clamp_to_i64(position.x as i128 + half_extent.x as i128 - turned_x),
        ty: clamp_to_i64(position.y as i128 + half_extent.y as i128 - turned_y),
    }
}

/// The placement is the product its construction names: on the identity,
/// from the right, a translation to `position`, a translation by
/// `half_extent`, the rotation `heading`, and a translation back by
/// `half_extent`.
pub proof fn lemma_placement_is_product(half_extent: Vector, position: Vector, heading: Vector)
    ensures
        placement(half_extent, position, heading) == Affine::identity().then_translate(
            position,
        ).then_translate(half_extent).then_rotate(heading).then_translate(
            Vector { x: -half_extent.x, y: -half_extent.y },
        ),
{
    lemma_scaled_by_unit(position.x);
    lemma_scaled_by_unit(position.y);
    lemma_scaled_by_unit(half_extent.x);
    lemma_scaled_by_unit(half_extent.y);
    lemma_scaled_by_unit(heading.x);
    lemma_scaled_by_unit(heading.y);
    lemma_scaled_is_odd(heading.x, half_extent.x);
    lemma_scaled_is_odd(heading.x, half_extent.y);
    lemma_scaled_is_odd(heading.y, half_extent.x);
    lemma_scaled_is_odd(heading.y, half_extent.y);
}

/// Whatever the heading, the placement sends the sprite's centre to
/// `position + half_extent`: the sprite turns about its own centre.
pub proof fn lemma_placement_fixes_centre(half_extent: Vector, position: Vector, heading: Vector)
    ensures
        placement(half_extent, position, heading).apply(half_extent) == position.plus(
            half_extent,
        ),
{
    lemma_scaled_is_odd(heading.y, half_extent.y);
}

/// With a heading of rotation zero the placement is a pure translation by
/// `position`: its linear part is the identity's.
pub proof fn lemma_upright_placement_translates(
    half_extent: Vector,
    position: Vector,
    point: Vector,
)
    ensures
        placement(half_extent, position, Vector { x: HEADING_UNIT as int, y: 0 }) == (Affine {
            tx: position.x,
            ty: position.y,
            ..Affine::identity()
        }),
        placement(half_extent, position, Vector { x: HEADING_UNIT as int, y: 0 }).apply(point)
            == point.plus(position),
{
    lemma_scaled_by_unit(half_extent.x);
    lemma_scaled_by_unit(half_extent.y);
    lemma_scaled_by_unit(point.x);
    lemma_scaled_by_unit(point.y);
}

/// With a heading of half a turn the placement reflects every point
/// through the sprite's centre: the top-left corner lands where the
/// bottom-right one stood.
pub proof fn lemma_half_turn_placement_reflects(
    half_extent: Vector,
    position: Vector,
    point: Vector,
)
    ensures
        placement(half_extent, position, Vector { x: -HEADING_UNIT, y: 0 }).apply(point)
            == position.plus(half_extent.times(2)).minus(point),
{
    lemma_scaled_by_unit(half_extent.x);
    lemma_scaled_by_unit(half_extent.y);
    lemma_scaled_by_unit(point.x);
    lemma_scaled_by_unit(point.y);
}

} // verus!
