//! Plain geometry that crosses the embedder boundary.
//!
//! The coordinates are generic: the engine's geometry is in floating point,
//! which the embedder picks as `N`; this layer only moves coordinates and
//! never computes with them.
use vstd::prelude::*;

verus! {

/// A coordinate type with a multiplicative and an additive identity.
pub trait Coordinate: Copy {
    spec fn one_spec() -> Self;

    spec fn zero_spec() -> Self;

    fn one() -> (r: Self)
        ensures
            r == Self::one_spec(),
    ;

    fn zero() -> (r: Self)
        ensures
            r == Self::zero_spec(),
    ;
}

impl Coordinate for i32 {
    open spec fn one_spec() -> i32 {
        1
    }

    open spec fn zero_spec() -> i32 {
        0
    }

    fn one() -> (r: i32) {
        1
    }

    fn zero() -> (r: i32) {
        0
    }
}

impl Coordinate for i64 {
    open spec fn one_spec() -> i64 {
        1
    }

    open spec fn zero_spec() -> i64 {
        0
    }

    fn one() -> (r: i64) {
        1
    }

    fn zero() -> (r: i64) {
        0
    }
}

impl Coordinate for u32 {
    open spec fn one_spec() -> u32 {
        1
    }

    open spec fn zero_spec() -> u32 {
        0
    }

    fn one() -> (r: u32) {
        1
    }

    fn zero() -> (r: u32) {
        0
    }
}

/// A point.
#[derive(Debug, Clone, Copy, PartialEq, Eq, Hash, Structural)]
pub struct Point<N> {
    pub x: N,
    pub y: N,
}

/// A width and a height.
#[derive(Debug, Clone, Copy, PartialEq, Eq, Hash, Structural)]
pub struct Size<N> {
    pub width: N,
    pub height: N,
}

/// A rectangle by its edges.
#[derive(Debug, Clone, Copy, PartialEq, Eq, Hash, Structural)]
pub struct Rect<N> {
    pub left: N,
    pub top: N,
    pub right: N,
    pub bottom: N,
}

/// A rectangle with rounded corners.
#[derive(Debug, Clone, Copy, PartialEq, Eq, Hash, Structural)]
pub struct RoundedRect<N> {
    pub rect: Rect<N>,
    pub upper_left_corner_radius: Size<N>,
    pub upper_right_corner_radius: Size<N>,
    pub lower_right_corner_radius: Size<N>,
    pub lower_left_corner_radius: Size<N>,
}

/// A 2D transformation matrix:
///
/// | scale_x  skew_x trans_x |
/// |  skew_y scale_y trans_y |
/// |  pers0   pers1   pers2  |
#[derive(Debug, Clone, Copy, PartialEq, Eq, Hash, Structural)]
pub struct Transformation<N> {
    pub scale_x: N,
    pub skew_x: N,
    pub trans_x: N,
    pub skew_y: N,
    pub scale_y: N,
    pub trans_y: N,
    pub pers0: N,
    pub pers1: N,
    pub pers2: N,
}

impl<N: Coordinate> Transformation<N> {
    /// The transformation that changes nothing: ones on the diagonal,
    /// zeros elsewhere.
    pub fn identity() -> (r: Transformation<N>)
        ensures
            r == (Transformation {
                scale_x: N::one_spec(),
                skew_x: N::zero_spec(),
                trans_x: N::zero_spec(),
                skew_y: N::zero_spec(),
                scale_y: N::one_spec(),
                trans_y: N::zero_spec(),
                pers0: N::zero_spec(),
                pers1: N::zero_spec(),
                pers2: N::one_spec(),
            }),
    {
        Transformation {
            scale_x: N::one(),
            skew_x: N::zero(),
            trans_x: N::zero(),
            skew_y: N::zero(),
            scale_y: N::one(),
            trans_y: N::zero(),
            pers0: N::zero(),
            pers1: N::zero(),
            pers2: N::one(),
        }
    }
}

/// What the engine tells the embedder about the surface of the next frame.
#[derive(Debug, Clone, Copy, PartialEq, Eq, Hash, Structural)]
pub struct FrameInfo {
    /// The size of the surface, in physical pixels.
    pub size: Size<u32>,
}

} // verus!
