use vstd::prelude::*;

verus! {

/// Fixed-point scale: one unit of world space is `MILLI` counts.
pub const MILLI: i64 = 1000;

/// A position or direction in world space, in milli-units per axis.
#[derive(Clone, Copy, PartialEq, Eq, Debug)]
pub struct Vec3 {
    pub x: i64,
    pub y: i64,
    pub z: i64,
}

impl Vec3 {
    pub fn new(x: i64, y: i64, z: i64) -> (v: Vec3)
        ensures
            v == (Vec3 { x, y, z }),
    {
        Vec3 { x, y, z }
    }
}

/// An orientation, kept symbolically: the scene only ever uses half turns
/// about a coordinate axis and a look-at orientation facing `target` with
/// roll fixed by the reference vector `up`.
#[derive(Clone, Copy, PartialEq, Eq, Debug)]
pub enum Rotation {
    Identity,
    HalfTurnX,
    HalfTurnY,
    FaceTowards { target: Vec3, up: Vec3 },
}

/// One sampled angle: `sin_milli` and `cos_milli` hold the sine and cosine of
/// the angle scaled by `MILLI`. A true sample lies in `[-MILLI, MILLI]`, but
/// nothing in this crate depends on that bound.
#[derive(Clone, Copy, PartialEq, Eq, Debug)]
pub struct TrigSample {
    pub sin_milli: i32,
    pub cos_milli: i32,
}

} // verus!
