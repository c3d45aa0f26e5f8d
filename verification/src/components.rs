use vstd::prelude::*;

use crate::math::{Rotation, Vec3};

verus! {

/// Position plus orientation of one entity. Grid entities get a transform
/// once at setup; the light and camera transforms are rewritten every frame.
#[derive(Clone, Copy, PartialEq, Eq, Debug)]
pub struct Transform {
    pub position: Vec3,
    pub rotation: Rotation,
}

impl Default for Transform {
    /// The identity transform: at the origin, unrotated.
    fn default() -> (t: Transform)
        ensures
            t == (Transform {
                position: Vec3 { x: 0, y: 0, z: 0 },
                rotation: Rotation::Identity,
            }),
    {
        Transform { position: Vec3 { x: 0, y: 0, z: 0 }, rotation: Rotation::Identity }
    }
}

impl Transform {
    /// Move to `(x, y, z)` (milli-units), keeping the orientation.
    pub fn set_translation_xyz(&mut self, x: i64, y: i64, z: i64)
        ensures
            final(self).position == (Vec3 { x, y, z }),
            final(self).rotation == old(self).rotation,
    {
        self.position = Vec3 { x, y, z };
    }

    /// Orient as a half turn about the x axis, keeping the position.
    pub fn set_rotation_half_turn_x(&mut self)
        ensures
            final(self).position == old(self).position,
            final(self).rotation == Rotation::HalfTurnX,
    {
        self.rotation = Rotation::HalfTurnX;
    }

    /// Orient as a half turn about the y axis, keeping the position.
    pub fn set_rotation_half_turn_y(&mut self)
        ensures
            final(self).position == old(self).position,
            final(self).rotation == Rotation::HalfTurnY,
    {
        self.rotation = Rotation::HalfTurnY;
    }

    /// Orient to look at `target` with roll fixed by the reference vector
    /// `up`, keeping the position.
    pub fn face_towards(&mut self, target: Vec3, up: Vec3)
        ensures
            final(self).position == old(self).position,
            final(self).rotation == (Rotation::FaceTowards { target, up }),
    {
        self.rotation = Rotation::FaceTowards { target, up };
    }
}

/// Which orbit a tagged light follows. `Untagged` marks an entity that
/// carries the tag component but is not a rig member, so the motion system
/// leaves it alone.
#[derive(Clone, Copy, PartialEq, Eq, Debug)]
pub enum LightColorEnum {
    Red,
    Green,
    Untagged,
}

/// The tag component attached to the two rig lights.
#[derive(Clone, Copy, PartialEq, Eq, Debug)]
pub struct LightColor {
    pub color: LightColorEnum,
}

impl Default for LightColor {
    fn default() -> (lc: LightColor)
        ensures
            lc.color == LightColorEnum::Untagged,
    {
        LightColor { color: LightColorEnum::Untagged }
    }
}

/// An RGB color with milli-scaled channels (1000 = full intensity).
#[derive(Clone, Copy, PartialEq, Eq, Debug)]
pub struct Rgb {
    pub r: i32,
    pub g: i32,
    pub b: i32,
}

/// An RGBA color with milli-scaled channels.
#[derive(Clone, Copy, PartialEq, Eq, Debug)]
pub struct Rgba {
    pub r: i32,
    pub g: i32,
    pub b: i32,
    pub a: i32,
}

/// A point light source: intensity in milli-units and an RGB color.
#[derive(Clone, Copy, PartialEq, Eq, Debug)]
pub struct PointLight {
    pub intensity_milli: i32,
    pub color: Rgb,
}

/// A perspective camera sized to the screen dimensions (in pixels) measured
/// once when the rig is built.
#[derive(Clone, Copy, PartialEq, Eq, Debug)]
pub struct Camera {
    pub width: u32,
    pub height: u32,
}

impl Camera {
    /// A standard 3D camera for a `width` x `height` screen.
    pub fn standard_3d(width: u32, height: u32) -> (c: Camera)
        ensures
            c == (Camera { width, height }),
    {
        Camera { width, height }
    }
}

/// Shared, non-owning handle to a mesh in the asset store.
#[derive(Clone, Copy, PartialEq, Eq, Debug)]
pub struct MeshHandle(pub usize);

/// Shared, non-owning handle to a texture in the asset store.
#[derive(Clone, Copy, PartialEq, Eq, Debug)]
pub struct TextureHandle(pub usize);

/// Shared, non-owning handle to a material in the asset store.
#[derive(Clone, Copy, PartialEq, Eq, Debug)]
pub struct MaterialHandle(pub usize);

} // verus!
