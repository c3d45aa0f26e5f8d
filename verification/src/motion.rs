use vstd::prelude::*;

use crate::components::{LightColorEnum, Transform};
use crate::math::{Rotation, TrigSample, Vec3};
use crate::scene::{camera_rig_entity, light_a_entity, light_b_entity};
use crate::world::{has_camera_components, has_light_components, Entity, World};

verus! {

/// The orbit the red light follows, for the sample `s` of angle `10 T`:
/// `(cos(10T)*100, -sin(10T)*100, -3)` world units, milli-scaled.
pub open spec fn red_light_position(s: TrigSample) -> Vec3 {
    Vec3 {
        x: (100 * (s.cos_milli as int)) as i64,
        y: ((-100) * (s.sin_milli as int)) as i64,
        z: -3000i64,
    }
}

/// The orbit the green light follows: the red orbit with the x and y axes
/// swapped, so it is rotated in phase and axis, not merely time-shifted.
pub open spec fn green_light_position(s: TrigSample) -> Vec3 {
    Vec3 {
        x: ((-100) * (s.sin_milli as int)) as i64,
        y: (100 * (s.cos_milli as int)) as i64,
        z: -3000i64,
    }
}

/// The camera orbit, for the sample `s` of angle `T`: a circle of radius 8
/// in the XY plane at depth -5, `(-8 sin T, 8 cos T, -5)`, milli-scaled.
pub open spec fn camera_position(s: TrigSample) -> Vec3 {
    Vec3 {
        x: ((-8) * (s.sin_milli as int)) as i64,
        y: (8 * (s.cos_milli as int)) as i64,
        z: -5000i64,
    }
}

/// The camera orientation every frame: facing the world origin, with roll
/// fixed by the inverted up reference `(0, 0, -1)`.
pub open spec fn camera_orientation() -> Rotation {
    Rotation::FaceTowards { target: Vec3 { x: 0, y: 0, z: 0 }, up: Vec3 { x: 0, y: 0, z: -1000i64 } }
}

/// What one pass of the light motion system makes of entity `e` at sample
/// `s`: an entity carrying a transform and a Red or Green tag is moved onto
/// its orbit (orientation kept); every other entity is left exactly as it is.
pub open spec fn light_updated(e: Entity, s: TrigSample) -> Entity {
    if e.transform is Some && e.light_color is Some {
        let t = e.transform->Some_0;
        match e.light_color->Some_0.color {
            LightColorEnum::Red => Entity {
                transform: Some(Transform { position: red_light_position(s), rotation: t.rotation }),
                ..e
            },
            LightColorEnum::Green => Entity {
                transform: Some(
                    Transform { position: green_light_position(s), rotation: t.rotation },
                ),
                ..e
            },
            LightColorEnum::Untagged => e,
        }
    } else {
        e
    }
}

/// What one pass of the camera motion system makes of entity `e` at sample
/// `s`: an entity carrying a transform and a camera is put on the camera
/// orbit and turned to face the origin; every other entity is left exactly
/// as it is.
pub open spec fn camera_updated(e: Entity, s: TrigSample) -> Entity {
    if e.transform is Some && e.camera is Some {
        Entity {
            transform: Some(
                Transform { position: camera_position(s), rotation: camera_orientation() },
            ),
            ..e
        }
    } else {
        e
    }
}

/// Per-frame system that repositions the two tagged lights along their
/// orbits.
pub struct MoveLightsSystem;

impl MoveLightsSystem {
    /// One pass over the world at the sample `s` of angle `10 T`: every
    /// entity becomes exactly [`light_updated`] of its old value.
    pub fn run(&self, world: &mut World, s: TrigSample)
        ensures
            final(world).entities@.len() == old(world).entities@.len(),
            forall|k: int|
                0 <= k < old(world).entities@.len() ==> final(world).entities@[k]
                    == light_updated(old(world).entities@[k], s),
    {
        let movement_x: i64 = (s.cos_milli as i64) * 100;
        let movement_y: i64 = -((s.sin_milli as i64) * 100);
        let ghost orig = world.entities@;
        let n = world.entities.len();
        let mut k: usize = 0;
        while k < n
            invariant
                n == orig.len(),
                k <= n,
                world.entities@.len() == orig.len(),
                movement_x == 100 * (s.cos_milli as int),
                movement_y == (-100) * (s.sin_milli as int),
                forall|i: int| 0 <= i < k ==> world.entities@[i] == light_updated(orig[i], s),
                forall|i: int| k <= i < n ==> world.entities@[i] == orig[i],
            decreases n - k,
        {
            let e = world.entities[k];
            match (e.transform, e.light_color) {
                (Some(t), Some(lc)) => {
                    match lc.color {
                        LightColorEnum::Red => {
                            let nt = Transform {
                                position: Vec3 { x: movement_x, y: movement_y, z: -3000 },
                                rotation: t.rotation,
                            };
                            world.entities[k] = Entity { transform: Some(nt), ..e };
                        },
                        LightColorEnum::Green => {
                            let nt = Transform {
                                position: Vec3 { x: movement_y, y: movement_x, z: -3000 },
                                rotation: t.rotation,
                            };
                            world.entities[k] = Entity { transform: Some(nt), ..e };
                        },
                        LightColorEnum::Untagged => {},
                    }
                },
                _ => {},
            }
            k = k + 1;
        }
    }
}

/// Per-frame system that repositions the camera along its orbit and turns
/// it to face the world origin.
pub struct MoveCameraSystem;

impl MoveCameraSystem {
    /// One pass over the world at the sample `s` of angle `T`: every entity
    /// becomes exactly [`camera_updated`] of its old value.
    pub fn run(&self, world: &mut World, s: TrigSample)
        ensures
            final(world).entities@.len() == old(world).entities@.len(),
            forall|k: int|
                0 <= k < old(world).entities@.len() ==> final(world).entities@[k]
                    == camera_updated(old(world).entities@[k], s),
    {
        let pos_x: i64 = -((s.sin_milli as i64) * 8);
        let pos_y: i64 = (s.cos_milli as i64) * 8;
        let ghost orig = world.entities@;
        let n = world.entities.len();
        let mut k: usize = 0;
        while k < n
            invariant
                n == orig.len(),
                k <= n,
                world.entities@.len() == orig.len(),
                pos_x == (-8) * (s.sin_milli as int),
                pos_y == 8 * (s.cos_milli as int),
                forall|i: int| 0 <= i < k ==> world.entities@[i] == camera_updated(orig[i], s),
                forall|i: int| k <= i < n ==> world.entities@[i] == orig[i],
            decreases n - k,
        {
            let e = world.entities[k];
            if e.transform.is_some() && e.camera.is_some() {
                let nt = Transform {
                    position: Vec3 { x: pos_x, y: pos_y, z: -5000 },
                    rotation: Rotation::FaceTowards {
                        target: Vec3 { x: 0, y: 0, z: 0 },
                        up: Vec3 { x: 0, y: 0, z: -1000 },
                    },
                };
                world.entities[k] = Entity { transform: Some(nt), ..e };
            }
            k = k + 1;
        }
    }
}

/// The light motion system never mutates an entity that lacks a transform
/// or a light-color tag.
pub proof fn lemma_light_update_skips_untagged(e: Entity, s: TrigSample)
    requires
        !has_light_components(e),
    ensures
        light_updated(e, s) == e,
{
}

/// A light-color tag of `Untagged` is inert: the light motion system leaves
/// such an entity exactly as it is.
pub proof fn lemma_light_update_skips_inert(e: Entity, s: TrigSample)
    requires
        e.light_color matches Some(lc) && lc.color == LightColorEnum::Untagged,
    ensures
        light_updated(e, s) == e,
{
}

/// The camera motion system never mutates an entity that lacks a transform
/// or a camera.
pub proof fn lemma_camera_update_skips_non_camera(e: Entity, s: TrigSample)
    requires
        !has_camera_components(e),
    ensures
        camera_updated(e, s) == e,
{
}

/// The light motion is a pure function of the sample: a second pass at the
/// same sample leaves every entity exactly where the first put it.
pub proof fn lemma_light_update_idempotent(e: Entity, s: TrigSample)
    ensures
        light_updated(light_updated(e, s), s) == light_updated(e, s),
{
}

/// The camera motion is a pure function of the sample: a second pass at the
/// same sample leaves every entity exactly where the first put it.
pub proof fn lemma_camera_update_idempotent(e: Entity, s: TrigSample)
    ensures
        camera_updated(camera_updated(e, s), s) == camera_updated(e, s),
{
}

/// At every sample, the red rig light A sits on its orbit
/// `(cos(10T)*100, -sin(10T)*100, -3)`, keeping its orientation and its
/// other components.
pub proof fn lemma_light_a_on_orbit(s: TrigSample)
    ensures
        light_updated(light_a_entity(), s) == (Entity {
            transform: Some(
                Transform { position: red_light_position(s), rotation: Rotation::Identity },
            ),
            ..light_a_entity()
        }),
{
}

/// At every sample, the green rig light B sits on its orbit
/// `(-sin(10T)*100, cos(10T)*100, -3)`, keeping its orientation and its
/// other components.
pub proof fn lemma_light_b_on_orbit(s: TrigSample)
    ensures
        light_updated(light_b_entity(), s) == (Entity {
            transform: Some(
                Transform { position: green_light_position(s), rotation: Rotation::Identity },
            ),
            ..light_b_entity()
        }),
{
}

/// At every sample, the rig camera sits on its orbit `(-8 sin T, 8 cos T, -5)`
/// and faces the world origin with the up reference `(0, 0, -1)`, keeping
/// its other components.
pub proof fn lemma_camera_on_orbit(s: TrigSample, width: u32, height: u32)
    ensures
        camera_updated(camera_rig_entity(width, height), s) == (Entity {
            transform: Some(
                Transform { position: camera_position(s), rotation: camera_orientation() },
            ),
            ..camera_rig_entity(width, height)
        }),
{
}

} // verus!
