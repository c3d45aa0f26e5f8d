use cones::assets::AssetStore;
use cones::components::{LightColor, LightColorEnum, MeshHandle, TextureHandle, Transform};
use cones::math::{Rotation, TrigSample, Vec3};
use cones::motion::{MoveCameraSystem, MoveLightsSystem};
use cones::scene::{build_camera_rig, build_light_rig, populate_grid};
use cones::world::{Entity, World};

/// The sample for angle `t * rate` that a frame driver would feed in:
/// sine and cosine scaled by 1000 and rounded to the nearest integer.
fn sample(t: f32, rate: f32) -> TrigSample {
    let a = t * rate;
    TrigSample {
        sin_milli: (a.sin() * 1000.0).round() as i32,
        cos_milli: (a.cos() * 1000.0).round() as i32,
    }
}

fn rigged_world() -> World {
    let mut world = World::new();
    build_light_rig(&mut world);
    build_camera_rig(&mut world, 800, 600);
    world
}

#[test]
fn lights_at_time_zero() {
    let mut world = rigged_world();
    MoveLightsSystem.run(&mut world, sample(0.0, 10.0));
    // A = (cos(0)*100, -sin(0)*100, -3) = (100, 0, -3).
    assert_eq!(
        world.entities[0].transform.unwrap().position,
        Vec3 { x: 100_000, y: 0, z: -3000 }
    );
    // B = (-sin(0)*100, cos(0)*100, -3) = (0, 100, -3).
    assert_eq!(
        world.entities[1].transform.unwrap().position,
        Vec3 { x: 0, y: 100_000, z: -3000 }
    );
}

#[test]
fn lights_follow_their_orbits_at_any_time() {
    let t = 0.37_f32;
    let s = sample(t, 10.0);
    let mut world = rigged_world();
    MoveLightsSystem.run(&mut world, s);
    let movement_x = (s.cos_milli as i64) * 100;
    let movement_y = -(s.sin_milli as i64) * 100;
    assert_eq!(
        world.entities[0].transform.unwrap().position,
        Vec3 { x: movement_x, y: movement_y, z: -3000 }
    );
    // The green orbit swaps the axes relative to the red one.
    assert_eq!(
        world.entities[1].transform.unwrap().position,
        Vec3 { x: movement_y, y: movement_x, z: -3000 }
    );
    // The lights keep the orientation they were created with.
    assert_eq!(world.entities[0].transform.unwrap().rotation, Rotation::Identity);
}

#[test]
fn camera_at_time_zero_and_quarter_turn() {
    let mut world = rigged_world();
    MoveCameraSystem.run(&mut world, sample(0.0, 1.0));
    // (-8 sin 0, 8 cos 0, -5) = (0, 8, -5).
    assert_eq!(
        world.entities[2].transform.unwrap().position,
        Vec3 { x: 0, y: 8000, z: -5000 }
    );
    MoveCameraSystem.run(&mut world, sample(std::f32::consts::FRAC_PI_2, 1.0));
    // (-8 sin pi/2, 8 cos pi/2, -5) = (-8, 0, -5).
    assert_eq!(
        world.entities[2].transform.unwrap().position,
        Vec3 { x: -8000, y: 0, z: -5000 }
    );
}

#[test]
fn camera_faces_origin_with_inverted_up() {
    let mut world = rigged_world();
    MoveCameraSystem.run(&mut world, sample(1.234, 1.0));
    let t = world.entities[2].transform.unwrap();
    match t.rotation {
        Rotation::FaceTowards { target, up } => {
            assert_eq!(target, Vec3 { x: 0, y: 0, z: 0 });
            assert_eq!(up, Vec3 { x: 0, y: 0, z: -1000 });

            // The resulting look-at basis is orthonormal and its view axis
            // points from the camera to the target.
            let pos = nalgebra::Vector3::new(
                t.position.x as f32 / 1000.0,
                t.position.y as f32 / 1000.0,
                t.position.z as f32 / 1000.0,
            );
            let tgt = nalgebra::Vector3::new(
                target.x as f32 / 1000.0,
                target.y as f32 / 1000.0,
                target.z as f32 / 1000.0,
            );
            let upv = nalgebra::Vector3::new(
                up.x as f32 / 1000.0,
                up.y as f32 / 1000.0,
                up.z as f32 / 1000.0,
            );
            let dir = tgt - pos;
            let rot = nalgebra::Rotation3::face_towards(&dir, &upv);
            let m = rot.matrix();
            let eps = 1e-5_f32;
            for c in 0..3 {
                let col = m.column(c);
                assert!((col.norm() - 1.0).abs() < eps, "basis column not unit length");
                for c2 in (c + 1)..3 {
                    assert!(col.dot(&m.column(c2)).abs() < eps, "basis not orthogonal");
                }
            }
            let view = m.column(2);
            let dir_n = dir.normalize();
            assert!((view.dot(&dir_n).abs() - 1.0).abs() < eps, "view axis not along target");
        }
        other => panic!("camera rotation is not a look-at orientation: {:?}", other),
    }
}

#[test]
fn motion_skips_entities_without_the_tag() {
    let mut world = World::new();
    // A bare grid-like entity, an entity with an inert tag, and the rigs.
    let mut plain_t = Transform::default();
    plain_t.set_translation_xyz(1, 2, 3);
    world.create_entity(Entity::empty().with_transform(plain_t));
    world.create_entity(
        Entity::empty()
            .with_transform(Transform::default())
            .with_light_color(LightColor::default()),
    );
    build_light_rig(&mut world);
    build_camera_rig(&mut world, 640, 480);

    let before: Vec<Entity> = world.entities.clone();
    MoveLightsSystem.run(&mut world, sample(2.5, 10.0));
    // Entities lacking a light-color tag are untouched, as is the inert tag.
    assert_eq!(world.entities[0], before[0]);
    assert_eq!(world.entities[1], before[1]);
    assert_eq!(world.entities[4], before[4]);
    // The two rig lights moved.
    assert_ne!(world.entities[2], before[2]);
    assert_ne!(world.entities[3], before[3]);

    let before: Vec<Entity> = world.entities.clone();
    MoveCameraSystem.run(&mut world, sample(2.5, 1.0));
    // Only the camera entity moved.
    assert_eq!(world.entities[0], before[0]);
    assert_eq!(world.entities[1], before[1]);
    assert_eq!(world.entities[2], before[2]);
    assert_eq!(world.entities[3], before[3]);
    assert_ne!(world.entities[4], before[4]);
}

#[test]
fn motion_is_idempotent_at_a_fixed_time() {
    let s_lights = sample(7.25, 10.0);
    let s_camera = sample(7.25, 1.0);

    let mut once = rigged_world();
    MoveLightsSystem.run(&mut once, s_lights);
    MoveCameraSystem.run(&mut once, s_camera);

    let mut twice = rigged_world();
    MoveLightsSystem.run(&mut twice, s_lights);
    MoveCameraSystem.run(&mut twice, s_camera);
    MoveLightsSystem.run(&mut twice, s_lights);
    MoveCameraSystem.run(&mut twice, s_camera);

    assert_eq!(once, twice);
}

#[test]
fn queries_find_exactly_the_rig_entities() {
    let mut world = World::new();
    let mut assets = AssetStore::new();
    populate_grid(&mut world, &mut assets, MeshHandle(0), TextureHandle(0), 2);
    build_light_rig(&mut world);
    build_camera_rig(&mut world, 320, 200);

    assert_eq!(world.query_lights(), vec![4, 5]);
    assert_eq!(world.query_cameras(), vec![6]);
}

#[test]
fn default_light_color_is_inert() {
    assert_eq!(LightColor::default().color, LightColorEnum::Untagged);
}
