use std::collections::HashSet;

use cones::assets::{AssetStore, MeshDesc, TextureDesc};
use cones::components::{
    Camera, LightColorEnum, MeshHandle, Rgb, Rgba, TextureHandle, Transform,
};
use cones::math::{Rotation, Vec3};
use cones::scene::{build_camera_rig, build_light_rig, populate_grid, Example, GRID_N};
use cones::world::World;

#[test]
fn grid_n201_counts_and_bounds() {
    let mut world = World::new();
    let mut assets = AssetStore::new();
    let mesh = assets.load_mesh(MeshDesc { cone_subdivisions: 7 });
    let albedo = assets.load_texture(TextureDesc {
        rgba: Rgba { r: 1000, g: 1000, b: 1000, a: 500 },
    });
    populate_grid(&mut world, &mut assets, mesh, albedo, 201);

    assert_eq!(world.entities.len(), 40401);
    assert_eq!(assets.textures.len(), 1 + 40401);
    assert_eq!(assets.materials.len(), 40401);

    let mut seen: HashSet<(i64, i64, i64)> = HashSet::new();
    let mut min_x = i64::MAX;
    let mut max_x = i64::MIN;
    let mut min_y = i64::MAX;
    let mut max_y = i64::MIN;
    for e in &world.entities {
        let t = e.transform.unwrap();
        let p = t.position;
        assert!(seen.insert((p.x, p.y, p.z)), "duplicate grid position");
        min_x = min_x.min(p.x);
        max_x = max_x.max(p.x);
        min_y = min_y.min(p.y);
        max_y = max_y.max(p.y);
        assert_eq!(p.z, 0);
        assert_eq!(t.rotation, Rotation::HalfTurnX);
        assert_eq!(e.mesh, Some(mesh));
        assert!(e.material.is_some());
        assert!(e.light.is_none());
        assert!(e.light_color.is_none());
        assert!(e.camera.is_none());
    }
    assert_eq!(seen.len(), 40401);
    // 2.5 * (0 - 100) .. 2.5 * (200 - 100) world units, milli-scaled.
    assert_eq!(min_x, -250_000);
    assert_eq!(max_x, 250_000);
    assert_eq!(min_y, -250_000);
    assert_eq!(max_y, 250_000);
}

#[test]
fn grid_derived_materials_are_flat_and_fresh() {
    let mut world = World::new();
    let mut assets = AssetStore::new();
    let mesh = assets.load_mesh(MeshDesc { cone_subdivisions: 7 });
    let albedo = assets.load_texture(TextureDesc {
        rgba: Rgba { r: 1000, g: 1000, b: 1000, a: 500 },
    });
    populate_grid(&mut world, &mut assets, mesh, albedo, 3);

    assert_eq!(world.entities.len(), 9);
    assert_eq!(assets.materials.len(), 9);
    let mut mat_handles: HashSet<usize> = HashSet::new();
    for e in &world.entities {
        let mh = e.material.unwrap();
        assert!(mat_handles.insert(mh.0), "shared material instance");
        let mat = assets.materials[mh.0];
        assert_eq!(mat.albedo, albedo);
        // Metallic 0.0 and roughness 0.0, encoded as a flat linear color.
        let tex = assets.textures[mat.metallic_roughness.0];
        assert_eq!(tex.rgba, Rgba { r: 0, g: 0, b: 0, a: 0 });
    }
}

#[test]
fn grid_small_exact_positions() {
    let mut world = World::new();
    let mut assets = AssetStore::new();
    populate_grid(&mut world, &mut assets, MeshHandle(0), TextureHandle(0), 2);
    assert_eq!(world.entities.len(), 4);
    // n = 2: n/2 = 1, so coordinates are 2.5*(0-1) and 2.5*(1-1).
    let p = |k: usize| world.entities[k].transform.unwrap().position;
    assert_eq!(p(0), Vec3 { x: -2500, y: -2500, z: 0 });
    assert_eq!(p(1), Vec3 { x: -2500, y: 0, z: 0 });
    assert_eq!(p(2), Vec3 { x: 0, y: -2500, z: 0 });
    assert_eq!(p(3), Vec3 { x: 0, y: 0, z: 0 });
}

#[test]
fn grid_rejects_malformed_sizes() {
    let mut world = World::new();
    let mut assets = AssetStore::new();
    populate_grid(&mut world, &mut assets, MeshHandle(0), TextureHandle(0), 0);
    assert_eq!(world.entities.len(), 0);
    populate_grid(&mut world, &mut assets, MeshHandle(0), TextureHandle(0), -5);
    assert_eq!(world.entities.len(), 0);
    assert_eq!(assets.textures.len(), 0);
    assert_eq!(assets.materials.len(), 0);
}

#[test]
fn light_rig_creates_the_two_lights() {
    let mut world = World::new();
    build_light_rig(&mut world);
    assert_eq!(world.entities.len(), 2);

    let a = world.entities[0];
    let la = a.light.unwrap();
    assert_eq!(la.intensity_milli, 10_000);
    assert_eq!(la.color, Rgb { r: 1000, g: 0, b: 0 });
    assert_eq!(a.light_color.unwrap().color, LightColorEnum::Red);
    assert_eq!(
        a.transform.unwrap().position,
        Vec3 { x: 10_000, y: 0, z: -3000 }
    );

    let b = world.entities[1];
    let lb = b.light.unwrap();
    assert_eq!(lb.intensity_milli, 10_000);
    assert_eq!(lb.color, Rgb { r: 0, g: 1000, b: 0 });
    assert_eq!(b.light_color.unwrap().color, LightColorEnum::Green);
    assert_eq!(
        b.transform.unwrap().position,
        Vec3 { x: -10_000, y: 0, z: -3000 }
    );
}

#[test]
fn camera_rig_creates_the_camera() {
    let mut world = World::new();
    build_camera_rig(&mut world, 1920, 1080);
    assert_eq!(world.entities.len(), 1);
    let c = world.entities[0];
    assert_eq!(c.camera, Some(Camera { width: 1920, height: 1080 }));
    let t = c.transform.unwrap();
    assert_eq!(t.position, Vec3 { x: 0, y: 0, z: -12_000 });
    assert_eq!(t.rotation, Rotation::HalfTurnY);
    assert!(c.light.is_none());
    assert!(c.light_color.is_none());
}

#[test]
fn on_start_builds_the_whole_scene() {
    let mut world = World::new();
    let mut assets = AssetStore::new();
    let mut state = Example::default();
    state.on_start(&mut world, &mut assets, 800, 600);

    let n = GRID_N as usize;
    assert_eq!(world.entities.len(), n * n + 3);
    assert_eq!(assets.meshes.len(), 1);
    assert_eq!(assets.meshes[0], MeshDesc { cone_subdivisions: 7 });
    assert_eq!(assets.textures.len(), 1 + n * n);
    assert_eq!(
        assets.textures[0].rgba,
        Rgba { r: 1000, g: 1000, b: 1000, a: 500 }
    );
    assert_eq!(assets.materials.len(), n * n);

    let light_a = world.entities[n * n];
    assert_eq!(light_a.light_color.unwrap().color, LightColorEnum::Red);
    let light_b = world.entities[n * n + 1];
    assert_eq!(light_b.light_color.unwrap().color, LightColorEnum::Green);
    let camera = world.entities[n * n + 2];
    assert_eq!(camera.camera, Some(Camera { width: 800, height: 600 }));
}

#[test]
fn default_transform_is_identity() {
    let t = Transform::default();
    assert_eq!(t.position, Vec3 { x: 0, y: 0, z: 0 });
    assert_eq!(t.rotation, Rotation::Identity);
}
