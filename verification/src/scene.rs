use vstd::prelude::*;

use crate::assets::{AssetStore, Material, MeshDesc, TextureDesc};
use crate::components::{
    Camera, LightColor, LightColorEnum, MeshHandle, PointLight, Rgb, Rgba, TextureHandle, Transform,
};
use crate::math::{Rotation, Vec3};
use crate::world::{Entity, World};

verus! {

/// Lattice spacing of the grid, in milli-units: 2.5 world units.
pub const GRID_STEP: i64 = 2500;

/// Side length of the demo grid: the scene creates `GRID_N * GRID_N` cones.
pub const GRID_N: i32 = 201;

/// The x (or y) coordinate of lattice column `i` in an `n`-wide grid,
/// in milli-units: `2.5 * (i - n/2)` world units, with `n/2` rounded down,
/// so the lattice is centered but biased when `n` is odd.
pub open spec fn grid_coord(i: int, n: int) -> int {
    GRID_STEP * (i - n / 2)
}

/// How many entities an `n`-wide grid holds: `n * n`, and none at all when
/// `n` is not positive.
pub open spec fn grid_total(n: int) -> int {
    if n > 0 {
        n * n
    } else {
        0
    }
}

/// True when `e` is the grid entity of cell `(i, j)` in an `n`-wide grid:
/// on the lattice at height zero, turned half way about the x axis, holding
/// the shared mesh and the material at index `mat_index`, and nothing else.
pub open spec fn is_grid_entity(
    e: Entity,
    mesh: MeshHandle,
    mat_index: int,
    i: int,
    j: int,
    n: int,
) -> bool {
    &&& (e.transform matches Some(t) && t.position.x == grid_coord(i, n) && t.position.y
        == grid_coord(j, n) && t.position.z == 0 && t.rotation == Rotation::HalfTurnX)
    &&& e.mesh == Some(mesh)
    &&& (e.material matches Some(m) && m.0 == mat_index)
    &&& e.light is None
    &&& e.light_color is None
    &&& e.camera is None
}

/// True when cell `(i, j)` of the grid was fully populated: the entity at
/// its slot (after `w0` pre-existing entities), the freshly generated flat
/// metallic-roughness texture (metallic 0, roughness 0) at its slot after
/// `t0` pre-existing textures, and the derived material, combining the
/// shared `albedo` with that texture, at its slot after `m0` pre-existing
/// materials.
pub open spec fn grid_cell_ok(
    ws: Seq<Entity>,
    ts: Seq<TextureDesc>,
    ms: Seq<Material>,
    w0: int,
    t0: int,
    m0: int,
    mesh: MeshHandle,
    albedo: TextureHandle,
    i: int,
    j: int,
    n: int,
) -> bool {
    let idx = i * n + j;
    &&& is_grid_entity(ws[w0 + idx], mesh, m0 + idx, i, j, n)
    &&& ts[t0 + idx] == (TextureDesc { rgba: Rgba { r: 0, g: 0, b: 0, a: 0 } })
    &&& ms[m0 + idx].albedo == albedo
    &&& ms[m0 + idx].metallic_roughness.0 == t0 + idx
}

/// Cells earlier in row-major order get smaller slot offsets.
proof fn lemma_cell_index_lt(a: int, b: int, i: int, j: int, n: int)
    requires
        0 <= b < n,
        0 <= a,
        0 <= j,
        a < i || (a == i && b < j),
    ensures
        a * n + b < i * n + j,
        0 <= a * n + b,
{
    assert(0 <= a * n) by (nonlinear_arith)
        requires
            0 <= a,
            0 < n,
    ;
    if a < i {
        assert(a * n + b < i * n) by (nonlinear_arith)
            requires
                0 <= a < i,
                0 <= b < n,
        ;
    }
}

/// Populate the grid: for every cell `(i, j)` in `[0, n) x [0, n)`, generate
/// a flat metallic-roughness texture, derive a material combining the shared
/// `albedo` with it, and create one entity at the lattice position with the
/// shared `mesh` and that material. A non-positive `n` creates nothing.
pub fn populate_grid(
    world: &mut World,
    assets: &mut AssetStore,
    mesh: MeshHandle,
    albedo: TextureHandle,
    n: i32,
)
    ensures
        final(world).entities@.len() == old(world).entities@.len() + grid_total(n as int),
        final(assets).textures@.len() == old(assets).textures@.len() + grid_total(n as int),
        final(assets).materials@.len() == old(assets).materials@.len() + grid_total(n as int),
        final(assets).meshes@ == old(assets).meshes@,
        forall|p: int|
            0 <= p < old(world).entities@.len() ==> final(world).entities@[p] == old(
                world,
            ).entities@[p],
        forall|p: int|
            0 <= p < old(assets).textures@.len() ==> final(assets).textures@[p] == old(
                assets,
            ).textures@[p],
        forall|p: int|
            0 <= p < old(assets).materials@.len() ==> final(assets).materials@[p] == old(
                assets,
            ).materials@[p],
        forall|i: int, j: int|
            0 <= i < n && 0 <= j < n ==> #[trigger] grid_cell_ok(
                final(world).entities@,
                final(assets).textures@,
                final(assets).materials@,
                old(world).entities@.len() as int,
                old(assets).textures@.len() as int,
                old(assets).materials@.len() as int,
                mesh,
                albedo,
                i,
                j,
                n as int,
            ),
{
    if n <= 0 {
        return ;
    }
    let ghost w0 = world.entities@;
    let ghost t0 = assets.textures@;
    let ghost m0 = assets.materials@;
    let ghost me0 = assets.meshes@;
    let half: i32 = n / 2;
    let mut i: i32 = 0;
    while i < n
        invariant
            0 < n,
            half == n as int / 2,
            0 <= i <= n,
            world.entities@.len() == w0.len() + i * n,
            assets.textures@.len() == t0.len() + i * n,
            assets.materials@.len() == m0.len() + i * n,
            assets.meshes@ == me0,
            forall|p: int| 0 <= p < w0.len() ==> world.entities@[p] == w0[p],
            forall|p: int| 0 <= p < t0.len() ==> assets.textures@[p] == t0[p],
            forall|p: int| 0 <= p < m0.len() ==> assets.materials@[p] == m0[p],
            forall|a: int, b: int|
                0 <= a < i && 0 <= b < n ==> #[trigger] grid_cell_ok(
                    world.entities@,
                    assets.textures@,
                    assets.materials@,
                    w0.len() as int,
                    t0.len() as int,
                    m0.len() as int,
                    mesh,
                    albedo,
                    a,
                    b,
                    n as int,
                ),
        decreases n - i,
    {
        let mut j: i32 = 0;
        while j < n
            invariant
                0 < n,
                half == n as int / 2,
                0 <= i < n,
                0 <= j <= n,
                world.entities@.len() == w0.len() + i * n + j,
                assets.textures@.len() == t0.len() + i * n + j,
                assets.materials@.len() == m0.len() + i * n + j,
                assets.meshes@ == me0,
                forall|p: int| 0 <= p < w0.len() ==> world.entities@[p] == w0[p],
                forall|p: int| 0 <= p < t0.len() ==> assets.textures@[p] == t0[p],
                forall|p: int| 0 <= p < m0.len() ==> assets.materials@[p] == m0[p],
                forall|a: int, b: int|
                    (0 <= a < i && 0 <= b < n) || (a == i && 0 <= b < j) ==> #[trigger] grid_cell_ok(
                        world.entities@,
                        assets.textures@,
                        assets.materials@,
                        w0.len() as int,
                        t0.len() as int,
                        m0.len() as int,
                        mesh,
                        albedo,
                        a,
                        b,
                        n as int,
                    ),
            decreases n - j,
        {
            let ghost ws_before = world.entities@;
            let ghost ts_before = assets.textures@;
            let ghost ms_before = assets.materials@;
            let metallic_roughness = assets.load_texture(
                TextureDesc { rgba: Rgba { r: 0, g: 0, b: 0, a: 0 } },
            );
            let mtl = assets.load_material(Material { albedo, metallic_roughness });
            let mut pos = Transform::default();
            let x: i64 = 2500 * ((i - half) as i64);
            let y: i64 = 2500 * ((j - half) as i64);
            pos.set_translation_xyz(x, y, 0);
            pos.set_rotation_half_turn_x();
            let e = Entity::empty().with_transform(pos).with_mesh(mesh).with_material(mtl);
            world.create_entity(e);
            proof {
                assert forall|a: int, b: int|
                    (0 <= a < i && 0 <= b < n) || (a == i && 0 <= b < j + 1) implies #[trigger]
                grid_cell_ok(
                    world.entities@,
                    assets.textures@,
                    assets.materials@,
                    w0.len() as int,
                    t0.len() as int,
                    m0.len() as int,
                    mesh,
                    albedo,
                    a,
                    b,
                    n as int,
                ) by {
                    if a == i && b == j {
                        assert(world.entities@[w0.len() + (i * n + j)] == e);
                    } else {
                        lemma_cell_index_lt(a, b, i as int, j as int, n as int);
                        assert(grid_cell_ok(
                            ws_before,
                            ts_before,
                            ms_before,
                            w0.len() as int,
                            t0.len() as int,
                            m0.len() as int,
                            mesh,
                            albedo,
                            a,
                            b,
                            n as int,
                        ));
                        assert(world.entities@[w0.len() + (a * n + b)] == ws_before[w0.len() + (a
                            * n + b)]);
                        assert(assets.textures@[t0.len() + (a * n + b)] == ts_before[t0.len() + (a
                            * n + b)]);
                        assert(assets.materials@[m0.len() + (a * n + b)] == ms_before[m0.len() + (a
                            * n + b)]);
                    }
                }
            }
            j = j + 1;
        }
        proof {
            assert((i + 1) * n == i * n + n) by (nonlinear_arith);
        }
        i = i + 1;
    }
}

/// The red rig light: a point light of intensity 10, pure red, at
/// `(10, 0, -3)` world units, tagged `Red`.
pub open spec fn light_a_entity() -> Entity {
    Entity {
        transform: Some(
            Transform {
                position: Vec3 { x: 10000, y: 0, z: -3000i64 },
                rotation: Rotation::Identity,
            },
        ),
        mesh: None,
        material: None,
        light: Some(PointLight { intensity_milli: 10000, color: Rgb { r: 1000, g: 0, b: 0 } }),
        light_color: Some(LightColor { color: LightColorEnum::Red }),
        camera: None,
    }
}

/// The green rig light: a point light of intensity 10, pure green, at
/// `(-10, 0, -3)` world units, tagged `Green`.
pub open spec fn light_b_entity() -> Entity {
    Entity {
        transform: Some(
            Transform {
                position: Vec3 { x: -10000i64, y: 0, z: -3000i64 },
                rotation: Rotation::Identity,
            },
        ),
        mesh: None,
        material: None,
        light: Some(PointLight { intensity_milli: 10000, color: Rgb { r: 0, g: 1000, b: 0 } }),
        light_color: Some(LightColor { color: LightColorEnum::Green }),
        camera: None,
    }
}

/// The camera rig entity: a standard camera for a `width` x `height` screen
/// at `(0, 0, -12)` world units, turned half way about the y axis.
pub open spec fn camera_rig_entity(width: u32, height: u32) -> Entity {
    Entity {
        transform: Some(
            Transform {
                position: Vec3 { x: 0, y: 0, z: -12000i64 },
                rotation: Rotation::HalfTurnY,
            },
        ),
        mesh: None,
        material: None,
        light: None,
        light_color: None,
        camera: Some(Camera { width, height }),
    }
}

/// Create the two rig lights, in order: the red light A, then the green
/// light B.
pub fn build_light_rig(world: &mut World)
    ensures
        final(world).entities@ == old(world).entities@.push(light_a_entity()).push(
            light_b_entity(),
        ),
{
    let light1 = PointLight { intensity_milli: 10000, color: Rgb { r: 1000, g: 0, b: 0 } };
    let mut light1_transform = Transform::default();
    light1_transform.set_translation_xyz(10000, 0, -3000);

    let light2 = PointLight { intensity_milli: 10000, color: Rgb { r: 0, g: 1000, b: 0 } };
    let mut light2_transform = Transform::default();
    light2_transform.set_translation_xyz(-10000, 0, -3000);

    world.create_entity(
        Entity::empty().with_light(light1).with_transform(light1_transform).with_light_color(
            LightColor { color: LightColorEnum::Red },
        ),
    );
    world.create_entity(
        Entity::empty().with_light(light2).with_transform(light2_transform).with_light_color(
            LightColor { color: LightColorEnum::Green },
        ),
    );
}

/// Create the camera rig entity, sized to the screen dimensions measured at
/// setup time.
pub fn build_camera_rig(world: &mut World, width: u32, height: u32)
    ensures
        final(world).entities@ == old(world).entities@.push(camera_rig_entity(width, height)),
{
    let mut transform = Transform::default();
    transform.set_translation_xyz(0, 0, -12000);
    transform.set_rotation_half_turn_y();
    world.create_entity(
        Entity::empty().with_camera(Camera::standard_3d(width, height)).with_transform(transform),
    );
}

/// The one-time scene setup state.
#[derive(Default)]
pub struct Example {}

impl Example {
    /// One-time setup: load the cone mesh and the shared albedo texture,
    /// populate the `GRID_N`-wide grid, then create the light rig and the
    /// camera rig. `width` and `height` are the screen dimensions measured
    /// once at setup time.
    pub fn on_start(&mut self, world: &mut World, assets: &mut AssetStore, width: u32, height: u32)
        ensures
            final(world).entities@.len() == old(world).entities@.len() + grid_total(GRID_N as int)
                + 3,
            final(assets).meshes@ == old(assets).meshes@.push(MeshDesc { cone_subdivisions: 7 }),
            final(assets).textures@.len() == old(assets).textures@.len() + 1 + grid_total(
                GRID_N as int,
            ),
            final(assets).materials@.len() == old(assets).materials@.len() + grid_total(
                GRID_N as int,
            ),
            forall|p: int|
                0 <= p < old(world).entities@.len() ==> final(world).entities@[p] == old(
                    world,
                ).entities@[p],
            forall|p: int|
                0 <= p < old(assets).textures@.len() ==> final(assets).textures@[p] == old(
                    assets,
                ).textures@[p],
            forall|p: int|
                0 <= p < old(assets).materials@.len() ==> final(assets).materials@[p] == old(
                    assets,
                ).materials@[p],
            final(assets).textures@[old(assets).textures@.len() as int] == (TextureDesc {
                rgba: Rgba { r: 1000, g: 1000, b: 1000, a: 500 },
            }),
            forall|i: int, j: int|
                0 <= i < GRID_N && 0 <= j < GRID_N ==> #[trigger] grid_cell_ok(
                    final(world).entities@,
                    final(assets).textures@,
                    final(assets).materials@,
                    old(world).entities@.len() as int,
                    old(assets).textures@.len() + 1int,
                    old(assets).materials@.len() as int,
                    MeshHandle(old(assets).meshes@.len() as usize),
                    TextureHandle(old(assets).textures@.len() as usize),
                    i,
                    j,
                    GRID_N as int,
                ),
            final(world).entities@[old(world).entities@.len() + grid_total(GRID_N as int)]
                == light_a_entity(),
            final(world).entities@[old(world).entities@.len() + grid_total(GRID_N as int) + 1]
                == light_b_entity(),
            final(world).entities@[old(world).entities@.len() + grid_total(GRID_N as int) + 2]
                == camera_rig_entity(width, height),
    {
        let mesh = assets.load_mesh(MeshDesc { cone_subdivisions: 7 });
        let albedo = assets.load_texture(
            TextureDesc { rgba: Rgba { r: 1000, g: 1000, b: 1000, a: 500 } },
        );
        populate_grid(world, assets, mesh, albedo, GRID_N);
        let ghost ws_grid = world.entities@;
        build_light_rig(world);
        build_camera_rig(world, width, height);
        proof {
            assert forall|i: int, j: int|
                0 <= i < GRID_N && 0 <= j < GRID_N implies #[trigger] grid_cell_ok(
                world.entities@,
                assets.textures@,
                assets.materials@,
                old(world).entities@.len() as int,
                old(assets).textures@.len() + 1int,
                old(assets).materials@.len() as int,
                MeshHandle(old(assets).meshes@.len() as usize),
                TextureHandle(old(assets).textures@.len() as usize),
                i,
                j,
                GRID_N as int,
            ) by {
                lemma_cell_index_lt(i, j, GRID_N as int, 0, GRID_N as int);
                assert(grid_cell_ok(
                    ws_grid,
                    assets.textures@,
                    assets.materials@,
                    old(world).entities@.len() as int,
                    old(assets).textures@.len() + 1int,
                    old(assets).materials@.len() as int,
                    MeshHandle(old(assets).meshes@.len() as usize),
                    TextureHandle(old(assets).textures@.len() as usize),
                    i,
                    j,
                    GRID_N as int,
                ));
                assert(world.entities@[old(world).entities@.len() + (i * (GRID_N as int) + j)]
                    == ws_grid[old(world).entities@.len() + (i * (GRID_N as int) + j)]);
            }
        }
    }
}

/// Distinct grid cells get distinct lattice positions: the grid has no
/// duplicate positions.
pub proof fn lemma_grid_positions_distinct(i1: int, j1: int, i2: int, j2: int, n: int)
    requires
        0 <= i1 < n,
        0 <= j1 < n,
        0 <= i2 < n,
        0 <= j2 < n,
        (i1, j1) != (i2, j2),
    ensures
        grid_coord(i1, n) != grid_coord(i2, n) || grid_coord(j1, n) != grid_coord(j2, n),
{
}

/// In a populated grid, the entities of distinct cells stand at distinct
/// positions: the grid's position set has no duplicates.
pub proof fn lemma_populated_grid_positions_distinct(
    ws: Seq<Entity>,
    ts: Seq<TextureDesc>,
    ms: Seq<Material>,
    w0: int,
    t0: int,
    m0: int,
    mesh: MeshHandle,
    albedo: TextureHandle,
    i1: int,
    j1: int,
    i2: int,
    j2: int,
    n: int,
)
    requires
        grid_cell_ok(ws, ts, ms, w0, t0, m0, mesh, albedo, i1, j1, n),
        grid_cell_ok(ws, ts, ms, w0, t0, m0, mesh, albedo, i2, j2, n),
        0 <= i1 < n,
        0 <= j1 < n,
        0 <= i2 < n,
        0 <= j2 < n,
        (i1, j1) != (i2, j2),
    ensures
        ws[w0 + i1 * n + j1].transform->Some_0.position != ws[w0 + i2 * n
            + j2].transform->Some_0.position,
{
    lemma_grid_positions_distinct(i1, j1, i2, j2, n);
}

/// Every lattice coordinate lies between the first and the last column's:
/// `2.5 * (0 - n/2)` and `2.5 * ((n-1) - n/2)` world units.
pub proof fn lemma_grid_coord_bounds(i: int, n: int)
    requires
        0 <= i < n,
    ensures
        grid_coord(0, n) <= grid_coord(i, n) <= grid_coord(n - 1, n),
{
}

} // verus!
