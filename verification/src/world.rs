use vstd::prelude::*;

use crate::components::{Camera, LightColor, MaterialHandle, MeshHandle, PointLight, Transform};

verus! {

/// One entity: an unordered set of optional typed components. An absent
/// component is `None`; entities are created at setup and never destroyed.
#[derive(Clone, Copy, PartialEq, Eq, Debug)]
pub struct Entity {
    pub transform: Option<Transform>,
    pub mesh: Option<MeshHandle>,
    pub material: Option<MaterialHandle>,
    pub light: Option<PointLight>,
    pub light_color: Option<LightColor>,
    pub camera: Option<Camera>,
}

impl Entity {
    /// An entity with no components.
    pub fn empty() -> (e: Entity)
        ensures
            e == Entity::empty_spec(),
    {
        Entity {
            transform: None,
            mesh: None,
            material: None,
            light: None,
            light_color: None,
            camera: None,
        }
    }

    /// What [`Entity::empty`] returns.
    pub open spec fn empty_spec() -> Entity {
        Entity {
            transform: None,
            mesh: None,
            material: None,
            light: None,
            light_color: None,
            camera: None,
        }
    }

    /// This entity with its transform component set to `t`.
    pub fn with_transform(self, t: Transform) -> (e: Entity)
        ensures
            e == (Entity { transform: Some(t), ..self }),
    {
        Entity { transform: Some(t), ..self }
    }

    /// This entity with its mesh component set to `m`.
    pub fn with_mesh(self, m: MeshHandle) -> (e: Entity)
        ensures
            e == (Entity { mesh: Some(m), ..self }),
    {
        Entity { mesh: Some(m), ..self }
    }

    /// This entity with its material component set to `m`.
    pub fn with_material(self, m: MaterialHandle) -> (e: Entity)
        ensures
            e == (Entity { material: Some(m), ..self }),
    {
        Entity { material: Some(m), ..self }
    }

    /// This entity with its light component set to `l`.
    pub fn with_light(self, l: PointLight) -> (e: Entity)
        ensures
            e == (Entity { light: Some(l), ..self }),
    {
        Entity { light: Some(l), ..self }
    }

    /// This entity with its light-color tag component set to `lc`.
    pub fn with_light_color(self, lc: LightColor) -> (e: Entity)
        ensures
            e == (Entity { light_color: Some(lc), ..self }),
    {
        Entity { light_color: Some(lc), ..self }
    }

    /// This entity with its camera component set to `c`.
    pub fn with_camera(self, c: Camera) -> (e: Entity)
        ensures
            e == (Entity { camera: Some(c), ..self }),
    {
        Entity { camera: Some(c), ..self }
    }
}

/// True when the light motion system acts on `e`: it carries both a
/// transform and a light-color tag.
pub open spec fn has_light_components(e: Entity) -> bool {
    e.transform is Some && e.light_color is Some
}

/// True when the camera motion system acts on `e`: it carries both a
/// transform and a camera.
pub open spec fn has_camera_components(e: Entity) -> bool {
    e.transform is Some && e.camera is Some
}

/// The entity store: entities indexed by their id, in creation order.
#[derive(Clone, PartialEq, Eq, Debug)]
pub struct World {
    pub entities: Vec<Entity>,
}

impl World {
    /// An empty world.
    pub fn new() -> (w: World)
        ensures
            w.entities@ == Seq::<Entity>::empty(),
    {
        World { entities: Vec::new() }
    }

    /// Add `e` to the world; its id is the next free index.
    pub fn create_entity(&mut self, e: Entity) -> (id: usize)
        ensures
            final(self).entities@ == old(self).entities@.push(e),
            id == old(self).entities@.len(),
    {
        let id = self.entities.len();
        self.entities.push(e);
        id
    }

    /// The ids of every entity the light motion system acts on, in
    /// increasing order.
    pub fn query_lights(&self) -> (r: Vec<usize>)
        ensures
            forall|i: int|
                0 <= i < self.entities@.len() ==> (#[trigger] r@.contains(i as usize)
                    <==> has_light_components(self.entities@[i])),
            forall|m: int| 0 <= m < r@.len() ==> (#[trigger] r@[m]) < self.entities@.len(),
            forall|m1: int, m2: int| 0 <= m1 < m2 < r@.len() ==> r@[m1] < r@[m2],
    {
        let mut r: Vec<usize> = Vec::new();
        let n = self.entities.len();
        let mut k: usize = 0;
        while k < n
            invariant
                n == self.entities@.len(),
                k <= n,
                forall|i: int|
                    0 <= i < k ==> (#[trigger] r@.contains(i as usize)
                        <==> has_light_components(self.entities@[i])),
                forall|m: int| 0 <= m < r@.len() ==> (#[trigger] r@[m]) < k,
                forall|m1: int, m2: int| 0 <= m1 < m2 < r@.len() ==> r@[m1] < r@[m2],
            decreases n - k,
        {
            let ghost r_prev = r@;
            let e = &self.entities[k];
            let matched = e.transform.is_some() && e.light_color.is_some();
            if matched {
                r.push(k);
            }
            proof {
                broadcast use vstd::seq_lib::lemma_seq_contains_after_push;

                if matched {
                    assert(r@ == r_prev.push(k));
                } else {
                    assert(!r@.contains(k)) by {
                        if r@.contains(k) {
                            let m = choose|m: int| 0 <= m < r@.len() && r@[m] == k;
                            assert(r@[m] < k);
                        }
                    }
                }
            }
            k = k + 1;
        }
        r
    }

    /// The ids of every entity the camera motion system acts on, in
    /// increasing order.
    pub fn query_cameras(&self) -> (r: Vec<usize>)
        ensures
            forall|i: int|
                0 <= i < self.entities@.len() ==> (#[trigger] r@.contains(i as usize)
                    <==> has_camera_components(self.entities@[i])),
            forall|m: int| 0 <= m < r@.len() ==> (#[trigger] r@[m]) < self.entities@.len(),
            forall|m1: int, m2: int| 0 <= m1 < m2 < r@.len() ==> r@[m1] < r@[m2],
    {
        let mut r: Vec<usize> = Vec::new();
        let n = self.entities.len();
        let mut k: usize = 0;
        while k < n
            invariant
                n == self.entities@.len(),
                k <= n,
                forall|i: int|
                    0 <= i < k ==> (#[trigger] r@.contains(i as usize)
                        <==> has_camera_components(self.entities@[i])),
                forall|m: int| 0 <= m < r@.len() ==> (#[trigger] r@[m]) < k,
                forall|m1: int, m2: int| 0 <= m1 < m2 < r@.len() ==> r@[m1] < r@[m2],
            decreases n - k,
        {
            let ghost r_prev = r@;
            let e = &self.entities[k];
            let matched = e.transform.is_some() && e.camera.is_some();
            if matched {
                r.push(k);
            }
            proof {
                broadcast use vstd::seq_lib::lemma_seq_contains_after_push;

                if matched {
                    assert(r@ == r_prev.push(k));
                } else {
                    assert(!r@.contains(k)) by {
                        if r@.contains(k) {
                            let m = choose|m: int| 0 <= m < r@.len() && r@[m] == k;
                            assert(r@[m] < k);
                        }
                    }
                }
            }
            k = k + 1;
        }
        r
    }
}

} // verus!
