use vstd::prelude::*;

use crate::components::{MaterialHandle, MeshHandle, Rgba, TextureHandle};

verus! {

/// A mesh description: the scene only ever loads a cone with a given number
/// of subdivisions.
#[derive(Clone, Copy, PartialEq, Eq, Debug)]
pub struct MeshDesc {
    pub cone_subdivisions: u32,
}

/// A one-color texture generated from a linear RGBA value.
#[derive(Clone, Copy, PartialEq, Eq, Debug)]
pub struct TextureDesc {
    pub rgba: Rgba,
}

/// A physically based material: an albedo texture and a metallic-roughness
/// texture. Everything else about shading belongs to the renderer.
#[derive(Clone, Copy, PartialEq, Eq, Debug)]
pub struct Material {
    pub albedo: TextureHandle,
    pub metallic_roughness: TextureHandle,
}

/// The asset store: owns every loaded mesh, texture and material. A handle
/// is the index at which the asset was loaded, so handles stay valid for the
/// lifetime of the store (nothing is ever unloaded).
#[derive(Clone, PartialEq, Eq, Debug)]
pub struct AssetStore {
    pub meshes: Vec<MeshDesc>,
    pub textures: Vec<TextureDesc>,
    pub materials: Vec<Material>,
}

impl AssetStore {
    /// An empty store.
    pub fn new() -> (s: AssetStore)
        ensures
            s.meshes@ == Seq::<MeshDesc>::empty(),
            s.textures@ == Seq::<TextureDesc>::empty(),
            s.materials@ == Seq::<Material>::empty(),
    {
        AssetStore { meshes: Vec::new(), textures: Vec::new(), materials: Vec::new() }
    }

    /// Load a mesh; returns a handle to the newly stored entry.
    pub fn load_mesh(&mut self, desc: MeshDesc) -> (h: MeshHandle)
        ensures
            final(self).meshes@ == old(self).meshes@.push(desc),
            final(self).textures@ == old(self).textures@,
            final(self).materials@ == old(self).materials@,
            h.0 == old(self).meshes@.len(),
    {
        let h = MeshHandle(self.meshes.len());
        self.meshes.push(desc);
        h
    }

    /// Load a texture; returns a handle to the newly stored entry.
    pub fn load_texture(&mut self, desc: TextureDesc) -> (h: TextureHandle)
        ensures
            final(self).meshes@ == old(self).meshes@,
            final(self).textures@ == old(self).textures@.push(desc),
            final(self).materials@ == old(self).materials@,
            h.0 == old(self).textures@.len(),
    {
        let h = TextureHandle(self.textures.len());
        self.textures.push(desc);
        h
    }

    /// Load a material; returns a handle to the newly stored entry.
    pub fn load_material(&mut self, desc: Material) -> (h: MaterialHandle)
        ensures
            final(self).meshes@ == old(self).meshes@,
            final(self).textures@ == old(self).textures@,
            final(self).materials@ == old(self).materials@.push(desc),
            h.0 == old(self).materials@.len(),
    {
        let h = MaterialHandle(self.materials.len());
        self.materials.push(desc);
        h
    }
}

} // verus!
