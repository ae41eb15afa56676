//! Materials: the shader program, and optionally the texture, a mesh is
//! drawn with.
use vstd::prelude::*;

use crate::loader::shaders::ShaderManager;
use crate::loader::textures::Texture;

verus! {

/// Name of the program that materials are made with by default.
pub const DEFAULT_PROGRAM: &'static str = "default";

/// A material as plain values.
pub struct MaterialView {
    pub program_id: u32,
    pub texture_id: Option<u32>,
}

#[derive(Clone, Copy, Debug, PartialEq, Eq, Structural)]
pub struct Material {
    shader_program_id: u32,
    texture_id: Option<u32>,
}

impl View for Material {
    type V = MaterialView;

    closed spec fn view(&self) -> MaterialView {
        MaterialView { program_id: self.shader_program_id, texture_id: self.texture_id }
    }
}

impl Material {
    /// An untextured material with the program registered as `"default"`,
    /// which must exist.
    pub fn default(shader_loader: &ShaderManager) -> (m: Material)
        requires
            shader_loader@.contains_key(DEFAULT_PROGRAM@),
        ensures
            m@ == (MaterialView {
                program_id: shader_loader@[DEFAULT_PROGRAM@]@,
                texture_id: None,
            }),
    {
        let program = shader_loader.get_shader_program(DEFAULT_PROGRAM);
        Material { shader_program_id: program.get_id(), texture_id: None }
    }

    pub fn add_texture(&mut self, texture: &Texture)
        ensures
            final(self)@ == (MaterialView {
                program_id: old(self)@.program_id,
                texture_id: Some(texture@.id),
            }),
    {
        self.texture_id = Some(texture.get_id());
    }

    pub fn get_program_id(&self) -> (r: u32)
        ensures
            r == self@.program_id,
    {
        self.shader_program_id
    }

    pub fn get_texture_id(&self) -> (r: Option<u32>)
        ensures
            r == self@.texture_id,
    {
        self.texture_id
    }
}

} // verus!
