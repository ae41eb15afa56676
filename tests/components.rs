use vxl::component::material::Material;
use vxl::component::mesh::Mesh;
use vxl::loader::shaders::{ShaderLoader, ShaderProgram};
use vxl::loader::textures::{Dimensions, Texture};

#[test]
fn mesh_from_data_counts_indices() {
    // A quad: four vertices, two triangles.
    let mesh = Mesh::from_data(11, &vec![0, 2, 1, 1, 2, 3]);
    assert_eq!(mesh.get_vao_id(), 11);
    assert_eq!(mesh.get_vertex_count(), 6);
    assert_eq!(mesh.get_attrib_arrays(), &vec![0]);
    assert!(!mesh.has_uvs());
}

#[test]
fn mesh_add_uvs_appends_slot_one() {
    let mut mesh = Mesh::from_data(11, &vec![0, 2, 1, 1, 2, 3]);
    mesh.add_uvs();
    assert_eq!(mesh.get_attrib_arrays(), &vec![0, 1]);
    assert!(mesh.has_uvs());
    assert_eq!(mesh.get_vertex_count(), 6);
}

#[test]
fn mesh_add_uvs_twice_duplicates_slot() {
    let mut mesh = Mesh::from_data(1, &vec![0, 1, 2]);
    mesh.add_uvs();
    mesh.add_uvs();
    assert_eq!(mesh.get_attrib_arrays(), &vec![0, 1, 1]);
}

#[test]
fn mesh_without_indices_draws_nothing() {
    let mesh = Mesh::from_data(2, &Vec::new());
    assert_eq!(mesh.get_vertex_count(), 0);
}

#[test]
fn default_material_uses_default_program() {
    let manager = ShaderLoader::new()
        .add_shader_program("default", ShaderProgram::new(42))
        .finish();
    let material = Material::default(&manager);
    assert_eq!(material.get_program_id(), 42);
    assert_eq!(material.get_texture_id(), None);
}

#[test]
fn material_add_texture() {
    let manager = ShaderLoader::new()
        .add_shader_program("default", ShaderProgram::new(42))
        .finish();
    let mut material = Material::default(&manager);
    material.add_texture(&Texture::new(Dimensions { width: 8, height: 8 }, 6));
    assert_eq!(material.get_texture_id(), Some(6));
    assert_eq!(material.get_program_id(), 42);
}
