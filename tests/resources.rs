use vxl::loader::registry::NameTable;
use vxl::loader::shaders::{Shader, ShaderLoader, ShaderManager, ShaderProgram};
use vxl::loader::textures::{Dimensions, Texture, TextureLoader, TextureManager};
use vxl::loader::{check_text_source, Error};

#[test]
fn finished_shader_manager_returns_loaded_handles() {
    let manager = ShaderLoader::new()
        .add_shader_program("default", ShaderProgram::new(3))
        .add_shader_program("outline", ShaderProgram::new(5))
        .finish();
    assert_eq!(manager.get_shader_program("default").get_id(), 3);
    assert_eq!(manager.get_shader_program("outline").get_id(), 5);
}

#[test]
fn first_shader_registration_wins() {
    let manager = ShaderLoader::new()
        .add_shader_program("default", ShaderProgram::new(3))
        .add_shader_program("default", ShaderProgram::new(9))
        .finish();
    assert_eq!(manager.get_shader_program("default").get_id(), 3);
}

#[test]
fn unregistered_shader_name_is_absent() {
    let manager = ShaderLoader::new()
        .add_shader_program("default", ShaderProgram::new(3))
        .finish();
    assert!(manager.try_get_shader_program("missing").is_none());
    assert!(manager.try_get_shader_program("defaul").is_none());
    assert_eq!(
        manager.try_get_shader_program("default").map(|p| p.get_id()),
        Some(3)
    );
}

#[test]
fn finish_snapshots_the_loader() {
    let loader = ShaderLoader::new().add_shader_program("a", ShaderProgram::new(1));
    let manager = loader.finish();
    let loader = loader.add_shader_program("b", ShaderProgram::new(2));
    assert!(manager.try_get_shader_program("b").is_none());
    assert_eq!(loader.finish().get_shader_program("b").get_id(), 2);
}

#[test]
fn shader_manager_from_table() {
    let mut table = NameTable::new();
    assert!(table.insert_if_absent("default", ShaderProgram::new(4)));
    assert!(!table.insert_if_absent("default", ShaderProgram::new(8)));
    let manager = ShaderManager::new(table);
    assert_eq!(manager.get_shader_program("default").get_id(), 4);
}

#[test]
fn shader_keeps_its_handle() {
    assert_eq!(Shader::new(17).get_id(), 17);
    assert_eq!(ShaderProgram::new(18).get_id(), 18);
}

#[test]
fn finished_texture_manager_returns_loaded_textures() {
    let test = Texture::new(Dimensions { width: 64, height: 32 }, 2);
    let other = Texture::new(Dimensions { width: 1, height: 1 }, 7);
    let manager = TextureLoader::new()
        .add_texture("test", test)
        .add_texture("other", other)
        .add_texture("test", other)
        .finish();
    let t = manager.get_texture("test");
    assert_eq!(t.get_id(), 2);
    assert_eq!(t.get_dimensions(), Dimensions { width: 64, height: 32 });
    assert_eq!(manager.get_texture("other").get_id(), 7);
    assert!(manager.try_get_texture("missing").is_none());
}

#[test]
fn texture_manager_from_table() {
    let mut table = NameTable::new();
    table.insert_if_absent("t", Texture::new(Dimensions { width: 2, height: 3 }, 5));
    let manager = TextureManager::new(table);
    assert_eq!(manager.get_texture("t").get_dimensions().height, 3);
}

#[test]
fn name_table_lookups() {
    let mut table = NameTable::new();
    assert!(!table.contains("x"));
    assert!(table.get("x").is_none());
    assert!(table.insert_if_absent("x", 1u32));
    assert!(table.insert_if_absent("y", 2u32));
    assert!(!table.insert_if_absent("x", 3u32));
    assert!(table.contains("x"));
    assert_eq!(table.get("x"), Some(&1));
    assert_eq!(table.get("y"), Some(&2));
    let copy = table.snapshot();
    assert_eq!(copy.get("x"), Some(&1));
    assert_eq!(copy.get("y"), Some(&2));
    assert!(copy.get("z").is_none());
}

#[test]
fn text_source_without_nul_is_accepted() {
    let source = b"#version 330 core\nvoid main() {}\n".to_vec();
    assert!(check_text_source(&source).is_ok());
    assert!(check_text_source(&Vec::new()).is_ok());
}

#[test]
fn text_source_with_nul_is_rejected() {
    let source = b"void main() {}\0".to_vec();
    assert!(matches!(
        check_text_source(&source),
        Err(Error::FileContainsNil)
    ));
    assert!(matches!(
        check_text_source(&vec![0u8]),
        Err(Error::FileContainsNil)
    ));
}

#[test]
fn io_error_converts_into_loader_error() {
    let err = Error::from(std::io::Error::new(std::io::ErrorKind::NotFound, "missing"));
    match err {
        Error::Io(e) => assert_eq!(e.kind(), std::io::ErrorKind::NotFound),
        Error::FileContainsNil => panic!("wrong variant"),
    }
}
