use cgmath::{Matrix4, SquareMatrix};
use vxl::component::material::Material;
use vxl::component::mesh::Mesh;
use vxl::loader::shaders::{ShaderLoader, ShaderProgram};
use vxl::render_functions::{render_simple, DrawCommand};
use vxl::resource::tasks::{MainCameraTask, RenderTask};
use vxl::resource::Task;
use vxl::system::{
    find_main_camera, CameraError, SceneEntity, SetMainCameraSys, SetRenderTaskSys,
    TransformMatrices,
};

fn material(program: u32) -> Material {
    let manager = ShaderLoader::new()
        .add_shader_program("default", ShaderProgram::new(program))
        .finish();
    Material::default(&manager)
}

fn empty<M>() -> SceneEntity<M> {
    SceneEntity {
        main_camera: false,
        camera_projection: None,
        transform: None,
        material: None,
        mesh: None,
    }
}

fn drawable(program: u32, vao: u32, world: u32) -> SceneEntity<u32> {
    SceneEntity {
        transform: Some(TransformMatrices { world, view: world + 1000 }),
        material: Some(material(program)),
        mesh: Some(Mesh::from_data(vao, &vec![0, 1, 2])),
        ..empty()
    }
}

fn camera(projection: u32, view: u32) -> SceneEntity<u32> {
    SceneEntity {
        main_camera: true,
        camera_projection: Some(projection),
        transform: Some(TransformMatrices { world: 0, view }),
        ..empty()
    }
}

fn fresh_task() -> Task<u32> {
    Task::new(MainCameraTask::new(1, 1))
}

#[test]
fn one_render_task_per_drawable_entity_in_order() {
    let mut no_mesh = drawable(3, 4, 5);
    no_mesh.mesh = None;
    let mut no_material = drawable(3, 4, 5);
    no_material.material = None;
    let mut no_transform = drawable(3, 4, 5);
    no_transform.transform = None;
    let scene = vec![
        drawable(1, 10, 100),
        no_mesh,
        no_material,
        camera(7, 8),
        no_transform,
        drawable(2, 20, 200),
    ];
    let mut task = fresh_task();
    SetRenderTaskSys.run(&scene, &mut task);
    let tasks = task.get_render_tasks();
    assert_eq!(tasks.len(), 2);
    assert_eq!(tasks[0].get_pid(), 1);
    assert_eq!(tasks[0].get_vao_id(), 10);
    assert_eq!(tasks[0].get_vertex_count(), 3);
    assert_eq!(tasks[0].get_attri_arrays(), &vec![0]);
    assert_eq!(tasks[0].get_mat4f_unifroms(), &vec![("trans_mat", 100)]);
    assert_eq!(tasks[0].get_texture_id(), None);
    assert_eq!(tasks[1].get_pid(), 2);
    assert_eq!(tasks[1].get_vao_id(), 20);
    assert_eq!(tasks[1].get_mat4f_unifroms(), &vec![("trans_mat", 200)]);
}

#[test]
fn render_task_takes_mesh_slots_and_material_texture() {
    let mut e = drawable(1, 10, 100);
    if let Some(mesh) = e.mesh.as_mut() {
        mesh.add_uvs();
    }
    if let Some(m) = e.material.as_mut() {
        m.add_texture(&vxl::loader::textures::Texture::new(
            vxl::loader::textures::Dimensions { width: 4, height: 4 },
            9,
        ));
    }
    let mut task = fresh_task();
    SetRenderTaskSys.run(&vec![e], &mut task);
    let t = &task.get_render_tasks()[0];
    assert_eq!(t.get_attri_arrays(), &vec![0, 1]);
    assert_eq!(t.get_texture_id(), Some(9));
}

#[test]
fn scene_without_drawables_adds_no_task() {
    let mut task = fresh_task();
    SetRenderTaskSys.run(&vec![camera(1, 2), empty()], &mut task);
    assert!(task.get_render_tasks().is_empty());
    SetRenderTaskSys.run(&Vec::new(), &mut task);
    assert!(task.get_render_tasks().is_empty());
}

#[test]
fn main_camera_sets_camera_task() {
    let scene = vec![drawable(1, 2, 3), camera(40, 50)];
    let mut task = fresh_task();
    assert_eq!(SetMainCameraSys.run(&scene, &mut task), Ok(()));
    assert_eq!(task.get_main_camera_task().get_projection_mat(), 40);
    assert_eq!(task.get_main_camera_task().get_view_mat(), 50);
    assert_eq!(find_main_camera(&scene), Ok(1));
}

#[test]
fn camera_without_tag_or_transform_is_not_main() {
    let mut untagged = camera(40, 50);
    untagged.main_camera = false;
    let mut unplaced = camera(40, 50);
    unplaced.transform = None;
    let mut no_camera = camera(40, 50);
    no_camera.camera_projection = None;
    let scene = vec![untagged, unplaced, no_camera];
    let mut task = fresh_task();
    assert_eq!(
        SetMainCameraSys.run(&scene, &mut task),
        Err(CameraError::NoMainCamera)
    );
    assert_eq!(task.get_main_camera_task().get_projection_mat(), 1);
    assert_eq!(task.get_main_camera_task().get_view_mat(), 1);
}

#[test]
fn several_main_cameras_are_rejected() {
    let scene = vec![camera(1, 2), drawable(1, 2, 3), camera(3, 4)];
    let mut task = fresh_task();
    assert_eq!(
        SetMainCameraSys.run(&scene, &mut task),
        Err(CameraError::MultipleMainCameras)
    );
    assert_eq!(task.get_main_camera_task().get_projection_mat(), 1);
    assert_eq!(find_main_camera(&scene), Err(CameraError::MultipleMainCameras));
}

#[test]
fn empty_scene_has_no_main_camera() {
    let scene: Vec<SceneEntity<u32>> = Vec::new();
    assert_eq!(find_main_camera(&scene), Err(CameraError::NoMainCamera));
}

#[test]
fn render_commands_follow_task_order() {
    let mut task = Task::new(MainCameraTask::new(70u32, 80u32));
    task.push_render_task(RenderTask::new(
        3,
        4,
        6,
        vec![0, 1],
        vec![("trans_mat", 90u32)],
        None,
    ));
    task.push_render_task(RenderTask::new(5, 6, 3, vec![0], Vec::new(), Some(2)));
    let commands = render_simple(&task);
    let uniform = |program_id: u32, name: &'static str, value: u32| DrawCommand::UniformMatrix4 {
        program_id,
        name,
        value,
    };
    assert_eq!(
        commands,
        vec![
            DrawCommand::BindProgram(3),
            uniform(3, "proj_mat", 70),
            uniform(3, "view_mat", 80),
            uniform(3, "trans_mat", 90),
            DrawCommand::BindVertexArray(4),
            DrawCommand::EnableAttribArray(0),
            DrawCommand::EnableAttribArray(1),
            DrawCommand::DrawElements(6),
            DrawCommand::DisableAttribArray(0),
            DrawCommand::DisableAttribArray(1),
            DrawCommand::UnbindVertexArray,
            DrawCommand::UnbindProgram,
            DrawCommand::BindProgram(5),
            uniform(5, "proj_mat", 70),
            uniform(5, "view_mat", 80),
            DrawCommand::BindVertexArray(6),
            DrawCommand::EnableAttribArray(0),
            DrawCommand::DrawElements(3),
            DrawCommand::DisableAttribArray(0),
            DrawCommand::UnbindVertexArray,
            DrawCommand::UnbindProgram,
        ]
    );
}

#[test]
fn empty_task_renders_nothing() {
    assert!(render_simple(&fresh_task()).is_empty());
}

#[test]
fn task_setters_and_getters() {
    let mut task = fresh_task();
    task.set_main_camera_task(MainCameraTask::new(5, 6));
    assert_eq!(task.get_main_camera_task().get_projection_mat(), 5);
    assert_eq!(task.get_main_camera_task().get_view_mat(), 6);
    assert!(task.get_render_tasks().is_empty());
}

#[test]
fn one_drawable_and_offset_camera_compile_to_one_task_and_moved_camera() {
    // The unit triangle with an identity transform and the default material,
    // seen by a main camera at (0, 0, 2) with no rotation.
    let identity = Matrix4::<f32>::identity();
    let camera_view = Matrix4::from_translation(cgmath::vec3(0.0, 0.0, -2.0));
    let projection = cgmath::perspective(cgmath::Deg(45.0f32), 16.0 / 9.0, 0.01, 1000.0);
    let triangle = SceneEntity {
        main_camera: false,
        camera_projection: None,
        transform: Some(TransformMatrices { world: identity, view: identity }),
        material: Some(material(1)),
        mesh: Some(Mesh::from_data(1, &vec![0, 1, 2])),
    };
    let viewer = SceneEntity {
        main_camera: true,
        camera_projection: Some(projection),
        transform: Some(TransformMatrices {
            world: Matrix4::from_translation(cgmath::vec3(0.0, 0.0, 2.0)),
            view: camera_view,
        }),
        material: None,
        mesh: None,
    };
    let scene = vec![triangle, viewer];
    let mut task = Task::new(MainCameraTask::new(identity, identity));
    assert_eq!(SetMainCameraSys.run(&scene, &mut task), Ok(()));
    SetRenderTaskSys.run(&scene, &mut task);
    assert_eq!(task.get_render_tasks().len(), 1);
    let camera_task = task.get_main_camera_task();
    assert_ne!(camera_task.get_view_mat(), identity);
    assert_eq!(camera_task.get_view_mat(), camera_view);
    assert_eq!(camera_task.get_projection_mat(), projection);
    assert_eq!(render_simple(&task).len(), 10);
}
