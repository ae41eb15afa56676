//! The task-compiler systems: each frame they read the scene's components
//! and fill that frame's task with the main camera and one render task per
//! drawable entity, in the order the component storage yields entities.
use vstd::prelude::*;

use crate::component::material::Material;
use crate::component::mesh::Mesh;
use crate::resource::tasks::{CameraMatrices, MainCameraTask, RenderTask, RenderTaskView};
use crate::resource::Task;

verus! {

/// Name of the world-matrix uniform of every render task.
pub const TRANSFORM_UNIFORM: &'static str = "trans_mat";

/// The matrices that an entity's transform produces: where it stands in the
/// world, and, seen from it, where the world stands.
pub struct TransformMatrices<M> {
    pub world: M,
    pub view: M,
}

/// The components of one entity that the systems read. The main-camera tag
/// carries no data; a camera is present as the projection matrix it makes.
pub struct SceneEntity<M> {
    pub main_camera: bool,
    pub camera_projection: Option<M>,
    pub transform: Option<TransformMatrices<M>>,
    pub material: Option<Material>,
    pub mesh: Option<Mesh>,
}

/// Why no main camera could be chosen.
#[derive(Clone, Copy, Debug, PartialEq, Eq, Structural)]
pub enum CameraError {
    /// No entity holds the main-camera tag, a camera and a transform.
    NoMainCamera,
    /// More than one entity does.
    MultipleMainCameras,
}

/// The entity can serve as the main camera.
pub open spec fn is_main_camera<M>(e: SceneEntity<M>) -> bool {
    e.main_camera && e.camera_projection is Some && e.transform is Some
}

/// The entity is drawn.
pub open spec fn is_drawable<M>(e: SceneEntity<M>) -> bool {
    e.material is Some && e.mesh is Some && e.transform is Some
}

/// Entity `i` is a main camera and no other entity is.
pub open spec fn is_sole_main_camera<M>(scene: Seq<SceneEntity<M>>, i: int) -> bool {
    &&& 0 <= i < scene.len()
    &&& is_main_camera(scene[i])
    &&& forall|k: int| 0 <= k < scene.len() && k != i ==> !is_main_camera(#[trigger] scene[k])
}

pub open spec fn has_no_main_camera<M>(scene: Seq<SceneEntity<M>>) -> bool {
    forall|k: int| 0 <= k < scene.len() ==> !is_main_camera(#[trigger] scene[k])
}

pub open spec fn has_several_main_cameras<M>(scene: Seq<SceneEntity<M>>) -> bool {
    exists|i: int, j: int|
        0 <= i < j < scene.len() && is_main_camera(#[trigger] scene[i]) && is_main_camera(
            #[trigger] scene[j],
        )
}

/// What a main camera entity looks through.
pub open spec fn camera_of<M>(e: SceneEntity<M>) -> CameraMatrices<M> {
    CameraMatrices { projection: e.camera_projection->0, view: e.transform->0.view }
}

/// The render task of a drawable entity: its material's program and
/// texture, its mesh's vertex array, count and attribute slots, and its
/// world matrix as the one uniform.
pub open spec fn render_task_of<M>(e: SceneEntity<M>) -> RenderTaskView<M> {
    RenderTaskView {
        program_id: e.material->0@.program_id,
        vao_id: e.mesh->0@.vao_id,
        vertex_count: e.mesh->0@.vertex_count,
        attrib_arrays: e.mesh->0@.attrib_arrays,
        mat4f_uniforms: seq![(TRANSFORM_UNIFORM, e.transform->0.world)],
        texture_id: e.material->0@.texture_id,
    }
}

/// The drawable entities of a scene, in scene order.
pub open spec fn drawable_entities<M>(scene: Seq<SceneEntity<M>>) -> Seq<SceneEntity<M>> {
    scene.filter(|e: SceneEntity<M>| is_drawable(e))
}

/// The render tasks of a scene: one per drawable entity, in scene order.
pub open spec fn render_tasks_of<M>(scene: Seq<SceneEntity<M>>) -> Seq<RenderTaskView<M>> {
    drawable_entities(scene).map_values(|e: SceneEntity<M>| render_task_of(e))
}

/// An entity added after a scene adds its render task after the scene's if
/// it is drawable, and nothing otherwise.
pub proof fn lemma_render_tasks_push<M>(scene: Seq<SceneEntity<M>>, e: SceneEntity<M>)
    ensures
        render_tasks_of(scene.push(e)) == if is_drawable(e) {
            render_tasks_of(scene).push(render_task_of(e))
        } else {
            render_tasks_of(scene)
        },
{
    broadcast use Seq::lemma_filter_push;

    let longer = scene.push(e);
    if is_drawable(e) {
        assert(drawable_entities(longer) == drawable_entities(scene).push(e));
        assert(render_tasks_of(longer) =~= render_tasks_of(scene).push(render_task_of(e)));
    } else {
        assert(drawable_entities(longer) == drawable_entities(scene));
    }
}

/// How many entities of a scene hold a material, a mesh and a transform.
pub open spec fn drawable_count<M>(scene: Seq<SceneEntity<M>>) -> nat
    decreases scene.len(),
{
    if scene.len() == 0 {
        0
    } else {
        drawable_count(scene.drop_last()) + if is_drawable(scene.last()) {
            1nat
        } else {
            0nat
        }
    }
}

/// A scene compiles to exactly one render task per entity that holds a
/// material, a mesh and a transform together, and an entity that lacks any
/// of the three contributes none: taking it out of the scene changes no
/// render task.
pub proof fn lemma_one_task_per_drawable_entity<M>(scene: Seq<SceneEntity<M>>)
    ensures
        render_tasks_of(scene).len() == drawable_count(scene),
        forall|i: int|
            0 <= i < scene.len() && !is_drawable(#[trigger] scene[i]) ==> render_tasks_of(
                scene.remove(i),
            ) == render_tasks_of(scene),
    decreases scene.len(),
{
    broadcast use Seq::filter_distributes_over_add;

    if scene.len() > 0 {
        let before = scene.drop_last();
        lemma_one_task_per_drawable_entity(before);
        assert(scene =~= before.push(scene.last()));
        lemma_render_tasks_push(before, scene.last());
    }
    assert forall|i: int|
        0 <= i < scene.len() && !is_drawable(#[trigger] scene[i]) implies render_tasks_of(
        scene.remove(i),
    ) == render_tasks_of(scene) by {
        let head = scene.take(i);
        let tail = scene.skip(i + 1);
        let one = seq![scene[i]];
        assert(scene =~= head + one + tail);
        assert(scene.remove(i) =~= head + tail);
        assert(drawable_entities(one) =~= Seq::<SceneEntity<M>>::empty()) by {
            assert(one =~= Seq::<SceneEntity<M>>::empty().push(scene[i]));
            broadcast use Seq::lemma_filter_push;

        }
        assert(drawable_entities(scene) =~= drawable_entities(head) + drawable_entities(one)
            + drawable_entities(tail));
        assert(drawable_entities(scene.remove(i)) =~= drawable_entities(head)
            + drawable_entities(tail));
    }
}

/// Resolves the main camera of `scene`: the index of the only entity that
/// holds the main-camera tag, a camera and a transform, or why there is no
/// such single entity.
pub fn find_main_camera<M>(scene: &Vec<SceneEntity<M>>) -> (r: Result<usize, CameraError>)
    ensures
        match r {
            Ok(i) => is_sole_main_camera(scene@, i as int),
            Err(CameraError::NoMainCamera) => has_no_main_camera(scene@),
            Err(CameraError::MultipleMainCameras) => has_several_main_cameras(scene@),
        },
{
    let mut found: Option<usize> = None;
    let mut i: usize = 0;
    while i < scene.len()
        invariant
            i <= scene@.len(),
            match found {
                Some(j) => j < i && is_main_camera(scene@[j as int]) && forall|k: int|
                    0 <= k < i && k != j ==> !is_main_camera(#[trigger] scene@[k]),
                None => forall|k: int| 0 <= k < i ==> !is_main_camera(#[trigger] scene@[k]),
            },
        decreases scene@.len() - i,
    {
        let e = &scene[i];
        if e.main_camera && e.camera_projection.is_some() && e.transform.is_some() {
            match found {
                Some(j) => {
                    assert(is_main_camera(scene@[j as int]) && is_main_camera(scene@[i as int]));
                    return Err(CameraError::MultipleMainCameras);
                },
                None => {
                    found = Some(i);
                },
            }
        }
        i = i + 1;
    }
    match found {
        Some(j) => Ok(j),
        None => Err(CameraError::NoMainCamera),
    }
}

/// Resolves the main camera of a scene and sets the frame's camera task to
/// its projection and view.
pub struct SetMainCameraSys;

impl SetMainCameraSys {
    /// With exactly one main camera in `scene`, sets `task`'s camera to it;
    /// otherwise leaves `task` as it is and says why.
    pub fn run<M: Copy>(&self, scene: &Vec<SceneEntity<M>>, task: &mut Task<M>) -> (r: Result<
        (),
        CameraError,
    >)
        ensures
            final(task)@.render == old(task)@.render,
            r is Ok <==> exists|i: int| is_sole_main_camera(scene@, i),
            forall|i: int|
                r is Ok && is_sole_main_camera(scene@, i) ==> final(task)@.main_camera
                    == camera_of(#[trigger] scene@[i]),
            r == Err::<(), CameraError>(CameraError::NoMainCamera) <==> has_no_main_camera(
                scene@,
            ),
            r == Err::<(), CameraError>(CameraError::MultipleMainCameras)
                <==> has_several_main_cameras(scene@),
            r is Err ==> final(task)@ == old(task)@,
    {
        match find_main_camera(scene) {
            Ok(i) => {
                proof {
                    assert forall|k: int| is_sole_main_camera(scene@, k) implies k == i by {}
                }
                // The entity found holds both, so the other arm is never taken.
                match (&scene[i].camera_projection, &scene[i].transform) {
                    (Some(projection_mat), Some(transform)) => {
                        task.set_main_camera_task(
                            MainCameraTask::new(*projection_mat, transform.view),
                        );
                        Ok(())
                    },
                    _ => Err(CameraError::NoMainCamera),
                }
            },
            Err(err) => {
                proof {
                    if err == CameraError::NoMainCamera {
                        assert forall|k: int| !is_sole_main_camera(scene@, k) by {
                            if 0 <= k < scene@.len() {
                                assert(!is_main_camera(scene@[k]));
                            }
                        }
                    } else {
                        let (a, b) = choose|a: int, b: int|
                            0 <= a < b < scene@.len() && is_main_camera(#[trigger] scene@[a])
                                && is_main_camera(#[trigger] scene@[b]);
                        assert forall|k: int| !is_sole_main_camera(scene@, k) by {
                            if k == a {
                                assert(is_main_camera(scene@[b]));
                            } else {
                                assert(is_main_camera(scene@[a]));
                            }
                        }
                        assert(!has_no_main_camera(scene@)) by {
                            assert(is_main_camera(scene@[a]));
                        }
                    }
                }
                Err(err)
            },
        }
    }
}

/// A copy of a mesh's attribute slots.
fn copy_slots(slots: &Vec<u32>) -> (r: Vec<u32>)
    ensures
        r@ == slots@,
{
    let mut r: Vec<u32> = Vec::new();
    let mut i: usize = 0;
    while i < slots.len()
        invariant
            i <= slots@.len(),
            r@ == slots@.take(i as int),
        decreases slots@.len() - i,
    {
        r.push(slots[i]);
        proof {
            assert(slots@.take(i + 1) =~= slots@.take(i as int).push(slots@[i as int]));
        }
        i = i + 1;
    }
    assert(slots@.take(i as int) =~= slots@);
    r
}

/// Emits one render task per drawable entity of a scene.
pub struct SetRenderTaskSys;

impl SetRenderTaskSys {
    /// Appends to `task` the render tasks of `scene`, in scene order, which
    /// is the order they are drawn in.
    pub fn run<M: Copy>(&self, scene: &Vec<SceneEntity<M>>, task: &mut Task<M>)
        ensures
            final(task)@.render == old(task)@.render + render_tasks_of(scene@),
            final(task)@.main_camera == old(task)@.main_camera,
    {
        let mut i: usize = 0;
        while i < scene.len()
            invariant
                i <= scene@.len(),
                task@.render == old(task)@.render + render_tasks_of(scene@.take(i as int)),
                task@.main_camera == old(task)@.main_camera,
            decreases scene@.len() - i,
        {
            let e = &scene[i];
            proof {
                assert(scene@.take(i + 1) =~= scene@.take(i as int).push(scene@[i as int]));
                lemma_render_tasks_push(scene@.take(i as int), scene@[i as int]);
            }
            match (&e.material, &e.mesh, &e.transform) {
                (Some(material), Some(mesh), Some(transform)) => {
                    let mut mat4f_uniforms: Vec<(&'static str, M)> = Vec::new();
                    mat4f_uniforms.push((TRANSFORM_UNIFORM, transform.world));
                    let render_task = RenderTask::new(
                        material.get_program_id(),
                        mesh.get_vao_id(),
                        mesh.get_vertex_count(),
                        copy_slots(mesh.get_attrib_arrays()),
                        mat4f_uniforms,
                        material.get_texture_id(),
                    );
                    assert(render_task@ == render_task_of(scene@[i as int])) by {
                        assert(mat4f_uniforms@ =~= seq![(TRANSFORM_UNIFORM, transform.world)]);
                    }
                    task.push_render_task(render_task);
                    assert(task@.render =~= old(task)@.render + render_tasks_of(
                        scene@.take(i + 1),
                    ));
                },
                _ => {},
            }
            i = i + 1;
        }
        assert(scene@.take(i as int) =~= scene@);
    }
}

} // verus!
