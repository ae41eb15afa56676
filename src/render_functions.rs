//! The renderer: turns a frame's task into the ordered list of backend
//! commands that draws it. Executing the commands against the graphics
//! context is left to the caller that owns it.
use vstd::prelude::*;

use crate::resource::tasks::{CameraMatrices, MainCameraTask, RenderTask, RenderTaskView};
use crate::resource::{task_views, Task, TaskView};

verus! {

/// Name of the projection-matrix uniform of every program.
pub const PROJECTION_UNIFORM: &'static str = "proj_mat";

/// Name of the view-matrix uniform of every program.
pub const VIEW_UNIFORM: &'static str = "view_mat";

/// One call into the graphics backend.
#[derive(Debug, PartialEq)]
pub enum DrawCommand<M> {
    BindProgram(u32),
    /// Upload a 4x4 matrix to the uniform of that name in the program.
    UniformMatrix4 { program_id: u32, name: &'static str, value: M },
    BindVertexArray(u32),
    EnableAttribArray(u32),
    /// Indexed draw of that many elements.
    DrawElements(i32),
    DisableAttribArray(u32),
    UnbindVertexArray,
    UnbindProgram,
}

/// Uploads of a task's own matrix uniforms, in order.
pub open spec fn uniform_commands<M>(program_id: u32, uniforms: Seq<(&'static str, M)>) -> Seq<
    DrawCommand<M>,
> {
    uniforms.map_values(
        |u: (&'static str, M)| DrawCommand::UniformMatrix4 { program_id, name: u.0, value: u.1 },
    )
}

pub open spec fn enable_commands<M>(slots: Seq<u32>) -> Seq<DrawCommand<M>> {
    slots.map_values(|s: u32| DrawCommand::EnableAttribArray(s))
}

pub open spec fn disable_commands<M>(slots: Seq<u32>) -> Seq<DrawCommand<M>> {
    slots.map_values(|s: u32| DrawCommand::DisableAttribArray(s))
}

/// Everything one render task costs: bind its program, upload the camera's
/// matrices and its own, bind its vertex array, enable its attribute slots,
/// draw, then undo every binding. Nothing is cached between tasks.
pub open spec fn task_commands<M>(camera: CameraMatrices<M>, t: RenderTaskView<M>) -> Seq<
    DrawCommand<M>,
> {
    seq![
        DrawCommand::BindProgram(t.program_id),
        DrawCommand::UniformMatrix4 {
            program_id: t.program_id,
            name: PROJECTION_UNIFORM,
            value: camera.projection,
        },
        DrawCommand::UniformMatrix4 {
            program_id: t.program_id,
            name: VIEW_UNIFORM,
            value: camera.view,
        },
    ] + uniform_commands(t.program_id, t.mat4f_uniforms) + seq![
        DrawCommand::BindVertexArray(t.vao_id),
    ] + enable_commands(t.attrib_arrays) + seq![DrawCommand::DrawElements(t.vertex_count)]
        + disable_commands(t.attrib_arrays) + seq![
        DrawCommand::UnbindVertexArray,
        DrawCommand::UnbindProgram,
    ]
}

/// The commands of a sequence of render tasks, one task after the other.
pub open spec fn tasks_commands<M>(camera: CameraMatrices<M>, tasks: Seq<RenderTaskView<M>>) -> Seq<
    DrawCommand<M>,
>
    decreases tasks.len(),
{
    if tasks.len() == 0 {
        Seq::empty()
    } else {
        tasks_commands(camera, tasks.drop_last()) + task_commands(camera, tasks.last())
    }
}

/// The commands that draw a frame: its render tasks in order, each through
/// the frame's main camera.
pub open spec fn frame_commands<M>(task: TaskView<M>) -> Seq<DrawCommand<M>> {
    tasks_commands(task.main_camera, task.render)
}

/// Appends the commands of one render task.
fn push_task_commands<M: Copy>(
    commands: &mut Vec<DrawCommand<M>>,
    camera: &MainCameraTask<M>,
    render_task: &RenderTask<M>,
)
    ensures
        final(commands)@ == old(commands)@ + task_commands(camera@, render_task@),
{
    let pid = render_task.get_pid();
    let attrib_arrays = render_task.get_attri_arrays();
    let uniforms = render_task.get_mat4f_unifroms();
    let ghost start = commands@;

    commands.push(DrawCommand::BindProgram(pid));
    commands.push(
        DrawCommand::UniformMatrix4 {
            program_id: pid,
            name: PROJECTION_UNIFORM,
            value: camera.get_projection_mat(),
        },
    );
    commands.push(
        DrawCommand::UniformMatrix4 {
            program_id: pid,
            name: VIEW_UNIFORM,
            value: camera.get_view_mat(),
        },
    );
    let ghost head = commands@;
    let mut j: usize = 0;
    while j < uniforms.len()
        invariant
            j <= uniforms@.len(),
            commands@ == head + uniform_commands(pid, uniforms@.take(j as int)),
        decreases uniforms@.len() - j,
    {
        let (name, value) = uniforms[j];
        assert((name, value) == uniforms@[j as int]);
        commands.push(DrawCommand::UniformMatrix4 { program_id: pid, name, value });
        proof {
            assert(uniforms@.take(j + 1) =~= uniforms@.take(j as int).push(uniforms@[j as int]));
            assert(uniform_commands(pid, uniforms@.take(j + 1)) =~= uniform_commands(
                pid,
                uniforms@.take(j as int),
            ).push(DrawCommand::UniformMatrix4 { program_id: pid, name, value }));
        }
        j = j + 1;
    }
    assert(uniforms@.take(j as int) =~= uniforms@);

    commands.push(DrawCommand::BindVertexArray(render_task.get_vao_id()));
    let ghost mid = commands@;
    let mut k: usize = 0;
    while k < attrib_arrays.len()
        invariant
            k <= attrib_arrays@.len(),
            commands@ == mid + enable_commands::<M>(attrib_arrays@.take(k as int)),
        decreases attrib_arrays@.len() - k,
    {
        commands.push(DrawCommand::EnableAttribArray(attrib_arrays[k]));
        proof {
            assert(attrib_arrays@.take(k + 1) =~= attrib_arrays@.take(k as int).push(
                attrib_arrays@[k as int],
            ));
            assert(enable_commands::<M>(attrib_arrays@.take(k + 1)) =~= enable_commands::<M>(
                attrib_arrays@.take(k as int),
            ).push(DrawCommand::EnableAttribArray(attrib_arrays@[k as int])));
        }
        k = k + 1;
    }
    assert(attrib_arrays@.take(k as int) =~= attrib_arrays@);

    commands.push(DrawCommand::DrawElements(render_task.get_vertex_count()));
    let ghost tail = commands@;
    let mut l: usize = 0;
    while l < attrib_arrays.len()
        invariant
            l <= attrib_arrays@.len(),
            commands@ == tail + disable_commands::<M>(attrib_arrays@.take(l as int)),
        decreases attrib_arrays@.len() - l,
    {
        commands.push(DrawCommand::DisableAttribArray(attrib_arrays[l]));
        proof {
            assert(attrib_arrays@.take(l + 1) =~= attrib_arrays@.take(l as int).push(
                attrib_arrays@[l as int],
            ));
            assert(disable_commands::<M>(attrib_arrays@.take(l + 1)) =~= disable_commands::<M>(
                attrib_arrays@.take(l as int),
            ).push(DrawCommand::DisableAttribArray(attrib_arrays@[l as int])));
        }
        l = l + 1;
    }
    assert(attrib_arrays@.take(l as int) =~= attrib_arrays@);

    commands.push(DrawCommand::UnbindVertexArray);
    commands.push(DrawCommand::UnbindProgram);
    assert(commands@ =~= start + task_commands(camera@, render_task@));
}

/// The backend commands that draw the frame described by `task_res`.
pub fn render_simple<M: Copy>(task_res: &Task<M>) -> (commands: Vec<DrawCommand<M>>)
    ensures
        commands@ == frame_commands(task_res@),
{
    let main_cam = task_res.get_main_camera_task();
    let render_tasks = task_res.get_render_tasks();
    let ghost views = task_views(render_tasks@);
    let mut commands: Vec<DrawCommand<M>> = Vec::new();
    let mut i: usize = 0;
    while i < render_tasks.len()
        invariant
            i <= render_tasks@.len(),
            views == task_views(render_tasks@),
            views == task_res@.render,
            main_cam@ == task_res@.main_camera,
            commands@ == tasks_commands(main_cam@, views.take(i as int)),
        decreases render_tasks@.len() - i,
    {
        push_task_commands(&mut commands, main_cam, &render_tasks[i]);
        proof {
            assert(views.take(i + 1).drop_last() =~= views.take(i as int));
        }
        i = i + 1;
    }
    assert(views.take(i as int) =~= views);
    commands
}

} // verus!
