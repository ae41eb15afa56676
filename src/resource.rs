//! The per-frame task that the compiler systems fill and the renderer
//! consumes, and the input state shared with gameplay code.
use vstd::prelude::*;

use crate::resource::tasks::{CameraMatrices, MainCameraTask, RenderTask, RenderTaskView};

pub mod input;
pub mod tasks;

verus! {

/// A frame task as plain values.
pub struct TaskView<M> {
    pub render: Seq<RenderTaskView<M>>,
    pub main_camera: CameraMatrices<M>,
}

/// The compiled output of one frame: the main camera and the render tasks
/// in draw order. A fresh one is built every frame, so nothing of an earlier
/// frame survives in it.
pub struct Task<M> {
    render: Vec<RenderTask<M>>,
    main_camera: MainCameraTask<M>,
}

/// The views of a sequence of render tasks.
pub open spec fn task_views<M>(tasks: Seq<RenderTask<M>>) -> Seq<RenderTaskView<M>> {
    tasks.map_values(|t: RenderTask<M>| t@)
}

impl<M> View for Task<M> {
    type V = TaskView<M>;

    closed spec fn view(&self) -> TaskView<M> {
        TaskView { render: task_views(self.render@), main_camera: self.main_camera@ }
    }
}

impl<M> Task<M> {
    /// An empty task that draws through `main_camera` until a main camera of
    /// the scene replaces it.
    pub fn new(main_camera: MainCameraTask<M>) -> (t: Task<M>)
        ensures
            t@.render.len() == 0,
            t@.main_camera == main_camera@,
    {
        Task { render: Vec::new(), main_camera }
    }

    pub fn push_render_task(&mut self, task: RenderTask<M>)
        ensures
            final(self)@.render == old(self)@.render.push(task@),
            final(self)@.main_camera == old(self)@.main_camera,
    {
        self.render.push(task);
        proof {
            assert(task_views(self.render@) =~= task_views(old(self).render@).push(task@));
        }
    }

    pub fn get_render_tasks(&self) -> (r: &Vec<RenderTask<M>>)
        ensures
            task_views(r@) == self@.render,
    {
        &self.render
    }

    pub fn set_main_camera_task(&mut self, task: MainCameraTask<M>)
        ensures
            final(self)@.main_camera == task@,
            final(self)@.render == old(self)@.render,
    {
        self.main_camera = task;
    }

    pub fn get_main_camera_task(&self) -> (r: &MainCameraTask<M>)
        ensures
            r@ == self@.main_camera,
    {
        &self.main_camera
    }
}

} // verus!
