//! Frame-scoped work items: what the renderer draws for one entity, and the
//! camera it draws through.
use vstd::prelude::*;

verus! {

/// A render task as plain values.
pub struct RenderTaskView<M> {
    pub program_id: u32,
    pub vao_id: u32,
    pub vertex_count: i32,
    pub attrib_arrays: Seq<u32>,
    pub mat4f_uniforms: Seq<(&'static str, M)>,
    pub texture_id: Option<u32>,
}

/// Everything needed to draw one mesh: backend handles, the attribute slots
/// to enable, and the matrix uniforms of type `M` to upload under their
/// names. The task only refers to backend resources; it owns none.
pub struct RenderTask<M> {
    program_id: u32,
    vao_id: u32,
    vertex_count: i32,
    attrib_arrays: Vec<u32>,
    mat4f_uniforms: Vec<(&'static str, M)>,
    texture_id: Option<u32>,
}

impl<M> View for RenderTask<M> {
    type V = RenderTaskView<M>;

    closed spec fn view(&self) -> RenderTaskView<M> {
        RenderTaskView {
            program_id: self.program_id,
            vao_id: self.vao_id,
            vertex_count: self.vertex_count,
            attrib_arrays: self.attrib_arrays@,
            mat4f_uniforms: self.mat4f_uniforms@,
            texture_id: self.texture_id,
        }
    }
}

impl<M> RenderTask<M> {
    pub fn new(
        program_id: u32,
        vao_id: u32,
        vertex_count: i32,
        attrib_arrays: Vec<u32>,
        mat4f_uniforms: Vec<(&'static str, M)>,
        texture_id: Option<u32>,
    ) -> (t: RenderTask<M>)
        ensures
            t@ == (RenderTaskView {
                program_id,
                vao_id,
                vertex_count,
                attrib_arrays: attrib_arrays@,
                mat4f_uniforms: mat4f_uniforms@,
                texture_id,
            }),
    {
        RenderTask { program_id, vao_id, vertex_count, attrib_arrays, mat4f_uniforms, texture_id }
    }

    pub fn get_pid(&self) -> (r: u32)
        ensures
            r == self@.program_id,
    {
        self.program_id
    }

    pub fn get_vao_id(&self) -> (r: u32)
        ensures
            r == self@.vao_id,
    {
        self.vao_id
    }

    pub fn get_vertex_count(&self) -> (r: i32)
        ensures
            r == self@.vertex_count,
    {
        self.vertex_count
    }

    pub fn get_attri_arrays(&self) -> (r: &Vec<u32>)
        ensures
            r@ == self@.attrib_arrays,
    {
        &self.attrib_arrays
    }

    pub fn get_mat4f_unifroms(&self) -> (r: &Vec<(&'static str, M)>)
        ensures
            r@ == self@.mat4f_uniforms,
    {
        &self.mat4f_uniforms
    }

    pub fn get_texture_id(&self) -> (r: Option<u32>)
        ensures
            r == self@.texture_id,
    {
        self.texture_id
    }
}

/// The camera matrices as plain values.
pub struct CameraMatrices<M> {
    pub projection: M,
    pub view: M,
}

/// The projection and view matrices that every render task of a frame is
/// drawn through.
pub struct MainCameraTask<M> {
    projection_mat: M,
    view_mat: M,
}

impl<M> View for MainCameraTask<M> {
    type V = CameraMatrices<M>;

    closed spec fn view(&self) -> CameraMatrices<M> {
        CameraMatrices { projection: self.projection_mat, view: self.view_mat }
    }
}

impl<M: Copy> MainCameraTask<M> {
    pub fn new(projection_mat: M, view_mat: M) -> (t: MainCameraTask<M>)
        ensures
            t@ == (CameraMatrices { projection: projection_mat, view: view_mat }),
    {
        MainCameraTask { projection_mat, view_mat }
    }

    pub fn get_projection_mat(&self) -> (r: M)
        ensures
            r == self@.projection,
    {
        self.projection_mat
    }

    pub fn get_view_mat(&self) -> (r: M)
        ensures
            r == self@.view,
    {
        self.view_mat
    }
}

} // verus!
