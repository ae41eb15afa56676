//! Meshes: a vertex array uploaded to the backend, with what a draw of it
//! needs to know.
use vstd::prelude::*;

verus! {

/// Attribute slot of vertex positions (3 floats per vertex).
pub const POSITION_SLOT: u32 = 0;

/// Attribute slot of texture coordinates (2 floats per vertex).
pub const UV_SLOT: u32 = 1;

/// A mesh as plain values.
pub struct MeshView {
    pub vao_id: u32,
    pub vertex_count: i32,
    pub attrib_arrays: Seq<u32>,
    pub has_uvs: bool,
}

/// Holds the vertex array of a mesh whose index and position buffers have
/// been uploaded, the number of indices to draw, and the attribute slots
/// that hold data.
#[derive(Clone, Debug)]
pub struct Mesh {
    vao_id: u32,
    vertex_count: i32,
    attrib_arrays: Vec<u32>,
    has_uvs: bool,
}

impl View for Mesh {
    type V = MeshView;

    closed spec fn view(&self) -> MeshView {
        MeshView {
            vao_id: self.vao_id,
            vertex_count: self.vertex_count,
            attrib_arrays: self.attrib_arrays@,
            has_uvs: self.has_uvs,
        }
    }
}

impl Mesh {
    /// The mesh of vertex array `vao_id`, into which `indices` and the
    /// vertex positions have been uploaded: a draw covers every index, and
    /// only the position slot holds data.
    pub fn from_data(vao_id: u32, indices: &Vec<u32>) -> (m: Mesh)
        requires
            indices@.len() <= i32::MAX,
        ensures
            m@ == (MeshView {
                vao_id,
                vertex_count: indices@.len() as i32,
                attrib_arrays: seq![POSITION_SLOT],
                has_uvs: false,
            }),
    {
        let vertex_count = indices.len() as i32;
        let mut attrib_arrays: Vec<u32> = Vec::new();
        attrib_arrays.push(POSITION_SLOT);
        Mesh { vao_id, vertex_count, attrib_arrays, has_uvs: false }
    }

    /// Records that texture coordinates have been uploaded into the mesh's
    /// vertex array: the UV slot is appended to its attribute slots. Doing
    /// so twice lists the slot twice.
    pub fn add_uvs(&mut self)
        ensures
            final(self)@ == (MeshView {
                attrib_arrays: old(self)@.attrib_arrays.push(UV_SLOT),
                has_uvs: true,
                ..old(self)@
            }),
    {
        self.has_uvs = true;
        self.attrib_arrays.push(UV_SLOT);
    }

    pub fn get_vao_id(&self) -> (r: u32)
        ensures
            r == self@.vao_id,
    {
        self.vao_id
    }

    pub fn get_vertex_count(&self) -> (r: i32)
        ensures
            r == self@.vertex_count,
    {
        self.vertex_count
    }

    pub fn get_attrib_arrays(&self) -> (r: &Vec<u32>)
        ensures
            r@ == self@.attrib_arrays,
    {
        &self.attrib_arrays
    }

    pub fn has_uvs(&self) -> (r: bool)
        ensures
            r == self@.has_uvs,
    {
        self.has_uvs
    }
}

} // verus!
