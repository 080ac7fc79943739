//! Meshes, submeshes and their GPU-resident form.
use crate::device::Device;
use crate::geometry::Vertex;
use crate::ids::{Asset, AssetId};
use crate::types::Handle;
use crate::vulkan_resource::DeviceResource;
use vstd::prelude::*;

verus! {

/// A contiguous index range `[start_index, end_index)` into the owning
/// mesh's index buffer, drawn with its own material.
#[derive(Clone, Copy, PartialEq, Eq, Structural, Debug)]
pub struct Submesh {
    pub id: AssetId,
    pub material_id: AssetId,
    pub start_index: usize,
    pub end_index: usize,
}

/// A mesh as registered: vertex data, index data and one or more
/// submeshes partitioning the draws.
pub struct Mesh {
    pub id: AssetId,
    pub vertices: Vec<Vertex>,
    pub indices: Vec<u16>,
    pub submeshes: Vec<Submesh>,
}

impl Mesh {
    /// Vertex data present, and every submesh a non-empty range within
    /// the index buffer.
    pub open spec fn wf(self) -> bool {
        &&& self.vertices@.len() > 0
        &&& forall|i: int| 0 <= i < self.submeshes@.len() ==> {
            &&& (#[trigger] self.submeshes@[i]).start_index < self.submeshes@[i].end_index
            &&& self.submeshes@[i].end_index <= self.indices@.len()
        }
    }

    /// A unit plane around the origin: four vertices, two triangles, one
    /// submesh drawn with the given material. The vertex attribute values
    /// are IEEE-754 bit patterns (1/2, -1/2, 1 and 0).
    pub fn new_plane(material_id: AssetId) -> (r: Mesh)
        ensures
            r.wf(),
            r.id == 0,
            r.vertices@.len() == 4,
            r.indices@ == seq![1u16, 2u16, 0u16, 2u16, 3u16, 0u16],
            r.submeshes@.len() == 1,
            r.submeshes@[0].material_id == material_id,
            r.submeshes@[0].start_index == 0,
            r.submeshes@[0].end_index == 6,
    {
        let half: u32 = 0x3F00_0000;  // 1/2
        let neg_half: u32 = 0xBF00_0000;  // -1/2
        let one: u32 = 0x3F80_0000;  // 1
        let zero: u32 = 0;
        let mut vertices: Vec<Vertex> = Vec::new();
        vertices.push(
            Vertex {
                pos: [neg_half, neg_half, zero],
                uv: [zero, zero, zero],
                color: [zero, zero, zero],
            },
        );
        vertices.push(
            Vertex {
                pos: [neg_half, half, zero],
                uv: [zero, one, zero],
                color: [zero, zero, zero],
            },
        );
        vertices.push(
            Vertex { pos: [half, half, zero], uv: [one, one, zero], color: [zero, zero, zero] },
        );
        vertices.push(
            Vertex { pos: [half, neg_half, zero], uv: [one, zero, zero], color: [zero, zero, zero] },
        );
        let mut indices: Vec<u16> = Vec::new();
        indices.push(1);
        indices.push(2);
        indices.push(0);
        indices.push(2);
        indices.push(3);
        indices.push(0);
        proof {
            assert(indices@ =~= seq![1u16, 2u16, 0u16, 2u16, 3u16, 0u16]);
        }
        let mut submeshes: Vec<Submesh> = Vec::new();
        submeshes.push(Submesh { id: 0, material_id, start_index: 0, end_index: 6 });
        Mesh { id: 0, vertices, indices, submeshes }
    }
}

impl Asset for Mesh {
    fn id(&self) -> (r: AssetId)
        ensures
            r == self.id,
    {
        self.id
    }
}

/// A vertex buffer resident on the device.
#[derive(Clone, Copy, PartialEq, Eq, Structural, Debug)]
pub struct VertexBuffer {
    pub handle: Handle,
}

/// An index buffer resident on the device, with its draw count.
#[derive(Clone, Copy, PartialEq, Eq, Structural, Debug)]
pub struct IndexBuffer {
    pub handle: Handle,
    pub index_count: usize,
}

/// One submesh loaded to the GPU: its own vertex and index buffer.
#[derive(Clone, Copy, PartialEq, Eq, Structural, Debug)]
pub struct LoadedSubmesh {
    pub id: AssetId,
    pub material_id: AssetId,
    pub vertex_buf: VertexBuffer,
    pub index_buf: IndexBuffer,
}

/// A whole mesh loaded to the GPU under a single texture, the resident
/// form used before materials split meshes into submesh draws.
#[derive(Clone, Copy, PartialEq, Eq, Structural, Debug)]
pub struct GpuResidentMesh {
    pub texture_id: AssetId,
    pub vertex_buf: VertexBuffer,
    pub index_buf: IndexBuffer,
}

impl DeviceResource for LoadedSubmesh {
    /// Destroys the submesh's vertex and index buffers with their
    /// memory. Dead or out-of-range handles are left alone.
    fn destroy(&self, device: &mut Device)
        ensures
            final(device).wf(),
            final(device).buffers@.len() == old(device).buffers@.len(),
            self.vertex_buf.handle < old(device).buffers@.len() ==> !final(device).buffers@[
            self.vertex_buf.handle as int].alive,
            self.index_buf.handle < old(device).buffers@.len() ==> !final(device).buffers@[
            self.index_buf.handle as int].alive,
            forall|i: int| 0 <= i < old(device).buffers@.len() && i != self.vertex_buf.handle
                && i != self.index_buf.handle ==> final(device).buffers@[i] == old(
                device,
            ).buffers@[i],
            final(device).images@ == old(device).images@,
            final(device).command_buffers@ == old(device).command_buffers@,
            final(device).plain@ == old(device).plain@,
            final(device).submissions@ == old(device).submissions@,
            final(device).presents@ == old(device).presents@,
            final(device).surface_generation == old(device).surface_generation,
    {
        free_buffer_if_alive(device, self.vertex_buf.handle);
        free_buffer_if_alive(device, self.index_buf.handle);
    }
}

impl DeviceResource for GpuResidentMesh {
    /// Destroys the mesh's vertex and index buffers with their memory.
    /// Dead or out-of-range handles are left alone.
    fn destroy(&self, device: &mut Device)
        ensures
            final(device).wf(),
            final(device).buffers@.len() == old(device).buffers@.len(),
            self.vertex_buf.handle < old(device).buffers@.len() ==> !final(device).buffers@[
            self.vertex_buf.handle as int].alive,
            self.index_buf.handle < old(device).buffers@.len() ==> !final(device).buffers@[
            self.index_buf.handle as int].alive,
            forall|i: int| 0 <= i < old(device).buffers@.len() && i != self.vertex_buf.handle
                && i != self.index_buf.handle ==> final(device).buffers@[i] == old(
                device,
            ).buffers@[i],
            final(device).images@ == old(device).images@,
            final(device).command_buffers@ == old(device).command_buffers@,
            final(device).plain@ == old(device).plain@,
            final(device).submissions@ == old(device).submissions@,
            final(device).presents@ == old(device).presents@,
            final(device).surface_generation == old(device).surface_generation,
    {
        free_buffer_if_alive(device, self.vertex_buf.handle);
        free_buffer_if_alive(device, self.index_buf.handle);
    }
}

/// Frees the buffer when the handle names a live one; otherwise a no-op.
fn free_buffer_if_alive(device: &mut Device, h: Handle)
    requires
        old(device).wf(),
    ensures
        final(device).wf(),
        final(device).buffers@.len() == old(device).buffers@.len(),
        h < old(device).buffers@.len() ==> !final(device).buffers@[h as int].alive,
        forall|i: int| 0 <= i < old(device).buffers@.len() && i != h
            ==> final(device).buffers@[i] == old(device).buffers@[i],
        final(device).images@ == old(device).images@,
        final(device).command_buffers@ == old(device).command_buffers@,
        final(device).plain@ == old(device).plain@,
        final(device).submissions@ == old(device).submissions@,
        final(device).presents@ == old(device).presents@,
        final(device).surface_generation == old(device).surface_generation,
{
    if h < device.buffers.len() {
        let alive = device.buffers[h].alive;
        if alive {
            device.free_buffer(h);
        }
    }
}

} // verus!
