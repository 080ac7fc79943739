//! The frame loop: acquire, record, submit, present, advance.
//!
//! The renderer owns a fixed number of in-flight frame records and a
//! cycling frame index, the caches of GPU-resident assets, and the
//! long-lived render pass the swapchain's framebuffers are built against.
//! A resize or surface invalidation is only noted here; the swapchain is
//! recreated lazily at the top of the next frame, which coalesces rapid
//! events into one rebuild and keeps recreation off the middle of a frame.
use crate::assets::Assets;
use crate::context::Context;
use crate::device::{Command, Device, Mat4, ObjectKind, PresentOp, Submission};
use crate::error::EngineError;
use crate::ids::AssetId;
use crate::mesh::{IndexBuffer, LoadedSubmesh, Submesh, VertexBuffer};
use crate::memory;
use crate::shader::spirv_wf;
use crate::texture::GpuResidentTexture;
use crate::types::{Extent2D, Handle};
use vstd::hash_map::HashMapWithView;
use vstd::prelude::*;

verus! {

/// How many frames may be in flight at once.
pub const FRAMES_IN_FLIGHT: usize = 2;

/// The per-slot synchronization record: one frame in flight per slot.
#[derive(Clone, Copy, PartialEq, Eq, Structural, Debug)]
pub struct Frame {
    pub image_available_semaphore: Handle,
    pub render_finished_semaphore: Handle,
    pub in_flight_fence: Handle,
    pub cmd_buf: Handle,
}

/// A graphics pipeline with its layout.
#[derive(Clone, Copy, PartialEq, Eq, Structural, Debug)]
pub struct Pipeline {
    pub handle: Handle,
    pub layout: Handle,
}

/// One drawable handed in by the scene for this tick: a registered mesh
/// and the combined projection x view x model matrix to push for it.
#[derive(Clone, Copy, PartialEq, Eq, Debug)]
pub struct DrawObject {
    pub mesh_id: AssetId,
    pub mvp: Mat4,
}

/// What one `draw` call did.
#[derive(Clone, Copy, PartialEq, Eq, Structural, Debug)]
pub enum DrawOutcome {
    /// Commands were recorded, submitted and presented for this image.
    Drawn { image_index: u32 },
    /// The chain was stale or a resize was pending: it was recreated and
    /// nothing was drawn this tick; the next tick retries.
    SkippedRecreated,
    /// No swapchain exists (the surface is paused); nothing happened.
    Paused,
}

/// Orchestrates per-frame work and owns the GPU-resident asset caches.
pub struct Renderer {
    pub ctx: Context,
    pub frames_in_flight: Vec<Frame>,
    pub frame_number: usize,
    pub textures: HashMapWithView<AssetId, GpuResidentTexture>,
    pub texture_descriptor_sets: HashMapWithView<AssetId, Handle>,
    pub sampler: Handle,
    pub meshes: HashMapWithView<AssetId, LoadedSubmesh>,
    pub pipelines: HashMapWithView<AssetId, Pipeline>,
    pub surface_size: Extent2D,
    pub new_surface_size: Option<Extent2D>,
    pub new_surface: Option<Handle>,
    pub descriptor_pool: Handle,
    pub texture_descriptor_set_layout: Handle,
    pub render_pass: Handle,
}

impl Renderer {
    /// The renderer's structural invariant: a well-formed context, a full
    /// set of frame slots whose command buffers exist on the device, and
    /// a frame index within range.
    pub open spec fn wf(self) -> bool {
        &&& self.ctx.wf()
        &&& self.frames_in_flight@.len() == FRAMES_IN_FLIGHT
        &&& self.frame_number < FRAMES_IN_FLIGHT
        &&& forall|i: int| 0 <= i < self.frames_in_flight@.len()
            ==> (#[trigger] self.frames_in_flight@[i]).cmd_buf
                < self.ctx.device.command_buffers@.len()
    }

    /// Builds the renderer on a fresh context: one command buffer,
    /// two semaphores and one fence per frame slot, the long-lived render
    /// pass, the descriptor pool and layout, and the sampler.
    pub fn new(ctx: Context) -> (r: Renderer)
        requires
            ctx.wf(),
        ensures
            r.wf(),
            r.frame_number == 0,
            r.textures@ == Map::<AssetId, GpuResidentTexture>::empty(),
            r.texture_descriptor_sets@ == Map::<AssetId, Handle>::empty(),
            r.meshes@ == Map::<AssetId, LoadedSubmesh>::empty(),
            r.pipelines@ == Map::<AssetId, Pipeline>::empty(),
            r.new_surface_size is None,
            r.new_surface is None,
            r.frames_in_flight@.len() == FRAMES_IN_FLIGHT,
            r.ctx.sync_pool.semaphores().len() == ctx.sync_pool.semaphores().len() + 2
                * FRAMES_IN_FLIGHT,
            r.ctx.sync_pool.fences().len() == ctx.sync_pool.fences().len() + FRAMES_IN_FLIGHT,
            forall|i: int| 0 <= i < FRAMES_IN_FLIGHT ==> {
                &&& (#[trigger] r.frames_in_flight@[i]).cmd_buf
                    == ctx.device.command_buffers@.len() + i
                &&& r.ctx.sync_pool.semaphores()[ctx.sync_pool.semaphores().len() + 2 * i]
                    == r.frames_in_flight@[i].image_available_semaphore
                &&& r.ctx.sync_pool.semaphores()[ctx.sync_pool.semaphores().len() + 2 * i + 1]
                    == r.frames_in_flight@[i].render_finished_semaphore
                &&& r.ctx.sync_pool.fences()[ctx.sync_pool.fences().len() + i]
                    == r.frames_in_flight@[i].in_flight_fence
            },
            r.ctx.physical_device == ctx.physical_device,
            r.ctx.swapchain == ctx.swapchain,
            r.ctx.device.submissions@ == ctx.device.submissions@,
            r.ctx.device.presents@ == ctx.device.presents@,
            r.ctx.device.surface_generation == ctx.device.surface_generation,
            r.ctx.device.buffers@ == ctx.device.buffers@,
            r.ctx.device.images@ == ctx.device.images@,
    {
        let ghost c0 = ctx;
        let mut ctx = ctx;
        let mut frames_in_flight: Vec<Frame> = Vec::new();
        let mut n: usize = 0;
        while n < FRAMES_IN_FLIGHT
            invariant
                0 <= n <= FRAMES_IN_FLIGHT,
                frames_in_flight@.len() == n,
                ctx.device.wf(),
                ctx.physical_device == c0.physical_device,
                ctx.swapchain == c0.swapchain,
                ctx.graphics_queue == c0.graphics_queue,
                ctx.cmd_pool == c0.cmd_pool,
                ctx.device.buffers@ == c0.device.buffers@,
                ctx.device.images@ == c0.device.images@,
                ctx.device.submissions@ == c0.device.submissions@,
                ctx.device.presents@ == c0.device.presents@,
                ctx.device.surface_generation == c0.device.surface_generation,
                c0.wf(),
                ctx.device.command_buffers@.len() == c0.device.command_buffers@.len() + n,
                ctx.sync_pool.semaphores().len() == c0.sync_pool.semaphores().len() + 2 * n,
                ctx.sync_pool.fences().len() == c0.sync_pool.fences().len() + n,
                forall|k: int| 0 <= k < c0.sync_pool.semaphores().len()
                    ==> ctx.sync_pool.semaphores()[k] == c0.sync_pool.semaphores()[k],
                forall|k: int| 0 <= k < c0.sync_pool.fences().len() ==> ctx.sync_pool.fences()[k]
                    == c0.sync_pool.fences()[k],
                forall|i: int| 0 <= i < n ==> {
                    &&& (#[trigger] frames_in_flight@[i]).cmd_buf
                        == c0.device.command_buffers@.len() + i
                    &&& ctx.sync_pool.semaphores()[c0.sync_pool.semaphores().len() + 2 * i]
                        == frames_in_flight@[i].image_available_semaphore
                    &&& ctx.sync_pool.semaphores()[c0.sync_pool.semaphores().len() + 2 * i + 1]
                        == frames_in_flight@[i].render_finished_semaphore
                    &&& ctx.sync_pool.fences()[c0.sync_pool.fences().len() + i]
                        == frames_in_flight@[i].in_flight_fence
                },
                forall|i: int| 0 <= i < frames_in_flight@.len()
                    ==> (#[trigger] frames_in_flight@[i]).cmd_buf
                        < ctx.device.command_buffers@.len(),
            decreases FRAMES_IN_FLIGHT - n,
        {
            let cmd_buf = ctx.device.create_command_buffer();
            let image_available_semaphore = ctx.sync_pool.semaphore(&mut ctx.device);
            let render_finished_semaphore = ctx.sync_pool.semaphore(&mut ctx.device);
            let in_flight_fence = ctx.sync_pool.fence(&mut ctx.device, true);
            frames_in_flight.push(
                Frame {
                    image_available_semaphore,
                    render_finished_semaphore,
                    in_flight_fence,
                    cmd_buf,
                },
            );
            n += 1;
        }
        let render_pass = create_render_pass(&mut ctx.device, &ctx.physical_device);
        let descriptor_pool = ctx.device.create_object(ObjectKind::DescriptorPool);
        let texture_descriptor_set_layout = ctx.device.create_object(
            ObjectKind::DescriptorSetLayout,
        );
        let sampler = crate::texture::create_sampler(&mut ctx.device);
        Renderer {
            ctx,
            frames_in_flight,
            frame_number: 0,
            textures: HashMapWithView::new(),
            texture_descriptor_sets: HashMapWithView::new(),
            sampler,
            meshes: HashMapWithView::new(),
            pipelines: HashMapWithView::new(),
            surface_size: Extent2D { width: 0, height: 0 },
            new_surface_size: None,
            new_surface: None,
            descriptor_pool,
            texture_descriptor_set_layout,
            render_pass,
        }
    }

    /// The current frame slot index.
    pub fn frame_index(&self) -> (r: usize)
        ensures
            r == self.frame_number,
    {
        self.frame_number
    }

    /// Notes a new target surface size; the swapchain is recreated at the
    /// top of the next frame, not here.
    pub fn invalidate_surface_size(&mut self, new_size: Extent2D)
        ensures
            *final(self) == (Renderer { new_surface_size: Some(new_size), ..*old(self) }),
    {
        self.new_surface_size = Some(new_size);
    }

    /// Notes a replacement surface (the OS invalidated the old one) and
    /// its size; both take effect at the top of the next frame.
    pub fn invalidate_surface(&mut self, new_surface: Handle, new_size: Extent2D)
        ensures
            *final(self) == (Renderer {
                new_surface: Some(new_surface),
                new_surface_size: Some(new_size),
                ..*old(self)
            }),
    {
        self.new_surface_size = Some(new_size);
        self.new_surface = Some(new_surface);
    }

    /// Destroys the swapchain — depth buffer, cached framebuffers, image
    /// views and the surface — while the application is paused; frames
    /// are skipped until `resume`. Everything else — the context, the
    /// frame records and the resident-asset caches — is untouched.
    pub fn pause(&mut self)
        requires
            old(self).wf(),
        ensures
            final(self).wf(),
            final(self).ctx.swapchain is None,
            (old(self).ctx.swapchain matches Some(sc) ==> {
                &&& !final(self).ctx.device.images@[sc.depth_buffer.image as int].alive
                &&& final(self).ctx.device.images@.len() == old(self).ctx.device.images@.len()
                &&& forall|i: int| 0 <= i < old(self).ctx.device.images@.len() && i
                    != sc.depth_buffer.image ==> final(self).ctx.device.images@[i] == old(self).ctx.device.images@[i]
            }),
            old(self).ctx.swapchain is None ==> *final(self) == *old(self),
            final(self).ctx.device.buffers@ == old(self).ctx.device.buffers@,
            final(self).ctx.device.command_buffers@ == old(self).ctx.device.command_buffers@,
            final(self).ctx.device.plain@ == old(self).ctx.device.plain@,
            final(self).ctx.device.submissions@ == old(self).ctx.device.submissions@,
            final(self).ctx.device.presents@ == old(self).ctx.device.presents@,
            final(self).ctx.device.surface_generation == old(self).ctx.device.surface_generation,
            final(self).ctx.physical_device == old(self).ctx.physical_device,
            final(self).ctx.graphics_queue == old(self).ctx.graphics_queue,
            final(self).ctx.cmd_pool == old(self).ctx.cmd_pool,
            final(self).ctx.sync_pool == old(self).ctx.sync_pool,
            final(self).frames_in_flight@ == old(self).frames_in_flight@,
            final(self).frame_number == old(self).frame_number,
            final(self).textures@ == old(self).textures@,
            final(self).texture_descriptor_sets@ == old(self).texture_descriptor_sets@,
            final(self).meshes@ == old(self).meshes@,
            final(self).pipelines@ == old(self).pipelines@,
            final(self).surface_size == old(self).surface_size,
            final(self).new_surface_size == old(self).new_surface_size,
            final(self).new_surface == old(self).new_surface,
            final(self).sampler == old(self).sampler,
            final(self).descriptor_pool == old(self).descriptor_pool,
            final(self).texture_descriptor_set_layout == old(self).texture_descriptor_set_layout,
            final(self).render_pass == old(self).render_pass,
    {
        let mut swapchain = self.ctx.swapchain.take();
        match &mut swapchain {
            Some(sc) => {
                sc.destroy(&mut self.ctx.device);
            },
            None => {},
        }
    }

    /// Tears the renderer's device-level state down in construction's
    /// reverse order, as far as the model reaches. The caller first idles
    /// the queue and destroys each resident texture and submesh through
    /// its per-resource `destroy` — the registry owner knows the
    /// identifiers — then this releases the swapchain with its surface
    /// and every pooled synchronization primitive. The returned handles
    /// are the pooled primitives the driver must now destroy, before the
    /// command pool, device and instance go.
    pub fn destroy(&mut self) -> (r: Vec<Handle>)
        requires
            old(self).wf(),
        ensures
            final(self).wf(),
            final(self).ctx.swapchain is None,
            final(self).ctx.sync_pool.semaphores() == Seq::<Handle>::empty(),
            final(self).ctx.sync_pool.fences() == Seq::<Handle>::empty(),
            r@ == old(self).ctx.sync_pool.semaphores() + old(self).ctx.sync_pool.fences(),
            (old(self).ctx.swapchain matches Some(sc)
                ==> !final(self).ctx.device.images@[sc.depth_buffer.image as int].alive),
            final(self).ctx.device.buffers@ == old(self).ctx.device.buffers@,
            final(self).ctx.device.command_buffers@ == old(self).ctx.device.command_buffers@,
            final(self).ctx.device.submissions@ == old(self).ctx.device.submissions@,
            final(self).ctx.device.presents@ == old(self).ctx.device.presents@,
            final(self).textures@ == old(self).textures@,
            final(self).meshes@ == old(self).meshes@,
            final(self).pipelines@ == old(self).pipelines@,
    {
        self.ctx.destroy()
    }

    /// Rebuilds the swapchain around the replacement surface noted while
    /// paused. Fails — touching nothing — when no replacement surface and
    /// size were noted: there is nothing to rebuild against.
    pub fn resume(&mut self) -> (r: Result<(), EngineError>)
        requires
            old(self).wf(),
        ensures
            final(self).wf(),
            r is Ok <==> (old(self).new_surface_size is Some && old(self).new_surface is Some),
            r matches Err(e) ==> e == EngineError::SwapchainMissing && *final(self) == *old(self),
            r is Ok ==> ({
                &&& final(self).ctx.swapchain matches Some(sc)
                &&& old(self).new_surface matches Some(s)
                &&& old(self).new_surface_size matches Some(sz)
                &&& sc.surface == s
                &&& sc.image_extent == crate::swapchain::spec_compute_extent(
                    old(self).ctx.physical_device.surface_capabilities,
                    sz,
                )
                &&& sc.generation == old(self).ctx.device.surface_generation
                &&& final(self).surface_size == sz
                &&& final(self).new_surface_size is None
                &&& final(self).new_surface is None
                &&& final(self).frame_number == old(self).frame_number
                &&& final(self).ctx.device.submissions@ == old(self).ctx.device.submissions@
                &&& final(self).ctx.device.presents@ == old(self).ctx.device.presents@
            }),
    {
        let new_size = match self.new_surface_size {
            Some(s) => s,
            None => {
                return Err(EngineError::SwapchainMissing);
            },
        };
        let surface = match self.new_surface {
            Some(s) => s,
            None => {
                return Err(EngineError::SwapchainMissing);
            },
        };
        self.surface_size = new_size;
        let swapchain = match crate::swapchain::Swapchain::new(
            &mut self.ctx.device,
            &self.ctx.physical_device,
            self.ctx.graphics_queue,
            surface,
            &self.surface_size,
        ) {
            Ok(sc) => sc,
            Err(e) => {
                return Err(e);
            },
        };
        self.ctx.swapchain = Some(swapchain);
        self.new_surface_size = None;
        self.new_surface = None;
        Ok(())
    }

    /// Every registered texture has a resident image.
    pub open spec fn textures_resident(self, assets: Assets) -> bool {
        forall|i: int| 0 <= i < assets.spec_texture_order().len()
            ==> self.textures@.contains_key(#[trigger] assets.spec_texture_order()[i])
    }

    /// Distinct resident textures sample distinct descriptor sets.
    pub open spec fn descriptor_sets_injective(self) -> bool {
        forall|a: AssetId, b: AssetId|
            #![trigger self.texture_descriptor_sets@[a], self.texture_descriptor_sets@[b]]
            self.texture_descriptor_sets@.contains_key(a)
                && self.texture_descriptor_sets@.contains_key(b) && a != b
                ==> self.texture_descriptor_sets@[a] != self.texture_descriptor_sets@[b]
    }

    /// Every submesh of mesh `m` has resident buffers and a pipeline for
    /// its material.
    pub open spec fn mesh_loaded(self, m: crate::mesh::Mesh) -> bool {
        forall|j: int| 0 <= j < m.submeshes@.len() ==> {
            &&& self.meshes@.contains_key((#[trigger] m.submeshes@[j]).id)
            &&& self.pipelines@.contains_key(m.submeshes@[j].material_id)
        }
    }

    /// Every registered mesh is fully loaded.
    pub open spec fn meshes_resident(self, assets: Assets) -> bool {
        forall|i: int| 0 <= i < assets.spec_mesh_order().len() ==> self.mesh_loaded(
            assets.spec_meshes()[#[trigger] assets.spec_mesh_order()[i]],
        )
    }

    /// Every registered mesh's missing pipelines can be built from the
    /// registry: each submesh either has its pipeline already, or its
    /// material and both of that material's shaders are registered with
    /// well-formed bytecode.
    pub open spec fn meshes_loadable(self, assets: Assets) -> bool {
        forall|i: int| 0 <= i < assets.spec_mesh_order().len() ==> mesh_buildable(
            self.pipelines@,
            assets,
            assets.spec_meshes()[#[trigger] assets.spec_mesh_order()[i]],
        )
    }

    /// Uploads every registered texture that has no resident image yet —
    /// a second request for the same identifier is a no-op — then
    /// rebuilds the descriptor sets: exactly one per registered texture,
    /// one-to-one.
    pub fn use_textures(&mut self, assets: &Assets)
        requires
            old(self).wf(),
            assets.wf(),
        ensures
            final(self).wf(),
            forall|id: AssetId| #[trigger] final(self).texture_descriptor_sets@.contains_key(id)
                ==> assets.spec_texture_order().contains(id),
            final(self).descriptor_sets_injective(),
            forall|id: AssetId| #[trigger] old(self).textures@.contains_key(id) ==> final(self).textures@.contains_key(id) && final(self).textures@[id] == old(self).textures@[id],
            final(self).textures_resident(*assets),
            forall|id: AssetId| #[trigger] final(self).textures@.contains_key(id) ==> old(self).textures@.contains_key(id) || assets.spec_texture_order().contains(id),
            old(self).textures_resident(*assets) ==> {
                &&& final(self).textures@ == old(self).textures@
                &&& final(self).ctx.device.images@ == old(self).ctx.device.images@
                &&& final(self).ctx.device.buffers@ == old(self).ctx.device.buffers@
            },
            forall|i: int| 0 <= i < assets.spec_texture_order().len() ==> final(self).texture_descriptor_sets@.contains_key(#[trigger] assets.spec_texture_order()[i]),
            final(self).frame_number == old(self).frame_number,
            final(self).frames_in_flight@ == old(self).frames_in_flight@,
            final(self).meshes@ == old(self).meshes@,
            final(self).pipelines@ == old(self).pipelines@,
            final(self).surface_size == old(self).surface_size,
            final(self).new_surface_size == old(self).new_surface_size,
            final(self).new_surface == old(self).new_surface,
            final(self).render_pass == old(self).render_pass,
            final(self).ctx.swapchain == old(self).ctx.swapchain,
            final(self).ctx.physical_device == old(self).ctx.physical_device,
            final(self).ctx.device.submissions@ == old(self).ctx.device.submissions@,
            final(self).ctx.device.presents@ == old(self).ctx.device.presents@,
            final(self).ctx.device.command_buffers@ == old(self).ctx.device.command_buffers@,
            final(self).ctx.device.surface_generation == old(self).ctx.device.surface_generation,
    {
        let order_len = assets.textures().len();
        let mut i: usize = 0;
        while i < order_len
            invariant
                0 <= i <= order_len,
                order_len == assets.spec_texture_order().len(),
                assets.wf(),
                self.wf(),
                forall|id: AssetId| #[trigger] old(self).textures@.contains_key(id)
                    ==> self.textures@.contains_key(id) && self.textures@[id] == old(self).textures@[id],
                forall|j: int| 0 <= j < i ==> self.textures@.contains_key(
                    #[trigger] assets.spec_texture_order()[j],
                ),
                forall|id: AssetId| #[trigger] self.textures@.contains_key(id) ==> old(self).textures@.contains_key(id) || assets.spec_texture_order().contains(id),
                old(self).textures_resident(*assets) ==> {
                    &&& self.textures@ == old(self).textures@
                    &&& self.ctx.device.images@ == old(self).ctx.device.images@
                    &&& self.ctx.device.buffers@ == old(self).ctx.device.buffers@
                },
                self.frame_number == old(self).frame_number,
                self.frames_in_flight@ == old(self).frames_in_flight@,
                self.texture_descriptor_sets@ == old(self).texture_descriptor_sets@,
                self.meshes@ == old(self).meshes@,
                self.pipelines@ == old(self).pipelines@,
                self.surface_size == old(self).surface_size,
                self.new_surface_size == old(self).new_surface_size,
                self.new_surface == old(self).new_surface,
                self.render_pass == old(self).render_pass,
                self.sampler == old(self).sampler,
                self.descriptor_pool == old(self).descriptor_pool,
                self.texture_descriptor_set_layout == old(self).texture_descriptor_set_layout,
                self.ctx.swapchain == old(self).ctx.swapchain,
                self.ctx.physical_device == old(self).ctx.physical_device,
                self.ctx.graphics_queue == old(self).ctx.graphics_queue,
                self.ctx.cmd_pool == old(self).ctx.cmd_pool,
                self.ctx.sync_pool == old(self).ctx.sync_pool,
                self.ctx.device.submissions@ == old(self).ctx.device.submissions@,
                self.ctx.device.presents@ == old(self).ctx.device.presents@,
                self.ctx.device.command_buffers@ == old(self).ctx.device.command_buffers@,
                self.ctx.device.surface_generation == old(self).ctx.device.surface_generation,
            decreases order_len - i,
        {
            let id = assets.textures()[i];
            let ghost snap = *self;
            if !self.textures.contains_key(&id) {
                let t = match assets.texture(id) {
                    Some(t) => t,
                    None => {
                        proof {
                            assert(false);
                        }
                        vstd::pervasive::unreached()
                    },
                };
                let gpu = match t.load(&mut self.ctx.device, &self.ctx.physical_device) {
                    Ok(g) => g,
                    Err(_) => {
                        proof {
                            assert(false);
                        }
                        vstd::pervasive::unreached()
                    },
                };
                self.textures.insert(id, gpu);
                proof {
                    assert forall|k: AssetId| old(self).textures@.contains_key(k) implies
                        self.textures@.contains_key(k) && self.textures@[k] == old(self).textures@[k] by {
                        assert(snap.textures@.contains_key(k));
                        assert(k != id);
                    }
                    assert forall|k: AssetId| #[trigger] self.textures@.contains_key(k) implies
                        old(self).textures@.contains_key(k) || assets.spec_texture_order().contains(k) by {
                        if k != id {
                            assert(snap.textures@.contains_key(k));
                        } else {
                            assert(assets.spec_texture_order()[i as int] == id);
                        }
                    }
                }
            }
            i += 1;
        }
        self.texture_descriptor_sets = HashMapWithView::new();
        let mut j: usize = 0;
        while j < order_len
            invariant
                0 <= j <= order_len,
                order_len == assets.spec_texture_order().len(),
                assets.wf(),
                self.wf(),
                forall|k: int| 0 <= k < j ==> self.texture_descriptor_sets@.contains_key(
                    #[trigger] assets.spec_texture_order()[k],
                ),
                forall|id: AssetId| #[trigger] self.texture_descriptor_sets@.contains_key(id)
                    ==> (exists|k: int| 0 <= k < j && assets.spec_texture_order()[k] == id),
                forall|id: AssetId| #[trigger] self.texture_descriptor_sets@.contains_key(id)
                    ==> self.texture_descriptor_sets@[id] < self.ctx.device.plain@.len(),
                self.descriptor_sets_injective(),
                forall|id: AssetId| #[trigger] old(self).textures@.contains_key(id)
                    ==> self.textures@.contains_key(id) && self.textures@[id] == old(self).textures@[id],
                self.textures_resident(*assets),
                forall|id: AssetId| #[trigger] self.textures@.contains_key(id) ==> old(self).textures@.contains_key(id) || assets.spec_texture_order().contains(id),
                old(self).textures_resident(*assets) ==> {
                    &&& self.textures@ == old(self).textures@
                    &&& self.ctx.device.images@ == old(self).ctx.device.images@
                    &&& self.ctx.device.buffers@ == old(self).ctx.device.buffers@
                },
                self.frame_number == old(self).frame_number,
                self.frames_in_flight@ == old(self).frames_in_flight@,
                self.meshes@ == old(self).meshes@,
                self.pipelines@ == old(self).pipelines@,
                self.surface_size == old(self).surface_size,
                self.new_surface_size == old(self).new_surface_size,
                self.new_surface == old(self).new_surface,
                self.render_pass == old(self).render_pass,
                self.sampler == old(self).sampler,
                self.descriptor_pool == old(self).descriptor_pool,
                self.texture_descriptor_set_layout == old(self).texture_descriptor_set_layout,
                self.ctx.swapchain == old(self).ctx.swapchain,
                self.ctx.physical_device == old(self).ctx.physical_device,
                self.ctx.graphics_queue == old(self).ctx.graphics_queue,
                self.ctx.cmd_pool == old(self).ctx.cmd_pool,
                self.ctx.sync_pool == old(self).ctx.sync_pool,
                self.ctx.device.submissions@ == old(self).ctx.device.submissions@,
                self.ctx.device.presents@ == old(self).ctx.device.presents@,
                self.ctx.device.command_buffers@ == old(self).ctx.device.command_buffers@,
                self.ctx.device.surface_generation == old(self).ctx.device.surface_generation,
            decreases order_len - j,
        {
            let id = assets.textures()[j];
            let ghost pre = *self;
            let ds = self.ctx.device.create_object(ObjectKind::DescriptorSet);
            self.texture_descriptor_sets.insert(id, ds);
            proof {
                assert forall|a: AssetId| #[trigger] self.texture_descriptor_sets@.contains_key(
                    a,
                ) implies self.texture_descriptor_sets@[a] < self.ctx.device.plain@.len() by {
                    if a != id {
                        assert(pre.texture_descriptor_sets@.contains_key(a));
                    }
                }
                assert forall|a: AssetId, b: AssetId|
                    #![trigger self.texture_descriptor_sets@[a], self.texture_descriptor_sets@[b]]
                    self.texture_descriptor_sets@.contains_key(a)
                        && self.texture_descriptor_sets@.contains_key(b) && a
                        != b implies self.texture_descriptor_sets@[a]
                    != self.texture_descriptor_sets@[b] by {
                    if a == id {
                        assert(pre.texture_descriptor_sets@.contains_key(b));
                        assert(pre.texture_descriptor_sets@[b] < pre.ctx.device.plain@.len());
                    } else if b == id {
                        assert(pre.texture_descriptor_sets@.contains_key(a));
                        assert(pre.texture_descriptor_sets@[a] < pre.ctx.device.plain@.len());
                    } else {
                        assert(pre.texture_descriptor_sets@.contains_key(a));
                        assert(pre.texture_descriptor_sets@.contains_key(b));
                    }
                }
                assert forall|a: AssetId| #[trigger] self.texture_descriptor_sets@.contains_key(
                    a,
                ) implies (exists|k: int| 0 <= k < j + 1 && assets.spec_texture_order()[k]
                    == a) by {
                    if a == id {
                        assert(assets.spec_texture_order()[j as int] == a);
                    } else {
                        assert(pre.texture_descriptor_sets@.contains_key(a));
                        let w = choose|k: int|
                            0 <= k < j && assets.spec_texture_order()[k] == a;
                        assert(0 <= w < j + 1 && assets.spec_texture_order()[w] == a);
                    }
                }
            }
            j += 1;
        }
        proof {
            assert forall|id: AssetId| #[trigger] self.texture_descriptor_sets@.contains_key(
                id,
            ) implies assets.spec_texture_order().contains(id) by {
                let w = choose|k: int|
                    0 <= k < order_len && assets.spec_texture_order()[k] == id;
                assert(assets.spec_texture_order()[w] == id);
            }
        }
    }
}

impl Renderer {
    /// Uploads vertex and index buffers for every submesh that has none
    /// yet — a second request for the same identifier is a no-op — and
    /// builds the pipeline of every material that has none. Fails fatally
    /// when a submesh's material, or one of that material's shaders, was
    /// never registered, or when shader bytecode is malformed.
    pub fn use_meshes(&mut self, assets: &Assets) -> (r: Result<(), EngineError>)
        requires
            old(self).wf(),
            assets.wf(),
        ensures
            final(self).wf(),
            r is Ok <==> old(self).meshes_loadable(*assets),
            r is Ok ==> final(self).meshes_resident(*assets),
            forall|id: AssetId| #[trigger] old(self).meshes@.contains_key(id) ==> final(self).meshes@.contains_key(id) && final(self).meshes@[id] == old(self).meshes@[id],
            forall|id: AssetId| #[trigger] old(self).pipelines@.contains_key(id) ==> final(self).pipelines@.contains_key(id) && final(self).pipelines@[id] == old(self).pipelines@[id],
            forall|id: AssetId| #[trigger] final(self).pipelines@.contains_key(id) ==> old(self).pipelines@.contains_key(id) || material_buildable(*assets, id),
            old(self).meshes_resident(*assets) ==> {
                &&& final(self).meshes@ == old(self).meshes@
                &&& final(self).pipelines@ == old(self).pipelines@
                &&& final(self).ctx.device.buffers@ == old(self).ctx.device.buffers@
                &&& final(self).ctx.device.plain@ == old(self).ctx.device.plain@
            },
            r matches Err(e) ==> match e {
                EngineError::MissingMaterial(id) => !assets.spec_materials().contains_key(id),
                EngineError::MissingShader(id) => !assets.spec_shaders().contains_key(id),
                EngineError::MalformedShader => true,
                _ => false,
            },
            final(self).textures@ == old(self).textures@,
            final(self).texture_descriptor_sets@ == old(self).texture_descriptor_sets@,
            final(self).frame_number == old(self).frame_number,
            final(self).frames_in_flight@ == old(self).frames_in_flight@,
            final(self).surface_size == old(self).surface_size,
            final(self).new_surface_size == old(self).new_surface_size,
            final(self).new_surface == old(self).new_surface,
            final(self).render_pass == old(self).render_pass,
            final(self).ctx.swapchain == old(self).ctx.swapchain,
            final(self).ctx.physical_device == old(self).ctx.physical_device,
            final(self).ctx.device.images@ == old(self).ctx.device.images@,
            final(self).ctx.device.submissions@ == old(self).ctx.device.submissions@,
            final(self).ctx.device.presents@ == old(self).ctx.device.presents@,
            final(self).ctx.device.command_buffers@ == old(self).ctx.device.command_buffers@,
            final(self).ctx.device.surface_generation == old(self).ctx.device.surface_generation,
    {
        let order_len = assets.meshes().len();
        let mut i: usize = 0;
        while i < order_len
            invariant
                0 <= i <= order_len,
                order_len == assets.spec_mesh_order().len(),
                assets.wf(),
                self.wf(),
                forall|id: AssetId| #[trigger] old(self).meshes@.contains_key(id)
                    ==> self.meshes@.contains_key(id) && self.meshes@[id] == old(self).meshes@[id],
                forall|id: AssetId| #[trigger] old(self).pipelines@.contains_key(id)
                    ==> self.pipelines@.contains_key(id) && self.pipelines@[id] == old(self).pipelines@[id],
                forall|id: AssetId| #[trigger] self.pipelines@.contains_key(id) ==> old(self).pipelines@.contains_key(id) || material_buildable(*assets, id),
                forall|k: int| 0 <= k < i ==> self.mesh_loaded(
                    assets.spec_meshes()[#[trigger] assets.spec_mesh_order()[k]],
                ),
                forall|k: int| 0 <= k < i ==> mesh_buildable(
                    old(self).pipelines@,
                    *assets,
                    assets.spec_meshes()[#[trigger] assets.spec_mesh_order()[k]],
                ),
                old(self).meshes_resident(*assets) ==> {
                    &&& self.meshes@ == old(self).meshes@
                    &&& self.pipelines@ == old(self).pipelines@
                    &&& self.ctx.device.buffers@ == old(self).ctx.device.buffers@
                    &&& self.ctx.device.plain@ == old(self).ctx.device.plain@
                },
                self.textures@ == old(self).textures@,
                self.texture_descriptor_sets@ == old(self).texture_descriptor_sets@,
                self.frame_number == old(self).frame_number,
                self.frames_in_flight@ == old(self).frames_in_flight@,
                self.surface_size == old(self).surface_size,
                self.new_surface_size == old(self).new_surface_size,
                self.new_surface == old(self).new_surface,
                self.render_pass == old(self).render_pass,
                self.sampler == old(self).sampler,
                self.descriptor_pool == old(self).descriptor_pool,
                self.texture_descriptor_set_layout == old(self).texture_descriptor_set_layout,
                self.ctx.swapchain == old(self).ctx.swapchain,
                self.ctx.physical_device == old(self).ctx.physical_device,
                self.ctx.graphics_queue == old(self).ctx.graphics_queue,
                self.ctx.cmd_pool == old(self).ctx.cmd_pool,
                self.ctx.sync_pool == old(self).ctx.sync_pool,
                self.ctx.device.images@ == old(self).ctx.device.images@,
                self.ctx.device.submissions@ == old(self).ctx.device.submissions@,
                self.ctx.device.presents@ == old(self).ctx.device.presents@,
                self.ctx.device.command_buffers@ == old(self).ctx.device.command_buffers@,
                self.ctx.device.surface_generation == old(self).ctx.device.surface_generation,
            decreases order_len - i,
        {
            let mesh_id = assets.meshes()[i];
            let mesh = match assets.mesh(mesh_id) {
                Some(m) => m,
                None => {
                    proof {
                        assert(false);
                    }
                    vstd::pervasive::unreached()
                },
            };
            let submesh_count = mesh.submeshes.len();
            let mut j: usize = 0;
            while j < submesh_count
                invariant
                    0 <= j <= submesh_count,
                    0 <= i < order_len,
                    order_len == assets.spec_mesh_order().len(),
                    assets.wf(),
                    self.wf(),
                    mesh_id == assets.spec_mesh_order()[i as int],
                    assets.spec_meshes().contains_key(mesh_id),
                    *mesh == assets.spec_meshes()[mesh_id],
                    submesh_count == mesh.submeshes@.len(),
                    forall|id: AssetId| #[trigger] old(self).meshes@.contains_key(id)
                        ==> self.meshes@.contains_key(id) && self.meshes@[id] == old(self).meshes@[id],
                    forall|id: AssetId| #[trigger] old(self).pipelines@.contains_key(id)
                        ==> self.pipelines@.contains_key(id) && self.pipelines@[id] == old(self).pipelines@[id],
                    forall|id: AssetId| #[trigger] self.pipelines@.contains_key(id) ==> old(self).pipelines@.contains_key(id) || material_buildable(*assets, id),
                    forall|k: int| 0 <= k < i ==> self.mesh_loaded(
                        assets.spec_meshes()[#[trigger] assets.spec_mesh_order()[k]],
                    ),
                    forall|k: int| 0 <= k < i ==> mesh_buildable(
                        old(self).pipelines@,
                        *assets,
                        assets.spec_meshes()[#[trigger] assets.spec_mesh_order()[k]],
                    ),
                    forall|l: int| 0 <= l < j ==> {
                        &&& self.meshes@.contains_key((#[trigger] mesh.submeshes@[l]).id)
                        &&& self.pipelines@.contains_key(mesh.submeshes@[l].material_id)
                        &&& (old(self).pipelines@.contains_key(mesh.submeshes@[l].material_id)
                            || material_buildable(*assets, mesh.submeshes@[l].material_id))
                    },
                    old(self).meshes_resident(*assets) ==> {
                        &&& self.meshes@ == old(self).meshes@
                        &&& self.pipelines@ == old(self).pipelines@
                        &&& self.ctx.device.buffers@ == old(self).ctx.device.buffers@
                        &&& self.ctx.device.plain@ == old(self).ctx.device.plain@
                    },
                    self.textures@ == old(self).textures@,
                    self.texture_descriptor_sets@ == old(self).texture_descriptor_sets@,
                    self.frame_number == old(self).frame_number,
                    self.frames_in_flight@ == old(self).frames_in_flight@,
                    self.surface_size == old(self).surface_size,
                    self.new_surface_size == old(self).new_surface_size,
                    self.new_surface == old(self).new_surface,
                    self.render_pass == old(self).render_pass,
                    self.sampler == old(self).sampler,
                    self.descriptor_pool == old(self).descriptor_pool,
                    self.texture_descriptor_set_layout == old(self).texture_descriptor_set_layout,
                    self.ctx.swapchain == old(self).ctx.swapchain,
                    self.ctx.physical_device == old(self).ctx.physical_device,
                    self.ctx.graphics_queue == old(self).ctx.graphics_queue,
                    self.ctx.cmd_pool == old(self).ctx.cmd_pool,
                    self.ctx.sync_pool == old(self).ctx.sync_pool,
                    self.ctx.device.images@ == old(self).ctx.device.images@,
                    self.ctx.device.submissions@ == old(self).ctx.device.submissions@,
                    self.ctx.device.presents@ == old(self).ctx.device.presents@,
                    self.ctx.device.command_buffers@ == old(self).ctx.device.command_buffers@,
                    self.ctx.device.surface_generation == old(self).ctx.device.surface_generation,
                decreases submesh_count - j,
            {
                let sm = mesh.submeshes[j];
                if !self.meshes.contains_key(&sm.id) {
                    let ghost snap = *self;
                    let vb = match memory::create_vertex_buffer(
                        &mut self.ctx.device,
                        &self.ctx.physical_device,
                        &mesh.vertices,
                    ) {
                        Ok(h) => h,
                        Err(_) => {
                            proof {
                                assert(false);
                            }
                            vstd::pervasive::unreached()
                        },
                    };
                    let ib = match memory::create_index_buffer(
                        &mut self.ctx.device,
                        &self.ctx.physical_device,
                        &mesh.indices,
                        sm.start_index,
                        sm.end_index,
                    ) {
                        Ok(h) => h,
                        Err(_) => {
                            proof {
                                assert(false);
                            }
                            vstd::pervasive::unreached()
                        },
                    };
                    self.meshes.insert(
                        sm.id,
                        LoadedSubmesh {
                            id: sm.id,
                            material_id: sm.material_id,
                            vertex_buf: VertexBuffer { handle: vb },
                            index_buf: IndexBuffer {
                                handle: ib,
                                index_count: sm.end_index - sm.start_index,
                            },
                        },
                    );
                    proof {
                        assert forall|id: AssetId| #[trigger] old(self).meshes@.contains_key(id)
                            implies self.meshes@.contains_key(id) && self.meshes@[id] == old(self).meshes@[id] by {
                            assert(snap.meshes@.contains_key(id));
                            assert(id != sm.id);
                        }
                    }
                }
                if !self.pipelines.contains_key(&sm.material_id) {
                    let material = match assets.material(sm.material_id) {
                        Some(m) => *m,
                        None => {
                            proof {
                                lemma_unbuildable(
                                    *old(self),
                                    *assets,
                                    i as int,
                                    j as int,
                                    *mesh,
                                    *self,
                                );
                            }
                            return Err(EngineError::MissingMaterial(sm.material_id));
                        },
                    };
                    let vs = match assets.shader(material.vertex_shader_id) {
                        Some(s) => s,
                        None => {
                            proof {
                                lemma_unbuildable(
                                    *old(self),
                                    *assets,
                                    i as int,
                                    j as int,
                                    *mesh,
                                    *self,
                                );
                            }
                            return Err(EngineError::MissingShader(material.vertex_shader_id));
                        },
                    };
                    let vsi = match vs.into_initialized(&mut self.ctx.device) {
                        Ok(s) => s,
                        Err(e) => {
                            proof {
                                lemma_unbuildable(
                                    *old(self),
                                    *assets,
                                    i as int,
                                    j as int,
                                    *mesh,
                                    *self,
                                );
                            }
                            return Err(e);
                        },
                    };
                    let fs = match assets.shader(material.fragment_shader_id) {
                        Some(s) => s,
                        None => {
                            proof {
                                lemma_unbuildable(
                                    *old(self),
                                    *assets,
                                    i as int,
                                    j as int,
                                    *mesh,
                                    *self,
                                );
                            }
                            return Err(EngineError::MissingShader(material.fragment_shader_id));
                        },
                    };
                    let fsi = match fs.into_initialized(&mut self.ctx.device) {
                        Ok(s) => s,
                        Err(e) => {
                            proof {
                                lemma_unbuildable(
                                    *old(self),
                                    *assets,
                                    i as int,
                                    j as int,
                                    *mesh,
                                    *self,
                                );
                            }
                            return Err(e);
                        },
                    };
                    let ghost snap = *self;
                    let pipeline = create_pipeline(
                        &mut self.ctx.device,
                        self.render_pass,
                        vsi.stage_info(),
                        fsi.stage_info(),
                        crate::geometry::PrimitiveType::Triangles,
                        self.texture_descriptor_set_layout,
                    );
                    self.pipelines.insert(sm.material_id, pipeline);
                    proof {
                        assert forall|id: AssetId| #[trigger] old(self).pipelines@.contains_key(
                            id,
                        ) implies self.pipelines@.contains_key(id) && self.pipelines@[id] == old(self).pipelines@[id] by {
                            assert(snap.pipelines@.contains_key(id));
                            assert(id != sm.material_id);
                        }
                        assert forall|id: AssetId| #[trigger] self.pipelines@.contains_key(id)
                            implies old(self).pipelines@.contains_key(id) || material_buildable(
                            *assets,
                            id,
                        ) by {
                            if id != sm.material_id {
                                assert(snap.pipelines@.contains_key(id));
                            }
                        }
                    }
                }
                j += 1;
            }
            i += 1;
        }
        Ok(())
    }
}

impl Renderer {
    /// A submesh can be drawn: resident buffers, a pipeline for its
    /// material, the material itself, and a descriptor set for the
    /// material's texture.
    pub open spec fn submesh_drawable(self, assets: Assets, sm: Submesh) -> bool {
        &&& self.meshes@.contains_key(sm.id)
        &&& self.pipelines@.contains_key(sm.material_id)
        &&& assets.spec_materials().contains_key(sm.material_id)
        &&& self.texture_descriptor_sets@.contains_key(
            assets.spec_materials()[sm.material_id].texture_id,
        )
    }

    /// A drawable references a registered mesh, all of whose submeshes
    /// can be drawn.
    pub open spec fn object_drawable(self, assets: Assets, o: DrawObject) -> bool {
        &&& assets.spec_meshes().contains_key(o.mesh_id)
        &&& forall|j: int| 0 <= j < assets.spec_meshes()[o.mesh_id].submeshes@.len()
            ==> self.submesh_drawable(
                assets,
                #[trigger] assets.spec_meshes()[o.mesh_id].submeshes@[j],
            )
    }

    /// Every drawable of the tick can be drawn. Referencing an asset with
    /// no resident GPU handle is a caller contract violation and fatal.
    pub open spec fn objects_drawable(self, assets: Assets, objects: Seq<DrawObject>) -> bool {
        forall|i: int| 0 <= i < objects.len() ==> self.object_drawable(
            assets,
            #[trigger] objects[i],
        )
    }

    /// The six commands drawing one submesh: bind the material's
    /// pipeline, the submesh's vertex and index buffers, push the
    /// drawable's matrix, bind the texture's descriptor set, draw.
    pub open spec fn submesh_commands(self, assets: Assets, o: DrawObject, sm: Submesh) -> Seq<
        Command,
    > {
        seq![
            Command::BindPipeline(self.pipelines@[sm.material_id].handle),
            Command::BindVertexBuffer(self.meshes@[sm.id].vertex_buf.handle),
            Command::BindIndexBuffer(self.meshes@[sm.id].index_buf.handle),
            Command::PushConstants(o.mvp),
            Command::BindDescriptorSet(
                self.texture_descriptor_sets@[assets.spec_materials()[sm.material_id].texture_id],
            ),
            Command::DrawIndexed { index_count: self.meshes@[sm.id].index_buf.index_count },
        ]
    }

    /// The commands of the first `n` submeshes of one drawable, in
    /// submesh order.
    pub open spec fn object_commands_upto(self, assets: Assets, o: DrawObject, n: int) -> Seq<
        Command,
    >
        decreases n,
    {
        if n <= 0 {
            Seq::empty()
        } else {
            self.object_commands_upto(assets, o, n - 1) + self.submesh_commands(
                assets,
                o,
                assets.spec_meshes()[o.mesh_id].submeshes@[n - 1],
            )
        }
    }

    /// Every command one drawable records.
    pub open spec fn object_commands(self, assets: Assets, o: DrawObject) -> Seq<Command> {
        self.object_commands_upto(
            assets,
            o,
            assets.spec_meshes()[o.mesh_id].submeshes@.len() as int,
        )
    }

    /// The commands of the first `n` drawables, in order.
    pub open spec fn objects_commands_upto(
        self,
        assets: Assets,
        objects: Seq<DrawObject>,
        n: int,
    ) -> Seq<Command>
        decreases n,
    {
        if n <= 0 {
            Seq::empty()
        } else {
            self.objects_commands_upto(assets, objects, n - 1) + self.object_commands(
                assets,
                objects[n - 1],
            )
        }
    }

    /// The whole command buffer of one successful frame: begin the render
    /// pass on the acquired framebuffer, set the dynamic viewport and
    /// scissor to the chain's current extent, draw every drawable in
    /// order, end the render pass.
    pub open spec fn frame_commands(
        self,
        assets: Assets,
        objects: Seq<DrawObject>,
        framebuffer: Handle,
        extent: Extent2D,
    ) -> Seq<Command> {
        seq![
            Command::BeginRenderPass { render_pass: self.render_pass, framebuffer, extent },
            Command::SetViewport(extent),
            Command::SetScissor(extent),
        ] + self.objects_commands_upto(assets, objects, objects.len() as int) + seq![
            Command::EndRenderPass,
        ]
    }

    /// Checks that every drawable can be drawn, reporting the first
    /// missing resource. Touches nothing.
    fn validate_objects(&self, objects: &Vec<DrawObject>, assets: &Assets) -> (r: Result<
        (),
        EngineError,
    >)
        ensures
            r is Ok <==> self.objects_drawable(*assets, objects@),
            r matches Err(e) ==> match e {
                EngineError::MissingMesh(id) => !assets.spec_meshes().contains_key(id)
                    || !self.meshes@.contains_key(id),
                EngineError::MissingMaterial(id) => !self.pipelines@.contains_key(id)
                    || !assets.spec_materials().contains_key(id),
                EngineError::MissingTexture(id) => !self.texture_descriptor_sets@.contains_key(
                    id,
                ),
                _ => false,
            },
    {
        let mut i: usize = 0;
        while i < objects.len()
            invariant
                0 <= i <= objects@.len(),
                forall|k: int| 0 <= k < i ==> self.object_drawable(
                    *assets,
                    #[trigger] objects@[k],
                ),
            decreases objects@.len() - i,
        {
            let o = objects[i];
            let mesh = match assets.mesh(o.mesh_id) {
                Some(m) => m,
                None => {
                    return Err(EngineError::MissingMesh(o.mesh_id));
                },
            };
            let mut j: usize = 0;
            while j < mesh.submeshes.len()
                invariant
                    0 <= j <= mesh.submeshes@.len(),
                    0 <= i < objects@.len(),
                    o == objects@[i as int],
                    assets.spec_meshes().contains_key(o.mesh_id),
                    *mesh == assets.spec_meshes()[o.mesh_id],
                    forall|l: int| 0 <= l < j ==> self.submesh_drawable(
                        *assets,
                        #[trigger] mesh.submeshes@[l],
                    ),
                decreases mesh.submeshes@.len() - j,
            {
                let sm = mesh.submeshes[j];
                if !self.meshes.contains_key(&sm.id) {
                    return Err(EngineError::MissingMesh(sm.id));
                }
                if !self.pipelines.contains_key(&sm.material_id) {
                    return Err(EngineError::MissingMaterial(sm.material_id));
                }
                let material = match assets.material(sm.material_id) {
                    Some(m) => *m,
                    None => {
                        return Err(EngineError::MissingMaterial(sm.material_id));
                    },
                };
                if !self.texture_descriptor_sets.contains_key(&material.texture_id) {
                    return Err(EngineError::MissingTexture(material.texture_id));
                }
                j += 1;
            }
            i += 1;
        }
        Ok(())
    }

    /// One tick of the frame loop. With no swapchain the tick is a no-op.
    /// When the chain is stale or a resize is pending, the chain is
    /// recreated against the latest known size (and replacement surface,
    /// if one was noted) and nothing is recorded, submitted or presented
    /// this tick — the frame index does not advance. Otherwise the
    /// drawables are recorded into the current frame's command buffer,
    /// the buffer is submitted waiting on the frame's image-available
    /// semaphore and signaling its render-finished semaphore and fence,
    /// the image is presented waiting on render-finished, and the frame
    /// index advances by one modulo the number of slots.
    pub fn draw(&mut self, objects: &Vec<DrawObject>, assets: &Assets) -> (r: Result<
        DrawOutcome,
        EngineError,
    >)
        requires
            old(self).wf(),
            assets.wf(),
        ensures
            final(self).wf(),
            tick_preserves(*old(self), *final(self)),
            old(self).ctx.swapchain is None ==> r == Ok::<DrawOutcome, EngineError>(
                DrawOutcome::Paused,
            ) && *final(self) == *old(self),
            ({
                &&& old(self).ctx.swapchain matches Some(sc)
                &&& (sc.generation != old(self).ctx.device.surface_generation || old(self).new_surface_size is Some)
            }) ==> ({
                &&& r == Ok::<DrawOutcome, EngineError>(DrawOutcome::SkippedRecreated)
                &&& final(self).ctx.device.submissions@ == old(self).ctx.device.submissions@
                &&& final(self).ctx.device.presents@ == old(self).ctx.device.presents@
                &&& final(self).ctx.device.command_buffers@ == old(self).ctx.device.command_buffers@
                &&& final(self).frame_number == old(self).frame_number
                &&& final(self).surface_size == (match old(self).new_surface_size {
                    Some(sz) => sz,
                    None => old(self).surface_size,
                })
                &&& (final(self).ctx.swapchain matches Some(sc2) && {
                    &&& sc2.generation == old(self).ctx.device.surface_generation
                    &&& sc2.framebuffers is None
                    &&& sc2.image_extent == crate::swapchain::spec_compute_extent(
                        old(self).ctx.physical_device.surface_capabilities,
                        final(self).surface_size,
                    )
                })
                &&& final(self).new_surface_size is None
                &&& final(self).new_surface is None
            }),
            ({
                &&& old(self).ctx.swapchain matches Some(sc)
                &&& sc.generation == old(self).ctx.device.surface_generation
                &&& old(self).new_surface_size is None
            }) ==> ({
                let sc = old(self).ctx.swapchain->0;
                let frame = old(self).frames_in_flight@[old(self).frame_number as int];
                &&& (r is Err <==> !old(self).objects_drawable(*assets, objects@))
                &&& (r matches Err(e) ==> match e {
                    EngineError::MissingMesh(id) => !assets.spec_meshes().contains_key(id)
                        || !old(self).meshes@.contains_key(id),
                    EngineError::MissingMaterial(id) => !old(self).pipelines@.contains_key(id)
                        || !assets.spec_materials().contains_key(id),
                    EngineError::MissingTexture(id) => !old(self).texture_descriptor_sets@.contains_key(id),
                    _ => false,
                })
                &&& (r is Err ==> {
                    &&& final(self).ctx.device.submissions@ == old(self).ctx.device.submissions@
                    &&& final(self).ctx.device.presents@ == old(self).ctx.device.presents@
                    &&& final(self).ctx.device.command_buffers@ == old(self).ctx.device.command_buffers@
                    &&& final(self).frame_number == old(self).frame_number
                    &&& final(self).ctx.device.images@ == old(self).ctx.device.images@
                    &&& final(self).surface_size == old(self).surface_size
                    &&& final(self).new_surface_size == old(self).new_surface_size
                    &&& final(self).new_surface == old(self).new_surface
                    &&& (final(self).ctx.swapchain matches Some(sc2) && sc2 == (
                    crate::swapchain::Swapchain { next_image: sc2.next_image, ..sc }))
                })
                &&& (r matches Ok(outcome) ==> {
                    &&& outcome == (DrawOutcome::Drawn { image_index: sc.next_image })
                    &&& final(self).frame_number == (old(self).frame_number + 1) % (
                    FRAMES_IN_FLIGHT as int)
                    &&& final(self).ctx.device.submissions@ == old(self).ctx.device.submissions@.push(
                        Submission {
                            command_buffer: frame.cmd_buf,
                            wait_semaphore: frame.image_available_semaphore,
                            signal_semaphore: frame.render_finished_semaphore,
                            signal_fence: frame.in_flight_fence,
                        },
                    )
                    &&& final(self).ctx.device.presents@ == old(self).ctx.device.presents@.push(
                        PresentOp {
                            swapchain: sc.handle,
                            image_index: sc.next_image,
                            wait_semaphore: frame.render_finished_semaphore,
                        },
                    )
                    &&& (final(self).ctx.swapchain matches Some(sc2)
                        && sc2.framebuffers matches Some(fbs) && fbs@.len() == sc.image_count
                        && final(self).ctx.device.command_buffers@[frame.cmd_buf as int].commands@
                        == old(self).frame_commands(
                        *assets,
                        objects@,
                        fbs@[sc.next_image as int],
                        sc.image_extent,
                    ) && sc2.generation == sc.generation && sc2.image_extent == sc.image_extent
                        && sc2.image_count == sc.image_count && sc2.handle == sc.handle
                        && sc2.surface == sc.surface && sc2.present_queue == sc.present_queue)
                    &&& !final(self).ctx.device.command_buffers@[frame.cmd_buf as int].recording
                    &&& final(self).ctx.device.images@ == old(self).ctx.device.images@
                    &&& final(self).surface_size == old(self).surface_size
                    &&& final(self).new_surface_size == old(self).new_surface_size
                    &&& final(self).new_surface == old(self).new_surface
                    &&& final(self).ctx.device.command_buffers@.len() == old(self).ctx.device.command_buffers@.len()
                    &&& forall|cb: int| 0 <= cb < old(self).ctx.device.command_buffers@.len()
                        && cb != frame.cmd_buf ==> final(self).ctx.device.command_buffers@[cb]
                        == old(self).ctx.device.command_buffers@[cb]
                })
            }),
    {
        if self.ctx.swapchain.is_none() {
            return Ok(DrawOutcome::Paused);
        }
        let frame = self.frames_in_flight[self.frame_number];
        let acquired: Option<u32> = match &mut self.ctx.swapchain {
            Some(sc) => sc.acquire_image(
                &self.ctx.device,
                frame.in_flight_fence,
                frame.image_available_semaphore,
            ),
            None => {
                proof {
                    assert(false);
                }
                vstd::pervasive::unreached()
            },
        };
        if acquired.is_none() || self.new_surface_size.is_some() {
            match self.new_surface_size {
                Some(sz) => {
                    self.surface_size = sz;
                },
                None => {},
            }
            let recreated: Result<(), EngineError> = match &mut self.ctx.swapchain {
                Some(sc) => sc.recreate(
                    &mut self.ctx.device,
                    &self.ctx.physical_device,
                    self.new_surface,
                    &self.surface_size,
                ),
                None => {
                    proof {
                        assert(false);
                    }
                    vstd::pervasive::unreached()
                },
            };
            proof {
                assert(recreated is Ok);
            }
            self.new_surface = None;
            self.new_surface_size = None;
            return Ok(DrawOutcome::SkippedRecreated);
        }
        let image_index = match acquired {
            Some(ix) => ix,
            None => {
                proof {
                    assert(false);
                }
                vstd::pervasive::unreached()
            },
        };
        match self.validate_objects(objects, assets) {
            Ok(()) => {},
            Err(e) => {
                proof {
                    lemma_drawable_congruence(*old(self), *self, *assets, objects@);
                }
                return Err(e);
            },
        }
        proof {
            lemma_drawable_congruence(*old(self), *self, *assets, objects@);
        }
        let fbs = match &mut self.ctx.swapchain {
            Some(sc) => sc.framebuffers(&mut self.ctx.device, self.render_pass),
            None => {
                proof {
                    assert(false);
                }
                vstd::pervasive::unreached()
            },
        };
        let framebuffer = fbs[image_index as usize];
        let extent = match &self.ctx.swapchain {
            Some(sc) => sc.image_extent(),
            None => {
                proof {
                    assert(false);
                }
                vstd::pervasive::unreached()
            },
        };
        let ghost prefix = seq![
            Command::BeginRenderPass { render_pass: self.render_pass, framebuffer, extent },
            Command::SetViewport(extent),
            Command::SetScissor(extent),
        ];
        let ghost pre_record = *self;
        self.ctx.device.begin_commands(frame.cmd_buf);
        self.ctx.device.record(
            frame.cmd_buf,
            Command::BeginRenderPass { render_pass: self.render_pass, framebuffer, extent },
        );
        self.ctx.device.record(frame.cmd_buf, Command::SetViewport(extent));
        self.ctx.device.record(frame.cmd_buf, Command::SetScissor(extent));
        proof {
            assert(self.ctx.device.command_buffers@[frame.cmd_buf as int].commands@ =~= prefix
                + old(self).objects_commands_upto(*assets, objects@, 0));
        }
        let mut oi: usize = 0;
        while oi < objects.len()
            invariant
                0 <= oi <= objects@.len(),
                assets.wf(),
                self.wf(),
                old(self).objects_drawable(*assets, objects@),
                frame.cmd_buf < self.ctx.device.command_buffers@.len(),
                self.ctx.device.command_buffers@[frame.cmd_buf as int].recording,
                self.ctx.device.command_buffers@[frame.cmd_buf as int].commands@ == prefix + old(self).objects_commands_upto(*assets, objects@, oi as int),
                self.meshes@ == old(self).meshes@,
                self.pipelines@ == old(self).pipelines@,
                self.texture_descriptor_sets@ == old(self).texture_descriptor_sets@,
                self.render_pass == old(self).render_pass,
                self.frame_number == old(self).frame_number,
                self.frames_in_flight@ == old(self).frames_in_flight@,
                self.surface_size == pre_record.surface_size,
                self.new_surface_size == pre_record.new_surface_size,
                self.new_surface == pre_record.new_surface,
                self.textures@ == pre_record.textures@,
                self.sampler == pre_record.sampler,
                self.descriptor_pool == pre_record.descriptor_pool,
                self.texture_descriptor_set_layout == pre_record.texture_descriptor_set_layout,
                self.ctx.swapchain == pre_record.ctx.swapchain,
                self.ctx.physical_device == pre_record.ctx.physical_device,
                self.ctx.graphics_queue == pre_record.ctx.graphics_queue,
                self.ctx.cmd_pool == pre_record.ctx.cmd_pool,
                self.ctx.sync_pool == pre_record.ctx.sync_pool,
                self.ctx.device.buffers@ == pre_record.ctx.device.buffers@,
                self.ctx.device.images@ == pre_record.ctx.device.images@,
                self.ctx.device.plain@ == pre_record.ctx.device.plain@,
                self.ctx.device.submissions@ == pre_record.ctx.device.submissions@,
                self.ctx.device.presents@ == pre_record.ctx.device.presents@,
                self.ctx.device.surface_generation == pre_record.ctx.device.surface_generation,
                self.ctx.device.command_buffers@.len()
                    == pre_record.ctx.device.command_buffers@.len(),
                forall|cb: int| 0 <= cb < self.ctx.device.command_buffers@.len() && cb
                    != frame.cmd_buf ==> self.ctx.device.command_buffers@[cb]
                    == pre_record.ctx.device.command_buffers@[cb],
            decreases objects@.len() - oi,
        {
            let o = objects[oi];
            let mesh = match assets.mesh(o.mesh_id) {
                Some(m) => m,
                None => {
                    proof {
                        assert(old(self).object_drawable(*assets, objects@[oi as int]));
                        assert(false);
                    }
                    vstd::pervasive::unreached()
                },
            };
            let mut sj: usize = 0;
            while sj < mesh.submeshes.len()
                invariant
                    0 <= sj <= mesh.submeshes@.len(),
                    0 <= oi < objects@.len(),
                    o == objects@[oi as int],
                    assets.wf(),
                    self.wf(),
                    old(self).objects_drawable(*assets, objects@),
                    assets.spec_meshes().contains_key(o.mesh_id),
                    *mesh == assets.spec_meshes()[o.mesh_id],
                    frame.cmd_buf < self.ctx.device.command_buffers@.len(),
                    self.ctx.device.command_buffers@[frame.cmd_buf as int].recording,
                    self.ctx.device.command_buffers@[frame.cmd_buf as int].commands@ == prefix
                        + old(self).objects_commands_upto(*assets, objects@, oi as int) + old(self).object_commands_upto(*assets, o, sj as int),
                    self.meshes@ == old(self).meshes@,
                    self.pipelines@ == old(self).pipelines@,
                    self.texture_descriptor_sets@ == old(self).texture_descriptor_sets@,
                    self.render_pass == old(self).render_pass,
                    self.frame_number == old(self).frame_number,
                    self.frames_in_flight@ == old(self).frames_in_flight@,
                    self.surface_size == pre_record.surface_size,
                    self.new_surface_size == pre_record.new_surface_size,
                    self.new_surface == pre_record.new_surface,
                    self.textures@ == pre_record.textures@,
                    self.sampler == pre_record.sampler,
                    self.descriptor_pool == pre_record.descriptor_pool,
                    self.texture_descriptor_set_layout
                        == pre_record.texture_descriptor_set_layout,
                    self.ctx.swapchain == pre_record.ctx.swapchain,
                    self.ctx.physical_device == pre_record.ctx.physical_device,
                    self.ctx.graphics_queue == pre_record.ctx.graphics_queue,
                    self.ctx.cmd_pool == pre_record.ctx.cmd_pool,
                    self.ctx.sync_pool == pre_record.ctx.sync_pool,
                    self.ctx.device.buffers@ == pre_record.ctx.device.buffers@,
                    self.ctx.device.images@ == pre_record.ctx.device.images@,
                    self.ctx.device.plain@ == pre_record.ctx.device.plain@,
                    self.ctx.device.submissions@ == pre_record.ctx.device.submissions@,
                    self.ctx.device.presents@ == pre_record.ctx.device.presents@,
                    self.ctx.device.surface_generation
                        == pre_record.ctx.device.surface_generation,
                    self.ctx.device.command_buffers@.len()
                        == pre_record.ctx.device.command_buffers@.len(),
                    forall|cb: int| 0 <= cb < self.ctx.device.command_buffers@.len() && cb
                        != frame.cmd_buf ==> self.ctx.device.command_buffers@[cb]
                        == pre_record.ctx.device.command_buffers@[cb],
                decreases mesh.submeshes@.len() - sj,
            {
                let sm = mesh.submeshes[sj];
                proof {
                    assert(old(self).object_drawable(*assets, objects@[oi as int]));
                    assert(old(self).submesh_drawable(
                        *assets,
                        assets.spec_meshes()[o.mesh_id].submeshes@[sj as int],
                    ));
                }
                let loaded = match self.meshes.get(&sm.id) {
                    Some(l) => *l,
                    None => {
                        proof {
                            assert(false);
                        }
                        vstd::pervasive::unreached()
                    },
                };
                let pipeline = match self.pipelines.get(&sm.material_id) {
                    Some(p) => *p,
                    None => {
                        proof {
                            assert(false);
                        }
                        vstd::pervasive::unreached()
                    },
                };
                let material = match assets.material(sm.material_id) {
                    Some(m) => *m,
                    None => {
                        proof {
                            assert(false);
                        }
                        vstd::pervasive::unreached()
                    },
                };
                let ds = match self.texture_descriptor_sets.get(&material.texture_id) {
                    Some(d) => *d,
                    None => {
                        proof {
                            assert(false);
                        }
                        vstd::pervasive::unreached()
                    },
                };
                let ghost before = self.ctx.device.command_buffers@[frame.cmd_buf as int].commands@;
                self.ctx.device.record(frame.cmd_buf, Command::BindPipeline(pipeline.handle));
                self.ctx.device.record(
                    frame.cmd_buf,
                    Command::BindVertexBuffer(loaded.vertex_buf.handle),
                );
                self.ctx.device.record(
                    frame.cmd_buf,
                    Command::BindIndexBuffer(loaded.index_buf.handle),
                );
                self.ctx.device.record(frame.cmd_buf, Command::PushConstants(o.mvp));
                self.ctx.device.record(frame.cmd_buf, Command::BindDescriptorSet(ds));
                self.ctx.device.record(
                    frame.cmd_buf,
                    Command::DrawIndexed { index_count: loaded.index_buf.index_count },
                );
                proof {
                    assert(self.ctx.device.command_buffers@[frame.cmd_buf as int].commands@
                        =~= before + old(self).submesh_commands(*assets, o, sm));
                }
                sj += 1;
            }
            proof {
                assert(mesh.submeshes@.len() as int == assets.spec_meshes()[
                o.mesh_id].submeshes@.len() as int);
                assert(old(self).object_commands_upto(*assets, o, mesh.submeshes@.len() as int)
                    == old(self).object_commands(*assets, o));
                assert(prefix + old(self).objects_commands_upto(*assets, objects@, oi as int)
                    + old(self).object_commands(*assets, o) =~= prefix + old(self).objects_commands_upto(*assets, objects@, oi as int + 1));
            }
            oi += 1;
        }
        let ghost recorded = self.ctx.device.command_buffers@[frame.cmd_buf as int].commands@;
        self.ctx.device.record(frame.cmd_buf, Command::EndRenderPass);
        self.ctx.device.end_commands(frame.cmd_buf);
        proof {
            assert(self.ctx.device.command_buffers@[frame.cmd_buf as int].commands@ =~= old(self).frame_commands(*assets, objects@, framebuffer, extent));
        }
        self.ctx.device.submit(
            Submission {
                command_buffer: frame.cmd_buf,
                wait_semaphore: frame.image_available_semaphore,
                signal_semaphore: frame.render_finished_semaphore,
                signal_fence: frame.in_flight_fence,
            },
        );
        let swapchain_handle = match &self.ctx.swapchain {
            Some(sc) => sc.handle(),
            None => {
                proof {
                    assert(false);
                }
                vstd::pervasive::unreached()
            },
        };
        self.ctx.device.present(
            PresentOp {
                swapchain: swapchain_handle,
                image_index,
                wait_semaphore: frame.render_finished_semaphore,
            },
        );
        self.frame_number = (self.frame_number + 1) % FRAMES_IN_FLIGHT;
        Ok(DrawOutcome::Drawn { image_index })
    }

    /// Uploads every registered texture and mesh that is not yet
    /// resident; a second call with the same registry changes nothing on
    /// the GPU beyond rebuilt descriptor sets. Fails fatally — uploading
    /// nothing further — exactly when some submesh's pipeline can neither
    /// be found nor built from the registry.
    pub fn load_assets(&mut self, assets: &Assets) -> (r: Result<(), EngineError>)
        requires
            old(self).wf(),
            assets.wf(),
        ensures
            final(self).wf(),
            r is Ok <==> old(self).meshes_loadable(*assets),
            final(self).textures_resident(*assets),
            r is Ok ==> final(self).meshes_resident(*assets),
            final(self).descriptor_sets_injective(),
            forall|i: int| 0 <= i < assets.spec_texture_order().len() ==> final(self).texture_descriptor_sets@.contains_key(#[trigger] assets.spec_texture_order()[i]),
            forall|id: AssetId| #[trigger] final(self).texture_descriptor_sets@.contains_key(id)
                ==> assets.spec_texture_order().contains(id),
            forall|id: AssetId| #[trigger] old(self).textures@.contains_key(id) ==> final(self).textures@.contains_key(id) && final(self).textures@[id] == old(self).textures@[id],
            forall|id: AssetId| #[trigger] old(self).meshes@.contains_key(id) ==> final(self).meshes@.contains_key(id) && final(self).meshes@[id] == old(self).meshes@[id],
            forall|id: AssetId| #[trigger] old(self).pipelines@.contains_key(id) ==> final(self).pipelines@.contains_key(id) && final(self).pipelines@[id] == old(self).pipelines@[id],
            r matches Err(e) ==> match e {
                EngineError::MissingMaterial(id) => !assets.spec_materials().contains_key(id),
                EngineError::MissingShader(id) => !assets.spec_shaders().contains_key(id),
                EngineError::MalformedShader => true,
                _ => false,
            },
            (old(self).textures_resident(*assets) && old(self).meshes_resident(*assets)) ==> {
                &&& final(self).textures@ == old(self).textures@
                &&& final(self).meshes@ == old(self).meshes@
                &&& final(self).pipelines@ == old(self).pipelines@
                &&& final(self).ctx.device.images@ == old(self).ctx.device.images@
                &&& final(self).ctx.device.buffers@ == old(self).ctx.device.buffers@
            },
            final(self).frame_number == old(self).frame_number,
            final(self).frames_in_flight@ == old(self).frames_in_flight@,
            final(self).surface_size == old(self).surface_size,
            final(self).new_surface_size == old(self).new_surface_size,
            final(self).new_surface == old(self).new_surface,
            final(self).render_pass == old(self).render_pass,
            final(self).ctx.swapchain == old(self).ctx.swapchain,
            final(self).ctx.physical_device == old(self).ctx.physical_device,
            final(self).ctx.device.submissions@ == old(self).ctx.device.submissions@,
            final(self).ctx.device.presents@ == old(self).ctx.device.presents@,
            final(self).ctx.device.command_buffers@ == old(self).ctx.device.command_buffers@,
            final(self).ctx.device.surface_generation == old(self).ctx.device.surface_generation,
    {
        self.use_textures(assets);
        let ghost mid = *self;
        proof {
            lemma_mesh_state_congruence(*old(self), mid, *assets);
        }
        let r = self.use_meshes(assets);
        proof {
            lemma_texture_state_congruence(mid, *self, *assets);
        }
        r
    }
}

/// Which meshes are resident or loadable depends only on the mesh and
/// pipeline caches: renderers whose caches agree judge alike.
proof fn lemma_mesh_state_congruence(a: Renderer, b: Renderer, assets: Assets)
    requires
        a.meshes@ == b.meshes@,
        a.pipelines@ == b.pipelines@,
    ensures
        a.meshes_loadable(assets) == b.meshes_loadable(assets),
        a.meshes_resident(assets) == b.meshes_resident(assets),
{
    assert forall|i: int|
        0 <= i < assets.spec_mesh_order().len() && a.meshes_loadable(assets) implies mesh_buildable(
        b.pipelines@,
        assets,
        assets.spec_meshes()[#[trigger] assets.spec_mesh_order()[i]],
    ) by {
        assert(mesh_buildable(
            a.pipelines@,
            assets,
            assets.spec_meshes()[assets.spec_mesh_order()[i]],
        ));
    }
    assert forall|i: int|
        0 <= i < assets.spec_mesh_order().len() && b.meshes_loadable(assets) implies mesh_buildable(
        a.pipelines@,
        assets,
        assets.spec_meshes()[#[trigger] assets.spec_mesh_order()[i]],
    ) by {
        assert(mesh_buildable(
            b.pipelines@,
            assets,
            assets.spec_meshes()[assets.spec_mesh_order()[i]],
        ));
    }
    assert forall|i: int|
        0 <= i < assets.spec_mesh_order().len() && a.meshes_resident(assets) implies b.mesh_loaded(
        assets.spec_meshes()[#[trigger] assets.spec_mesh_order()[i]],
    ) by {
        let m = assets.spec_meshes()[assets.spec_mesh_order()[i]];
        assert(a.mesh_loaded(m));
        assert forall|j: int| 0 <= j < m.submeshes@.len() implies b.meshes@.contains_key(
            (#[trigger] m.submeshes@[j]).id,
        ) && b.pipelines@.contains_key(m.submeshes@[j].material_id) by {
            assert(a.meshes@.contains_key(m.submeshes@[j].id));
            assert(a.pipelines@.contains_key(m.submeshes@[j].material_id));
        }
    }
    assert forall|i: int|
        0 <= i < assets.spec_mesh_order().len() && b.meshes_resident(assets) implies a.mesh_loaded(
        assets.spec_meshes()[#[trigger] assets.spec_mesh_order()[i]],
    ) by {
        let m = assets.spec_meshes()[assets.spec_mesh_order()[i]];
        assert(b.mesh_loaded(m));
        assert forall|j: int| 0 <= j < m.submeshes@.len() implies a.meshes@.contains_key(
            (#[trigger] m.submeshes@[j]).id,
        ) && a.pipelines@.contains_key(m.submeshes@[j].material_id) by {
            assert(b.meshes@.contains_key(m.submeshes@[j].id));
            assert(b.pipelines@.contains_key(m.submeshes@[j].material_id));
        }
    }
}

/// Which textures are resident and how descriptor sets are assigned
/// depends only on the texture caches: renderers whose caches agree judge
/// alike.
proof fn lemma_texture_state_congruence(a: Renderer, b: Renderer, assets: Assets)
    requires
        a.textures@ == b.textures@,
        a.texture_descriptor_sets@ == b.texture_descriptor_sets@,
    ensures
        a.textures_resident(assets) == b.textures_resident(assets),
        a.descriptor_sets_injective() == b.descriptor_sets_injective(),
{
    assert forall|i: int|
        0 <= i < assets.spec_texture_order().len() && a.textures_resident(assets) implies b
            .textures@.contains_key(#[trigger] assets.spec_texture_order()[i]) by {
        assert(a.textures@.contains_key(assets.spec_texture_order()[i]));
    }
    assert forall|i: int|
        0 <= i < assets.spec_texture_order().len() && b.textures_resident(assets) implies a
            .textures@.contains_key(#[trigger] assets.spec_texture_order()[i]) by {
        assert(b.textures@.contains_key(assets.spec_texture_order()[i]));
    }
    if a.descriptor_sets_injective() {
        assert forall|x: AssetId, y: AssetId|
            #![trigger b.texture_descriptor_sets@[x], b.texture_descriptor_sets@[y]]
            b.texture_descriptor_sets@.contains_key(x) && b.texture_descriptor_sets@.contains_key(
                y,
            ) && x != y implies b.texture_descriptor_sets@[x] != b.texture_descriptor_sets@[y] by {
            assert(a.texture_descriptor_sets@[x] != a.texture_descriptor_sets@[y]);
        }
    }
    if b.descriptor_sets_injective() {
        assert forall|x: AssetId, y: AssetId|
            #![trigger a.texture_descriptor_sets@[x], a.texture_descriptor_sets@[y]]
            a.texture_descriptor_sets@.contains_key(x) && a.texture_descriptor_sets@.contains_key(
                y,
            ) && x != y implies a.texture_descriptor_sets@[x] != a.texture_descriptor_sets@[y] by {
            assert(b.texture_descriptor_sets@[x] != b.texture_descriptor_sets@[y]);
        }
    }
}

/// What no tick of the frame loop touches, whatever the outcome: the
/// frame records, the resident-asset caches, the long-lived objects, the
/// context's fixed parts, every buffer, and the surface generation.
pub open spec fn tick_preserves(a: Renderer, b: Renderer) -> bool {
    &&& b.frames_in_flight@ == a.frames_in_flight@
    &&& b.textures@ == a.textures@
    &&& b.texture_descriptor_sets@ == a.texture_descriptor_sets@
    &&& b.meshes@ == a.meshes@
    &&& b.pipelines@ == a.pipelines@
    &&& b.render_pass == a.render_pass
    &&& b.sampler == a.sampler
    &&& b.descriptor_pool == a.descriptor_pool
    &&& b.texture_descriptor_set_layout == a.texture_descriptor_set_layout
    &&& b.ctx.physical_device == a.ctx.physical_device
    &&& b.ctx.graphics_queue == a.ctx.graphics_queue
    &&& b.ctx.cmd_pool == a.ctx.cmd_pool
    &&& b.ctx.sync_pool == a.ctx.sync_pool
    &&& b.ctx.device.surface_generation == a.ctx.device.surface_generation
    &&& b.ctx.device.buffers@ == a.ctx.device.buffers@
}

/// The frame index after `n` further successful frames.
pub open spec fn frame_index_after(start: int, n: nat) -> int
    decreases n,
{
    if n == 0 {
        start
    } else {
        (frame_index_after(start, (n - 1) as nat) + 1) % (FRAMES_IN_FLIGHT as int)
    }
}

/// Frame-index cycling law: each successful frame advances the index by
/// one modulo the slot count — as `draw` ensures — so after as many
/// successful frames as there are slots, the index returns to its
/// initial value.
pub proof fn lemma_frame_index_cycles(start: int)
    requires
        0 <= start < FRAMES_IN_FLIGHT,
    ensures
        frame_index_after(start, FRAMES_IN_FLIGHT as nat) == start,
{
    assert(frame_index_after(start, 0) == start);
    assert(frame_index_after(start, 1) == (start + 1) % (FRAMES_IN_FLIGHT as int));
    assert(frame_index_after(start, 2) == ((start + 1) % (FRAMES_IN_FLIGHT as int) + 1) % (
    FRAMES_IN_FLIGHT as int));
}

/// Submesh-order draw law: a drawable whose mesh holds exactly two
/// submeshes referencing materials with different textures records
/// exactly two indexed draws and exactly two distinct descriptor-set
/// binds, in submesh order — descriptor sets are assigned one-to-one, as
/// `use_textures` ensures.
pub proof fn lemma_two_submesh_draw(r: Renderer, assets: Assets, o: DrawObject)
    requires
        r.object_drawable(assets, o),
        assets.spec_meshes()[o.mesh_id].submeshes@.len() == 2,
        r.descriptor_sets_injective(),
        assets.spec_materials()[assets.spec_meshes()[o.mesh_id].submeshes@[0].material_id].
        texture_id != assets.spec_materials()[assets.spec_meshes()[
        o.mesh_id].submeshes@[1].material_id].texture_id,
    ensures
        ({
            let cmds = r.object_commands(assets, o);
            let sm0 = assets.spec_meshes()[o.mesh_id].submeshes@[0];
            let sm1 = assets.spec_meshes()[o.mesh_id].submeshes@[1];
            &&& cmds == r.submesh_commands(assets, o, sm0) + r.submesh_commands(assets, o, sm1)
            &&& cmds.len() == 12
            &&& cmds[5] == (Command::DrawIndexed {
                index_count: r.meshes@[sm0.id].index_buf.index_count,
            })
            &&& cmds[11] == (Command::DrawIndexed {
                index_count: r.meshes@[sm1.id].index_buf.index_count,
            })
            &&& cmds[4] == Command::BindDescriptorSet(
                r.texture_descriptor_sets@[assets.spec_materials()[sm0.material_id].texture_id],
            )
            &&& cmds[10] == Command::BindDescriptorSet(
                r.texture_descriptor_sets@[assets.spec_materials()[sm1.material_id].texture_id],
            )
            &&& cmds[4] != cmds[10]
            &&& forall|k: int| 0 <= k < 12 && k != 5 && k != 11 ==> !((#[trigger] cmds[k])
                is DrawIndexed)
            &&& forall|k: int| 0 <= k < 12 && k != 4 && k != 10 ==> !((#[trigger] cmds[k])
                is BindDescriptorSet)
        }),
{
    let cmds = r.object_commands(assets, o);
    let sm0 = assets.spec_meshes()[o.mesh_id].submeshes@[0];
    let sm1 = assets.spec_meshes()[o.mesh_id].submeshes@[1];
    let tex0 = assets.spec_materials()[sm0.material_id].texture_id;
    let tex1 = assets.spec_materials()[sm1.material_id].texture_id;
    assert(r.submesh_drawable(assets, sm0));
    assert(r.submesh_drawable(assets, sm1));
    assert(r.texture_descriptor_sets@[tex0] != r.texture_descriptor_sets@[tex1]);
    assert(r.object_commands_upto(assets, o, 0) == Seq::<Command>::empty());
    assert(r.object_commands_upto(assets, o, 1) == Seq::<Command>::empty()
        + r.submesh_commands(assets, o, sm0));
    assert(cmds == r.object_commands_upto(assets, o, 1) + r.submesh_commands(assets, o, sm1));
    assert(cmds =~= r.submesh_commands(assets, o, sm0) + r.submesh_commands(assets, o, sm1));
    assert(cmds[4] == r.submesh_commands(assets, o, sm0)[4]);
    assert(cmds[5] == r.submesh_commands(assets, o, sm0)[5]);
    assert(cmds[10] == r.submesh_commands(assets, o, sm1)[4]);
    assert(cmds[11] == r.submesh_commands(assets, o, sm1)[5]);
    assert forall|k: int| 0 <= k < 12 && k != 5 && k != 11 implies !((#[trigger] cmds[k])
        is DrawIndexed) by {
        if k < 6 {
            assert(cmds[k] == r.submesh_commands(assets, o, sm0)[k]);
        } else {
            assert(cmds[k] == r.submesh_commands(assets, o, sm1)[k - 6]);
        }
    }
    assert forall|k: int| 0 <= k < 12 && k != 4 && k != 10 implies !((#[trigger] cmds[k])
        is BindDescriptorSet) by {
        if k < 6 {
            assert(cmds[k] == r.submesh_commands(assets, o, sm0)[k]);
        } else {
            assert(cmds[k] == r.submesh_commands(assets, o, sm1)[k - 6]);
        }
    }
}

/// Drawability depends only on the resident-asset maps: renderers whose
/// caches agree can draw the same drawables.
pub proof fn lemma_drawable_congruence(
    a: Renderer,
    b: Renderer,
    assets: Assets,
    objects: Seq<DrawObject>,
)
    requires
        a.meshes@ == b.meshes@,
        a.pipelines@ == b.pipelines@,
        a.texture_descriptor_sets@ == b.texture_descriptor_sets@,
    ensures
        a.objects_drawable(assets, objects) == b.objects_drawable(assets, objects),
{
    assert forall|i: int| 0 <= i < objects.len() && a.objects_drawable(assets, objects)
        implies b.object_drawable(assets, #[trigger] objects[i]) by {
        assert(a.object_drawable(assets, objects[i]));
        let oid = objects[i].mesh_id;
        assert forall|j: int| 0 <= j < assets.spec_meshes()[oid].submeshes@.len()
            implies b.submesh_drawable(
            assets,
            #[trigger] assets.spec_meshes()[oid].submeshes@[j],
        ) by {
            assert(a.submesh_drawable(assets, assets.spec_meshes()[oid].submeshes@[j]));
        }
    }
    assert forall|i: int| 0 <= i < objects.len() && b.objects_drawable(assets, objects)
        implies a.object_drawable(assets, #[trigger] objects[i]) by {
        assert(b.object_drawable(assets, objects[i]));
        let oid = objects[i].mesh_id;
        assert forall|j: int| 0 <= j < assets.spec_meshes()[oid].submeshes@.len()
            implies a.submesh_drawable(
            assets,
            #[trigger] assets.spec_meshes()[oid].submeshes@[j],
        ) by {
            assert(b.submesh_drawable(assets, assets.spec_meshes()[oid].submeshes@[j]));
        }
    }
}

/// Creates the engine's one render pass: a cleared color attachment in
/// the selected surface format ending ready for presentation, and a
/// cleared depth attachment in the selected depth format.
pub fn create_render_pass(device: &mut Device, physical_device: &crate::physical_device::PhysicalDevice) -> (r: Handle)
    requires
        old(device).wf(),
    ensures
        final(device).wf(),
        r == old(device).plain@.len(),
        final(device).plain@ == old(device).plain@.push((ObjectKind::RenderPass {
            color_format: physical_device.surface_format.format,
            depth_format: physical_device.depth_format,
        })),
        final(device).buffers@ == old(device).buffers@,
        final(device).images@ == old(device).images@,
        final(device).command_buffers@ == old(device).command_buffers@,
        final(device).submissions@ == old(device).submissions@,
        final(device).presents@ == old(device).presents@,
        final(device).surface_generation == old(device).surface_generation,
{
    device.create_object(
        ObjectKind::RenderPass {
            color_format: physical_device.surface_format.format,
            depth_format: physical_device.depth_format,
        },
    )
}

/// Creates the pipeline layout and the graphics pipeline drawing one
/// material: fixed-function state, the two shader stages, the texture
/// descriptor set layout and one 64-byte push-constant range.
pub fn create_pipeline(
    device: &mut Device,
    render_pass: Handle,
    vertex_stage: crate::shader::ShaderStageInfo,
    fragment_stage: crate::shader::ShaderStageInfo,
    topology: crate::geometry::PrimitiveType,
    descriptor_set_layout: Handle,
) -> (r: Pipeline)
    requires
        old(device).wf(),
    ensures
        final(device).wf(),
        r.layout == old(device).plain@.len(),
        r.handle == old(device).plain@.len() + 1,
        final(device).plain@ == old(device).plain@.push(ObjectKind::PipelineLayout).push(
            (ObjectKind::Pipeline {
                vertex_module: vertex_stage.module,
                fragment_module: fragment_stage.module,
                topology,
            }),
        ),
        final(device).buffers@ == old(device).buffers@,
        final(device).images@ == old(device).images@,
        final(device).command_buffers@ == old(device).command_buffers@,
        final(device).submissions@ == old(device).submissions@,
        final(device).presents@ == old(device).presents@,
        final(device).surface_generation == old(device).surface_generation,
{
    let _ = render_pass;
    let _ = descriptor_set_layout;
    let layout = device.create_object(ObjectKind::PipelineLayout);
    let handle = device.create_object(
        ObjectKind::Pipeline {
            vertex_module: vertex_stage.module,
            fragment_module: fragment_stage.module,
            topology,
        },
    );
    Pipeline { handle, layout }
}

/// At submesh `j` of registered mesh `i`, neither an existing pipeline
/// nor a buildable material: the registry cannot load the meshes.
proof fn lemma_unbuildable(
    orig: Renderer,
    assets: Assets,
    i: int,
    j: int,
    m: crate::mesh::Mesh,
    cur: Renderer,
)
    requires
        0 <= i < assets.spec_mesh_order().len(),
        assets.spec_meshes().contains_key(assets.spec_mesh_order()[i]),
        m == assets.spec_meshes()[assets.spec_mesh_order()[i]],
        0 <= j < m.submeshes@.len(),
        !cur.pipelines@.contains_key(m.submeshes@[j].material_id),
        forall|id: AssetId| #[trigger] orig.pipelines@.contains_key(id)
            ==> cur.pipelines@.contains_key(id),
        !material_buildable(assets, m.submeshes@[j].material_id),
    ensures
        !orig.meshes_loadable(assets),
        !orig.meshes_resident(assets),
{
    let sm = m.submeshes@[j];
    assert(!orig.pipelines@.contains_key(sm.material_id));
    assert(!mesh_buildable(orig.pipelines@, assets, m));
    assert(!orig.mesh_loaded(m));
}

/// The registry provides what building a pipeline for `material_id`
/// needs: the material itself and both of its shaders, each with
/// well-formed bytecode.
pub open spec fn material_buildable(assets: Assets, material_id: AssetId) -> bool {
    &&& assets.spec_materials().contains_key(material_id)
    &&& assets.spec_shaders().contains_key(
        assets.spec_materials()[material_id].vertex_shader_id,
    )
    &&& spirv_wf(
        assets.spec_shaders()[assets.spec_materials()[material_id].vertex_shader_id].code@,
    )
    &&& assets.spec_shaders().contains_key(
        assets.spec_materials()[material_id].fragment_shader_id,
    )
    &&& spirv_wf(
        assets.spec_shaders()[assets.spec_materials()[material_id].fragment_shader_id].code@,
    )
}

/// Every submesh of `m` either has its pipeline in `pipelines` already or
/// a buildable material.
pub open spec fn mesh_buildable(
    pipelines: Map<AssetId, Pipeline>,
    assets: Assets,
    m: crate::mesh::Mesh,
) -> bool {
    forall|j: int| 0 <= j < m.submeshes@.len() ==> pipelines.contains_key(
        (#[trigger] m.submeshes@[j]).material_id,
    ) || material_buildable(assets, m.submeshes@[j].material_id)
}

} // verus!
