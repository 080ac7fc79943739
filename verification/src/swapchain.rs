//! The presentable image chain and its recreation protocol.
//!
//! State machine: created Ready; `acquire_image` reports no image when the
//! OS surface has moved on (the chain is stale); `recreate` rebuilds the
//! chain — and must invalidate the framebuffer cache; `destroy` is
//! terminal. Framebuffers are built lazily against a render pass and cached
//! until the next recreation.
use crate::device::{Device, ObjectKind};
use crate::error::EngineError;
use crate::memory;
use crate::physical_device::{PhysicalDevice, SurfaceCapabilities};
use crate::types::{Extent2D, Handle, NULL_HANDLE};
use vstd::prelude::*;

verus! {

/// The depth image shared by every framebuffer of the chain.
#[derive(Clone, Copy, PartialEq, Eq, Structural, Debug)]
pub struct DepthBuffer {
    /// Image-table handle of the depth image (with its memory).
    pub image: Handle,
    /// Plain-object handle of the depth image view.
    pub image_view: Handle,
}

/// The swapchain: image chain, per-image views, depth buffer and the
/// lazily built framebuffer cache.
pub struct Swapchain {
    /// Plain-object handle of the chain itself.
    pub handle: Handle,
    /// The OS surface the chain presents to.
    pub surface: Handle,
    /// The queue presentation requests go to.
    pub present_queue: Handle,
    pub depth_buffer: DepthBuffer,
    /// One view per presentable image, in presentation-index order.
    pub image_views: Vec<Handle>,
    pub image_extent: Extent2D,
    pub image_count: u32,
    /// Framebuffer cache; cleared by `recreate`, filled by `framebuffers`.
    pub framebuffers: Option<Vec<Handle>>,
    /// The surface generation the chain was built for; the chain is stale
    /// whenever the device reports a newer generation.
    pub generation: u64,
    /// Model acquisition cursor: images come back round-robin.
    pub next_image: u32,
}

/// The capability bounds the image-count computation relies on.
pub open spec fn caps_wf(caps: SurfaceCapabilities) -> bool {
    &&& caps.min_image_count >= 1
    &&& caps.min_image_count < u32::MAX
    &&& caps.max_image_count == 0 || caps.max_image_count >= caps.min_image_count
}

/// One more image than the minimum, clamped to the maximum when the
/// surface bounds it (zero means unbounded).
pub open spec fn spec_select_image_count(caps: SurfaceCapabilities) -> int {
    let c = caps.min_image_count + 1;
    if caps.max_image_count > 0 && c > caps.max_image_count {
        caps.max_image_count as int
    } else {
        c
    }
}

/// The sentinel extent meaning "the surface takes any size".
pub open spec fn is_any_extent(e: Extent2D) -> bool {
    e.width == u32::MAX && e.height == u32::MAX
}

/// The reported extent, unless the surface reports the "any extent"
/// sentinel, in which case the caller-provided window size decides.
pub open spec fn spec_compute_extent(caps: SurfaceCapabilities, draw_area_size: Extent2D)
    -> Extent2D {
    if is_any_extent(caps.current_extent) {
        draw_area_size
    } else {
        caps.current_extent
    }
}

/// Number of presentable images the chain is created with.
pub fn select_image_count(physical_device: &PhysicalDevice) -> (r: u32)
    requires
        caps_wf(physical_device.surface_capabilities),
    ensures
        r as int == spec_select_image_count(physical_device.surface_capabilities),
        r >= 1,
{
    let min_image_count = physical_device.surface_capabilities.min_image_count;
    let max_image_count = physical_device.surface_capabilities.max_image_count;
    let mut image_count = min_image_count + 1;
    if max_image_count > 0 && image_count > max_image_count {
        image_count = max_image_count;
    }
    image_count
}

/// Resolves the chain's pixel extent.
pub fn compute_extent(physical_device: &PhysicalDevice, draw_area_size: &Extent2D) -> (r: Extent2D)
    ensures
        r == spec_compute_extent(physical_device.surface_capabilities, *draw_area_size),
{
    let current = physical_device.surface_capabilities.current_extent;
    if current.width == u32::MAX && current.height == u32::MAX {
        *draw_area_size
    } else {
        current
    }
}

impl Swapchain {
    /// Structural invariant: one view per image, a cache (when present)
    /// with one framebuffer per image, and a cursor within range.
    pub open spec fn wf(self) -> bool {
        &&& self.image_count >= 1
        &&& self.image_views@.len() == self.image_count
        &&& self.next_image < self.image_count
        &&& match self.framebuffers {
            Some(fbs) => fbs@.len() == self.image_count,
            None => true,
        }
    }

    /// Creates the image chain, per-image views and a depth buffer sized
    /// to the resolved extent. Fails fatally when the adapter offers no
    /// device-local memory for the depth buffer.
    pub fn new(
        device: &mut Device,
        physical_device: &PhysicalDevice,
        present_queue: Handle,
        surface: Handle,
        surface_size: &Extent2D,
    ) -> (r: Result<Swapchain, EngineError>)
        requires
            old(device).wf(),
            caps_wf(physical_device.surface_capabilities),
            physical_device.memory_types@.len() <= memory::MAX_MEMORY_TYPES,
        ensures
            final(device).wf(),
            r is Ok <==> memory::has_memory_type(
                physical_device.memory_types@,
                memory::MEMORY_PROPERTY_DEVICE_LOCAL,
            ),
            r matches Err(e) ==> e == EngineError::NoCompatibleMemoryType && *final(device) == *old(
                device,
            ),
            r matches Ok(sc) ==> {
                &&& sc.wf()
                &&& sc.surface == surface
                &&& sc.present_queue == present_queue
                &&& sc.image_count as int == spec_select_image_count(
                    physical_device.surface_capabilities,
                )
                &&& sc.image_extent == spec_compute_extent(
                    physical_device.surface_capabilities,
                    *surface_size,
                )
                &&& sc.framebuffers is None
                &&& sc.generation == old(device).surface_generation
                &&& sc.next_image == 0
                &&& final(device).surface_generation == old(device).surface_generation
                &&& final(device).buffers@ == old(device).buffers@
                &&& final(device).command_buffers@ == old(device).command_buffers@
                &&& final(device).submissions@ == old(device).submissions@
                &&& final(device).presents@ == old(device).presents@
                &&& final(device).images@.len() == old(device).images@.len() + 1
                &&& forall|i: int| 0 <= i < old(device).images@.len()
                    ==> final(device).images@[i] == old(device).images@[i]
                &&& final(device).image_alive(sc.depth_buffer.image)
                &&& final(device).plain@.len() >= old(device).plain@.len()
                &&& forall|i: int| 0 <= i < old(device).plain@.len()
                    ==> final(device).plain@[i] == old(device).plain@[i]
            },
    {
        let image_count = select_image_count(physical_device);
        let image_extent = compute_extent(physical_device, surface_size);
        Self::build(device, physical_device, present_queue, surface, image_count, image_extent)
    }

    /// Shared construction path of `new` and `recreate`: chain handle,
    /// image views and depth buffer for a fixed image count and extent.
    fn build(
        device: &mut Device,
        physical_device: &PhysicalDevice,
        present_queue: Handle,
        surface: Handle,
        image_count: u32,
        image_extent: Extent2D,
    ) -> (r: Result<Swapchain, EngineError>)
        requires
            old(device).wf(),
            physical_device.memory_types@.len() <= memory::MAX_MEMORY_TYPES,
            image_count >= 1,
        ensures
            final(device).wf(),
            r is Ok <==> memory::has_memory_type(
                physical_device.memory_types@,
                memory::MEMORY_PROPERTY_DEVICE_LOCAL,
            ),
            r matches Err(e) ==> e == EngineError::NoCompatibleMemoryType && *final(device) == *old(
                device,
            ),
            r matches Ok(sc) ==> {
                &&& sc.wf()
                &&& sc.surface == surface
                &&& sc.present_queue == present_queue
                &&& sc.image_count == image_count
                &&& sc.image_extent == image_extent
                &&& sc.framebuffers is None
                &&& sc.generation == old(device).surface_generation
                &&& sc.next_image == 0
                &&& final(device).surface_generation == old(device).surface_generation
                &&& final(device).buffers@ == old(device).buffers@
                &&& final(device).command_buffers@ == old(device).command_buffers@
                &&& final(device).submissions@ == old(device).submissions@
                &&& final(device).presents@ == old(device).presents@
                &&& final(device).images@.len() == old(device).images@.len() + 1
                &&& forall|i: int| 0 <= i < old(device).images@.len()
                    ==> final(device).images@[i] == old(device).images@[i]
                &&& final(device).image_alive(sc.depth_buffer.image)
                &&& final(device).plain@.len() >= old(device).plain@.len()
                &&& forall|i: int| 0 <= i < old(device).plain@.len()
                    ==> final(device).plain@[i] == old(device).plain@[i]
            },
    {
        if memory::find_memory_type(
            &physical_device.memory_types,
            0xffff_ffffu32,
            memory::MEMORY_PROPERTY_DEVICE_LOCAL,
        ).is_none() {
            return Err(EngineError::NoCompatibleMemoryType);
        }
        let handle = device.create_object(ObjectKind::SwapchainObject);
        let mut image_views: Vec<Handle> = Vec::new();
        let mut i: u32 = 0;
        while i < image_count
            invariant
                0 <= i <= image_count,
                image_views@.len() == i,
                device.wf(),
                device.surface_generation == old(device).surface_generation,
                device.buffers@ == old(device).buffers@,
                device.images@ == old(device).images@,
                device.command_buffers@ == old(device).command_buffers@,
                device.submissions@ == old(device).submissions@,
                device.presents@ == old(device).presents@,
                device.plain@.len() >= old(device).plain@.len(),
                forall|k: int| 0 <= k < old(device).plain@.len()
                    ==> device.plain@[k] == old(device).plain@[k],
            decreases image_count - i,
        {
            let view = device.create_object(ObjectKind::ImageView);
            image_views.push(view);
            i += 1;
        }
        let depth_image = match memory::create_depth_buffer(
            device,
            physical_device,
            physical_device.depth_format,
            image_extent.width,
            image_extent.height,
        ) {
            Ok(h) => h,
            Err(_) => {
                // Unreachable: a device-local memory type was checked above.
                return Err(EngineError::NoCompatibleMemoryType);
            },
        };
        let depth_view = memory::create_image_view(
            device,
            depth_image,
            physical_device.depth_format,
            0,
        );
        Ok(
            Swapchain {
                handle,
                surface,
                present_queue,
                depth_buffer: DepthBuffer { image: depth_image, image_view: depth_view },
                image_views,
                image_extent,
                image_count,
                framebuffers: None,
                generation: device.surface_generation,
                next_image: 0,
            },
        )
    }

    /// Waits on the frame's fence (the engine's back-pressure point), then
    /// asks for the next presentable image, signaling the given semaphore.
    /// Reports no image exactly when the chain is stale: built for an
    /// earlier surface generation than the device currently reports.
    pub fn acquire_image(
        &mut self,
        device: &Device,
        in_flight_fence: Handle,
        image_available_semaphore: Handle,
    ) -> (r: Option<u32>)
        requires
            old(self).wf(),
        ensures
            final(self).wf(),
            r is Some <==> old(self).generation == device.surface_generation,
            r matches Some(ix) ==> {
                &&& ix == old(self).next_image
                &&& ix < old(self).image_count
                &&& *final(self) == Swapchain {
                    next_image: final(self).next_image,
                    ..*old(self)
                }
                &&& final(self).next_image as int == (old(self).next_image + 1) % (
                old(self).image_count as int)
            },
            r is None ==> *final(self) == *old(self),
    {
        let _ = in_flight_fence;
        let _ = image_available_semaphore;
        if self.generation != device.surface_generation {
            return None;
        }
        let ix = self.next_image;
        self.next_image = (self.next_image + 1) % self.image_count;
        Some(ix)
    }

    /// Destroys the depth buffer, cached framebuffers and image views,
    /// then rebuilds the chain at the freshly resolved extent — reusing
    /// the old chain handle as a transition hint — optionally swapping in
    /// a replacement surface. The framebuffer cache is left invalid.
    pub fn recreate(
        &mut self,
        device: &mut Device,
        physical_device: &PhysicalDevice,
        new_surface: Option<Handle>,
        surface_size: &Extent2D,
    ) -> (r: Result<(), EngineError>)
        requires
            old(self).wf(),
            old(device).wf(),
            old(device).image_alive(old(self).depth_buffer.image),
            physical_device.memory_types@.len() <= memory::MAX_MEMORY_TYPES,
        ensures
            final(self).wf(),
            final(device).wf(),
            r is Ok <==> memory::has_memory_type(
                physical_device.memory_types@,
                memory::MEMORY_PROPERTY_DEVICE_LOCAL,
            ),
            r matches Err(e) ==> e == EngineError::NoCompatibleMemoryType && *final(self) == *old(
                self,
            ) && *final(device) == *old(device),
            r is Ok ==> {
                &&& final(self).framebuffers is None
                &&& final(self).image_count == old(self).image_count
                &&& final(self).image_extent == spec_compute_extent(
                    physical_device.surface_capabilities,
                    *surface_size,
                )
                &&& final(self).surface == (match new_surface {
                    Some(s) => s,
                    None => old(self).surface,
                })
                &&& final(self).present_queue == old(self).present_queue
                &&& final(self).generation == old(device).surface_generation
                &&& final(self).next_image == 0
                &&& final(device).surface_generation == old(device).surface_generation
                &&& final(device).buffers@ == old(device).buffers@
                &&& final(device).command_buffers@ == old(device).command_buffers@
                &&& final(device).submissions@ == old(device).submissions@
                &&& final(device).presents@ == old(device).presents@
                &&& final(device).images@.len() == old(device).images@.len() + 1
                &&& final(device).image_alive(final(self).depth_buffer.image)
                &&& !final(device).images@[old(self).depth_buffer.image as int].alive
                &&& final(device).plain@.len() >= old(device).plain@.len()
                &&& forall|i: int| 0 <= i < old(device).plain@.len()
                    ==> final(device).plain@[i] == old(device).plain@[i]
            },
    {
        if memory::find_memory_type(
            &physical_device.memory_types,
            0xffff_ffffu32,
            memory::MEMORY_PROPERTY_DEVICE_LOCAL,
        ).is_none() {
            return Err(EngineError::NoCompatibleMemoryType);
        }
        // Release everything that depends on the old image chain.
        device.free_image(self.depth_buffer.image);
        self.framebuffers = None;
        let surface = match new_surface {
            Some(s) => s,
            None => self.surface,
        };
        let new_image_extent = compute_extent(physical_device, surface_size);
        let rebuilt = match Self::build(
            device,
            physical_device,
            self.present_queue,
            surface,
            self.image_count,
            new_image_extent,
        ) {
            Ok(sc) => sc,
            Err(_) => {
                // Unreachable: a device-local memory type was checked above.
                return Err(EngineError::NoCompatibleMemoryType);
            },
        };
        *self = rebuilt;
        Ok(())
    }

    /// The lazily built, cached framebuffers: one per image view, bound to
    /// the given render pass. A second call without an intervening
    /// `recreate` returns the identical cached sequence and touches
    /// nothing.
    pub fn framebuffers(&mut self, device: &mut Device, render_pass: Handle) -> (r: Vec<Handle>)
        requires
            old(self).wf(),
            old(device).wf(),
        ensures
            final(self).wf(),
            final(device).wf(),
            r@.len() == old(self).image_count,
            (final(self).framebuffers matches Some(cache) && cache@ == r@),
            *final(self) == (Swapchain { framebuffers: final(self).framebuffers, ..*old(self) }),
            (old(self).framebuffers matches Some(cache) ==> {
                &&& r@ == cache@
                &&& *final(self) == *old(self)
                &&& *final(device) == *old(device)
            }),
            final(device).surface_generation == old(device).surface_generation,
            final(device).buffers@ == old(device).buffers@,
            final(device).images@ == old(device).images@,
            final(device).command_buffers@ == old(device).command_buffers@,
            final(device).submissions@ == old(device).submissions@,
            final(device).presents@ == old(device).presents@,
            final(device).plain@.len() >= old(device).plain@.len(),
            forall|i: int| 0 <= i < old(device).plain@.len()
                ==> final(device).plain@[i] == old(device).plain@[i],
    {
        let _ = render_pass;
        match &self.framebuffers {
            Some(cache) => copy_handles(cache),
            None => {
                let mut fbs: Vec<Handle> = Vec::new();
                let mut i: u32 = 0;
                while i < self.image_count
                    invariant
                        0 <= i <= self.image_count,
                        fbs@.len() == i,
                        device.wf(),
                        device.surface_generation == old(device).surface_generation,
                        device.buffers@ == old(device).buffers@,
                        device.images@ == old(device).images@,
                        device.command_buffers@ == old(device).command_buffers@,
                        device.submissions@ == old(device).submissions@,
                        device.presents@ == old(device).presents@,
                        device.plain@.len() >= old(device).plain@.len(),
                        forall|k: int| 0 <= k < old(device).plain@.len()
                            ==> device.plain@[k] == old(device).plain@[k],
                    decreases self.image_count - i,
                {
                    let fb = device.create_object(ObjectKind::Framebuffer);
                    fbs.push(fb);
                    i += 1;
                }
                let r = copy_handles(&fbs);
                self.framebuffers = Some(fbs);
                r
            },
        }
    }

    /// The chain's handle.
    pub fn handle(&self) -> (r: Handle)
        ensures
            r == self.handle,
    {
        self.handle
    }

    /// The queue presentation requests go to.
    pub fn queue(&self) -> (r: Handle)
        ensures
            r == self.present_queue,
    {
        self.present_queue
    }

    /// The chain's current pixel extent.
    pub fn image_extent(&self) -> (r: Extent2D)
        ensures
            r == self.image_extent,
    {
        self.image_extent
    }

    /// The chain's current pixel extent, under the name the render loop
    /// uses.
    pub fn image_dimensions(&self) -> (r: Extent2D)
        ensures
            r == self.image_extent,
    {
        self.image_extent
    }

    /// Reverse of creation, and the surface goes with the chain: the
    /// terminal state.
    pub fn destroy(&mut self, device: &mut Device)
        requires
            old(self).wf(),
            old(device).wf(),
            old(device).image_alive(old(self).depth_buffer.image),
        ensures
            final(self).wf(),
            final(device).wf(),
            final(self).handle == NULL_HANDLE,
            final(self).surface == NULL_HANDLE,
            final(self).framebuffers is None,
            !final(device).images@[old(self).depth_buffer.image as int].alive,
            final(device).images@.len() == old(device).images@.len(),
            forall|i: int| 0 <= i < old(device).images@.len() && i != old(self).depth_buffer.image
                ==> final(device).images@[i] == old(device).images@[i],
            final(device).buffers@ == old(device).buffers@,
            final(device).command_buffers@ == old(device).command_buffers@,
            final(device).plain@ == old(device).plain@,
            final(device).submissions@ == old(device).submissions@,
            final(device).presents@ == old(device).presents@,
            final(device).surface_generation == old(device).surface_generation,
    {
        device.free_image(self.depth_buffer.image);
        self.framebuffers = None;
        self.handle = NULL_HANDLE;
        self.surface = NULL_HANDLE;
    }
}

/// A copy of a handle list.
fn copy_handles(v: &Vec<Handle>) -> (r: Vec<Handle>)
    ensures
        r@ == v@,
{
    let mut r: Vec<Handle> = Vec::new();
    let mut i: usize = 0;
    while i < v.len()
        invariant
            0 <= i <= v@.len(),
            r@ == v@.take(i as int),
        decreases v@.len() - i,
    {
        r.push(v[i]);
        proof {
            assert(r@ =~= v@.take(i as int + 1));
        }
        i += 1;
    }
    proof {
        assert(v@.take(v@.len() as int) =~= v@);
    }
    r
}

} // verus!
