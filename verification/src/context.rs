//! The engine context: selected adapter, logical device, queue, command
//! pool, synchronization pool and the current swapchain.
//!
//! Construction order — and its exact reverse at teardown — is the
//! load-bearing part: the swapchain and every pooled primitive go before
//! the device-level objects.
use crate::device::{Device, ObjectKind};
use crate::error::EngineError;
use crate::memory;
use crate::physical_device::{adapter_suitable, adapter_wf, lemma_selection_unique, Adapter,
    PhysicalDevice};
use crate::swapchain::{caps_wf, Swapchain};
use crate::sync_pool::SyncPool;
use crate::types::{Extent2D, Handle};
use vstd::prelude::*;

verus! {

/// The kind of native window handle a surface was created from.
#[derive(Clone, Copy, PartialEq, Eq, Structural, Debug)]
pub enum WindowHandleType {
    X11,
    Wayland,
    Win32,
}

/// Owns the device-level state every other component draws on.
pub struct Context {
    pub device: Device,
    pub physical_device: PhysicalDevice,
    pub graphics_queue: Handle,
    pub cmd_pool: Handle,
    pub sync_pool: SyncPool,
    pub swapchain: Option<Swapchain>,
}

/// The bounds construction relies on for every enumerated adapter.
pub open spec fn adapters_wf(adapters: Seq<Adapter>) -> bool {
    forall|i: int| 0 <= i < adapters.len() ==> {
        &&& adapter_wf(#[trigger] adapters[i])
        &&& caps_wf(adapters[i].capabilities)
        &&& adapters[i].memory_types@.len() <= memory::MAX_MEMORY_TYPES
    }
}

/// A context can be created: some adapter satisfies the hard constraints,
/// and the adapter the selector picks offers both memory classes the
/// upload path needs.
pub open spec fn context_creatable(adapters: Seq<Adapter>, required: Seq<u64>) -> bool {
    exists|pd: PhysicalDevice|
        {
            &&& #[trigger] pd.selected_from(adapters, required)
            &&& memory::has_memory_type(pd.memory_types@, memory::MEMORY_PROPERTY_DEVICE_LOCAL)
            &&& memory::has_memory_type(
                pd.memory_types@,
                memory::MEMORY_PROPERTY_HOST_VISIBLE | memory::MEMORY_PROPERTY_HOST_COHERENT,
            )
        }
}

/// When the selected adapter misses one of the two memory classes, no
/// selection offers both: selection is unique.
proof fn lemma_not_creatable(
    adapters: Seq<Adapter>,
    required: Seq<u64>,
    selected: PhysicalDevice,
)
    requires
        selected.selected_from(adapters, required),
        !memory::has_memory_type(selected.memory_types@, memory::MEMORY_PROPERTY_DEVICE_LOCAL)
            || !memory::has_memory_type(
            selected.memory_types@,
            memory::MEMORY_PROPERTY_HOST_VISIBLE | memory::MEMORY_PROPERTY_HOST_COHERENT,
        ),
    ensures
        !context_creatable(adapters, required),
{
    assert forall|pd: PhysicalDevice| #[trigger] pd.selected_from(adapters, required) implies !(
    memory::has_memory_type(pd.memory_types@, memory::MEMORY_PROPERTY_DEVICE_LOCAL)
        && memory::has_memory_type(
        pd.memory_types@,
        memory::MEMORY_PROPERTY_HOST_VISIBLE | memory::MEMORY_PROPERTY_HOST_COHERENT,
    )) by {
        lemma_selection_unique(adapters, required, pd, selected);
    }
}

impl Context {
    /// The context's structural invariant: a well-formed device model, a
    /// selected adapter whose recorded capabilities are in bounds and
    /// offer both memory classes the upload path needs, and a well-formed
    /// swapchain whenever one exists.
    pub open spec fn wf(self) -> bool {
        &&& self.device.wf()
        &&& caps_wf(self.physical_device.surface_capabilities)
        &&& self.physical_device.memory_types@.len() <= memory::MAX_MEMORY_TYPES
        &&& memory::has_memory_type(
            self.physical_device.memory_types@,
            memory::MEMORY_PROPERTY_DEVICE_LOCAL,
        )
        &&& memory::has_memory_type(
            self.physical_device.memory_types@,
            memory::MEMORY_PROPERTY_HOST_VISIBLE | memory::MEMORY_PROPERTY_HOST_COHERENT,
        )
        &&& match self.swapchain {
            Some(sc) => sc.wf() && self.device.image_alive(sc.depth_buffer.image),
            None => true,
        }
    }

    /// Creates the context: selects the adapter, creates the logical
    /// device with its single combined graphics/present queue and a
    /// reusable command pool, and builds the first swapchain against the
    /// given surface. Fails fatally when no adapter satisfies the hard
    /// constraints, or when the selected adapter offers no memory class
    /// the upload path needs.
    pub fn new(
        adapters: &Vec<Adapter>,
        required_extensions: &Vec<u64>,
        surface: Handle,
        surface_size: &Extent2D,
    ) -> (r: Result<Context, EngineError>)
        requires
            adapters_wf(adapters@),
        ensures
            r is Ok <==> context_creatable(adapters@, required_extensions@),
            (r == Err::<Context, EngineError>(EngineError::NoSuitableAdapter)) <==> !(exists|
                i: int,
            |
                0 <= i < adapters@.len() && adapter_suitable(
                    #[trigger] adapters@[i],
                    required_extensions@,
                )),
            r matches Err(e) ==> (e == EngineError::NoSuitableAdapter
                || e == EngineError::NoCompatibleMemoryType),
            r matches Ok(ctx) ==> {
                &&& ctx.wf()
                &&& ctx.physical_device.selected_from(adapters@, required_extensions@)
                &&& ctx.swapchain matches Some(sc) && sc.surface == surface
                    && sc.image_extent == crate::swapchain::spec_compute_extent(
                    ctx.physical_device.surface_capabilities,
                    *surface_size,
                ) && sc.generation == ctx.device.surface_generation
                &&& ctx.sync_pool.semaphores() == Seq::<Handle>::empty()
                &&& ctx.sync_pool.fences() == Seq::<Handle>::empty()
                &&& ctx.device.submissions@.len() == 0
                &&& ctx.device.presents@.len() == 0
                &&& ctx.device.command_buffers@.len() == 0
            },
    {
        let physical_device = match PhysicalDevice::new(adapters, required_extensions) {
            Ok(pd) => pd,
            Err(e) => {
                proof {
                    assert forall|pd: PhysicalDevice| !(#[trigger] pd.selected_from(
                        adapters@,
                        required_extensions@,
                    )) by {
                        if pd.selected_from(adapters@, required_extensions@) {
                            assert(adapter_suitable(
                                adapters@[pd.handle as int],
                                required_extensions@,
                            ));
                        }
                    }
                }
                return Err(e);
            },
        };
        // The upload path needs a host-visible staging class and a
        // device-local destination class; treat their absence as the same
        // non-recoverable startup failure as device selection.
        let staging_class = memory::find_memory_type(
            &physical_device.memory_types,
            0xffff_ffffu32,
            memory::MEMORY_PROPERTY_HOST_VISIBLE | memory::MEMORY_PROPERTY_HOST_COHERENT,
        );
        if staging_class.is_none() {
            proof {
                lemma_not_creatable(adapters@, required_extensions@, physical_device);
            }
            return Err(EngineError::NoCompatibleMemoryType);
        }
        let local_class = memory::find_memory_type(
            &physical_device.memory_types,
            0xffff_ffffu32,
            memory::MEMORY_PROPERTY_DEVICE_LOCAL,
        );
        if local_class.is_none() {
            proof {
                lemma_not_creatable(adapters@, required_extensions@, physical_device);
            }
            return Err(EngineError::NoCompatibleMemoryType);
        }
        proof {
            assert(memory::has_memory_type(
                physical_device.memory_types@,
                memory::MEMORY_PROPERTY_HOST_VISIBLE | memory::MEMORY_PROPERTY_HOST_COHERENT,
            ));
            assert(memory::has_memory_type(
                physical_device.memory_types@,
                memory::MEMORY_PROPERTY_DEVICE_LOCAL,
            ));
            assert(context_creatable(adapters@, required_extensions@));
        }
        let mut device = Device::new();
        let graphics_queue = device.create_object(ObjectKind::Queue);
        let cmd_pool = device.create_object(ObjectKind::CommandPool);
        let swapchain = match Swapchain::new(
            &mut device,
            &physical_device,
            graphics_queue,
            surface,
            surface_size,
        ) {
            Ok(sc) => sc,
            Err(e) => {
                return Err(e);
            },
        };
        Ok(
            Context {
                device,
                physical_device,
                graphics_queue,
                cmd_pool,
                sync_pool: SyncPool::new(),
                swapchain: Some(swapchain),
            },
        )
    }

    /// Teardown, in the exact reverse of construction: the swapchain and
    /// its surface go first, then every pooled synchronization primitive.
    /// The returned handles are the pooled primitives the driver must now
    /// destroy, before it destroys the command pool, device and instance.
    pub fn destroy(&mut self) -> (r: Vec<Handle>)
        requires
            old(self).wf(),
        ensures
            final(self).wf(),
            final(self).swapchain is None,
            final(self).sync_pool.semaphores() == Seq::<Handle>::empty(),
            final(self).sync_pool.fences() == Seq::<Handle>::empty(),
            r@ == old(self).sync_pool.semaphores() + old(self).sync_pool.fences(),
            (old(self).swapchain matches Some(sc) ==> {
                &&& !final(self).device.images@[sc.depth_buffer.image as int].alive
                &&& final(self).device.images@.len() == old(self).device.images@.len()
                &&& forall|i: int| 0 <= i < old(self).device.images@.len() && i
                    != sc.depth_buffer.image ==> final(self).device.images@[i] == old(
                    self,
                ).device.images@[i]
            }),
            old(self).swapchain is None ==> final(self).device.images@ == old(
                self,
            ).device.images@,
            final(self).device.buffers@ == old(self).device.buffers@,
            final(self).device.command_buffers@ == old(self).device.command_buffers@,
            final(self).device.plain@ == old(self).device.plain@,
            final(self).device.submissions@ == old(self).device.submissions@,
            final(self).device.presents@ == old(self).device.presents@,
            final(self).device.surface_generation == old(self).device.surface_generation,
            final(self).physical_device == old(self).physical_device,
            final(self).graphics_queue == old(self).graphics_queue,
            final(self).cmd_pool == old(self).cmd_pool,
    {
        let mut swapchain = None;
        core::mem::swap(&mut self.swapchain, &mut swapchain);
        match &mut swapchain {
            Some(sc) => {
                sc.destroy(&mut self.device);
            },
            None => {},
        }
        self.sync_pool.destroy_all()
    }
}

} // verus!
