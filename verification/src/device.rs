//! Model of the logical device and every object the driver owns for it.
//!
//! Each object class (buffers, images, command buffers, plain objects) lives
//! in its own table; an object's handle is its position in the table, so
//! handles of one class are distinct by construction. Objects are never
//! removed from a table — freeing marks the entry dead — which keeps every
//! handle meaningful and makes use-after-free a provable contract violation.
//!
//! The driver around the library mirrors these tables: whenever a verified
//! operation appends an object or records a command, the driver performs the
//! matching graphics-API call.
use crate::geometry::PrimitiveType;
use crate::physical_device::ImageTiling;
use crate::types::{Extent2D, Handle};
use vstd::prelude::*;

verus! {

/// A 4x4 matrix of 32-bit IEEE-754 bit patterns, the engine's per-draw push
/// constant (the combined projection x view x model transform). The core
/// never computes with the entries; it only carries them to the GPU.
#[derive(Clone, Copy, PartialEq, Eq, Debug)]
pub struct Mat4 {
    pub bits: [u32; 16],
}

/// The layout state of an image, as the upload protocol drives it.
#[derive(Clone, Copy, PartialEq, Eq, Structural, Debug)]
pub enum ImageLayout {
    Undefined,
    TransferDstOptimal,
    ShaderReadOnlyOptimal,
}

/// A buffer with its bound memory allocation.
pub struct Buffer {
    pub size: usize,
    pub usage: u32,
    /// Index of the memory type the allocation was made from.
    pub memory_type: u32,
    /// Property flags of that memory type.
    pub properties: u32,
    /// The bytes the allocation holds. Length equals `size`.
    pub contents: Vec<u8>,
    pub alive: bool,
}

/// An image with its bound memory allocation.
pub struct Image {
    pub width: u32,
    pub height: u32,
    pub format: u32,
    pub tiling: ImageTiling,
    pub usage: u32,
    /// Property flags of the memory type backing the image.
    pub properties: u32,
    pub layout: ImageLayout,
    /// The bytes last copied into the image; empty until a copy happens.
    pub contents: Vec<u8>,
    pub alive: bool,
}

/// One recorded command of a command buffer.
#[derive(Clone, PartialEq, Eq, Debug)]
pub enum Command {
    BeginRenderPass { render_pass: Handle, framebuffer: Handle, extent: Extent2D },
    SetViewport(Extent2D),
    SetScissor(Extent2D),
    BindPipeline(Handle),
    BindVertexBuffer(Handle),
    BindIndexBuffer(Handle),
    PushConstants(Mat4),
    BindDescriptorSet(Handle),
    DrawIndexed { index_count: usize },
    EndRenderPass,
}

/// A command buffer: a recording flag and the commands recorded so far.
pub struct CommandBuffer {
    pub recording: bool,
    pub commands: Vec<Command>,
}

/// One queue submission: which command buffer runs, which semaphore it
/// waits on before its color-attachment-output stage, and which semaphore
/// and fence it signals on completion.
#[derive(Clone, Copy, PartialEq, Eq, Structural, Debug)]
pub struct Submission {
    pub command_buffer: Handle,
    pub wait_semaphore: Handle,
    pub signal_semaphore: Handle,
    pub signal_fence: Handle,
}

/// One presentation request: which image is shown after which semaphore.
#[derive(Clone, Copy, PartialEq, Eq, Structural, Debug)]
pub struct PresentOp {
    pub swapchain: Handle,
    pub image_index: u32,
    pub wait_semaphore: Handle,
}

/// The class of a plain (stateless, for this model) driver object.
#[derive(Clone, Copy, PartialEq, Eq, Structural, Debug)]
pub enum ObjectKind {
    /// Reserved entry at position zero, so that no live object has the
    /// null handle.
    Null,
    ImageView,
    Framebuffer,
    /// A render pass with its color and depth attachment formats.
    RenderPass { color_format: u32, depth_format: u32 },
    PipelineLayout,
    /// A graphics pipeline with the shader modules of its two stages and
    /// its primitive topology.
    Pipeline { vertex_module: Handle, fragment_module: Handle, topology: PrimitiveType },
    Sampler,
    DescriptorPool,
    DescriptorSetLayout,
    DescriptorSet,
    ShaderModule,
    SwapchainObject,
    Queue,
    CommandPool,
    Semaphore,
    /// A fence, created signaled or unsignaled.
    Fence { signaled: bool },
}

/// The logical device: every table of driver-owned objects, the submission
/// and presentation logs, and the generation counter of the OS surface
/// (advanced whenever the windowing system invalidates the current surface,
/// which is what makes an existing swapchain stale).
pub struct Device {
    pub buffers: Vec<Buffer>,
    pub images: Vec<Image>,
    pub command_buffers: Vec<CommandBuffer>,
    pub plain: Vec<ObjectKind>,
    pub submissions: Vec<Submission>,
    pub presents: Vec<PresentOp>,
    pub surface_generation: u64,
}

/// A sequence of `n` zero bytes: the initial contents of an allocation.
pub open spec fn zero_bytes(n: nat) -> Seq<u8> {
    Seq::new(n, |i: int| 0u8)
}

impl Buffer {
    /// The allocation holds exactly `size` bytes.
    pub open spec fn wf(self) -> bool {
        self.contents@.len() == self.size
    }

    /// The buffer's memory can be mapped into host address space.
    pub open spec fn host_visible(self) -> bool {
        self.properties & crate::memory::MEMORY_PROPERTY_HOST_VISIBLE
            == crate::memory::MEMORY_PROPERTY_HOST_VISIBLE
    }
}

impl Device {
    /// Every buffer allocation matches its size, and the reserved null
    /// entry heads the plain-object table.
    pub open spec fn wf(self) -> bool {
        &&& forall|i: int| 0 <= i < self.buffers@.len() ==> (#[trigger] self.buffers@[i]).wf()
        &&& self.plain@.len() >= 1
        &&& self.plain@[0] == ObjectKind::Null
    }

    /// Handle `h` names a live buffer.
    pub open spec fn buffer_alive(self, h: Handle) -> bool {
        h < self.buffers@.len() && self.buffers@[h as int].alive
    }

    /// Handle `h` names a live image.
    pub open spec fn image_alive(self, h: Handle) -> bool {
        h < self.images@.len() && self.images@[h as int].alive
    }

    /// A fresh device: no objects, no submissions, generation zero.
    pub fn new() -> (r: Device)
        ensures
            r.wf(),
            r.buffers@.len() == 0,
            r.images@.len() == 0,
            r.command_buffers@.len() == 0,
            r.plain@.len() == 1,
            r.submissions@.len() == 0,
            r.presents@.len() == 0,
            r.surface_generation == 0,
    {
        let mut plain: Vec<ObjectKind> = Vec::new();
        plain.push(ObjectKind::Null);
        Device {
            buffers: Vec::new(),
            images: Vec::new(),
            command_buffers: Vec::new(),
            plain,
            submissions: Vec::new(),
            presents: Vec::new(),
            surface_generation: 0,
        }
    }

    /// The windowing system invalidated the surface (resize, pause or
    /// similar): any swapchain built for an earlier generation is stale.
    pub fn notify_surface_changed(&mut self)
        requires
            old(self).surface_generation < u64::MAX,
        ensures
            final(self).surface_generation == old(self).surface_generation + 1,
            final(self).buffers@ == old(self).buffers@,
            final(self).images@ == old(self).images@,
            final(self).command_buffers@ == old(self).command_buffers@,
            final(self).plain@ == old(self).plain@,
            final(self).submissions@ == old(self).submissions@,
            final(self).presents@ == old(self).presents@,
    {
        self.surface_generation = self.surface_generation + 1;
    }

    /// Creates one plain driver object of the given class.
    pub fn create_object(&mut self, kind: ObjectKind) -> (h: Handle)
        requires
            old(self).wf(),
        ensures
            final(self).wf(),
            h == old(self).plain@.len(),
            h >= 1,
            final(self).plain@ == old(self).plain@.push(kind),
            final(self).buffers@ == old(self).buffers@,
            final(self).images@ == old(self).images@,
            final(self).command_buffers@ == old(self).command_buffers@,
            final(self).submissions@ == old(self).submissions@,
            final(self).presents@ == old(self).presents@,
            final(self).surface_generation == old(self).surface_generation,
    {
        let h = self.plain.len();
        self.plain.push(kind);
        h
    }

    /// Creates a buffer bound to a zero-initialized allocation from the
    /// given memory type.
    pub fn create_buffer(&mut self, size: usize, usage: u32, memory_type: u32, properties: u32)
        -> (h: Handle)
        requires
            old(self).wf(),
        ensures
            final(self).wf(),
            h == old(self).buffers@.len(),
            final(self).buffers@.len() == old(self).buffers@.len() + 1,
            forall|i: int| 0 <= i < old(self).buffers@.len()
                ==> final(self).buffers@[i] == old(self).buffers@[i],
            final(self).buffers@[h as int].size == size,
            final(self).buffers@[h as int].usage == usage,
            final(self).buffers@[h as int].memory_type == memory_type,
            final(self).buffers@[h as int].properties == properties,
            final(self).buffers@[h as int].contents@ == zero_bytes(size as nat),
            final(self).buffers@[h as int].alive,
            final(self).images@ == old(self).images@,
            final(self).command_buffers@ == old(self).command_buffers@,
            final(self).plain@ == old(self).plain@,
            final(self).submissions@ == old(self).submissions@,
            final(self).presents@ == old(self).presents@,
            final(self).surface_generation == old(self).surface_generation,
    {
        let h = self.buffers.len();
        let contents = alloc_zero_bytes(size);
        self.buffers.push(
            Buffer { size, usage, memory_type, properties, contents, alive: true },
        );
        h
    }

    /// Destroys a buffer and frees its memory. The entry stays in the
    /// table, marked dead.
    pub fn free_buffer(&mut self, h: Handle)
        requires
            old(self).wf(),
            old(self).buffer_alive(h),
        ensures
            final(self).wf(),
            final(self).buffers@.len() == old(self).buffers@.len(),
            !final(self).buffers@[h as int].alive,
            forall|i: int| 0 <= i < old(self).buffers@.len() && i != h
                ==> final(self).buffers@[i] == old(self).buffers@[i],
            final(self).images@ == old(self).images@,
            final(self).command_buffers@ == old(self).command_buffers@,
            final(self).plain@ == old(self).plain@,
            final(self).submissions@ == old(self).submissions@,
            final(self).presents@ == old(self).presents@,
            final(self).surface_generation == old(self).surface_generation,
    {
        let b = &mut self.buffers[h];
        b.alive = false;
    }

    /// Maps the buffer's memory and overwrites it with `data`, the model of
    /// a host-side `memcpy` into a mapped allocation.
    pub fn write_buffer(&mut self, h: Handle, data: &Vec<u8>)
        requires
            old(self).wf(),
            old(self).buffer_alive(h),
            old(self).buffers@[h as int].host_visible(),
            data@.len() == old(self).buffers@[h as int].size,
        ensures
            final(self).wf(),
            final(self).buffers@.len() == old(self).buffers@.len(),
            final(self).buffers@[h as int].contents@ == data@,
            final(self).buffers@[h as int].size == old(self).buffers@[h as int].size,
            final(self).buffers@[h as int].usage == old(self).buffers@[h as int].usage,
            final(self).buffers@[h as int].memory_type == old(self).buffers@[h as int].memory_type,
            final(self).buffers@[h as int].properties == old(self).buffers@[h as int].properties,
            final(self).buffers@[h as int].alive,
            forall|i: int| 0 <= i < old(self).buffers@.len() && i != h
                ==> final(self).buffers@[i] == old(self).buffers@[i],
            final(self).images@ == old(self).images@,
            final(self).command_buffers@ == old(self).command_buffers@,
            final(self).plain@ == old(self).plain@,
            final(self).submissions@ == old(self).submissions@,
            final(self).presents@ == old(self).presents@,
            final(self).surface_generation == old(self).surface_generation,
    {
        let copy = clone_bytes(data);
        let b = &mut self.buffers[h];
        b.contents = copy;
    }

    /// Maps the buffer's memory back to the host and reads every byte.
    pub fn map_buffer(&self, h: Handle) -> (r: Vec<u8>)
        requires
            self.wf(),
            self.buffer_alive(h),
            self.buffers@[h as int].host_visible(),
        ensures
            r@ == self.buffers@[h as int].contents@,
    {
        clone_bytes(&self.buffers[h].contents)
    }

    /// A transfer copying `size` bytes from the start of `src` to the start
    /// of `dst`, recorded and submitted on a transient command buffer that
    /// is awaited before this returns.
    pub fn copy_buffer(&mut self, src: Handle, dst: Handle, size: usize)
        requires
            old(self).wf(),
            old(self).buffer_alive(src),
            old(self).buffer_alive(dst),
            size <= old(self).buffers@[src as int].size,
            size <= old(self).buffers@[dst as int].size,
            src != dst,
        ensures
            final(self).wf(),
            final(self).buffers@.len() == old(self).buffers@.len(),
            final(self).buffers@[dst as int].contents@
                == old(self).buffers@[src as int].contents@.take(size as int)
                    + old(self).buffers@[dst as int].contents@.skip(size as int),
            final(self).buffers@[dst as int].size == old(self).buffers@[dst as int].size,
            final(self).buffers@[dst as int].usage == old(self).buffers@[dst as int].usage,
            final(self).buffers@[dst as int].memory_type == old(
                self,
            ).buffers@[dst as int].memory_type,
            final(self).buffers@[dst as int].properties == old(
                self,
            ).buffers@[dst as int].properties,
            final(self).buffers@[dst as int].alive,
            forall|i: int| 0 <= i < old(self).buffers@.len() && i != dst
                ==> final(self).buffers@[i] == old(self).buffers@[i],
            final(self).images@ == old(self).images@,
            final(self).command_buffers@ == old(self).command_buffers@,
            final(self).plain@ == old(self).plain@,
            final(self).submissions@ == old(self).submissions@,
            final(self).presents@ == old(self).presents@,
            final(self).surface_generation == old(self).surface_generation,
    {
        let mut data: Vec<u8> = Vec::new();
        let mut i: usize = 0;
        while i < size
            invariant
                0 <= i <= size,
                size <= self.buffers@[src as int].size,
                self == old(self),
                self.wf(),
                self.buffer_alive(src),
                data@ == self.buffers@[src as int].contents@.take(i as int),
            decreases size - i,
        {
            let byte = self.buffers[src].contents[i];
            data.push(byte);
            proof {
                assert(data@ =~= self.buffers@[src as int].contents@.take(i as int + 1));
            }
            i += 1;
        }
        let mut merged = data;
        let mut j: usize = size;
        while j < self.buffers[dst].size
            invariant
                old(self).wf(),
                self == old(self),
                old(self).buffer_alive(dst),
                size <= j <= old(self).buffers@[dst as int].size,
                merged@ == old(self).buffers@[src as int].contents@.take(size as int)
                    + old(self).buffers@[dst as int].contents@.subrange(size as int, j as int),
            decreases self.buffers@[dst as int].size - j,
        {
            let byte = self.buffers[dst].contents[j];
            merged.push(byte);
            proof {
                assert(merged@ =~= old(self).buffers@[src as int].contents@.take(size as int)
                    + old(self).buffers@[dst as int].contents@.subrange(size as int, j as int + 1));
            }
            j += 1;
        }
        proof {
            assert(old(self).buffers@[dst as int].contents@.subrange(
                size as int,
                old(self).buffers@[dst as int].size as int,
            ) =~= old(self).buffers@[dst as int].contents@.skip(size as int));
        }
        let b = &mut self.buffers[dst];
        b.contents = merged;
    }

    /// Creates an image bound to a fresh allocation, in the undefined
    /// layout and with nothing copied into it yet.
    pub fn create_image(
        &mut self,
        width: u32,
        height: u32,
        format: u32,
        tiling: ImageTiling,
        usage: u32,
        properties: u32,
    ) -> (h: Handle)
        requires
            old(self).wf(),
        ensures
            final(self).wf(),
            h == old(self).images@.len(),
            final(self).images@.len() == old(self).images@.len() + 1,
            forall|i: int| 0 <= i < old(self).images@.len()
                ==> final(self).images@[i] == old(self).images@[i],
            final(self).images@[h as int] == (Image {
                width,
                height,
                format,
                tiling,
                usage,
                properties,
                layout: ImageLayout::Undefined,
                contents: final(self).images@[h as int].contents,
                alive: true,
            }),
            final(self).images@[h as int].contents@.len() == 0,
            final(self).buffers@ == old(self).buffers@,
            final(self).command_buffers@ == old(self).command_buffers@,
            final(self).plain@ == old(self).plain@,
            final(self).submissions@ == old(self).submissions@,
            final(self).presents@ == old(self).presents@,
            final(self).surface_generation == old(self).surface_generation,
    {
        let h = self.images.len();
        self.images.push(
            Image {
                width,
                height,
                format,
                tiling,
                usage,
                properties,
                layout: ImageLayout::Undefined,
                contents: Vec::new(),
                alive: true,
            },
        );
        h
    }

    /// Destroys an image and frees its memory. The entry stays, marked dead.
    pub fn free_image(&mut self, h: Handle)
        requires
            old(self).wf(),
            old(self).image_alive(h),
        ensures
            final(self).wf(),
            final(self).images@.len() == old(self).images@.len(),
            !final(self).images@[h as int].alive,
            forall|i: int| 0 <= i < old(self).images@.len() && i != h
                ==> final(self).images@[i] == old(self).images@[i],
            final(self).buffers@ == old(self).buffers@,
            final(self).command_buffers@ == old(self).command_buffers@,
            final(self).plain@ == old(self).plain@,
            final(self).submissions@ == old(self).submissions@,
            final(self).presents@ == old(self).presents@,
            final(self).surface_generation == old(self).surface_generation,
    {
        let img = &mut self.images[h];
        img.alive = false;
    }

    /// Moves an image to a new layout. Callers go through the checked
    /// transition protocol, which admits only the upload transitions.
    pub fn set_image_layout(&mut self, h: Handle, layout: ImageLayout)
        requires
            old(self).wf(),
            old(self).image_alive(h),
        ensures
            final(self).wf(),
            final(self).images@.len() == old(self).images@.len(),
            final(self).images@[h as int] == (Image {
                layout,
                ..old(self).images@[h as int]
            }),
            forall|i: int| 0 <= i < old(self).images@.len() && i != h
                ==> final(self).images@[i] == old(self).images@[i],
            final(self).buffers@ == old(self).buffers@,
            final(self).command_buffers@ == old(self).command_buffers@,
            final(self).plain@ == old(self).plain@,
            final(self).submissions@ == old(self).submissions@,
            final(self).presents@ == old(self).presents@,
            final(self).surface_generation == old(self).surface_generation,
    {
        let img = &mut self.images[h];
        img.layout = layout;
    }

    /// A transfer copying a whole buffer into an image that is ready as a
    /// transfer destination, recorded and submitted on a transient command
    /// buffer that is awaited before this returns.
    pub fn copy_buffer_to_image(&mut self, src: Handle, img: Handle)
        requires
            old(self).wf(),
            old(self).buffer_alive(src),
            old(self).image_alive(img),
            old(self).images@[img as int].layout == ImageLayout::TransferDstOptimal,
        ensures
            final(self).wf(),
            final(self).images@.len() == old(self).images@.len(),
            final(self).images@[img as int] == (Image {
                contents: final(self).images@[img as int].contents,
                ..old(self).images@[img as int]
            }),
            final(self).images@[img as int].contents@
                == old(self).buffers@[src as int].contents@,
            forall|i: int| 0 <= i < old(self).images@.len() && i != img
                ==> final(self).images@[i] == old(self).images@[i],
            final(self).buffers@ == old(self).buffers@,
            final(self).command_buffers@ == old(self).command_buffers@,
            final(self).plain@ == old(self).plain@,
            final(self).submissions@ == old(self).submissions@,
            final(self).presents@ == old(self).presents@,
            final(self).surface_generation == old(self).surface_generation,
    {
        let data = clone_bytes(&self.buffers[src].contents);
        let image = &mut self.images[img];
        image.contents = data;
    }

    /// Allocates one primary command buffer.
    pub fn create_command_buffer(&mut self) -> (h: Handle)
        requires
            old(self).wf(),
        ensures
            final(self).wf(),
            h == old(self).command_buffers@.len(),
            final(self).command_buffers@.len() == old(self).command_buffers@.len() + 1,
            forall|i: int| 0 <= i < old(self).command_buffers@.len()
                ==> final(self).command_buffers@[i] == old(self).command_buffers@[i],
            !final(self).command_buffers@[h as int].recording,
            final(self).command_buffers@[h as int].commands@.len() == 0,
            final(self).buffers@ == old(self).buffers@,
            final(self).images@ == old(self).images@,
            final(self).plain@ == old(self).plain@,
            final(self).submissions@ == old(self).submissions@,
            final(self).presents@ == old(self).presents@,
            final(self).surface_generation == old(self).surface_generation,
    {
        let h = self.command_buffers.len();
        self.command_buffers.push(CommandBuffer { recording: false, commands: Vec::new() });
        h
    }

    /// Resets a command buffer and begins recording into it.
    pub fn begin_commands(&mut self, h: Handle)
        requires
            old(self).wf(),
            h < old(self).command_buffers@.len(),
        ensures
            final(self).wf(),
            final(self).command_buffers@.len() == old(self).command_buffers@.len(),
            final(self).command_buffers@[h as int].recording,
            final(self).command_buffers@[h as int].commands@.len() == 0,
            forall|i: int| 0 <= i < old(self).command_buffers@.len() && i != h
                ==> final(self).command_buffers@[i] == old(self).command_buffers@[i],
            final(self).buffers@ == old(self).buffers@,
            final(self).images@ == old(self).images@,
            final(self).plain@ == old(self).plain@,
            final(self).submissions@ == old(self).submissions@,
            final(self).presents@ == old(self).presents@,
            final(self).surface_generation == old(self).surface_generation,
    {
        let cb = &mut self.command_buffers[h];
        cb.recording = true;
        cb.commands = Vec::new();
    }

    /// Records one command into a command buffer that is being recorded.
    pub fn record(&mut self, h: Handle, cmd: Command)
        requires
            old(self).wf(),
            h < old(self).command_buffers@.len(),
            old(self).command_buffers@[h as int].recording,
        ensures
            final(self).wf(),
            final(self).command_buffers@.len() == old(self).command_buffers@.len(),
            final(self).command_buffers@[h as int].recording,
            final(self).command_buffers@[h as int].commands@
                == old(self).command_buffers@[h as int].commands@.push(cmd),
            forall|i: int| 0 <= i < old(self).command_buffers@.len() && i != h
                ==> final(self).command_buffers@[i] == old(self).command_buffers@[i],
            final(self).buffers@ == old(self).buffers@,
            final(self).images@ == old(self).images@,
            final(self).plain@ == old(self).plain@,
            final(self).submissions@ == old(self).submissions@,
            final(self).presents@ == old(self).presents@,
            final(self).surface_generation == old(self).surface_generation,
    {
        let cb = &mut self.command_buffers[h];
        cb.commands.push(cmd);
    }

    /// Ends recording; the commands stay as recorded.
    pub fn end_commands(&mut self, h: Handle)
        requires
            old(self).wf(),
            h < old(self).command_buffers@.len(),
            old(self).command_buffers@[h as int].recording,
        ensures
            final(self).wf(),
            final(self).command_buffers@.len() == old(self).command_buffers@.len(),
            !final(self).command_buffers@[h as int].recording,
            final(self).command_buffers@[h as int].commands@
                == old(self).command_buffers@[h as int].commands@,
            forall|i: int| 0 <= i < old(self).command_buffers@.len() && i != h
                ==> final(self).command_buffers@[i] == old(self).command_buffers@[i],
            final(self).buffers@ == old(self).buffers@,
            final(self).images@ == old(self).images@,
            final(self).plain@ == old(self).plain@,
            final(self).submissions@ == old(self).submissions@,
            final(self).presents@ == old(self).presents@,
            final(self).surface_generation == old(self).surface_generation,
    {
        let cb = &mut self.command_buffers[h];
        cb.recording = false;
    }

    /// Submits a command buffer to the graphics queue.
    pub fn submit(&mut self, s: Submission)
        requires
            old(self).wf(),
        ensures
            final(self).wf(),
            final(self).submissions@ == old(self).submissions@.push(s),
            final(self).buffers@ == old(self).buffers@,
            final(self).images@ == old(self).images@,
            final(self).command_buffers@ == old(self).command_buffers@,
            final(self).plain@ == old(self).plain@,
            final(self).presents@ == old(self).presents@,
            final(self).surface_generation == old(self).surface_generation,
    {
        self.submissions.push(s);
    }

    /// Queues a presentation request.
    pub fn present(&mut self, p: PresentOp)
        requires
            old(self).wf(),
        ensures
            final(self).wf(),
            final(self).presents@ == old(self).presents@.push(p),
            final(self).buffers@ == old(self).buffers@,
            final(self).images@ == old(self).images@,
            final(self).command_buffers@ == old(self).command_buffers@,
            final(self).plain@ == old(self).plain@,
            final(self).submissions@ == old(self).submissions@,
            final(self).surface_generation == old(self).surface_generation,
    {
        self.presents.push(p);
    }
}

/// A zero-filled byte vector of the given length.
fn alloc_zero_bytes(n: usize) -> (r: Vec<u8>)
    ensures
        r@ == zero_bytes(n as nat),
{
    let mut r: Vec<u8> = Vec::new();
    let mut i: usize = 0;
    while i < n
        invariant
            0 <= i <= n,
            r@ == zero_bytes(i as nat),
        decreases n - i,
    {
        r.push(0u8);
        proof {
            assert(r@ =~= zero_bytes(i as nat + 1));
        }
        i += 1;
    }
    r
}

/// A byte-for-byte copy of `v`.
fn clone_bytes(v: &Vec<u8>) -> (r: Vec<u8>)
    ensures
        r@ == v@,
{
    let mut r: Vec<u8> = Vec::new();
    let mut i: usize = 0;
    while i < v.len()
        invariant
            0 <= i <= v@.len(),
            r@ == v@.take(i as int),
        decreases v@.len() - i,
    {
        r.push(v[i]);
        proof {
            assert(r@ =~= v@.take(i as int + 1));
        }
        i += 1;
    }
    proof {
        assert(v@.take(v@.len() as int) =~= v@);
    }
    r
}

} // verus!
