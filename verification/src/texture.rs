//! Textures and their upload to sampled GPU images.
//!
//! A texture arrives as a decoded RGBA8 pixel buffer; decoding image file
//! formats is an external concern. The upload runs the staged path with
//! the two supported layout transitions around the copy; any other
//! transition pair is a programmer error and fails fast.
use crate::device::{Device, ImageLayout, ObjectKind};
use crate::error::EngineError;
use crate::ids::{Asset, AssetId};
use crate::memory;
use crate::physical_device::{ImageTiling, PhysicalDevice, FORMAT_R8G8B8A8_SRGB};
use crate::types::Handle;
use vstd::prelude::*;

verus! {

/// Pipeline stage bit: the very start of the pipe.
pub const PIPELINE_STAGE_TOP_OF_PIPE: u32 = 0x1;
/// Pipeline stage bit: the fragment shader stage.
pub const PIPELINE_STAGE_FRAGMENT_SHADER: u32 = 0x80;
/// Pipeline stage bit: color attachment output.
pub const PIPELINE_STAGE_COLOR_ATTACHMENT_OUTPUT: u32 = 0x400;
/// Pipeline stage bit: transfer operations.
pub const PIPELINE_STAGE_TRANSFER: u32 = 0x1000;
/// Access bit: reads from shaders.
pub const ACCESS_SHADER_READ: u32 = 0x20;
/// Access bit: writes by transfer operations.
pub const ACCESS_TRANSFER_WRITE: u32 = 0x1000;

/// The barrier configuration of one supported layout transition.
#[derive(Clone, Copy, PartialEq, Eq, Structural, Debug)]
pub struct BarrierMasks {
    pub src_access: u32,
    pub dst_access: u32,
    pub src_stage: u32,
    pub dst_stage: u32,
}

/// The two-case transition state machine of the upload protocol: entering
/// the transfer-destination layout waits on nothing; leaving it for shader
/// reads makes the transfer's write visible before the fragment shader
/// reads. Every other pair is unsupported.
pub open spec fn spec_transition_masks(old_layout: ImageLayout, new_layout: ImageLayout) -> Option<
    BarrierMasks,
> {
    match (old_layout, new_layout) {
        (ImageLayout::Undefined, ImageLayout::TransferDstOptimal) => Some(
            BarrierMasks {
                src_access: 0,
                dst_access: ACCESS_TRANSFER_WRITE,
                src_stage: PIPELINE_STAGE_TOP_OF_PIPE,
                dst_stage: PIPELINE_STAGE_TRANSFER,
            },
        ),
        (ImageLayout::TransferDstOptimal, ImageLayout::ShaderReadOnlyOptimal) => Some(
            BarrierMasks {
                src_access: ACCESS_TRANSFER_WRITE,
                dst_access: ACCESS_SHADER_READ,
                src_stage: PIPELINE_STAGE_TRANSFER,
                dst_stage: PIPELINE_STAGE_FRAGMENT_SHADER,
            },
        ),
        _ => None,
    }
}

/// The barrier masks of one supported transition, as executable values.
pub fn transition_masks(old_layout: ImageLayout, new_layout: ImageLayout) -> (r: Option<
    BarrierMasks,
>)
    ensures
        r == spec_transition_masks(old_layout, new_layout),
{
    match (old_layout, new_layout) {
        (ImageLayout::Undefined, ImageLayout::TransferDstOptimal) => Some(
            BarrierMasks {
                src_access: 0,
                dst_access: ACCESS_TRANSFER_WRITE,
                src_stage: PIPELINE_STAGE_TOP_OF_PIPE,
                dst_stage: PIPELINE_STAGE_TRANSFER,
            },
        ),
        (ImageLayout::TransferDstOptimal, ImageLayout::ShaderReadOnlyOptimal) => Some(
            BarrierMasks {
                src_access: ACCESS_TRANSFER_WRITE,
                dst_access: ACCESS_SHADER_READ,
                src_stage: PIPELINE_STAGE_TRANSFER,
                dst_stage: PIPELINE_STAGE_FRAGMENT_SHADER,
            },
        ),
        _ => None,
    }
}

/// Records a pipeline barrier moving `image` from `old_layout` to
/// `new_layout` on a transient command buffer awaited synchronously.
/// Fails fast — touching nothing — on any pair outside the upload
/// protocol: that is a programmer error, not a runtime condition.
pub fn transition_image_layout(
    device: &mut Device,
    image: Handle,
    old_layout: ImageLayout,
    new_layout: ImageLayout,
) -> (r: Result<(), EngineError>)
    requires
        old(device).wf(),
        old(device).image_alive(image),
        old(device).images@[image as int].layout == old_layout,
    ensures
        final(device).wf(),
        r is Ok <==> spec_transition_masks(old_layout, new_layout) is Some,
        r matches Err(e) ==> e == EngineError::UnsupportedLayoutTransition && *final(device)
            == *old(device),
        r is Ok ==> {
            &&& final(device).images@.len() == old(device).images@.len()
            &&& final(device).images@[image as int] == (crate::device::Image {
                layout: new_layout,
                ..old(device).images@[image as int]
            })
            &&& forall|i: int| 0 <= i < old(device).images@.len() && i != image
                ==> final(device).images@[i] == old(device).images@[i]
            &&& final(device).buffers@ == old(device).buffers@
            &&& final(device).command_buffers@ == old(device).command_buffers@
            &&& final(device).plain@ == old(device).plain@
            &&& final(device).submissions@ == old(device).submissions@
            &&& final(device).presents@ == old(device).presents@
            &&& final(device).surface_generation == old(device).surface_generation
        },
{
    match transition_masks(old_layout, new_layout) {
        Some(_) => {
            device.set_image_layout(image, new_layout);
            Ok(())
        },
        None => Err(EngineError::UnsupportedLayoutTransition),
    }
}

/// A texture as registered: a decoded RGBA8 pixel buffer with its size.
pub struct Texture {
    pub id: AssetId,
    pub width: u32,
    pub height: u32,
    pub pixels: Vec<u8>,
}

impl Texture {
    /// The pixel buffer holds exactly four bytes per texel, and at least
    /// one texel.
    pub open spec fn wf(self) -> bool {
        &&& self.pixels@.len() == 4 * (self.width as int) * (self.height as int)
        &&& self.pixels@.len() > 0
    }

    /// A texture from a decoded pixel buffer, not yet registered
    /// (identifier zero until the registry assigns one).
    pub fn new(width: u32, height: u32, pixels: Vec<u8>) -> (r: Texture)
        requires
            pixels@.len() == 4 * (width as int) * (height as int),
            pixels@.len() > 0,
        ensures
            r.wf(),
            r.id == 0,
            r.width == width,
            r.height == height,
            r.pixels@ == pixels@,
    {
        Texture { id: 0, width, height, pixels }
    }

    /// Uploads the pixels into a device-local sampled image, through the
    /// staged path with its two layout transitions, and creates the
    /// texture's view. The resident image holds exactly the texture's
    /// pixels, ready for shader reads.
    pub fn load(&self, device: &mut Device, physical_device: &PhysicalDevice) -> (r: Result<
        GpuResidentTexture,
        EngineError,
    >)
        requires
            old(device).wf(),
            self.wf(),
            physical_device.memory_types@.len() <= memory::MAX_MEMORY_TYPES,
        ensures
            final(device).wf(),
            r is Ok <==> memory::has_memory_type(
                physical_device.memory_types@,
                memory::MEMORY_PROPERTY_HOST_VISIBLE | memory::MEMORY_PROPERTY_HOST_COHERENT,
            ) && memory::has_memory_type(
                physical_device.memory_types@,
                memory::MEMORY_PROPERTY_DEVICE_LOCAL,
            ),
            r matches Err(e) ==> e == EngineError::NoCompatibleMemoryType && *final(device) == *old(
                device,
            ),
            r matches Ok(t) ==> {
                &&& t.id == self.id
                &&& final(device).image_alive(t.image)
                &&& t.image == old(device).images@.len()
                &&& final(device).images@.len() == old(device).images@.len() + 1
                &&& forall|i: int| 0 <= i < old(device).images@.len()
                    ==> final(device).images@[i] == old(device).images@[i]
                &&& final(device).images@[t.image as int].contents@ == self.pixels@
                &&& final(device).images@[t.image as int].layout
                    == ImageLayout::ShaderReadOnlyOptimal
                &&& final(device).images@[t.image as int].width == self.width
                &&& final(device).images@[t.image as int].height == self.height
                &&& final(device).buffers@.len() == old(device).buffers@.len() + 1
                &&& forall|i: int| 0 <= i < old(device).buffers@.len()
                    ==> final(device).buffers@[i] == old(device).buffers@[i]
                &&& !final(device).buffers@[old(device).buffers@.len() as int].alive
                &&& final(device).command_buffers@ == old(device).command_buffers@
                &&& final(device).submissions@ == old(device).submissions@
                &&& final(device).presents@ == old(device).presents@
                &&& final(device).surface_generation == old(device).surface_generation
                &&& final(device).plain@.len() >= old(device).plain@.len()
                &&& forall|i: int| 0 <= i < old(device).plain@.len()
                    ==> final(device).plain@[i] == old(device).plain@[i]
            },
    {
        let image = match upload_to_gpu(
            device,
            physical_device,
            &self.pixels,
            self.width,
            self.height,
        ) {
            Ok(h) => h,
            Err(e) => {
                return Err(e);
            },
        };
        let image_view = create_texture_view(device, image);
        Ok(GpuResidentTexture { id: self.id, image, image_view })
    }
}

impl Asset for Texture {
    fn id(&self) -> (r: AssetId)
        ensures
            r == self.id,
    {
        self.id
    }
}

/// A texture resident on the device: image, memory and view.
pub struct GpuResidentTexture {
    pub id: AssetId,
    pub image: Handle,
    pub image_view: Handle,
}

impl GpuResidentTexture {
    /// The identifier of the asset this resident image was made from.
    pub fn id(&self) -> (r: AssetId)
        ensures
            r == self.id,
    {
        self.id
    }
}

impl crate::vulkan_resource::DeviceResource for GpuResidentTexture {
    /// Destroys the view, image and memory. A dead or out-of-range image
    /// handle is left alone.
    fn destroy(&self, device: &mut Device)
        ensures
            final(device).wf(),
            final(device).images@.len() == old(device).images@.len(),
            self.image < old(device).images@.len() ==> !final(device).images@[
            self.image as int].alive,
            forall|i: int| 0 <= i < old(device).images@.len() && i != self.image
                ==> final(device).images@[i] == old(device).images@[i],
            final(device).buffers@ == old(device).buffers@,
            final(device).command_buffers@ == old(device).command_buffers@,
            final(device).plain@ == old(device).plain@,
            final(device).submissions@ == old(device).submissions@,
            final(device).presents@ == old(device).presents@,
            final(device).surface_generation == old(device).surface_generation,
    {
        if self.image < device.images.len() {
            let alive = device.images[self.image].alive;
            if alive {
                device.free_image(self.image);
            }
        }
    }
}

/// Runs the staged upload of a pixel buffer: staging buffer in, image
/// created undefined, transitioned for transfer, filled by a
/// buffer-to-image copy, transitioned for shader reads, staging freed.
fn upload_to_gpu(
    device: &mut Device,
    physical_device: &PhysicalDevice,
    pixels: &Vec<u8>,
    width: u32,
    height: u32,
) -> (r: Result<Handle, EngineError>)
    requires
        old(device).wf(),
        physical_device.memory_types@.len() <= memory::MAX_MEMORY_TYPES,
        pixels@.len() > 0,
    ensures
        final(device).wf(),
        r is Ok <==> memory::has_memory_type(
            physical_device.memory_types@,
            memory::MEMORY_PROPERTY_HOST_VISIBLE | memory::MEMORY_PROPERTY_HOST_COHERENT,
        ) && memory::has_memory_type(
            physical_device.memory_types@,
            memory::MEMORY_PROPERTY_DEVICE_LOCAL,
        ),
        r matches Err(e) ==> e == EngineError::NoCompatibleMemoryType && *final(device) == *old(
            device,
        ),
        r matches Ok(h) ==> {
            &&& h == old(device).images@.len()
            &&& final(device).image_alive(h)
            &&& final(device).images@.len() == old(device).images@.len() + 1
            &&& forall|i: int| 0 <= i < old(device).images@.len()
                ==> final(device).images@[i] == old(device).images@[i]
            &&& final(device).images@[h as int].contents@ == pixels@
            &&& final(device).images@[h as int].layout == ImageLayout::ShaderReadOnlyOptimal
            &&& final(device).images@[h as int].width == width
            &&& final(device).images@[h as int].height == height
            &&& final(device).buffers@.len() == old(device).buffers@.len() + 1
            &&& forall|i: int| 0 <= i < old(device).buffers@.len()
                ==> final(device).buffers@[i] == old(device).buffers@[i]
            &&& !final(device).buffers@[old(device).buffers@.len() as int].alive
            &&& final(device).command_buffers@ == old(device).command_buffers@
            &&& final(device).submissions@ == old(device).submissions@
            &&& final(device).presents@ == old(device).presents@
            &&& final(device).surface_generation == old(device).surface_generation
            &&& final(device).plain@.len() >= old(device).plain@.len()
            &&& forall|i: int| 0 <= i < old(device).plain@.len()
                ==> final(device).plain@[i] == old(device).plain@[i]
        },
{
    let staging_props = memory::MEMORY_PROPERTY_HOST_VISIBLE | memory::MEMORY_PROPERTY_HOST_COHERENT;
    if memory::find_memory_type(&physical_device.memory_types, 0xffff_ffffu32, staging_props)
        .is_none() {
        return Err(EngineError::NoCompatibleMemoryType);
    }
    if memory::find_memory_type(
        &physical_device.memory_types,
        0xffff_ffffu32,
        memory::MEMORY_PROPERTY_DEVICE_LOCAL,
    ).is_none() {
        return Err(EngineError::NoCompatibleMemoryType);
    }
    let size = pixels.len();
    let staging = match memory::allocate_buffer(
        device,
        physical_device,
        size,
        memory::BUFFER_USAGE_TRANSFER_SRC,
        staging_props,
    ) {
        Ok(h) => h,
        Err(e) => {
            return Err(e);
        },
    };
    proof {
        memory::lemma_or_contains_left(
            memory::MEMORY_PROPERTY_HOST_VISIBLE,
            memory::MEMORY_PROPERTY_HOST_COHERENT,
        );
        memory::lemma_flag_superset(
            device.buffers@[staging as int].properties,
            staging_props,
            memory::MEMORY_PROPERTY_HOST_VISIBLE,
        );
    }
    memory::copy_to_gpu(device, pixels, staging);
    let image = match memory::create_image(
        device,
        physical_device,
        width,
        height,
        FORMAT_R8G8B8A8_SRGB,
        ImageTiling::Optimal,
        memory::IMAGE_USAGE_TRANSFER_DST | memory::IMAGE_USAGE_SAMPLED,
        memory::MEMORY_PROPERTY_DEVICE_LOCAL,
    ) {
        Ok(h) => h,
        Err(e) => {
            return Err(e);
        },
    };
    let transitioned = transition_image_layout(
        device,
        image,
        ImageLayout::Undefined,
        ImageLayout::TransferDstOptimal,
    );
    proof {
        assert(transitioned is Ok);
    }
    device.copy_buffer_to_image(staging, image);
    let transitioned_again = transition_image_layout(
        device,
        image,
        ImageLayout::TransferDstOptimal,
        ImageLayout::ShaderReadOnlyOptimal,
    );
    proof {
        assert(transitioned_again is Ok);
    }
    device.free_buffer(staging);
    Ok(image)
}

/// Creates the sampled-color view of an uploaded texture image.
pub fn create_texture_view(device: &mut Device, texture: Handle) -> (h: Handle)
    requires
        old(device).wf(),
    ensures
        final(device).wf(),
        h == old(device).plain@.len(),
        final(device).plain@ == old(device).plain@.push(ObjectKind::ImageView),
        final(device).buffers@ == old(device).buffers@,
        final(device).images@ == old(device).images@,
        final(device).command_buffers@ == old(device).command_buffers@,
        final(device).submissions@ == old(device).submissions@,
        final(device).presents@ == old(device).presents@,
        final(device).surface_generation == old(device).surface_generation,
{
    memory::create_image_view(device, texture, FORMAT_R8G8B8A8_SRGB, 0)
}

/// Creates the engine's one anisotropic sampler.
pub fn create_sampler(device: &mut Device) -> (h: Handle)
    requires
        old(device).wf(),
    ensures
        final(device).wf(),
        h == old(device).plain@.len(),
        final(device).plain@ == old(device).plain@.push(ObjectKind::Sampler),
        final(device).buffers@ == old(device).buffers@,
        final(device).images@ == old(device).images@,
        final(device).command_buffers@ == old(device).command_buffers@,
        final(device).submissions@ == old(device).submissions@,
        final(device).presents@ == old(device).presents@,
        final(device).surface_generation == old(device).surface_generation,
{
    device.create_object(ObjectKind::Sampler)
}

} // verus!
