//! Memory-type selection, buffer allocation and the staged upload path.
//!
//! `find_memory_type` honors the type-filter bitmask and picks the first
//! memory type whose property flags are a superset of the requested flags —
//! first match wins, which is a correctness requirement of the underlying
//! API. `upload_via_staging` is the canonical upload: fill a host-visible
//! staging buffer, copy it into a device-local destination over a transient
//! command buffer that is awaited synchronously, then free the staging
//! buffer.
use crate::device::Device;
use crate::device::Mat4;
use crate::error::EngineError;
use crate::geometry::{index_data_bytes, indices_to_bytes, u32_le_bytes, vertex_data_bytes,
    vertices_to_bytes, Vertex};
use crate::physical_device::{ImageTiling, PhysicalDevice};
use crate::types::Handle;
use vstd::prelude::*;

verus! {

/// Memory property bit: resides in device-local memory.
pub const MEMORY_PROPERTY_DEVICE_LOCAL: u32 = 0x1;
/// Memory property bit: mappable into host address space.
pub const MEMORY_PROPERTY_HOST_VISIBLE: u32 = 0x2;
/// Memory property bit: host writes are visible without explicit flushes.
pub const MEMORY_PROPERTY_HOST_COHERENT: u32 = 0x4;

/// Buffer usage bit: source of a transfer.
pub const BUFFER_USAGE_TRANSFER_SRC: u32 = 0x1;
/// Buffer usage bit: destination of a transfer.
pub const BUFFER_USAGE_TRANSFER_DST: u32 = 0x2;
/// Buffer usage bit: uniform buffer.
pub const BUFFER_USAGE_UNIFORM_BUFFER: u32 = 0x10;
/// Buffer usage bit: index buffer.
pub const BUFFER_USAGE_INDEX_BUFFER: u32 = 0x40;
/// Buffer usage bit: vertex buffer.
pub const BUFFER_USAGE_VERTEX_BUFFER: u32 = 0x80;

/// Image usage bit: destination of a transfer.
pub const IMAGE_USAGE_TRANSFER_DST: u32 = 0x2;
/// Image usage bit: sampled from shaders.
pub const IMAGE_USAGE_SAMPLED: u32 = 0x4;
/// Image usage bit: color attachment.
pub const IMAGE_USAGE_COLOR_ATTACHMENT: u32 = 0x10;
/// Image usage bit: depth/stencil attachment.
pub const IMAGE_USAGE_DEPTH_STENCIL_ATTACHMENT: u32 = 0x20;

/// The upper bound the API places on the number of memory types.
pub const MAX_MEMORY_TYPES: usize = 32;

/// Memory type `ix` (with flags `flags`) is admitted by the type filter and
/// offers every requested property.
pub open spec fn memory_type_matches(flags: u32, type_filter: u32, ix: int, properties: u32)
    -> bool {
    &&& 0 <= ix < 32
    &&& type_filter & (1u32 << (ix as u32)) != 0
    &&& properties & flags == properties
}

/// First-match memory type selection. Returns the index of the first
/// memory type admitted by `type_filter` whose flags are a superset of
/// `properties`, and nothing when no type matches.
pub fn find_memory_type(memory_types: &Vec<u32>, type_filter: u32, properties: u32) -> (r: Option<
    u32,
>)
    requires
        memory_types@.len() <= MAX_MEMORY_TYPES,
    ensures
        r matches Some(ix) ==> {
            &&& 0 <= ix < memory_types@.len()
            &&& memory_type_matches(memory_types@[ix as int], type_filter, ix as int, properties)
            &&& forall|j: int| 0 <= j < ix
                ==> !memory_type_matches(#[trigger] memory_types@[j], type_filter, j, properties)
        },
        r is None ==> forall|j: int| 0 <= j < memory_types@.len()
            ==> !memory_type_matches(#[trigger] memory_types@[j], type_filter, j, properties),
{
    let mut i: usize = 0;
    while i < memory_types.len()
        invariant
            0 <= i <= memory_types@.len(),
            memory_types@.len() <= 32,
            forall|j: int| 0 <= j < i
                ==> !memory_type_matches(#[trigger] memory_types@[j], type_filter, j, properties),
        decreases memory_types@.len() - i,
    {
        let flags = memory_types[i];
        if type_filter & (1u32 << (i as u32)) != 0 && properties & flags == properties {
            return Some(i as u32);
        }
        i += 1;
    }
    None
}

/// Flag containment is transitive: a superset of the requested properties
/// contains every bit the request contains.
pub proof fn lemma_flag_superset(flags: u32, properties: u32, mask: u32)
    requires
        properties & flags == properties,
        properties & mask == mask,
    ensures
        flags & mask == mask,
{
    assert(flags & mask == mask) by (bit_vector)
        requires
            properties & flags == properties,
            properties & mask == mask,
    ;
}

/// A union of flags contains its left operand.
pub proof fn lemma_or_contains_left(a: u32, b: u32)
    ensures
        (a | b) & a == a,
{
    assert((a | b) & a == a) by (bit_vector);
}

/// Intersecting a flag word with itself keeps it.
pub proof fn lemma_and_self(a: u32)
    ensures
        a & a == a,
{
    assert(a & a == a) by (bit_vector);
}

/// There is a memory type whose flags contain `properties` (the type
/// filter of the model device admits every type).
pub open spec fn has_memory_type(memory_types: Seq<u32>, properties: u32) -> bool {
    exists|j: int| 0 <= j < memory_types.len() && memory_type_matches(
        #[trigger] memory_types[j],
        0xffff_ffffu32,
        j,
        properties,
    )
}

/// Creates a buffer of `size` bytes, selects the first memory type whose
/// flags are a superset of `properties` (the model device's requirements
/// admit every memory type), allocates and binds.
pub fn allocate_buffer(
    device: &mut Device,
    physical_device: &PhysicalDevice,
    size: usize,
    usage: u32,
    properties: u32,
) -> (r: Result<Handle, EngineError>)
    requires
        old(device).wf(),
        physical_device.memory_types@.len() <= MAX_MEMORY_TYPES,
    ensures
        final(device).wf(),
        r is Ok <==> has_memory_type(physical_device.memory_types@, properties),
        r matches Err(e) ==> e == EngineError::NoCompatibleMemoryType && *final(device) == *old(
            device,
        ),
        r matches Ok(h) ==> {
            &&& h == old(device).buffers@.len()
            &&& final(device).buffers@.len() == old(device).buffers@.len() + 1
            &&& forall|i: int| 0 <= i < old(device).buffers@.len()
                ==> final(device).buffers@[i] == old(device).buffers@[i]
            &&& final(device).buffer_alive(h)
            &&& final(device).buffers@[h as int].size == size
            &&& final(device).buffers@[h as int].usage == usage
            &&& final(device).buffers@[h as int].contents@ == crate::device::zero_bytes(
                size as nat,
            )
            &&& memory_type_matches(
                final(device).buffers@[h as int].properties,
                0xffff_ffffu32,
                final(device).buffers@[h as int].memory_type as int,
                properties,
            )
            &&& final(device).buffers@[h as int].properties == physical_device.memory_types@[
                final(device).buffers@[h as int].memory_type as int]
            &&& forall|j: int| 0 <= j < final(device).buffers@[h as int].memory_type
                ==> !memory_type_matches(
                    #[trigger] physical_device.memory_types@[j],
                    0xffff_ffffu32,
                    j,
                    properties,
                )
            &&& final(device).images@ == old(device).images@
            &&& final(device).command_buffers@ == old(device).command_buffers@
            &&& final(device).plain@ == old(device).plain@
            &&& final(device).submissions@ == old(device).submissions@
            &&& final(device).presents@ == old(device).presents@
            &&& final(device).surface_generation == old(device).surface_generation
        },
{
    let mem_type = match find_memory_type(&physical_device.memory_types, 0xffff_ffffu32, properties)
        {
        Some(ix) => ix,
        None => {
            return Err(EngineError::NoCompatibleMemoryType);
        },
    };
    let flags = physical_device.memory_types[mem_type as usize];
    let h = device.create_buffer(size, usage, mem_type, flags);
    Ok(h)
}

/// Maps the buffer's allocation and copies `data` into it, the host-side
/// half of a staged upload.
pub fn copy_to_gpu(device: &mut Device, data: &Vec<u8>, dst: Handle)
    requires
        old(device).wf(),
        old(device).buffer_alive(dst),
        old(device).buffers@[dst as int].host_visible(),
        data@.len() == old(device).buffers@[dst as int].size,
    ensures
        final(device).wf(),
        final(device).buffers@.len() == old(device).buffers@.len(),
        final(device).buffers@[dst as int].contents@ == data@,
        final(device).buffers@[dst as int].size == old(device).buffers@[dst as int].size,
        final(device).buffers@[dst as int].usage == old(device).buffers@[dst as int].usage,
        final(device).buffers@[dst as int].properties == old(device).buffers@[dst as int].properties,
        final(device).buffers@[dst as int].alive,
        forall|i: int| 0 <= i < old(device).buffers@.len() && i != dst
            ==> final(device).buffers@[i] == old(device).buffers@[i],
        final(device).images@ == old(device).images@,
        final(device).command_buffers@ == old(device).command_buffers@,
        final(device).plain@ == old(device).plain@,
        final(device).submissions@ == old(device).submissions@,
        final(device).presents@ == old(device).presents@,
        final(device).surface_generation == old(device).surface_generation,
{
    device.write_buffer(dst, data);
}

/// Records and synchronously submits a transfer of `size` bytes from
/// `src_buf` into `dst_buf`.
pub fn copy_buffer(device: &mut Device, dst_buf: Handle, src_buf: Handle, size: usize)
    requires
        old(device).wf(),
        old(device).buffer_alive(src_buf),
        old(device).buffer_alive(dst_buf),
        src_buf != dst_buf,
        size <= old(device).buffers@[src_buf as int].size,
        size <= old(device).buffers@[dst_buf as int].size,
    ensures
        final(device).wf(),
        final(device).buffers@.len() == old(device).buffers@.len(),
        final(device).buffers@[dst_buf as int].contents@ == old(
            device,
        ).buffers@[src_buf as int].contents@.take(size as int) + old(
            device,
        ).buffers@[dst_buf as int].contents@.skip(size as int),
        final(device).buffers@[dst_buf as int].size == old(device).buffers@[dst_buf as int].size,
        final(device).buffers@[dst_buf as int].usage == old(device).buffers@[dst_buf as int].usage,
        final(device).buffers@[dst_buf as int].properties == old(
            device,
        ).buffers@[dst_buf as int].properties,
        final(device).buffers@[dst_buf as int].alive,
        forall|i: int| 0 <= i < old(device).buffers@.len() && i != dst_buf
            ==> final(device).buffers@[i] == old(device).buffers@[i],
        final(device).images@ == old(device).images@,
        final(device).command_buffers@ == old(device).command_buffers@,
        final(device).plain@ == old(device).plain@,
        final(device).submissions@ == old(device).submissions@,
        final(device).presents@ == old(device).presents@,
        final(device).surface_generation == old(device).surface_generation,
{
    device.copy_buffer(src_buf, dst_buf, size);
}

/// The canonical upload path: allocate a host-visible staging buffer, copy
/// `data` into it, allocate a device-local destination with the extra
/// `dst_usage` bits, copy staging to destination over a transient command
/// buffer awaited synchronously, and free the staging buffer. On success
/// the destination holds exactly `data`.
pub fn upload_via_staging(
    device: &mut Device,
    physical_device: &PhysicalDevice,
    data: &Vec<u8>,
    dst_usage: u32,
) -> (r: Result<Handle, EngineError>)
    requires
        old(device).wf(),
        physical_device.memory_types@.len() <= MAX_MEMORY_TYPES,
        data@.len() > 0,
    ensures
        final(device).wf(),
        r is Ok <==> has_memory_type(
            physical_device.memory_types@,
            MEMORY_PROPERTY_HOST_VISIBLE | MEMORY_PROPERTY_HOST_COHERENT,
        ) && has_memory_type(physical_device.memory_types@, MEMORY_PROPERTY_DEVICE_LOCAL),
        r matches Err(e) ==> e == EngineError::NoCompatibleMemoryType && *final(device) == *old(
            device,
        ),
        r matches Ok(h) ==> {
            &&& h == old(device).buffers@.len() + 1
            &&& final(device).buffers@.len() == old(device).buffers@.len() + 2
            &&& forall|i: int| 0 <= i < old(device).buffers@.len()
                ==> final(device).buffers@[i] == old(device).buffers@[i]
            &&& !final(device).buffers@[old(device).buffers@.len() as int].alive
            &&& final(device).buffer_alive(h)
            &&& final(device).buffers@[h as int].contents@ == data@
            &&& final(device).buffers@[h as int].size == data@.len()
            &&& final(device).buffers@[h as int].usage == BUFFER_USAGE_TRANSFER_DST | dst_usage
            &&& final(device).buffers@[h as int].properties & MEMORY_PROPERTY_DEVICE_LOCAL
                == MEMORY_PROPERTY_DEVICE_LOCAL
            &&& final(device).images@ == old(device).images@
            &&& final(device).command_buffers@ == old(device).command_buffers@
            &&& final(device).plain@ == old(device).plain@
            &&& final(device).submissions@ == old(device).submissions@
            &&& final(device).presents@ == old(device).presents@
            &&& final(device).surface_generation == old(device).surface_generation
        },
{
    let staging_props = MEMORY_PROPERTY_HOST_VISIBLE | MEMORY_PROPERTY_HOST_COHERENT;
    // Select both memory types up front, so that a failure leaves the
    // device untouched.
    if find_memory_type(&physical_device.memory_types, 0xffff_ffffu32, staging_props).is_none() {
        return Err(EngineError::NoCompatibleMemoryType);
    }
    if find_memory_type(
        &physical_device.memory_types,
        0xffff_ffffu32,
        MEMORY_PROPERTY_DEVICE_LOCAL,
    ).is_none() {
        return Err(EngineError::NoCompatibleMemoryType);
    }
    let size = data.len();
    let staging = match allocate_buffer(
        device,
        physical_device,
        size,
        BUFFER_USAGE_TRANSFER_SRC,
        staging_props,
    ) {
        Ok(h) => h,
        Err(e) => {
            return Err(e);
        },
    };
    proof {
        lemma_or_contains_left(MEMORY_PROPERTY_HOST_VISIBLE, MEMORY_PROPERTY_HOST_COHERENT);
        lemma_flag_superset(
            device.buffers@[staging as int].properties,
            staging_props,
            MEMORY_PROPERTY_HOST_VISIBLE,
        );
    }
    copy_to_gpu(device, data, staging);
    let dst = match allocate_buffer(
        device,
        physical_device,
        size,
        BUFFER_USAGE_TRANSFER_DST | dst_usage,
        MEMORY_PROPERTY_DEVICE_LOCAL,
    ) {
        Ok(h) => h,
        Err(e) => {
            return Err(e);
        },
    };
    proof {
        lemma_and_self(MEMORY_PROPERTY_DEVICE_LOCAL);
        lemma_flag_superset(
            device.buffers@[dst as int].properties,
            MEMORY_PROPERTY_DEVICE_LOCAL,
            MEMORY_PROPERTY_DEVICE_LOCAL,
        );
    }
    copy_buffer(device, dst, staging, size);
    device.free_buffer(staging);
    proof {
        assert(device.buffers@[dst as int].contents@ =~= data@);
    }
    Ok(dst)
}

/// Uploads a vertex buffer through the staging path; on success the
/// device-local destination holds the exact byte image of `vertices`.
pub fn create_vertex_buffer(
    device: &mut Device,
    physical_device: &PhysicalDevice,
    vertices: &Vec<Vertex>,
) -> (r: Result<Handle, EngineError>)
    requires
        old(device).wf(),
        physical_device.memory_types@.len() <= MAX_MEMORY_TYPES,
        vertices@.len() > 0,
    ensures
        final(device).wf(),
        r is Ok <==> has_memory_type(
            physical_device.memory_types@,
            MEMORY_PROPERTY_HOST_VISIBLE | MEMORY_PROPERTY_HOST_COHERENT,
        ) && has_memory_type(physical_device.memory_types@, MEMORY_PROPERTY_DEVICE_LOCAL),
        r matches Err(e) ==> e == EngineError::NoCompatibleMemoryType && *final(device) == *old(
            device,
        ),
        r matches Ok(h) ==> {
            &&& h == old(device).buffers@.len() + 1
            &&& final(device).buffers@.len() == old(device).buffers@.len() + 2
            &&& forall|i: int| 0 <= i < old(device).buffers@.len()
                ==> final(device).buffers@[i] == old(device).buffers@[i]
            &&& !final(device).buffers@[old(device).buffers@.len() as int].alive
            &&& final(device).buffer_alive(h)
            &&& final(device).buffers@[h as int].contents@ == vertex_data_bytes(vertices@)
            &&& final(device).buffers@[h as int].size == 36 * vertices@.len()
            &&& final(device).buffers@[h as int].usage == BUFFER_USAGE_TRANSFER_DST
                | BUFFER_USAGE_VERTEX_BUFFER
            &&& final(device).buffers@[h as int].properties & MEMORY_PROPERTY_DEVICE_LOCAL
                == MEMORY_PROPERTY_DEVICE_LOCAL
            &&& final(device).images@ == old(device).images@
            &&& final(device).command_buffers@ == old(device).command_buffers@
            &&& final(device).plain@ == old(device).plain@
            &&& final(device).submissions@ == old(device).submissions@
            &&& final(device).presents@ == old(device).presents@
            &&& final(device).surface_generation == old(device).surface_generation
        },
{
    let bytes = vertices_to_bytes(vertices);
    proof {
        lemma_vertex_data_bytes_len(vertices@);
    }
    upload_via_staging(device, physical_device, &bytes, BUFFER_USAGE_VERTEX_BUFFER)
}

/// Uploads the index range `[start, end)` through the staging path; on
/// success the device-local destination holds its exact byte image.
pub fn create_index_buffer(
    device: &mut Device,
    physical_device: &PhysicalDevice,
    indices: &Vec<u16>,
    start: usize,
    end: usize,
) -> (r: Result<Handle, EngineError>)
    requires
        old(device).wf(),
        physical_device.memory_types@.len() <= MAX_MEMORY_TYPES,
        start < end <= indices@.len(),
    ensures
        final(device).wf(),
        r is Ok <==> has_memory_type(
            physical_device.memory_types@,
            MEMORY_PROPERTY_HOST_VISIBLE | MEMORY_PROPERTY_HOST_COHERENT,
        ) && has_memory_type(physical_device.memory_types@, MEMORY_PROPERTY_DEVICE_LOCAL),
        r matches Err(e) ==> e == EngineError::NoCompatibleMemoryType && *final(device) == *old(
            device,
        ),
        r matches Ok(h) ==> {
            &&& h == old(device).buffers@.len() + 1
            &&& final(device).buffers@.len() == old(device).buffers@.len() + 2
            &&& forall|i: int| 0 <= i < old(device).buffers@.len()
                ==> final(device).buffers@[i] == old(device).buffers@[i]
            &&& !final(device).buffers@[old(device).buffers@.len() as int].alive
            &&& final(device).buffer_alive(h)
            &&& final(device).buffers@[h as int].contents@ == index_data_bytes(
                indices@.subrange(start as int, end as int),
            )
            &&& final(device).buffers@[h as int].size == 2 * (end - start)
            &&& final(device).buffers@[h as int].usage == BUFFER_USAGE_TRANSFER_DST
                | BUFFER_USAGE_INDEX_BUFFER
            &&& final(device).buffers@[h as int].properties & MEMORY_PROPERTY_DEVICE_LOCAL
                == MEMORY_PROPERTY_DEVICE_LOCAL
            &&& final(device).images@ == old(device).images@
            &&& final(device).command_buffers@ == old(device).command_buffers@
            &&& final(device).plain@ == old(device).plain@
            &&& final(device).submissions@ == old(device).submissions@
            &&& final(device).presents@ == old(device).presents@
            &&& final(device).surface_generation == old(device).surface_generation
        },
{
    let bytes = indices_to_bytes(indices, start, end);
    proof {
        lemma_index_data_bytes_len(indices@.subrange(start as int, end as int));
    }
    upload_via_staging(device, physical_device, &bytes, BUFFER_USAGE_INDEX_BUFFER)
}

/// The byte image of a vertex buffer has 36 bytes per vertex.
pub proof fn lemma_vertex_data_bytes_len(vs: Seq<Vertex>)
    ensures
        vertex_data_bytes(vs).len() == 36 * vs.len(),
    decreases vs.len(),
{
    if vs.len() > 0 {
        lemma_vertex_data_bytes_len(vs.skip(1));
    }
}

/// The byte image of an index buffer has 2 bytes per index.
pub proof fn lemma_index_data_bytes_len(is: Seq<u16>)
    ensures
        index_data_bytes(is).len() == 2 * is.len(),
    decreases is.len(),
{
    if is.len() > 0 {
        lemma_index_data_bytes_len(is.skip(1));
    }
}

/// Creates an image and binds it to an allocation from the first memory
/// type whose flags are a superset of `properties`.
pub fn create_image(
    device: &mut Device,
    physical_device: &PhysicalDevice,
    width: u32,
    height: u32,
    format: u32,
    tiling: ImageTiling,
    usage: u32,
    properties: u32,
) -> (r: Result<Handle, EngineError>)
    requires
        old(device).wf(),
        physical_device.memory_types@.len() <= MAX_MEMORY_TYPES,
    ensures
        final(device).wf(),
        r is Ok <==> has_memory_type(physical_device.memory_types@, properties),
        r matches Err(e) ==> e == EngineError::NoCompatibleMemoryType && *final(device) == *old(
            device,
        ),
        r matches Ok(h) ==> {
            &&& h == old(device).images@.len()
            &&& final(device).images@.len() == old(device).images@.len() + 1
            &&& forall|i: int| 0 <= i < old(device).images@.len()
                ==> final(device).images@[i] == old(device).images@[i]
            &&& final(device).image_alive(h)
            &&& final(device).images@[h as int].width == width
            &&& final(device).images@[h as int].height == height
            &&& final(device).images@[h as int].format == format
            &&& final(device).images@[h as int].tiling == tiling
            &&& final(device).images@[h as int].usage == usage
            &&& final(device).images@[h as int].layout == crate::device::ImageLayout::Undefined
            &&& (exists|ix: int| 0 <= ix < physical_device.memory_types@.len() && {
                &&& final(device).images@[h as int].properties == physical_device.memory_types@[
                    ix]
                &&& memory_type_matches(
                    #[trigger] physical_device.memory_types@[ix],
                    0xffff_ffffu32,
                    ix,
                    properties,
                )
                &&& forall|j: int| 0 <= j < ix ==> !memory_type_matches(
                    #[trigger] physical_device.memory_types@[j],
                    0xffff_ffffu32,
                    j,
                    properties,
                )
            })
            &&& final(device).buffers@ == old(device).buffers@
            &&& final(device).command_buffers@ == old(device).command_buffers@
            &&& final(device).plain@ == old(device).plain@
            &&& final(device).submissions@ == old(device).submissions@
            &&& final(device).presents@ == old(device).presents@
            &&& final(device).surface_generation == old(device).surface_generation
        },
{
    let mem_type = match find_memory_type(&physical_device.memory_types, 0xffff_ffffu32, properties)
        {
        Some(ix) => ix,
        None => {
            return Err(EngineError::NoCompatibleMemoryType);
        },
    };
    let flags = physical_device.memory_types[mem_type as usize];
    let h = device.create_image(width, height, format, tiling, usage, flags);
    Ok(h)
}

/// Creates a view of an image for the given aspect.
pub fn create_image_view(device: &mut Device, image: Handle, format: u32, aspect: u32) -> (h:
    Handle)
    requires
        old(device).wf(),
    ensures
        final(device).wf(),
        h == old(device).plain@.len(),
        final(device).plain@ == old(device).plain@.push(crate::device::ObjectKind::ImageView),
        final(device).buffers@ == old(device).buffers@,
        final(device).images@ == old(device).images@,
        final(device).command_buffers@ == old(device).command_buffers@,
        final(device).submissions@ == old(device).submissions@,
        final(device).presents@ == old(device).presents@,
        final(device).surface_generation == old(device).surface_generation,
{
    let _ = image;
    let _ = format;
    let _ = aspect;
    device.create_object(crate::device::ObjectKind::ImageView)
}

/// Creates the depth image of the given extent in device-local memory.
pub fn create_depth_buffer(
    device: &mut Device,
    physical_device: &PhysicalDevice,
    format: u32,
    width: u32,
    height: u32,
) -> (r: Result<Handle, EngineError>)
    requires
        old(device).wf(),
        physical_device.memory_types@.len() <= MAX_MEMORY_TYPES,
    ensures
        final(device).wf(),
        r is Ok <==> has_memory_type(physical_device.memory_types@, MEMORY_PROPERTY_DEVICE_LOCAL),
        r matches Err(e) ==> e == EngineError::NoCompatibleMemoryType && *final(device) == *old(
            device,
        ),
        r matches Ok(h) ==> {
            &&& h == old(device).images@.len()
            &&& final(device).images@.len() == old(device).images@.len() + 1
            &&& forall|i: int| 0 <= i < old(device).images@.len()
                ==> final(device).images@[i] == old(device).images@[i]
            &&& final(device).image_alive(h)
            &&& final(device).images@[h as int].width == width
            &&& final(device).images@[h as int].height == height
            &&& final(device).images@[h as int].format == format
            &&& final(device).images@[h as int].usage == IMAGE_USAGE_DEPTH_STENCIL_ATTACHMENT
            &&& final(device).buffers@ == old(device).buffers@
            &&& final(device).command_buffers@ == old(device).command_buffers@
            &&& final(device).plain@ == old(device).plain@
            &&& final(device).submissions@ == old(device).submissions@
            &&& final(device).presents@ == old(device).presents@
            &&& final(device).surface_generation == old(device).surface_generation
        },
{
    create_image(
        device,
        physical_device,
        width,
        height,
        format,
        ImageTiling::Optimal,
        IMAGE_USAGE_DEPTH_STENCIL_ATTACHMENT,
        MEMORY_PROPERTY_DEVICE_LOCAL,
    )
}

/// A host-visible uniform buffer and its allocation.
pub struct UniformBuffer {
    pub handle: Handle,
}

/// Creates `count` host-visible, host-coherent uniform buffers of `size`
/// bytes each.
pub fn create_uniform_buffers(
    device: &mut Device,
    physical_device: &PhysicalDevice,
    size: usize,
    count: usize,
) -> (r: Result<Vec<UniformBuffer>, EngineError>)
    requires
        old(device).wf(),
        physical_device.memory_types@.len() <= MAX_MEMORY_TYPES,
    ensures
        final(device).wf(),
        r is Ok <==> has_memory_type(
            physical_device.memory_types@,
            MEMORY_PROPERTY_HOST_VISIBLE | MEMORY_PROPERTY_HOST_COHERENT,
        ),
        r matches Err(e) ==> e == EngineError::NoCompatibleMemoryType && *final(device) == *old(
            device,
        ),
        r matches Ok(v) ==> {
            &&& v@.len() == count
            &&& forall|i: int| 0 <= i < count ==> {
                &&& final(device).buffer_alive((#[trigger] v@[i]).handle)
                &&& final(device).buffers@[v@[i].handle as int].size == size
                &&& final(device).buffers@[v@[i].handle as int].usage
                    == BUFFER_USAGE_UNIFORM_BUFFER
                &&& final(device).buffers@[v@[i].handle as int].host_visible()
            }
            &&& final(device).buffers@.len() == old(device).buffers@.len() + count
            &&& forall|i: int| 0 <= i < old(device).buffers@.len()
                ==> final(device).buffers@[i] == old(device).buffers@[i]
            &&& final(device).images@ == old(device).images@
            &&& final(device).command_buffers@ == old(device).command_buffers@
            &&& final(device).plain@ == old(device).plain@
            &&& final(device).submissions@ == old(device).submissions@
            &&& final(device).presents@ == old(device).presents@
            &&& final(device).surface_generation == old(device).surface_generation
        },
{
    let props = MEMORY_PROPERTY_HOST_VISIBLE | MEMORY_PROPERTY_HOST_COHERENT;
    if find_memory_type(&physical_device.memory_types, 0xffff_ffffu32, props).is_none() {
        return Err(EngineError::NoCompatibleMemoryType);
    }
    let mut v: Vec<UniformBuffer> = Vec::new();
    let mut n: usize = 0;
    while n < count
        invariant
            0 <= n <= count,
            v@.len() == n,
            device.wf(),
            physical_device.memory_types@.len() <= MAX_MEMORY_TYPES,
            has_memory_type(physical_device.memory_types@, props),
            props == MEMORY_PROPERTY_HOST_VISIBLE | MEMORY_PROPERTY_HOST_COHERENT,
            forall|i: int| 0 <= i < n ==> {
                &&& device.buffer_alive((#[trigger] v@[i]).handle)
                &&& device.buffers@[v@[i].handle as int].size == size
                &&& device.buffers@[v@[i].handle as int].usage == BUFFER_USAGE_UNIFORM_BUFFER
                &&& device.buffers@[v@[i].handle as int].host_visible()
            },
            device.buffers@.len() == old(device).buffers@.len() + n,
            forall|i: int| 0 <= i < old(device).buffers@.len()
                ==> device.buffers@[i] == old(device).buffers@[i],
            device.images@ == old(device).images@,
            device.command_buffers@ == old(device).command_buffers@,
            device.plain@ == old(device).plain@,
            device.submissions@ == old(device).submissions@,
            device.presents@ == old(device).presents@,
            device.surface_generation == old(device).surface_generation,
        decreases count - n,
    {
        let h = match allocate_buffer(
            device,
            physical_device,
            size,
            BUFFER_USAGE_UNIFORM_BUFFER,
            props,
        ) {
            Ok(h) => h,
            Err(_) => {
                proof {
                    assert(false);
                }
                vstd::pervasive::unreached()
            },
        };
        proof {
            lemma_or_contains_left(MEMORY_PROPERTY_HOST_VISIBLE, MEMORY_PROPERTY_HOST_COHERENT);
            lemma_flag_superset(
                device.buffers@[h as int].properties,
                props,
                MEMORY_PROPERTY_HOST_VISIBLE,
            );
        }
        v.push(UniformBuffer { handle: h });
        n += 1;
    }
    Ok(v)
}

/// Maps a uniform buffer and overwrites it with the 64-byte image of the
/// given matrix.
pub fn upload_uniform_buffers(device: &mut Device, transform: &Mat4, uniform: &UniformBuffer)
    requires
        old(device).wf(),
        old(device).buffer_alive(uniform.handle),
        old(device).buffers@[uniform.handle as int].host_visible(),
        old(device).buffers@[uniform.handle as int].size == 64,
    ensures
        final(device).wf(),
        final(device).buffers@.len() == old(device).buffers@.len(),
        final(device).buffers@[uniform.handle as int].contents@ == mat4_bytes(*transform),
        forall|i: int| 0 <= i < old(device).buffers@.len() && i != uniform.handle
            ==> final(device).buffers@[i] == old(device).buffers@[i],
        final(device).images@ == old(device).images@,
        final(device).command_buffers@ == old(device).command_buffers@,
        final(device).plain@ == old(device).plain@,
        final(device).submissions@ == old(device).submissions@,
        final(device).presents@ == old(device).presents@,
        final(device).surface_generation == old(device).surface_generation,
{
    let bytes = mat4_to_bytes(transform);
    proof {
        lemma_mat4_bytes_len(*transform, 0);
    }
    device.write_buffer(uniform.handle, &bytes);
}

/// The little-endian byte image of a push-constant matrix.
pub fn mat4_to_bytes(m: &Mat4) -> (r: Vec<u8>)
    ensures
        r@ == mat4_bytes(*m),
{
    let mut out: Vec<u8> = Vec::new();
    let mut i: usize = 0;
    while i < 16
        invariant
            0 <= i <= 16,
            out@ + mat4_bytes_from(*m, i as int) == mat4_bytes(*m),
        decreases 16 - i,
    {
        let x = m.bits[i];
        out.push((x & 0xff) as u8);
        out.push(((x >> 8) & 0xff) as u8);
        out.push(((x >> 16) & 0xff) as u8);
        out.push(((x >> 24) & 0xff) as u8);
        proof {
            assert(mat4_bytes_from(*m, i as int) == u32_le_bytes(m.bits@[i as int])
                + mat4_bytes_from(*m, i as int + 1));
            assert(out@ + mat4_bytes_from(*m, i as int + 1) =~= mat4_bytes(*m));
        }
        i += 1;
    }
    proof {
        assert(mat4_bytes_from(*m, 16) == Seq::<u8>::empty());
        assert(out@ =~= out@ + mat4_bytes_from(*m, 16));
    }
    out
}

/// Each remaining matrix entry contributes four bytes.
pub proof fn lemma_mat4_bytes_len(m: Mat4, i: int)
    requires
        0 <= i <= 16,
    ensures
        mat4_bytes_from(m, i).len() == 4 * (16 - i),
    decreases 16 - i,
{
    if i < 16 {
        lemma_mat4_bytes_len(m, i + 1);
    }
}

/// Handle `h` is named by none of the uniform buffers.
pub open spec fn not_a_uniform(uniforms: Seq<UniformBuffer>, h: int) -> bool {
    forall|j: int| 0 <= j < uniforms.len() ==> (#[trigger] uniforms[j]).handle != h
}

/// Waits for the device to go idle, then releases the renderer's
/// device-level resources: every uniform buffer with its memory, and the
/// descriptor pool, pipeline, render pass, pipeline layout, descriptor
/// set layouts and sampler named by the remaining handles (plain objects
/// whose destruction the driver mirrors).
pub fn release_resources(
    device: &mut Device,
    uniforms: &Vec<UniformBuffer>,
    descriptor_pool: Handle,
    pipeline: Handle,
    pipeline_layout: Handle,
    descriptor_set_layout: Handle,
    render_pass: Handle,
    sampler: Handle,
)
    requires
        old(device).wf(),
    ensures
        final(device).wf(),
        final(device).buffers@.len() == old(device).buffers@.len(),
        forall|j: int| 0 <= j < uniforms@.len() && (#[trigger] uniforms@[j]).handle < old(
            device,
        ).buffers@.len() ==> !final(device).buffers@[uniforms@[j].handle as int].alive,
        forall|i: int| 0 <= i < old(device).buffers@.len() && not_a_uniform(uniforms@, i)
            ==> final(device).buffers@[i] == old(device).buffers@[i],
        final(device).images@ == old(device).images@,
        final(device).command_buffers@ == old(device).command_buffers@,
        final(device).plain@ == old(device).plain@,
        final(device).submissions@ == old(device).submissions@,
        final(device).presents@ == old(device).presents@,
        final(device).surface_generation == old(device).surface_generation,
{
    let _ = descriptor_pool;
    let _ = pipeline;
    let _ = pipeline_layout;
    let _ = descriptor_set_layout;
    let _ = render_pass;
    let _ = sampler;
    let mut k: usize = 0;
    while k < uniforms.len()
        invariant
            0 <= k <= uniforms@.len(),
            device.wf(),
            device.buffers@.len() == old(device).buffers@.len(),
            forall|j: int| 0 <= j < k && (#[trigger] uniforms@[j]).handle < old(
                device,
            ).buffers@.len() ==> !device.buffers@[uniforms@[j].handle as int].alive,
            forall|i: int| 0 <= i < old(device).buffers@.len() && not_a_uniform(uniforms@, i)
                ==> device.buffers@[i] == old(device).buffers@[i],
            device.images@ == old(device).images@,
            device.command_buffers@ == old(device).command_buffers@,
            device.plain@ == old(device).plain@,
            device.submissions@ == old(device).submissions@,
            device.presents@ == old(device).presents@,
            device.surface_generation == old(device).surface_generation,
        decreases uniforms@.len() - k,
    {
        let h = uniforms[k].handle;
        if h < device.buffers.len() {
            let alive = device.buffers[h].alive;
            if alive {
                device.free_buffer(h);
            }
        }
        k += 1;
    }
}

/// The 64 little-endian bytes of a push-constant matrix.
pub open spec fn mat4_bytes(m: Mat4) -> Seq<u8> {
    mat4_bytes_from(m, 0)
}

/// The bytes of the matrix entries from position `i` on.
pub open spec fn mat4_bytes_from(m: Mat4, i: int) -> Seq<u8>
    decreases 16 - i,
{
    if i < 0 || i >= 16 {
        Seq::empty()
    } else {
        u32_le_bytes(m.bits@[i]) + mat4_bytes_from(m, i + 1)
    }
}

} // verus!
