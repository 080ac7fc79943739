//! Unit tests of the selector, allocator, swapchain and utilities.
use chessno::device::{Device, ImageLayout, ObjectKind};
use chessno::error::EngineError;
use chessno::memory;
use chessno::path_wrangler::PathWrangler;
use chessno::physical_device::{
    choose_present_mode, choose_surface_format, find_depth_format, has_stencil_component, Adapter,
    DeviceType, FormatProperties, PhysicalDevice, QueueFamily, SurfaceCapabilities, SurfaceFormat,
    COLOR_SPACE_SRGB_NONLINEAR, FORMAT_B8G8R8A8_SRGB, FORMAT_D24_UNORM_S8_UINT, FORMAT_D32_SFLOAT,
    FORMAT_D32_SFLOAT_S8_UINT, FORMAT_FEATURE_DEPTH_STENCIL_ATTACHMENT, PRESENT_MODE_FIFO,
    PRESENT_MODE_MAILBOX,
};
use chessno::swapchain::{compute_extent, select_image_count, Swapchain};
use chessno::sync_pool::SyncPool;
use chessno::texture::transition_image_layout;
use chessno::mesh::{IndexBuffer, LoadedSubmesh, VertexBuffer};
use chessno::types::Extent2D;
use chessno::vulkan_resource::DeviceResource;

const REQUIRED_EXT: u64 = 77;

/// One memory type offering every property class, so that device-local
/// destinations stay mappable in tests.
fn all_purpose_memory() -> Vec<u32> {
    vec![
        memory::MEMORY_PROPERTY_DEVICE_LOCAL | memory::MEMORY_PROPERTY_HOST_VISIBLE
            | memory::MEMORY_PROPERTY_HOST_COHERENT,
    ]
}

fn depth_capable_formats() -> Vec<FormatProperties> {
    vec![FormatProperties {
        format: FORMAT_D32_SFLOAT,
        linear_tiling_features: 0,
        optimal_tiling_features: FORMAT_FEATURE_DEPTH_STENCIL_ATTACHMENT,
    }]
}

fn test_adapter(device_type: DeviceType, formats: Vec<SurfaceFormat>) -> Adapter {
    Adapter {
        queue_families: vec![QueueFamily { graphics: true, present: true }],
        extensions: vec![REQUIRED_EXT],
        sampler_anisotropy: true,
        formats,
        present_modes: vec![PRESENT_MODE_FIFO, PRESENT_MODE_MAILBOX],
        device_type,
        capabilities: SurfaceCapabilities {
            min_image_count: 2,
            max_image_count: 0,
            current_extent: Extent2D { width: u32::MAX, height: u32::MAX },
        },
        memory_types: all_purpose_memory(),
        format_properties: depth_capable_formats(),
    }
}

fn srgb_format() -> SurfaceFormat {
    SurfaceFormat { format: FORMAT_B8G8R8A8_SRGB, color_space: COLOR_SPACE_SRGB_NONLINEAR }
}

fn other_format() -> SurfaceFormat {
    SurfaceFormat { format: 9, color_space: 3 }
}

fn selected(adapters: &Vec<Adapter>) -> PhysicalDevice {
    PhysicalDevice::new(adapters, &vec![REQUIRED_EXT]).expect("a suitable adapter is present")
}

#[test]
fn test_selector_prefers_srgb_format() {
    let adapters = vec![test_adapter(DeviceType::Discrete, vec![other_format(), srgb_format()])];
    let pd = selected(&adapters);
    assert_eq!(pd.surface_format, srgb_format());
}

#[test]
fn test_selector_falls_back_to_first_format() {
    let first = other_format();
    let adapters = vec![test_adapter(
        DeviceType::Discrete,
        vec![first, SurfaceFormat { format: 10, color_space: 3 }],
    )];
    let pd = selected(&adapters);
    assert_eq!(pd.surface_format, first);
}

#[test]
fn test_selector_prefers_discrete_gpu() {
    let adapters = vec![
        test_adapter(DeviceType::Integrated, vec![srgb_format()]),
        test_adapter(DeviceType::Discrete, vec![srgb_format()]),
        test_adapter(DeviceType::Other, vec![srgb_format()]),
    ];
    let pd = selected(&adapters);
    assert_eq!(pd.handle, 1);
    assert_eq!(pd.device_type, DeviceType::Discrete);
}

#[test]
fn test_selector_fails_without_required_extension() {
    let mut adapter = test_adapter(DeviceType::Discrete, vec![srgb_format()]);
    adapter.extensions = vec![];
    let r = PhysicalDevice::new(&vec![adapter], &vec![REQUIRED_EXT]);
    assert_eq!(r.err().unwrap(), EngineError::NoSuitableAdapter);
}

#[test]
fn test_selector_fails_without_graphics_family() {
    let mut adapter = test_adapter(DeviceType::Discrete, vec![srgb_format()]);
    adapter.queue_families = vec![QueueFamily { graphics: true, present: false }];
    let r = PhysicalDevice::new(&vec![adapter], &vec![REQUIRED_EXT]);
    assert_eq!(r.err().unwrap(), EngineError::NoSuitableAdapter);
}

#[test]
fn test_present_mode_prefers_mailbox() {
    assert_eq!(choose_present_mode(&vec![PRESENT_MODE_FIFO, PRESENT_MODE_MAILBOX]),
        PRESENT_MODE_MAILBOX);
    assert_eq!(choose_present_mode(&vec![PRESENT_MODE_FIFO]), PRESENT_MODE_FIFO);
    assert_eq!(choose_present_mode(&vec![]), PRESENT_MODE_FIFO);
}

#[test]
fn test_choose_surface_format_empty() {
    assert_eq!(choose_surface_format(&vec![]), None);
}

#[test]
fn test_find_depth_format_preference_order() {
    let props = vec![
        FormatProperties {
            format: FORMAT_D24_UNORM_S8_UINT,
            linear_tiling_features: 0,
            optimal_tiling_features: FORMAT_FEATURE_DEPTH_STENCIL_ATTACHMENT,
        },
        FormatProperties {
            format: FORMAT_D32_SFLOAT_S8_UINT,
            linear_tiling_features: 0,
            optimal_tiling_features: FORMAT_FEATURE_DEPTH_STENCIL_ATTACHMENT,
        },
    ];
    // D32_SFLOAT is not offered, so the next candidate in order wins.
    assert_eq!(find_depth_format(&props), Some(FORMAT_D32_SFLOAT_S8_UINT));
    assert_eq!(find_depth_format(&vec![]), None);
}

#[test]
fn test_has_stencil_component() {
    assert!(has_stencil_component(FORMAT_D32_SFLOAT_S8_UINT));
    assert!(!has_stencil_component(FORMAT_D32_SFLOAT));
}

#[test]
fn test_find_memory_type_first_match_wins() {
    let types = vec![0b0110u32, 0b0010u32, 0b0111u32];
    assert_eq!(memory::find_memory_type(&types, 0xffff_ffff, 0b0010), Some(0));
    assert_eq!(memory::find_memory_type(&types, 0xffff_ffff, 0b0001), Some(2));
    assert_eq!(memory::find_memory_type(&types, 0xffff_ffff, 0b1000), None);
}

#[test]
fn test_find_memory_type_honors_type_filter() {
    let types = vec![0b0010u32, 0b0010u32];
    // The filter excludes index zero, so the second identical type wins.
    assert_eq!(memory::find_memory_type(&types, 0b10, 0b0010), Some(1));
    assert_eq!(memory::find_memory_type(&types, 0, 0b0010), None);
}

#[test]
fn test_staging_round_trip() {
    let adapters = vec![test_adapter(DeviceType::Discrete, vec![srgb_format()])];
    let pd = selected(&adapters);
    let mut device = Device::new();
    let data: Vec<u8> = vec![7, 1, 255, 0, 3, 9];
    let dst = memory::upload_via_staging(
        &mut device,
        &pd,
        &data,
        memory::BUFFER_USAGE_VERTEX_BUFFER,
    )
    .expect("the test adapter offers both memory classes");
    // The only memory type is host-visible as well, so the destination
    // can be mapped straight back.
    assert_eq!(device.map_buffer(dst), data);
    // The staging buffer was freed: exactly one of the two allocations
    // survives.
    assert_eq!(device.buffers.len(), 2);
    assert!(!device.buffers[dst - 1].alive);
    assert!(device.buffers[dst].alive);
}

#[test]
fn test_transition_protocol() {
    let adapters = vec![test_adapter(DeviceType::Discrete, vec![srgb_format()])];
    let pd = selected(&adapters);
    let mut device = Device::new();
    let image = memory::create_image(
        &mut device,
        &pd,
        2,
        2,
        43,
        chessno::physical_device::ImageTiling::Optimal,
        memory::IMAGE_USAGE_TRANSFER_DST | memory::IMAGE_USAGE_SAMPLED,
        memory::MEMORY_PROPERTY_DEVICE_LOCAL,
    )
    .unwrap();
    // Skipping the transfer-destination step is a programmer error.
    let r = transition_image_layout(
        &mut device,
        image,
        ImageLayout::Undefined,
        ImageLayout::ShaderReadOnlyOptimal,
    );
    assert_eq!(r.err().unwrap(), EngineError::UnsupportedLayoutTransition);
    transition_image_layout(
        &mut device,
        image,
        ImageLayout::Undefined,
        ImageLayout::TransferDstOptimal,
    )
    .unwrap();
    transition_image_layout(
        &mut device,
        image,
        ImageLayout::TransferDstOptimal,
        ImageLayout::ShaderReadOnlyOptimal,
    )
    .unwrap();
    assert_eq!(device.images[image].layout, ImageLayout::ShaderReadOnlyOptimal);
}

#[test]
fn test_select_image_count() {
    let adapters = vec![test_adapter(DeviceType::Discrete, vec![srgb_format()])];
    let mut pd = selected(&adapters);
    // One more than the minimum when unbounded.
    pd.surface_capabilities.min_image_count = 2;
    pd.surface_capabilities.max_image_count = 0;
    assert_eq!(select_image_count(&pd), 3);
    // Clamped to the maximum when bounded.
    pd.surface_capabilities.max_image_count = 2;
    assert_eq!(select_image_count(&pd), 2);
}

#[test]
fn test_compute_extent() {
    let adapters = vec![test_adapter(DeviceType::Discrete, vec![srgb_format()])];
    let mut pd = selected(&adapters);
    let window = Extent2D { width: 800, height: 600 };
    // The sentinel extent defers to the window size.
    assert_eq!(compute_extent(&pd, &window), window);
    pd.surface_capabilities.current_extent = Extent2D { width: 640, height: 480 };
    assert_eq!(compute_extent(&pd, &window), Extent2D { width: 640, height: 480 });
}

#[test]
fn test_framebuffers_cached_and_invalidated_by_recreate() {
    let adapters = vec![test_adapter(DeviceType::Discrete, vec![srgb_format()])];
    let pd = selected(&adapters);
    let mut device = Device::new();
    let queue = 1usize;
    let surface = 11usize;
    let size = Extent2D { width: 800, height: 600 };
    let mut sc = Swapchain::new(&mut device, &pd, queue, surface, &size).unwrap();
    let render_pass = 99usize;
    let fbs1 = sc.framebuffers(&mut device, render_pass);
    assert_eq!(fbs1.len(), sc.image_count as usize);
    let objects_before = device.plain.len();
    // A second call returns the identical cached sequence and builds
    // nothing new.
    let fbs2 = sc.framebuffers(&mut device, render_pass);
    assert_eq!(fbs1, fbs2);
    assert_eq!(device.plain.len(), objects_before);
    // Recreation invalidates the cache; the rebuilt set has the same
    // length again.
    sc.recreate(&mut device, &pd, None, &Extent2D { width: 400, height: 300 }).unwrap();
    assert!(sc.framebuffers.is_none());
    assert_eq!(sc.image_extent, Extent2D { width: 400, height: 300 });
    let fbs3 = sc.framebuffers(&mut device, render_pass);
    assert_eq!(fbs3.len(), sc.image_count as usize);
    assert_ne!(fbs1, fbs3);
}

#[test]
fn test_swapchain_acquire_cycles_through_images() {
    let adapters = vec![test_adapter(DeviceType::Discrete, vec![srgb_format()])];
    let pd = selected(&adapters);
    let mut device = Device::new();
    let size = Extent2D { width: 800, height: 600 };
    let mut sc = Swapchain::new(&mut device, &pd, 1, 11, &size).unwrap();
    let count = sc.image_count;
    let mut seen = Vec::new();
    for _ in 0..count {
        let ix = sc.acquire_image(&device, 0, 0).expect("the chain is current");
        assert!(ix < count);
        seen.push(ix);
    }
    assert_eq!(sc.acquire_image(&device, 0, 0), Some(seen[0]));
}

#[test]
fn test_stale_swapchain_reports_no_image() {
    let adapters = vec![test_adapter(DeviceType::Discrete, vec![srgb_format()])];
    let pd = selected(&adapters);
    let mut device = Device::new();
    let size = Extent2D { width: 800, height: 600 };
    let mut sc = Swapchain::new(&mut device, &pd, 1, 11, &size).unwrap();
    device.notify_surface_changed();
    assert_eq!(sc.acquire_image(&device, 0, 0), None);
    sc.recreate(&mut device, &pd, None, &size).unwrap();
    assert!(sc.acquire_image(&device, 0, 0).is_some());
}

#[test]
fn test_sync_pool_bulk_release() {
    let mut device = Device::new();
    let mut pool = SyncPool::new();
    let s1 = pool.semaphore(&mut device);
    let s2 = pool.semaphore(&mut device);
    let f1 = pool.fence(&mut device, true);
    assert_ne!(s1, s2);
    assert_ne!(s2, f1);
    let released = pool.destroy_all();
    assert_eq!(released, vec![s1, s2, f1]);
    assert_eq!(pool.destroy_all(), Vec::<usize>::new());
}

#[test]
fn test_uniform_buffer_upload() {
    let adapters = vec![test_adapter(DeviceType::Discrete, vec![srgb_format()])];
    let pd = selected(&adapters);
    let mut device = Device::new();
    let uniforms = memory::create_uniform_buffers(&mut device, &pd, 64, 2).unwrap();
    assert_eq!(uniforms.len(), 2);
    let mut bits = [0u32; 16];
    bits[0] = 0x0403_0201;
    bits[15] = 0xAABB_CCDD;
    let mat = chessno::device::Mat4 { bits };
    memory::upload_uniform_buffers(&mut device, &mat, &uniforms[0]);
    let read = device.map_buffer(uniforms[0].handle);
    assert_eq!(read.len(), 64);
    assert_eq!(&read[0..4], &[0x01, 0x02, 0x03, 0x04]);
    assert_eq!(&read[60..64], &[0xDD, 0xCC, 0xBB, 0xAA]);
}

#[test]
fn test_path_wrangler_normalizes_separators() {
    let path = PathWrangler::new("models\\indoor_plant/plant.obj").with_os_convention().finish();
    // On the Unix-family host running these tests the convention is '/'.
    assert_eq!(path, "models/indoor_plant/plant.obj");
}

#[test]
fn test_context_requires_suitable_adapter() {
    let mut adapter = test_adapter(DeviceType::Discrete, vec![srgb_format()]);
    adapter.sampler_anisotropy = false;
    let r = chessno::context::Context::new(
        &vec![adapter],
        &vec![REQUIRED_EXT],
        11,
        &Extent2D { width: 800, height: 600 },
    );
    assert_eq!(r.err().unwrap(), EngineError::NoSuitableAdapter);
}

#[test]
fn test_device_resource_destroy_is_idempotent() {
    let adapters = vec![test_adapter(DeviceType::Discrete, vec![srgb_format()])];
    let pd = selected(&adapters);
    let mut device = Device::new();
    let pixels = vec![1u8; 4];
    let texture = chessno::texture::Texture::new(1, 1, pixels);
    let resident = texture.load(&mut device, &pd).unwrap();
    assert!(device.images[resident.image].alive);
    resident.destroy(&mut device);
    assert!(!device.images[resident.image].alive);
    // Destroying again touches nothing.
    resident.destroy(&mut device);
    assert!(!device.images[resident.image].alive);
}

#[test]
fn test_loaded_submesh_destroy_frees_both_buffers() {
    let adapters = vec![test_adapter(DeviceType::Discrete, vec![srgb_format()])];
    let pd = selected(&adapters);
    let mut device = Device::new();
    let vb = memory::upload_via_staging(&mut device, &pd, &vec![1, 2, 3, 4],
        memory::BUFFER_USAGE_VERTEX_BUFFER).unwrap();
    let ib = memory::upload_via_staging(&mut device, &pd, &vec![5, 6],
        memory::BUFFER_USAGE_INDEX_BUFFER).unwrap();
    let loaded = LoadedSubmesh {
        id: 1,
        material_id: 2,
        vertex_buf: VertexBuffer { handle: vb },
        index_buf: IndexBuffer { handle: ib, index_count: 1 },
    };
    loaded.destroy(&mut device);
    assert!(!device.buffers[vb].alive);
    assert!(!device.buffers[ib].alive);
}

#[test]
fn test_release_resources_frees_uniforms() {
    let adapters = vec![test_adapter(DeviceType::Discrete, vec![srgb_format()])];
    let pd = selected(&adapters);
    let mut device = Device::new();
    let uniforms = memory::create_uniform_buffers(&mut device, &pd, 64, 2).unwrap();
    memory::release_resources(&mut device, &uniforms, 0, 0, 0, 0, 0, 0);
    for u in &uniforms {
        assert!(!device.buffers[u.handle].alive);
    }
}

#[test]
fn test_with_os_convention_is_idempotent() {
    let once = PathWrangler::new("a\\b/c\\d").with_os_convention().finish();
    let twice = PathWrangler::new(&once).with_os_convention().finish();
    assert_eq!(once, twice);
}

#[test]
fn test_fence_creation_flag_is_recorded() {
    let mut device = Device::new();
    let mut pool = SyncPool::new();
    let signaled = pool.fence(&mut device, true);
    let unsignaled = pool.fence(&mut device, false);
    assert_eq!(device.plain[signaled], ObjectKind::Fence { signaled: true });
    assert_eq!(device.plain[unsignaled], ObjectKind::Fence { signaled: false });
}
