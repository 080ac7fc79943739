//! End-to-end scenarios of the frame loop: residency, staleness, resize,
//! submesh draws and frame-index cycling.
use chessno::assets::Assets;
use chessno::context::Context;
use chessno::device::{Command, Mat4};
use chessno::error::EngineError;
use chessno::geometry::Vertex;
use chessno::material::Material;
use chessno::memory;
use chessno::mesh::{Mesh, Submesh};
use chessno::physical_device::{
    Adapter, DeviceType, FormatProperties, QueueFamily, SurfaceCapabilities, SurfaceFormat,
    COLOR_SPACE_SRGB_NONLINEAR, FORMAT_B8G8R8A8_SRGB, FORMAT_D32_SFLOAT,
    FORMAT_FEATURE_DEPTH_STENCIL_ATTACHMENT, PRESENT_MODE_FIFO,
};
use chessno::renderer::{DrawObject, DrawOutcome, Renderer, FRAMES_IN_FLIGHT};
use chessno::shader::{Shader, ShaderStage};
use chessno::texture::Texture;
use chessno::types::Extent2D;

const REQUIRED_EXT: u64 = 77;

fn test_adapter() -> Adapter {
    Adapter {
        queue_families: vec![QueueFamily { graphics: true, present: true }],
        extensions: vec![REQUIRED_EXT],
        sampler_anisotropy: true,
        formats: vec![SurfaceFormat {
            format: FORMAT_B8G8R8A8_SRGB,
            color_space: COLOR_SPACE_SRGB_NONLINEAR,
        }],
        present_modes: vec![PRESENT_MODE_FIFO],
        device_type: DeviceType::Discrete,
        capabilities: SurfaceCapabilities {
            min_image_count: 2,
            max_image_count: 0,
            current_extent: Extent2D { width: u32::MAX, height: u32::MAX },
        },
        memory_types: vec![
            memory::MEMORY_PROPERTY_DEVICE_LOCAL | memory::MEMORY_PROPERTY_HOST_VISIBLE
                | memory::MEMORY_PROPERTY_HOST_COHERENT,
        ],
        format_properties: vec![FormatProperties {
            format: FORMAT_D32_SFLOAT,
            linear_tiling_features: 0,
            optimal_tiling_features: FORMAT_FEATURE_DEPTH_STENCIL_ATTACHMENT,
        }],
    }
}

fn test_renderer(width: u32, height: u32) -> Renderer {
    let ctx = Context::new(
        &vec![test_adapter()],
        &vec![REQUIRED_EXT],
        11,
        &Extent2D { width, height },
    )
    .expect("the test adapter is suitable");
    Renderer::new(ctx)
}

/// Compiled-module bytes with the right magic word and one extra word.
fn good_shader_code() -> Vec<u8> {
    vec![0x03, 0x02, 0x23, 0x07, 1, 2, 3, 4]
}

fn identity_matrix() -> Mat4 {
    let mut bits = [0u32; 16];
    // 1.0f32 on the diagonal, as IEEE-754 bit patterns.
    bits[0] = 0x3F80_0000;
    bits[5] = 0x3F80_0000;
    bits[10] = 0x3F80_0000;
    bits[15] = 0x3F80_0000;
    Mat4 { bits }
}

fn checker_texture() -> Texture {
    Texture::new(2, 2, vec![255u8; 16])
}

/// Registers one material (texture + two shaders) and returns its
/// identifier.
fn register_material(assets: &mut Assets, name: &str) -> u128 {
    let texture_id = assets.insert_texture(&format!("{name}_texture"), checker_texture());
    let vert = assets.insert_shader(
        &format!("{name}_vert"),
        Shader::new(&good_shader_code(), ShaderStage::Vertex),
    );
    let frag = assets.insert_shader(
        &format!("{name}_frag"),
        Shader::new(&good_shader_code(), ShaderStage::Fragment),
    );
    assets.insert_material(
        name,
        Material { id: 0, vertex_shader_id: vert, fragment_shader_id: frag, texture_id },
    )
}

/// Registers a plane mesh drawn with one material.
fn register_plane(assets: &mut Assets, name: &str, material_id: u128) -> u128 {
    assets.insert_mesh(name, Mesh::new_plane(material_id))
}

#[test]
fn test_draw_submits_and_presents() {
    let mut assets = Assets::new();
    let material = register_material(&mut assets, "default_material");
    let mesh_id = register_plane(&mut assets, "plane", material);
    let mut renderer = test_renderer(800, 600);
    renderer.load_assets(&assets).unwrap();
    let objects = vec![DrawObject { mesh_id, mvp: identity_matrix() }];
    let outcome = renderer.draw(&objects, &assets).unwrap();
    assert_eq!(outcome, DrawOutcome::Drawn { image_index: 0 });
    assert_eq!(renderer.ctx.device.submissions.len(), 1);
    assert_eq!(renderer.ctx.device.presents.len(), 1);
    let frame = renderer.frames_in_flight[0];
    let submission = renderer.ctx.device.submissions[0];
    assert_eq!(submission.command_buffer, frame.cmd_buf);
    assert_eq!(submission.wait_semaphore, frame.image_available_semaphore);
    assert_eq!(submission.signal_semaphore, frame.render_finished_semaphore);
    assert_eq!(submission.signal_fence, frame.in_flight_fence);
    let present = renderer.ctx.device.presents[0];
    assert_eq!(present.wait_semaphore, frame.render_finished_semaphore);
    assert_eq!(present.image_index, 0);
}

#[test]
fn test_texture_upload_idempotent() {
    let mut assets = Assets::new();
    let material = register_material(&mut assets, "default_material");
    register_plane(&mut assets, "plane", material);
    let mut renderer = test_renderer(800, 600);
    renderer.load_assets(&assets).unwrap();
    let images_after_first = renderer.ctx.device.images.len();
    let buffers_after_first = renderer.ctx.device.buffers.len();
    // Requesting the same registry again allocates nothing new.
    renderer.load_assets(&assets).unwrap();
    assert_eq!(renderer.ctx.device.images.len(), images_after_first);
    assert_eq!(renderer.ctx.device.buffers.len(), buffers_after_first);
}

#[test]
fn test_stale_swapchain_skips_frame() {
    let mut assets = Assets::new();
    let material = register_material(&mut assets, "default_material");
    let mesh_id = register_plane(&mut assets, "plane", material);
    let mut renderer = test_renderer(800, 600);
    renderer.load_assets(&assets).unwrap();
    let objects = vec![DrawObject { mesh_id, mvp: identity_matrix() }];
    // The OS invalidates the surface: the next acquire reports stale.
    renderer.ctx.device.notify_surface_changed();
    let generation_before = renderer.ctx.device.surface_generation;
    let frame_before = renderer.frame_index();
    let outcome = renderer.draw(&objects, &assets).unwrap();
    assert_eq!(outcome, DrawOutcome::SkippedRecreated);
    // Nothing was recorded, submitted or presented, and the frame index
    // did not advance.
    assert_eq!(renderer.ctx.device.submissions.len(), 0);
    assert_eq!(renderer.ctx.device.presents.len(), 0);
    assert_eq!(renderer.frame_index(), frame_before);
    for cb in &renderer.ctx.device.command_buffers {
        assert!(cb.commands.is_empty());
    }
    // Exactly one recreation happened: the chain is current again and the
    // next frame succeeds.
    let swapchain_generation = renderer.ctx.swapchain.as_ref().unwrap().generation;
    assert_eq!(swapchain_generation, generation_before);
    let outcome = renderer.draw(&objects, &assets).unwrap();
    assert!(matches!(outcome, DrawOutcome::Drawn { .. }));
    assert_eq!(renderer.ctx.device.submissions.len(), 1);
}

#[test]
fn test_resize_scenario() {
    let mut assets = Assets::new();
    let material = register_material(&mut assets, "default_material");
    let mesh_id = register_plane(&mut assets, "plane", material);
    let mut renderer = test_renderer(800, 600);
    renderer.load_assets(&assets).unwrap();
    let extent = renderer.ctx.swapchain.as_ref().unwrap().image_extent;
    assert_eq!(extent, Extent2D { width: 800, height: 600 });
    let objects = vec![DrawObject { mesh_id, mvp: identity_matrix() }];
    renderer.draw(&objects, &assets).unwrap();
    // A resize notification only records the target size.
    renderer.invalidate_surface_size(Extent2D { width: 400, height: 300 });
    let submissions_before = renderer.ctx.device.submissions.len();
    let outcome = renderer.draw(&objects, &assets).unwrap();
    assert_eq!(outcome, DrawOutcome::SkippedRecreated);
    assert_eq!(renderer.ctx.device.submissions.len(), submissions_before);
    // The next frame draws against the new extent.
    let outcome = renderer.draw(&objects, &assets).unwrap();
    assert!(matches!(outcome, DrawOutcome::Drawn { .. }));
    let extent = renderer.ctx.swapchain.as_ref().unwrap().image_extent;
    assert_eq!(extent, Extent2D { width: 400, height: 300 });
}

#[test]
fn test_two_submeshes_draw_in_order() {
    let mut assets = Assets::new();
    let material_a = register_material(&mut assets, "material_a");
    let material_b = register_material(&mut assets, "material_b");
    let vertices = vec![Vertex { pos: [0, 0, 0], uv: [0, 0, 0], color: [0, 0, 0] }; 3];
    let indices = vec![0u16, 1, 2, 0, 2, 1];
    let mesh = Mesh {
        id: 0,
        vertices,
        indices,
        submeshes: vec![
            Submesh { id: 0, material_id: material_a, start_index: 0, end_index: 3 },
            Submesh { id: 0, material_id: material_b, start_index: 3, end_index: 6 },
        ],
    };
    let mesh_id = assets.insert_mesh("two_part", mesh);
    let mut renderer = test_renderer(800, 600);
    renderer.load_assets(&assets).unwrap();
    let objects = vec![DrawObject { mesh_id, mvp: identity_matrix() }];
    renderer.draw(&objects, &assets).unwrap();
    let cmd_buf = renderer.frames_in_flight[0].cmd_buf;
    let commands = &renderer.ctx.device.command_buffers[cmd_buf].commands;
    // Exactly two indexed draws and two distinct descriptor-set binds, in
    // submesh order.
    let draws: Vec<usize> = commands
        .iter()
        .enumerate()
        .filter(|(_, c)| matches!(c, Command::DrawIndexed { .. }))
        .map(|(k, _)| k)
        .collect();
    let binds: Vec<(usize, usize)> = commands
        .iter()
        .enumerate()
        .filter_map(|(k, c)| match c {
            Command::BindDescriptorSet(ds) => Some((k, *ds)),
            _ => None,
        })
        .collect();
    assert_eq!(draws.len(), 2);
    assert_eq!(binds.len(), 2);
    assert_ne!(binds[0].1, binds[1].1, "the two materials sample distinct descriptor sets");
    assert!(binds[0].0 < draws[0] && draws[0] < binds[1].0 && binds[1].0 < draws[1]);
    // Each draw covers its submesh's index range.
    assert!(matches!(commands[draws[0]], Command::DrawIndexed { index_count: 3 }));
    assert!(matches!(commands[draws[1]], Command::DrawIndexed { index_count: 3 }));
}

#[test]
fn test_frame_index_cycles() {
    let mut assets = Assets::new();
    let material = register_material(&mut assets, "default_material");
    let mesh_id = register_plane(&mut assets, "plane", material);
    let mut renderer = test_renderer(800, 600);
    renderer.load_assets(&assets).unwrap();
    let objects = vec![DrawObject { mesh_id, mvp: identity_matrix() }];
    let initial = renderer.frame_index();
    for n in 0..FRAMES_IN_FLIGHT {
        assert_eq!(renderer.frame_index(), (initial + n) % FRAMES_IN_FLIGHT);
        let outcome = renderer.draw(&objects, &assets).unwrap();
        assert!(matches!(outcome, DrawOutcome::Drawn { .. }));
    }
    assert_eq!(renderer.frame_index(), initial);
}

#[test]
fn test_draw_unregistered_mesh_is_fatal() {
    let mut assets = Assets::new();
    let material = register_material(&mut assets, "default_material");
    register_plane(&mut assets, "plane", material);
    let mut renderer = test_renderer(800, 600);
    renderer.load_assets(&assets).unwrap();
    let bogus = 0xDEAD_BEEFu128;
    let objects = vec![DrawObject { mesh_id: bogus, mvp: identity_matrix() }];
    let r = renderer.draw(&objects, &assets);
    assert_eq!(r.err().unwrap(), EngineError::MissingMesh(bogus));
    assert_eq!(renderer.ctx.device.submissions.len(), 0);
}

#[test]
fn test_missing_shader_is_fatal() {
    let mut assets = Assets::new();
    let texture_id = assets.insert_texture("texture", checker_texture());
    let material = assets.insert_material(
        "broken_material",
        Material { id: 0, vertex_shader_id: 1, fragment_shader_id: 2, texture_id },
    );
    register_plane(&mut assets, "plane", material);
    let mut renderer = test_renderer(800, 600);
    let r = renderer.load_assets(&assets);
    assert_eq!(r.err().unwrap(), EngineError::MissingShader(1));
}

#[test]
fn test_malformed_shader_is_fatal() {
    let mut assets = Assets::new();
    let texture_id = assets.insert_texture("texture", checker_texture());
    // Wrong magic word: the module is rejected before anything is built.
    let vert = assets.insert_shader("vert", Shader::new(&[1, 2, 3, 4], ShaderStage::Vertex));
    let frag = assets.insert_shader(
        "frag",
        Shader::new(&good_shader_code(), ShaderStage::Fragment),
    );
    let material = assets.insert_material(
        "material",
        Material { id: 0, vertex_shader_id: vert, fragment_shader_id: frag, texture_id },
    );
    register_plane(&mut assets, "plane", material);
    let mut renderer = test_renderer(800, 600);
    let r = renderer.load_assets(&assets);
    assert_eq!(r.err().unwrap(), EngineError::MalformedShader);
}

#[test]
fn test_pause_and_resume() {
    let mut assets = Assets::new();
    let material = register_material(&mut assets, "default_material");
    let mesh_id = register_plane(&mut assets, "plane", material);
    let mut renderer = test_renderer(800, 600);
    renderer.load_assets(&assets).unwrap();
    renderer.pause();
    let objects = vec![DrawObject { mesh_id, mvp: identity_matrix() }];
    let outcome = renderer.draw(&objects, &assets).unwrap();
    assert_eq!(outcome, DrawOutcome::Paused);
    assert_eq!(renderer.ctx.device.submissions.len(), 0);
    // The OS hands back a replacement surface on resume.
    renderer.invalidate_surface(23, Extent2D { width: 640, height: 480 });
    renderer.resume().unwrap();
    assert_eq!(renderer.ctx.swapchain.as_ref().unwrap().surface, 23);
    let outcome = renderer.draw(&objects, &assets).unwrap();
    assert!(matches!(outcome, DrawOutcome::Drawn { .. }));
}

#[test]
fn test_assets_lookup_by_name_and_id() {
    let mut assets = Assets::new();
    let id = assets.insert_texture("fallback_texture", checker_texture());
    assert_eq!(assets.id_of("fallback_texture"), Some(id));
    assert_eq!(assets.id_of("absent"), None);
    let texture = assets.texture(id).unwrap();
    assert_eq!(texture.id, id);
    assert_eq!(texture.width, 2);
    assert_eq!(texture.height, 2);
    assert_eq!(assets.textures(), &vec![id]);
}

#[test]
fn test_texture_upload_holds_exact_pixels() {
    let mut assets = Assets::new();
    let pixels: Vec<u8> = (0u8..16u8).collect();
    let id = assets.insert_texture("gradient", Texture::new(2, 2, pixels.clone()));
    let mut renderer = test_renderer(800, 600);
    renderer.use_textures(&assets);
    let resident = renderer.textures.get(&id).unwrap();
    let image = &renderer.ctx.device.images[resident.image];
    assert_eq!(image.contents, pixels);
    assert_eq!(image.layout, chessno::device::ImageLayout::ShaderReadOnlyOptimal);
}

#[test]
fn test_vertex_bytes_layout() {
    let v = Vertex {
        pos: [0x0403_0201, 0, 0],
        uv: [0, 0, 0],
        color: [0, 0, 0x0807_0605],
    };
    let bytes = chessno::geometry::vertices_to_bytes(&vec![v]);
    assert_eq!(bytes.len(), 36);
    assert_eq!(&bytes[0..4], &[0x01, 0x02, 0x03, 0x04]);
    assert_eq!(&bytes[32..36], &[0x05, 0x06, 0x07, 0x08]);
}

#[test]
fn test_index_bytes_range() {
    let indices: Vec<u16> = vec![0x0102, 0x0304, 0x0506];
    let bytes = chessno::geometry::indices_to_bytes(&indices, 1, 3);
    assert_eq!(bytes, vec![0x04, 0x03, 0x06, 0x05]);
}

#[test]
fn test_missing_material_is_fatal() {
    let mut assets = Assets::new();
    let vertices = vec![Vertex { pos: [0, 0, 0], uv: [0, 0, 0], color: [0, 0, 0] }; 3];
    let mesh = Mesh {
        id: 0,
        vertices,
        indices: vec![0u16, 1, 2],
        submeshes: vec![Submesh { id: 0, material_id: 999, start_index: 0, end_index: 3 }],
    };
    assets.insert_mesh("orphan", mesh);
    let mut renderer = test_renderer(800, 600);
    let r = renderer.load_assets(&assets);
    assert_eq!(r.err().unwrap(), EngineError::MissingMaterial(999));
}

#[test]
fn test_missing_texture_descriptor_is_fatal() {
    let mut assets = Assets::new();
    // The material's shaders exist, but its texture was never registered,
    // so no descriptor set is ever built for it.
    let phantom_texture = 31_337u128;
    let vert = assets.insert_shader(
        "vert",
        Shader::new(&good_shader_code(), ShaderStage::Vertex),
    );
    let frag = assets.insert_shader(
        "frag",
        Shader::new(&good_shader_code(), ShaderStage::Fragment),
    );
    let material = assets.insert_material(
        "material",
        Material {
            id: 0,
            vertex_shader_id: vert,
            fragment_shader_id: frag,
            texture_id: phantom_texture,
        },
    );
    let mesh_id = register_plane(&mut assets, "plane", material);
    let mut renderer = test_renderer(800, 600);
    renderer.load_assets(&assets).unwrap();
    let objects = vec![DrawObject { mesh_id, mvp: identity_matrix() }];
    let r = renderer.draw(&objects, &assets);
    assert_eq!(r.err().unwrap(), EngineError::MissingTexture(phantom_texture));
    assert_eq!(renderer.ctx.device.submissions.len(), 0);
}

#[test]
fn test_resume_without_noted_surface_fails() {
    let mut renderer = test_renderer(800, 600);
    renderer.pause();
    let r = renderer.resume();
    assert_eq!(r.err().unwrap(), EngineError::SwapchainMissing);
}

#[test]
fn test_context_without_host_visible_memory_fails() {
    let mut adapter = test_adapter();
    adapter.memory_types = vec![memory::MEMORY_PROPERTY_DEVICE_LOCAL];
    let r = Context::new(
        &vec![adapter],
        &vec![REQUIRED_EXT],
        11,
        &Extent2D { width: 800, height: 600 },
    );
    assert_eq!(r.err().unwrap(), EngineError::NoCompatibleMemoryType);
}

#[test]
fn test_upload_without_staging_memory_fails() {
    let mut adapter = test_adapter();
    adapter.memory_types = vec![memory::MEMORY_PROPERTY_DEVICE_LOCAL];
    let pd = chessno::physical_device::PhysicalDevice::new(&vec![adapter], &vec![REQUIRED_EXT])
        .unwrap();
    let mut device = chessno::device::Device::new();
    let r = memory::upload_via_staging(&mut device, &pd, &vec![1, 2, 3], 0);
    assert_eq!(r.err().unwrap(), EngineError::NoCompatibleMemoryType);
    assert_eq!(device.buffers.len(), 0);
}

#[test]
fn test_pause_destroys_chain_and_keeps_the_rest() {
    let mut assets = Assets::new();
    let material = register_material(&mut assets, "default_material");
    register_plane(&mut assets, "plane", material);
    let mut renderer = test_renderer(800, 600);
    renderer.load_assets(&assets).unwrap();
    let depth_image = renderer.ctx.swapchain.as_ref().unwrap().depth_buffer.image;
    let buffers_before = renderer.ctx.device.buffers.len();
    let textures_before = renderer.textures.len();
    renderer.pause();
    assert!(renderer.ctx.swapchain.is_none());
    // The chain's depth image was destroyed; nothing else moved.
    assert!(!renderer.ctx.device.images[depth_image].alive);
    assert_eq!(renderer.ctx.device.buffers.len(), buffers_before);
    assert_eq!(renderer.textures.len(), textures_before);
}

#[test]
fn test_renderer_destroy_releases_sync_and_chain() {
    let mut renderer = test_renderer(800, 600);
    let depth_image = renderer.ctx.swapchain.as_ref().unwrap().depth_buffer.image;
    let released = renderer.destroy();
    // Two semaphores and one fence per frame slot.
    assert_eq!(released.len(), 3 * FRAMES_IN_FLIGHT);
    assert!(renderer.ctx.swapchain.is_none());
    assert!(!renderer.ctx.device.images[depth_image].alive);
}

#[test]
fn test_distinct_textures_get_distinct_descriptor_sets() {
    let mut assets = Assets::new();
    let material_a = register_material(&mut assets, "material_a");
    let material_b = register_material(&mut assets, "material_b");
    let tex_a = assets.material(material_a).unwrap().texture_id;
    let tex_b = assets.material(material_b).unwrap().texture_id;
    let mut renderer = test_renderer(800, 600);
    renderer.use_textures(&assets);
    let ds_a = *renderer.texture_descriptor_sets.get(&tex_a).unwrap();
    let ds_b = *renderer.texture_descriptor_sets.get(&tex_b).unwrap();
    assert_ne!(ds_a, ds_b);
}
