use ash::vk;
use finalengine::engine_assets::types::{
    StaticMeshTextureFilter, StaticMeshTextureMinFilter, StaticMeshTextureWrap,
};
use finalengine::engine_render::demo_meshes::{
    demo_cube_indices, demo_ground_plane_indices, DEMO_CUBE_VERTEX_COUNT,
    DEMO_GROUND_PLANE_VERTEX_COUNT,
};
use finalengine::engine_render::vertex_layout::{
    packed_vertex_attributes, packed_vertex_stride, vertex_components,
};
use finalengine::engine_render::{
    choose_present_mode, choose_surface_format, choose_swap_extent, depth_aspect_mask,
    fallback_white_texture_asset, swapchain_image_count, swapchain_sharing_mode,
    texture_mip_level_count, texture_sampler_max_lod, vulkan_texture_filter,
    vulkan_texture_min_filter, vulkan_texture_mipmap_mode, vulkan_texture_wrap, Extent2D,
    QueueFamilyIndices, RenderBackend, RendererConfig, RendererPath, ShaderSource,
    SurfaceFormat, VulkanFeaturePolicy, SHARING_MODE_CONCURRENT, SHARING_MODE_EXCLUSIVE,
};

#[test]
fn renderer_uses_raster_fallback_without_rt() {
    let config = RendererConfig::vulkan_high_end(true);

    assert_eq!(config.choose_path(false), RendererPath::Raster);
}

#[test]
fn renderer_prefers_rt_when_available() {
    let config = RendererConfig::vulkan_high_end(true);

    assert_eq!(config.choose_path(true), RendererPath::RayTracing);
}

#[test]
fn high_end_config_targets_vulkan_with_slang() {
    let config = RendererConfig::vulkan_high_end(false);
    assert_eq!(config.backend, RenderBackend::Vulkan);
    assert_eq!(config.shader_source, ShaderSource::Slang);
    assert_eq!(
        config.features,
        VulkanFeaturePolicy {
            require_vulkan_1_3: true,
            prefer_ray_tracing: true,
            allow_raster_fallback: true,
            enable_validation_layers: false,
        }
    );
    assert!(RendererConfig::vulkan_high_end(true).features.enable_validation_layers);
}

#[test]
fn renderer_without_rt_preference_stays_raster() {
    let mut config = RendererConfig::vulkan_high_end(false);
    config.features.prefer_ray_tracing = false;
    assert_eq!(config.choose_path(true), RendererPath::Raster);
}

#[test]
fn swap_extent_clamps_to_surface_limits() {
    let extent = choose_swap_extent(
        Extent2D { width: u32::MAX, height: u32::MAX },
        Extent2D { width: 640, height: 480 },
        Extent2D { width: 1920, height: 1080 },
        Extent2D { width: 4096, height: 64 },
    );

    assert_eq!(extent.width, 1920);
    assert_eq!(extent.height, 480);
}

#[test]
fn swap_extent_uses_fixed_surface_size() {
    let extent = choose_swap_extent(
        Extent2D { width: 800, height: 600 },
        Extent2D { width: 640, height: 480 },
        Extent2D { width: 1920, height: 1080 },
        Extent2D { width: 4096, height: 64 },
    );
    assert_eq!(extent, Extent2D { width: 800, height: 600 });
}

#[test]
fn texture_mip_level_count_uses_largest_dimension() {
    assert_eq!(texture_mip_level_count(1, 1), 1);
    assert_eq!(texture_mip_level_count(2, 1), 2);
    assert_eq!(texture_mip_level_count(256, 128), 9);
}

#[test]
fn texture_mip_level_count_rounds_down_odd_sizes() {
    assert_eq!(texture_mip_level_count(3, 0), 2);
    assert_eq!(texture_mip_level_count(1, 1023), 10);
    assert_eq!(texture_mip_level_count(1024, 1), 11);
    assert_eq!(texture_mip_level_count(u32::MAX, 7), 32);
}

#[test]
fn gltf_sampler_settings_map_to_vulkan_values() {
    assert_eq!(
        vulkan_texture_filter(StaticMeshTextureFilter::Nearest).as_raw(),
        vk::Filter::NEAREST.as_raw()
    );
    assert_eq!(
        vulkan_texture_min_filter(StaticMeshTextureMinFilter::LinearMipmapNearest).as_raw(),
        vk::Filter::LINEAR.as_raw()
    );
    assert_eq!(
        vulkan_texture_mipmap_mode(StaticMeshTextureMinFilter::LinearMipmapNearest).as_raw(),
        vk::SamplerMipmapMode::NEAREST.as_raw()
    );
    assert_eq!(
        vulkan_texture_wrap(StaticMeshTextureWrap::MirroredRepeat).as_raw(),
        vk::SamplerAddressMode::MIRRORED_REPEAT.as_raw()
    );
}

#[test]
fn every_sampler_setting_maps_to_its_vulkan_value() {
    assert_eq!(
        vulkan_texture_filter(StaticMeshTextureFilter::Linear).as_raw(),
        vk::Filter::LINEAR.as_raw()
    );
    assert_eq!(
        vulkan_texture_min_filter(StaticMeshTextureMinFilter::NearestMipmapLinear).as_raw(),
        vk::Filter::NEAREST.as_raw()
    );
    assert_eq!(
        vulkan_texture_mipmap_mode(StaticMeshTextureMinFilter::NearestMipmapLinear).as_raw(),
        vk::SamplerMipmapMode::LINEAR.as_raw()
    );
    assert_eq!(
        vulkan_texture_wrap(StaticMeshTextureWrap::Repeat).as_raw(),
        vk::SamplerAddressMode::REPEAT.as_raw()
    );
    assert_eq!(
        vulkan_texture_wrap(StaticMeshTextureWrap::ClampToEdge).as_raw(),
        vk::SamplerAddressMode::CLAMP_TO_EDGE.as_raw()
    );
}

#[test]
fn sampler_lod_covers_mip_chain_only_with_mipmapped_filters() {
    assert_eq!(texture_sampler_max_lod(StaticMeshTextureMinFilter::LinearMipmapLinear, 9), 8);
    assert_eq!(texture_sampler_max_lod(StaticMeshTextureMinFilter::Linear, 9), 0);
}

#[test]
fn depth_aspect_includes_stencil_only_for_stencil_formats() {
    assert_eq!(
        depth_aspect_mask(vk::Format::D32_SFLOAT.as_raw()),
        vk::ImageAspectFlags::DEPTH.as_raw()
    );
    assert_eq!(
        depth_aspect_mask(vk::Format::D24_UNORM_S8_UINT.as_raw()),
        (vk::ImageAspectFlags::DEPTH | vk::ImageAspectFlags::STENCIL).as_raw()
    );
}

#[test]
fn present_mode_prefers_mailbox() {
    let mailbox = vk::PresentModeKHR::MAILBOX.as_raw();
    let fifo = vk::PresentModeKHR::FIFO.as_raw();
    let immediate = vk::PresentModeKHR::IMMEDIATE.as_raw();
    assert_eq!(choose_present_mode(&[immediate, mailbox, fifo]), mailbox);
    assert_eq!(choose_present_mode(&[immediate]), fifo);
    assert_eq!(choose_present_mode(&[]), fifo);
}

#[test]
fn surface_format_prefers_srgb_bgra() {
    let preferred = SurfaceFormat {
        format: vk::Format::B8G8R8A8_SRGB.as_raw(),
        color_space: vk::ColorSpaceKHR::SRGB_NONLINEAR.as_raw(),
    };
    let other = SurfaceFormat { format: vk::Format::R8G8B8A8_UNORM.as_raw(), color_space: 0 };
    assert_eq!(choose_surface_format(&[other, preferred]), preferred);
    assert_eq!(choose_surface_format(&[other]), other);
}

#[test]
fn queue_families_are_listed_once_in_order() {
    assert_eq!(QueueFamilyIndices { graphics: 2, present: 2 }.unique(), vec![2]);
    assert_eq!(QueueFamilyIndices { graphics: 3, present: 1 }.unique(), vec![1, 3]);
    assert_eq!(
        swapchain_sharing_mode(QueueFamilyIndices { graphics: 0, present: 1 }),
        SHARING_MODE_CONCURRENT
    );
    assert_eq!(
        swapchain_sharing_mode(QueueFamilyIndices { graphics: 1, present: 1 }),
        SHARING_MODE_EXCLUSIVE
    );
    assert_eq!(SHARING_MODE_CONCURRENT, vk::SharingMode::CONCURRENT.as_raw());
}

#[test]
fn swapchain_asks_one_image_more_than_minimum_within_maximum() {
    assert_eq!(swapchain_image_count(2, 0), 3);
    assert_eq!(swapchain_image_count(2, 8), 3);
    assert_eq!(swapchain_image_count(3, 3), 3);
}

#[test]
fn fallback_texture_is_one_white_texel() {
    let texture = fallback_white_texture_asset();
    assert_eq!(texture.name, "FinalEngine fallback white texture");
    assert_eq!((texture.width, texture.height), (1, 1));
    assert_eq!(texture.rgba, vec![255, 255, 255, 255]);
    assert_eq!(texture.sampler.mag_filter, StaticMeshTextureFilter::Linear);
}

#[test]
fn demo_mesh_indices_reference_existing_vertices() {
    for (indices, vertex_count) in [
        (demo_cube_indices(), DEMO_CUBE_VERTEX_COUNT),
        (demo_ground_plane_indices(), DEMO_GROUND_PLANE_VERTEX_COUNT),
    ] {
        assert_eq!(indices.len() % 3, 0);
        assert!(indices.iter().all(|index| usize::from(*index) < vertex_count));
    }
}

#[test]
fn demo_cube_has_two_triangles_per_face() {
    let indices = demo_cube_indices();
    assert_eq!(indices.len(), 36);
    assert_eq!(&indices[0..6], &[0, 1, 2, 2, 3, 0]);
    assert_eq!(&indices[30..36], &[20, 21, 22, 22, 23, 20]);
}

#[test]
fn triangle_vertex_layout_matches_shader_inputs() {
    let components = vertex_components();
    let attributes = packed_vertex_attributes(&components);

    assert_eq!(packed_vertex_stride(&components), 44);
    assert_eq!(attributes[0].location, 0);
    assert_eq!(attributes[0].format, vk::Format::R32G32B32_SFLOAT.as_raw());
    assert_eq!(attributes[0].offset, 0);
    assert_eq!(attributes[1].location, 1);
    assert_eq!(attributes[1].format, vk::Format::R32G32B32_SFLOAT.as_raw());
    assert_eq!(attributes[1].offset, 12);
    assert_eq!(attributes[2].location, 2);
    assert_eq!(attributes[2].format, vk::Format::R32G32B32_SFLOAT.as_raw());
    assert_eq!(attributes[2].offset, 24);
    assert_eq!(attributes[3].location, 3);
    assert_eq!(attributes[3].format, vk::Format::R32G32_SFLOAT.as_raw());
    assert_eq!(attributes[3].offset, 36);
}

#[test]
fn packed_layout_formats_follow_component_counts() {
    let attributes = packed_vertex_attributes(&[1, 4]);
    assert_eq!(attributes[0].format, vk::Format::R32_SFLOAT.as_raw());
    assert_eq!(attributes[1].format, vk::Format::R32G32B32A32_SFLOAT.as_raw());
    assert_eq!(attributes[1].offset, 4);
    assert_eq!(packed_vertex_stride(&[1, 4]), 20);
    assert_eq!(packed_vertex_stride(&[]), 0);
}
