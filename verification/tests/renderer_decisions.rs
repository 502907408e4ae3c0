use ash::vk;
use finalengine::engine_assets::types::{StaticMeshTextureAsset, StaticMeshTextureSampler};
use finalengine::engine_render::device::{
    api_version_major, api_version_minor, depth_format_candidates, device_selection_score,
    find_memory_type, find_queue_families, find_supported_format, is_device_usable,
    pick_physical_device, supports_linear_mipmap_generation, DeviceSurvey, FormatSupport,
    QueueFamilySupport, FORMAT_FEATURE_DEPTH_STENCIL_ATTACHMENT, FORMAT_FEATURES_LINEAR_BLIT,
    IMAGE_TILING_LINEAR, IMAGE_TILING_OPTIMAL, PHYSICAL_DEVICE_TYPE_CPU,
    PHYSICAL_DEVICE_TYPE_DISCRETE_GPU, PHYSICAL_DEVICE_TYPE_INTEGRATED_GPU,
};
use finalengine::engine_render::frame_loop::{
    AcquireOutcome, AfterAcquire, AfterPresent, FrameStart, PresentOutcome, PresentationState,
    WindowSignal,
};
use finalengine::engine_render::scene_paths::{
    order_test_scene_paths, scene_object_name, sort_paths_for_default_scene_selection,
};
use finalengine::engine_render::texture_upload::{
    check_texture_upload, texture_mip_blits, texture_upload_mip_levels, MipBlit,
    TextureUploadError,
};
use finalengine::engine_render::device::device_score_fits;
use finalengine::engine_render::texture_upload::{layout_transition_masks, TransitionMasks};
use finalengine::engine_render::{Extent2D, QueueFamilyIndices, RendererConfig};

fn survey(device_type: i32, dimension: u32) -> DeviceSurvey {
    DeviceSurvey {
        has_swapchain_extension: true,
        has_required_queues: true,
        surface_format_count: 2,
        present_mode_count: 1,
        api_version: vk::make_api_version(0, 1, 3, 0),
        device_type,
        max_image_dimension_2d: dimension,
    }
}

#[test]
fn api_version_fields_match_ash() {
    let version = vk::make_api_version(0, 1, 3, 281);
    assert_eq!(api_version_major(version), vk::api_version_major(version));
    assert_eq!(api_version_minor(version), vk::api_version_minor(version));
    assert_eq!(api_version_major(version), 1);
    assert_eq!(api_version_minor(version), 3);
}

#[test]
fn device_usability_follows_policy() {
    let policy = RendererConfig::vulkan_high_end(false).features;
    assert!(is_device_usable(&survey(PHYSICAL_DEVICE_TYPE_DISCRETE_GPU, 16384), &policy));
    let mut old = survey(PHYSICAL_DEVICE_TYPE_DISCRETE_GPU, 16384);
    old.api_version = vk::make_api_version(0, 1, 2, 0);
    assert!(!is_device_usable(&old, &policy));
    let mut relaxed = policy;
    relaxed.require_vulkan_1_3 = false;
    assert!(is_device_usable(&old, &relaxed));
    let mut no_formats = survey(PHYSICAL_DEVICE_TYPE_DISCRETE_GPU, 16384);
    no_formats.surface_format_count = 0;
    assert!(!is_device_usable(&no_formats, &policy));
}

#[test]
fn device_score_ranks_type_then_image_size() {
    assert_eq!(device_selection_score(&survey(PHYSICAL_DEVICE_TYPE_DISCRETE_GPU, 16384)), 26384);
    assert_eq!(device_selection_score(&survey(PHYSICAL_DEVICE_TYPE_INTEGRATED_GPU, 8192)), 13192);
    assert_eq!(device_selection_score(&survey(PHYSICAL_DEVICE_TYPE_CPU, 4096)), 4596);
    assert_eq!(device_selection_score(&survey(9, 1)), 101);
}

#[test]
fn picked_device_is_first_best_usable() {
    let policy = RendererConfig::vulkan_high_end(false).features;
    let mut unusable = survey(PHYSICAL_DEVICE_TYPE_DISCRETE_GPU, 32768);
    unusable.has_swapchain_extension = false;
    let surveys = [
        survey(PHYSICAL_DEVICE_TYPE_INTEGRATED_GPU, 4096),
        unusable,
        survey(PHYSICAL_DEVICE_TYPE_DISCRETE_GPU, 8192),
        survey(PHYSICAL_DEVICE_TYPE_DISCRETE_GPU, 8192),
    ];
    assert_eq!(pick_physical_device(&surveys, &policy), Some(2));
    assert_eq!(pick_physical_device(&[unusable], &policy), None);
    assert_eq!(pick_physical_device(&[], &policy), None);
}

#[test]
fn queue_families_take_first_graphics_and_first_present() {
    let families = [
        QueueFamilySupport { graphics: false, present: true },
        QueueFamilySupport { graphics: true, present: false },
        QueueFamilySupport { graphics: true, present: true },
    ];
    assert_eq!(
        find_queue_families(&families),
        Some(QueueFamilyIndices { graphics: 1, present: 0 })
    );
    assert_eq!(
        find_queue_families(&[QueueFamilySupport { graphics: true, present: false }]),
        None
    );
}

#[test]
fn memory_type_is_first_allowed_with_properties() {
    let host_visible = vk::MemoryPropertyFlags::HOST_VISIBLE.as_raw();
    let coherent = vk::MemoryPropertyFlags::HOST_COHERENT.as_raw();
    let device_local = vk::MemoryPropertyFlags::DEVICE_LOCAL.as_raw();
    let flags = [device_local, host_visible, host_visible | coherent, host_visible | coherent];
    assert_eq!(find_memory_type(&flags, 0b1111, host_visible | coherent), Some(2));
    assert_eq!(find_memory_type(&flags, 0b1000, host_visible | coherent), Some(3));
    assert_eq!(find_memory_type(&flags, 0b0001, host_visible), None);
}

#[test]
fn supported_format_is_first_with_features() {
    let depth = FORMAT_FEATURE_DEPTH_STENCIL_ATTACHMENT;
    assert_eq!(depth, vk::FormatFeatureFlags::DEPTH_STENCIL_ATTACHMENT.as_raw());
    let candidates = [
        FormatSupport { format: 126, linear_tiling_features: depth, optimal_tiling_features: 0 },
        FormatSupport { format: 130, linear_tiling_features: 0, optimal_tiling_features: depth },
    ];
    assert_eq!(find_supported_format(&candidates, IMAGE_TILING_OPTIMAL, depth), Some(130));
    assert_eq!(find_supported_format(&candidates, IMAGE_TILING_LINEAR, depth), Some(126));
    assert_eq!(find_supported_format(&candidates, 7, depth), None);
    assert_eq!(
        depth_format_candidates(),
        vec![
            vk::Format::D32_SFLOAT.as_raw(),
            vk::Format::D32_SFLOAT_S8_UINT.as_raw(),
            vk::Format::D24_UNORM_S8_UINT.as_raw()
        ]
    );
}

#[test]
fn linear_mipmaps_need_blits_and_linear_filtering() {
    let required = (vk::FormatFeatureFlags::BLIT_SRC
        | vk::FormatFeatureFlags::BLIT_DST
        | vk::FormatFeatureFlags::SAMPLED_IMAGE_FILTER_LINEAR)
        .as_raw();
    assert_eq!(FORMAT_FEATURES_LINEAR_BLIT, required);
    assert!(supports_linear_mipmap_generation(required | 1));
    assert!(!supports_linear_mipmap_generation(vk::FormatFeatureFlags::BLIT_SRC.as_raw()));
}

fn texture(width: u32, height: u32, bytes: usize) -> StaticMeshTextureAsset {
    StaticMeshTextureAsset {
        name: "albedo".to_string(),
        width,
        height,
        rgba: vec![0; bytes],
        sampler: StaticMeshTextureSampler::default(),
    }
}

#[test]
fn texture_upload_checks_size_and_bytes() {
    assert_eq!(check_texture_upload(&texture(2, 3, 24)), Ok(24));
    assert_eq!(
        check_texture_upload(&texture(0, 3, 0)),
        Err(TextureUploadError::InvalidDimensions { width: 0, height: 3 })
    );
    assert_eq!(
        check_texture_upload(&texture(2, 2, 15)),
        Err(TextureUploadError::WrongByteCount { expected: 16, actual: 15 })
    );
}

#[test]
fn texture_mip_levels_fall_back_to_one_without_linear_blits() {
    assert_eq!(texture_upload_mip_levels(256, 128, true), 9);
    assert_eq!(texture_upload_mip_levels(256, 128, false), 1);
    assert_eq!(texture_upload_mip_levels(1, 1, false), 1);
}

#[test]
fn mip_blits_halve_each_side_down_to_one() {
    let blits = texture_mip_blits(8, 2, 4);
    assert_eq!(
        blits,
        vec![
            MipBlit { source_level: 0, source_width: 8, source_height: 2, destination_width: 4, destination_height: 1 },
            MipBlit { source_level: 1, source_width: 4, source_height: 1, destination_width: 2, destination_height: 1 },
            MipBlit { source_level: 2, source_width: 2, source_height: 1, destination_width: 1, destination_height: 1 },
        ]
    );
    assert!(texture_mip_blits(8, 2, 1).is_empty());
    let odd = texture_mip_blits(5, 7, 3);
    assert_eq!(odd[1].destination_width, 1);
    assert_eq!(odd[1].destination_height, 1);
}

#[test]
fn frame_loop_skips_hidden_and_empty_windows() {
    let mut state = PresentationState::new();
    let window = Extent2D { width: 800, height: 600 };
    assert_eq!(state.begin_frame(window), FrameStart::Draw { rebuild_first: false });
    assert_eq!(state.begin_frame(Extent2D { width: 0, height: 600 }), FrameStart::Skip);
    state.apply_window_signal(WindowSignal::Occluded(true));
    assert_eq!(state.begin_frame(window), FrameStart::Skip);
    state.apply_window_signal(WindowSignal::Occluded(false));
    assert_eq!(state.begin_frame(window), FrameStart::Draw { rebuild_first: false });
}

#[test]
fn frame_loop_rebuilds_after_resize_and_suboptimal_images() {
    let mut state = PresentationState::new();
    let window = Extent2D { width: 800, height: 600 };
    state.apply_window_signal(WindowSignal::Resized(Extent2D { width: 0, height: 0 }));
    assert!(!state.framebuffer_resized);
    state.apply_window_signal(WindowSignal::Resized(window));
    assert_eq!(state.begin_frame(window), FrameStart::Draw { rebuild_first: true });
    assert!(state.rebuild_swapchain(window));
    assert!(!state.framebuffer_resized);
    assert_eq!(state.after_acquire(AcquireOutcome::Acquired { suboptimal: true }), AfterAcquire::Record);
    assert!(state.framebuffer_resized);
    assert_eq!(
        state.after_present(PresentOutcome::Presented { suboptimal: false }),
        AfterPresent::Rebuild
    );
    assert!(!state.rebuild_swapchain(Extent2D { width: 0, height: 1 }));
    assert!(state.framebuffer_resized);
    assert_eq!(state.after_acquire(AcquireOutcome::OutOfDate), AfterAcquire::RebuildAndEnd);
    assert_eq!(state.after_acquire(AcquireOutcome::Failed), AfterAcquire::Fail);
    assert_eq!(state.after_present(PresentOutcome::OutOfDate), AfterPresent::Rebuild);
    assert_eq!(state.after_present(PresentOutcome::Failed), AfterPresent::Fail);
    state.apply_window_signal(WindowSignal::ScaleFactorChanged);
    assert!(state.framebuffer_resized);
}

#[test]
fn frame_loop_ends_at_frame_limit() {
    let mut state = PresentationState::new();
    assert!(!state.frame_presented(Some(2)));
    assert!(state.frame_presented(Some(2)));
    assert!(!state.frame_presented(None));
    assert_eq!(state.presented_frames, 3);
}

#[test]
fn default_test_scene_paths_discovers_supported_files_in_stable_order() {
    let directory = "assets/test_scene";
    let files = vec![
        format!("{directory}/z_scene.gltf"),
        format!("{directory}/b_scene.glb"),
        format!("{directory}/A_scene.GLB"),
        format!("{directory}/notes.txt"),
    ];

    assert_eq!(
        order_test_scene_paths(files),
        vec![
            format!("{directory}/A_scene.GLB"),
            format!("{directory}/b_scene.glb"),
            format!("{directory}/z_scene.gltf"),
        ]
    );
}

#[test]
fn scene_paths_sort_by_lowercase_name_and_keep_ties() {
    let mut paths = vec![
        "b/Scene.glb".to_string(),
        "a/scene.glb".to_string(),
        "c/Alpha.glb".to_string(),
        "noextension".to_string(),
    ];
    sort_paths_for_default_scene_selection(&mut paths);
    assert_eq!(
        paths,
        vec![
            "c/Alpha.glb".to_string(),
            "noextension".to_string(),
            "b/Scene.glb".to_string(),
            "a/scene.glb".to_string(),
        ]
    );
}

#[test]
fn upload_layout_transitions_use_transfer_and_shader_masks() {
    let to_transfer = layout_transition_masks(
        vk::ImageLayout::UNDEFINED.as_raw(),
        vk::ImageLayout::TRANSFER_DST_OPTIMAL.as_raw(),
    );
    assert_eq!(
        to_transfer,
        Some(TransitionMasks {
            src_access: 0,
            dst_access: vk::AccessFlags::TRANSFER_WRITE.as_raw(),
            src_stage: vk::PipelineStageFlags::TOP_OF_PIPE.as_raw(),
            dst_stage: vk::PipelineStageFlags::TRANSFER.as_raw(),
        })
    );
    let to_shader = layout_transition_masks(
        vk::ImageLayout::TRANSFER_DST_OPTIMAL.as_raw(),
        vk::ImageLayout::SHADER_READ_ONLY_OPTIMAL.as_raw(),
    );
    assert_eq!(
        to_shader,
        Some(TransitionMasks {
            src_access: vk::AccessFlags::TRANSFER_WRITE.as_raw(),
            dst_access: vk::AccessFlags::SHADER_READ.as_raw(),
            src_stage: vk::PipelineStageFlags::TRANSFER.as_raw(),
            dst_stage: vk::PipelineStageFlags::FRAGMENT_SHADER.as_raw(),
        })
    );
    assert_eq!(
        layout_transition_masks(
            vk::ImageLayout::UNDEFINED.as_raw(),
            vk::ImageLayout::SHADER_READ_ONLY_OPTIMAL.as_raw()
        ),
        None
    );
}

#[test]
fn device_scores_that_overflow_are_detected() {
    assert!(device_score_fits(&survey(PHYSICAL_DEVICE_TYPE_DISCRETE_GPU, 16384)));
    assert!(!device_score_fits(&survey(PHYSICAL_DEVICE_TYPE_DISCRETE_GPU, i32::MAX as u32)));
    assert!(device_score_fits(&survey(PHYSICAL_DEVICE_TYPE_DISCRETE_GPU, u32::MAX)));
}

#[test]
fn scene_objects_are_named_after_their_meshes() {
    assert_eq!(scene_object_name("scene", "Crate", 3), "Crate");
    assert_eq!(scene_object_name("scene", "", 3), "scene mesh 3");
}
