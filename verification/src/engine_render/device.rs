//! The choices the renderer makes about the Vulkan device: which physical
//! device, which queue families, which memory type and which image formats.
//! The driver is asked elsewhere; these functions decide on its answers.

use vstd::prelude::*;

use crate::engine_render::{QueueFamilyIndices, VulkanFeaturePolicy};

verus! {

/// A physical device of a kind not listed below.
pub const PHYSICAL_DEVICE_TYPE_OTHER: i32 = 0;

/// A GPU embedded in or tightly coupled with the host CPU.
pub const PHYSICAL_DEVICE_TYPE_INTEGRATED_GPU: i32 = 1;

/// A separate GPU.
pub const PHYSICAL_DEVICE_TYPE_DISCRETE_GPU: i32 = 2;

/// A GPU node in a virtualised environment.
pub const PHYSICAL_DEVICE_TYPE_VIRTUAL_GPU: i32 = 3;

/// A device running on the host CPU.
pub const PHYSICAL_DEVICE_TYPE_CPU: i32 = 4;

/// The major number of a packed Vulkan API version (bits 22 to 28).
pub open spec fn version_major(version: u32) -> u32 {
    (version >> 22u32) & 0x7fu32
}

/// The minor number of a packed Vulkan API version (bits 12 to 21).
pub open spec fn version_minor(version: u32) -> u32 {
    (version >> 12u32) & 0x3ffu32
}

/// The major number of a packed Vulkan API version.
pub fn api_version_major(version: u32) -> (major: u32)
    ensures
        major == version_major(version),
{
    (version >> 22u32) & 0x7fu32
}

/// The minor number of a packed Vulkan API version.
pub fn api_version_minor(version: u32) -> (minor: u32)
    ensures
        minor == version_minor(version),
{
    (version >> 12u32) & 0x3ffu32
}

/// Whether a packed API version is Vulkan 1.3 or later.
pub open spec fn is_vulkan_1_3(version: u32) -> bool {
    version_major(version) > 1 || version_minor(version) >= 3
}

/// What the renderer learned of one physical device.
#[derive(Debug, Clone, Copy, PartialEq, Eq, Structural)]
pub struct DeviceSurvey {
    /// Whether the device offers the swapchain extension.
    pub has_swapchain_extension: bool,
    /// Whether it has a graphics and a presentation queue family.
    pub has_required_queues: bool,
    /// How many surface formats it offers for the window's surface.
    pub surface_format_count: usize,
    /// How many present modes it offers for the window's surface.
    pub present_mode_count: usize,
    /// Its packed Vulkan API version.
    pub api_version: u32,
    /// Its `VkPhysicalDeviceType`.
    pub device_type: i32,
    /// Its `maxImageDimension2D` limit.
    pub max_image_dimension_2d: u32,
}

/// Whether the renderer can run on a device: it presents to the surface and
/// meets the policy's Vulkan version.
pub open spec fn device_usable(survey: DeviceSurvey, policy: VulkanFeaturePolicy) -> bool {
    &&& survey.has_swapchain_extension
    &&& survey.has_required_queues
    &&& survey.surface_format_count > 0
    &&& survey.present_mode_count > 0
    &&& (!policy.require_vulkan_1_3 || is_vulkan_1_3(survey.api_version))
}

/// Whether the renderer can run on a device.
pub fn is_device_usable(survey: &DeviceSurvey, policy: &VulkanFeaturePolicy) -> (usable: bool)
    ensures
        usable == device_usable(*survey, *policy),
{
    let major = api_version_major(survey.api_version);
    let minor = api_version_minor(survey.api_version);
    let supports_vulkan_1_3 = major > 1 || minor >= 3;
    survey.has_swapchain_extension && survey.has_required_queues && survey.surface_format_count
        > 0 && survey.present_mode_count > 0 && (!policy.require_vulkan_1_3
        || supports_vulkan_1_3)
}

/// The part of a device's score that its type gives: discrete GPUs first,
/// then integrated, virtual and CPU devices, then the rest.
pub open spec fn device_type_score(device_type: i32) -> int {
    if device_type == PHYSICAL_DEVICE_TYPE_DISCRETE_GPU {
        10_000
    } else if device_type == PHYSICAL_DEVICE_TYPE_INTEGRATED_GPU {
        5_000
    } else if device_type == PHYSICAL_DEVICE_TYPE_VIRTUAL_GPU {
        2_500
    } else if device_type == PHYSICAL_DEVICE_TYPE_CPU {
        500
    } else {
        100
    }
}

/// A device's score: its type's part plus its largest 2D image size, read as
/// a signed 32-bit number.
pub open spec fn device_score(survey: DeviceSurvey) -> int {
    device_type_score(survey.device_type) + (survey.max_image_dimension_2d as i32)
}

/// Whether a device's score fits the signed 32-bit number it is kept in.
pub open spec fn score_fits(survey: DeviceSurvey) -> bool {
    device_score(survey) <= i32::MAX
}

/// Whether a device's score fits a signed 32-bit number.
pub fn device_score_fits(survey: &DeviceSurvey) -> (fits: bool)
    ensures
        fits == score_fits(*survey),
{
    let base: i64 = if survey.device_type == PHYSICAL_DEVICE_TYPE_DISCRETE_GPU {
        10_000
    } else if survey.device_type == PHYSICAL_DEVICE_TYPE_INTEGRATED_GPU {
        5_000
    } else if survey.device_type == PHYSICAL_DEVICE_TYPE_VIRTUAL_GPU {
        2_500
    } else if survey.device_type == PHYSICAL_DEVICE_TYPE_CPU {
        500
    } else {
        100
    };
    let dimension = survey.max_image_dimension_2d as i32;
    base + dimension as i64 <= i32::MAX as i64
}

/// A device's score.
pub fn device_selection_score(survey: &DeviceSurvey) -> (score: i32)
    requires
        score_fits(*survey),
    ensures
        score == device_score(*survey),
{
    let base: i32 = if survey.device_type == PHYSICAL_DEVICE_TYPE_DISCRETE_GPU {
        10_000
    } else if survey.device_type == PHYSICAL_DEVICE_TYPE_INTEGRATED_GPU {
        5_000
    } else if survey.device_type == PHYSICAL_DEVICE_TYPE_VIRTUAL_GPU {
        2_500
    } else if survey.device_type == PHYSICAL_DEVICE_TYPE_CPU {
        500
    } else {
        100
    };
    let dimension = survey.max_image_dimension_2d as i32;
    base + dimension
}

/// Whether `chosen` is the device the renderer picks among `surveys`: the
/// first usable one with the highest score, or none when none is usable.
pub open spec fn picked_device(
    surveys: Seq<DeviceSurvey>,
    policy: VulkanFeaturePolicy,
    chosen: Option<usize>,
) -> bool {
    match chosen {
        Some(k) => {
            &&& k < surveys.len()
            &&& device_usable(surveys[k as int], policy)
            &&& forall|j: int|
                0 <= j < surveys.len() && device_usable(#[trigger] surveys[j], policy)
                    ==> device_score(surveys[j]) <= device_score(surveys[k as int])
            &&& forall|j: int|
                0 <= j < k && device_usable(#[trigger] surveys[j], policy) ==> device_score(
                    surveys[j],
                ) < device_score(surveys[k as int])
        },
        None => forall|j: int| 0 <= j < surveys.len() ==> !device_usable(#[trigger] surveys[j], policy),
    }
}

/// Picks the physical device to render on: among the usable devices, the
/// first with the highest score; `None` when no device is usable.
pub fn pick_physical_device(surveys: &[DeviceSurvey], policy: &VulkanFeaturePolicy) -> (chosen:
    Option<usize>)
    requires
        forall|j: int|
            0 <= j < surveys@.len() && device_usable(#[trigger] surveys@[j], *policy) ==> score_fits(
                surveys@[j],
            ),
    ensures
        picked_device(surveys@, *policy, chosen),
{
    let mut best: Option<usize> = None;
    let mut best_score: i32 = 0;
    let mut i: usize = 0;
    while i < surveys.len()
        invariant
            i <= surveys@.len(),
            forall|j: int|
                0 <= j < surveys@.len() && device_usable(#[trigger] surveys@[j], *policy)
                    ==> score_fits(surveys@[j]),
            match best {
                Some(k) => {
                    &&& k < i
                    &&& device_usable(surveys@[k as int], *policy)
                    &&& best_score == device_score(surveys@[k as int])
                    &&& forall|j: int|
                        0 <= j < i && device_usable(#[trigger] surveys@[j], *policy)
                            ==> device_score(surveys@[j]) <= best_score
                    &&& forall|j: int|
                        0 <= j < k && device_usable(#[trigger] surveys@[j], *policy)
                            ==> device_score(surveys@[j]) < best_score
                },
                None => forall|j: int| 0 <= j < i ==> !device_usable(#[trigger] surveys@[j], *policy),
            },
        decreases surveys@.len() - i,
    {
        let survey = &surveys[i];
        if is_device_usable(survey, policy) {
            let score = device_selection_score(survey);
            let better = match best {
                None => true,
                Some(_) => score > best_score,
            };
            if better {
                best = Some(i);
                best_score = score;
            }
        }
        i = i + 1;
    }
    best
}

/// What one queue family of a device can do.
#[derive(Debug, Clone, Copy, PartialEq, Eq, Structural)]
pub struct QueueFamilySupport {
    /// Whether it runs graphics work.
    pub graphics: bool,
    /// Whether it presents to the window's surface.
    pub present: bool,
}

/// Whether `index` is the first family with graphics support.
pub open spec fn first_graphics_family(families: Seq<QueueFamilySupport>, index: int) -> bool {
    &&& 0 <= index < families.len()
    &&& families[index].graphics
    &&& forall|k: int| 0 <= k < index ==> !(#[trigger] families[k]).graphics
}

/// Whether `index` is the first family with presentation support.
pub open spec fn first_present_family(families: Seq<QueueFamilySupport>, index: int) -> bool {
    &&& 0 <= index < families.len()
    &&& families[index].present
    &&& forall|k: int| 0 <= k < index ==> !(#[trigger] families[k]).present
}

/// Chooses the queue families: the first that runs graphics and the first
/// that presents; none when either is missing.
pub fn find_queue_families(families: &[QueueFamilySupport]) -> (indices: Option<QueueFamilyIndices>)
    requires
        families@.len() <= u32::MAX as int + 1,
    ensures
        match indices {
            Some(q) => first_graphics_family(families@, q.graphics as int) && first_present_family(
                families@,
                q.present as int,
            ),
            None => (forall|k: int| 0 <= k < families@.len() ==> !(#[trigger] families@[k]).graphics)
                || (forall|k: int| 0 <= k < families@.len() ==> !(#[trigger] families@[k]).present),
        },
{
    let mut graphics: Option<u32> = None;
    let mut present: Option<u32> = None;
    let mut i: usize = 0;
    while i < families.len()
        invariant
            i <= families@.len(),
            families@.len() <= u32::MAX as int + 1,
            match graphics {
                Some(g) => g < i && first_graphics_family(families@, g as int),
                None => forall|k: int| 0 <= k < i ==> !(#[trigger] families@[k]).graphics,
            },
            match present {
                Some(p) => p < i && first_present_family(families@, p as int),
                None => forall|k: int| 0 <= k < i ==> !(#[trigger] families@[k]).present,
            },
        decreases families@.len() - i,
    {
        let family = families[i];
        let index = i as u32;
        if family.graphics && graphics.is_none() {
            graphics = Some(index);
        }
        if family.present && present.is_none() {
            present = Some(index);
        }
        i = i + 1;
    }
    match (graphics, present) {
        (Some(graphics), Some(present)) => Some(QueueFamilyIndices { graphics, present }),
        _ => None,
    }
}

/// Whether memory type `index` is allowed by `type_filter` and has every
/// property flag in `required`.
pub open spec fn memory_type_fits(
    property_flags: Seq<u32>,
    type_filter: u32,
    required: u32,
    index: int,
) -> bool {
    &&& 0 <= index < property_flags.len()
    &&& type_filter & (1u32 << (index as u32)) != 0
    &&& property_flags[index] & required == required
}

/// Chooses the memory type for an allocation: the first one that the
/// resource's type filter allows and that has the required properties.
pub fn find_memory_type(property_flags: &[u32], type_filter: u32, required: u32) -> (index:
    Option<u32>)
    requires
        property_flags@.len() <= 32,
    ensures
        match index {
            Some(i) => {
                &&& memory_type_fits(property_flags@, type_filter, required, i as int)
                &&& forall|j: int|
                    0 <= j < i ==> !#[trigger] memory_type_fits(
                        property_flags@,
                        type_filter,
                        required,
                        j,
                    )
            },
            None => forall|j: int|
                0 <= j < property_flags@.len() ==> !#[trigger] memory_type_fits(
                    property_flags@,
                    type_filter,
                    required,
                    j,
                ),
        },
{
    let mut i: usize = 0;
    while i < property_flags.len()
        invariant
            i <= property_flags@.len(),
            property_flags@.len() <= 32,
            forall|j: int|
                0 <= j < i ==> !#[trigger] memory_type_fits(property_flags@, type_filter, required, j),
        decreases property_flags@.len() - i,
    {
        let index = i as u32;
        let allowed = type_filter & (1u32 << index) != 0;
        let has_properties = property_flags[i] & required == required;
        if allowed && has_properties {
            return Some(index);
        }
        i = i + 1;
    }
    None
}

/// Linear tiling of an image.
pub const IMAGE_TILING_LINEAR: i32 = 1;

/// Optimal (implementation-defined) tiling of an image.
pub const IMAGE_TILING_OPTIMAL: i32 = 0;

/// The format feature of use as a depth/stencil attachment.
pub const FORMAT_FEATURE_DEPTH_STENCIL_ATTACHMENT: u32 = 0x200;

/// The format features a linear-filtered blit chain needs: blit source, blit
/// destination and linear filtering of sampled images.
pub const FORMAT_FEATURES_LINEAR_BLIT: u32 = 0x1c00;

/// The 32-bit float depth format.
pub const FORMAT_D32_SFLOAT: i32 = 126;

/// The 24-bit depth format with an 8-bit stencil.
pub const FORMAT_D24_UNORM_S8_UINT: i32 = 129;

/// The 32-bit float depth format with an 8-bit stencil.
pub const FORMAT_D32_SFLOAT_S8_UINT: i32 = 130;

/// The features a device offers for one format.
#[derive(Debug, Clone, Copy, PartialEq, Eq, Structural)]
pub struct FormatSupport {
    /// The format, by its `VkFormat` value.
    pub format: i32,
    /// The features with linear tiling.
    pub linear_tiling_features: u32,
    /// The features with optimal tiling.
    pub optimal_tiling_features: u32,
}

/// Whether a format offers every feature in `features` with `tiling`; other
/// tilings offer nothing.
pub open spec fn format_supports(support: FormatSupport, tiling: i32, features: u32) -> bool {
    if tiling == IMAGE_TILING_LINEAR {
        support.linear_tiling_features & features == features
    } else if tiling == IMAGE_TILING_OPTIMAL {
        support.optimal_tiling_features & features == features
    } else {
        false
    }
}

/// Chooses the first candidate format that offers `features` with `tiling`.
pub fn find_supported_format(candidates: &[FormatSupport], tiling: i32, features: u32) -> (format:
    Option<i32>)
    ensures
        match format {
            Some(f) => exists|i: int|
                0 <= i < candidates@.len() && candidates@[i].format == f && format_supports(
                    candidates@[i],
                    tiling,
                    features,
                ) && forall|j: int|
                    0 <= j < i ==> !#[trigger] format_supports(candidates@[j], tiling, features),
            None => forall|j: int|
                0 <= j < candidates@.len() ==> !#[trigger] format_supports(
                    candidates@[j],
                    tiling,
                    features,
                ),
        },
{
    let mut i: usize = 0;
    while i < candidates.len()
        invariant
            i <= candidates@.len(),
            forall|j: int| 0 <= j < i ==> !#[trigger] format_supports(candidates@[j], tiling, features),
        decreases candidates@.len() - i,
    {
        let candidate = candidates[i];
        let supported = if tiling == IMAGE_TILING_LINEAR {
            candidate.linear_tiling_features & features == features
        } else if tiling == IMAGE_TILING_OPTIMAL {
            candidate.optimal_tiling_features & features == features
        } else {
            false
        };
        if supported {
            assert(format_supports(candidates@[i as int], tiling, features));
            return Some(candidate.format);
        }
        i = i + 1;
    }
    None
}

/// The depth formats the renderer tries, in order of preference.
pub fn depth_format_candidates() -> (formats: Vec<i32>)
    ensures
        formats@ == seq![FORMAT_D32_SFLOAT, FORMAT_D32_SFLOAT_S8_UINT, FORMAT_D24_UNORM_S8_UINT],
{
    let mut formats: Vec<i32> = Vec::new();
    formats.push(FORMAT_D32_SFLOAT);
    formats.push(FORMAT_D32_SFLOAT_S8_UINT);
    formats.push(FORMAT_D24_UNORM_S8_UINT);
    formats
}

/// Whether a texture format's optimal-tiling features allow building its mip
/// chain by linear blits.
pub fn supports_linear_mipmap_generation(optimal_tiling_features: u32) -> (supported: bool)
    ensures
        supported == (optimal_tiling_features & FORMAT_FEATURES_LINEAR_BLIT
            == FORMAT_FEATURES_LINEAR_BLIT),
{
    optimal_tiling_features & FORMAT_FEATURES_LINEAR_BLIT == FORMAT_FEATURES_LINEAR_BLIT
}

} // verus!
