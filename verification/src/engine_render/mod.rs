//! Renderer configuration, feature negotiation and the integer decisions the
//! Vulkan backend makes: sampler modes, mip chains, swapchain extents, surface
//! formats, present modes, queue families and depth aspects.

use vstd::prelude::*;
use vstd::string::StringExecFns;

use crate::engine_assets::types::{
    default_sampler, min_filter_uses_mipmaps, StaticMeshTextureAsset, StaticMeshTextureFilter,
    StaticMeshTextureMinFilter, StaticMeshTextureSampler, StaticMeshTextureWrap,
};

pub mod demo_meshes;
pub mod device;
pub mod frame_loop;
pub mod scene_paths;
pub mod texture_upload;
pub mod vertex_layout;

verus! {

/// The graphics API the renderer drives.
#[derive(Debug, Clone, Copy, PartialEq, Eq, Structural)]
pub enum RenderBackend {
    Vulkan,
}

/// What the renderer asks of the Vulkan device.
#[derive(Debug, Clone, Copy, PartialEq, Eq, Structural)]
pub struct VulkanFeaturePolicy {
    pub require_vulkan_1_3: bool,
    pub prefer_ray_tracing: bool,
    pub allow_raster_fallback: bool,
    pub enable_validation_layers: bool,
}

impl VulkanFeaturePolicy {
    /// The high-end policy: Vulkan 1.3, ray tracing preferred with a raster
    /// fallback, and validation layers as the build asks (on in debug builds).
    pub fn high_end(enable_validation_layers: bool) -> (policy: Self)
        ensures
            policy == (VulkanFeaturePolicy {
                require_vulkan_1_3: true,
                prefer_ray_tracing: true,
                allow_raster_fallback: true,
                enable_validation_layers,
            }),
    {
        VulkanFeaturePolicy {
            require_vulkan_1_3: true,
            prefer_ray_tracing: true,
            allow_raster_fallback: true,
            enable_validation_layers,
        }
    }
}

/// The rendering technique the renderer runs.
#[derive(Debug, Clone, Copy, PartialEq, Eq, Structural)]
pub enum RendererPath {
    Raster,
    RayTracing,
}

/// The shading language the shaders are written in.
#[derive(Debug, Clone, Copy, PartialEq, Eq, Structural)]
pub enum ShaderSource {
    Slang,
}

/// The renderer's backend, feature policy and shader language.
#[derive(Debug, Clone, Copy, PartialEq, Eq, Structural)]
pub struct RendererConfig {
    pub backend: RenderBackend,
    pub features: VulkanFeaturePolicy,
    pub shader_source: ShaderSource,
}

/// The path a renderer with `prefer_ray_tracing` takes on a device that does
/// or does not offer ray tracing.
pub open spec fn chosen_path(prefer_ray_tracing: bool, ray_tracing_available: bool) -> RendererPath {
    if prefer_ray_tracing && ray_tracing_available {
        RendererPath::RayTracing
    } else {
        RendererPath::Raster
    }
}

impl RendererConfig {
    /// Vulkan with the high-end feature policy and Slang shaders.
    pub fn vulkan_high_end(enable_validation_layers: bool) -> (config: Self)
        ensures
            config.backend == RenderBackend::Vulkan,
            config.features == VulkanFeaturePolicy::high_end_spec(enable_validation_layers),
            config.shader_source == ShaderSource::Slang,
    {
        RendererConfig {
            backend: RenderBackend::Vulkan,
            features: VulkanFeaturePolicy::high_end(enable_validation_layers),
            shader_source: ShaderSource::Slang,
        }
    }

    /// Ray tracing when the config prefers it and the device offers it;
    /// otherwise the raster path.
    pub fn choose_path(&self, ray_tracing_available: bool) -> (path: RendererPath)
        ensures
            path == chosen_path(self.features.prefer_ray_tracing, ray_tracing_available),
    {
        if self.features.prefer_ray_tracing && ray_tracing_available {
            RendererPath::RayTracing
        } else {
            RendererPath::Raster
        }
    }
}

impl VulkanFeaturePolicy {
    /// The high-end policy as a value.
    pub open spec fn high_end_spec(enable_validation_layers: bool) -> Self {
        VulkanFeaturePolicy {
            require_vulkan_1_3: true,
            prefer_ray_tracing: true,
            allow_raster_fallback: true,
            enable_validation_layers,
        }
    }
}

/// A renderer that prefers ray tracing takes the ray-tracing path exactly
/// when the device offers it, and every renderer falls back to raster on a
/// device without ray tracing.
pub proof fn law_raster_fallback_without_ray_tracing(prefer: bool, available: bool)
    ensures
        chosen_path(prefer, false) == RendererPath::Raster,
        chosen_path(true, available) == (if available {
            RendererPath::RayTracing
        } else {
            RendererPath::Raster
        }),
        !prefer ==> chosen_path(prefer, available) == RendererPath::Raster,
{
}

/// The floor of the base-2 logarithm of `n` (zero for zero and one).
pub open spec fn log2_floor(n: nat) -> nat
    decreases n,
{
    if n < 2 {
        0
    } else {
        1 + log2_floor(n / 2)
    }
}

/// The number of levels in the full mip chain of a `width` x `height`
/// texture: halving the larger side down to one texel.
pub fn texture_mip_level_count(width: u32, height: u32) -> (levels: u32)
    requires
        width > 0 || height > 0,
    ensures
        levels == log2_floor(if width >= height {
            width as nat
        } else {
            height as nat
        }) + 1,
{
    let largest = if width >= height {
        width
    } else {
        height
    };
    let mut n = largest;
    let mut levels: u32 = 1;
    proof {
        lemma_log2_floor_below(largest as nat);
    }
    while n >= 2
        invariant
            n >= 1,
            1 <= levels,
            levels + log2_floor(n as nat) == log2_floor(largest as nat) + 1,
            log2_floor(largest as nat) < largest,
        decreases n,
    {
        n = n / 2;
        levels = levels + 1;
    }
    levels
}

proof fn lemma_log2_floor_below(n: nat)
    requires
        n >= 1,
    ensures
        log2_floor(n) < n,
    decreases n,
{
    if n >= 2 {
        lemma_log2_floor_below(n / 2);
    }
}

/// Two to the power `e`.
pub open spec fn power_of_two(e: nat) -> nat
    decreases e,
{
    if e == 0 {
        1
    } else {
        2 * power_of_two((e - 1) as nat)
    }
}

/// The floor logarithm brackets its argument between consecutive powers of
/// two.
proof fn lemma_log2_floor_brackets(n: nat)
    requires
        n >= 1,
    ensures
        power_of_two(log2_floor(n)) <= n < power_of_two(log2_floor(n) + 1),
    decreases n,
{
    if n >= 2 {
        lemma_log2_floor_brackets(n / 2);
    }
}

/// A full mip chain reaches a single texel: the larger side of a texture
/// with `levels` mip levels lies between 2^(levels - 1) and 2^levels - 1, so
/// halving it `levels - 1` times leaves one texel and no fewer levels do.
pub proof fn law_mip_chain_ends_at_one_texel(width: u32, height: u32)
    requires
        width > 0 || height > 0,
    ensures
        ({
            let largest = if width >= height {
                width as nat
            } else {
                height as nat
            };
            let levels = log2_floor(largest) + 1;
            power_of_two((levels - 1) as nat) <= largest < power_of_two(levels)
        }),
{
    let largest = if width >= height {
        width as nat
    } else {
        height as nat
    };
    lemma_log2_floor_brackets(largest);
}

/// A Vulkan texel filter (`VkFilter`).
#[derive(Debug, Clone, Copy, PartialEq, Eq, Structural)]
pub enum SamplerFilter {
    Nearest,
    Linear,
}

impl SamplerFilter {
    /// The Vulkan enumerant value.
    pub fn as_raw(self) -> (raw: i32)
        ensures
            raw == (match self {
                SamplerFilter::Nearest => 0int,
                SamplerFilter::Linear => 1int,
            }),
    {
        match self {
            SamplerFilter::Nearest => 0,
            SamplerFilter::Linear => 1,
        }
    }
}

/// A Vulkan mip level selection (`VkSamplerMipmapMode`).
#[derive(Debug, Clone, Copy, PartialEq, Eq, Structural)]
pub enum SamplerMipmapMode {
    Nearest,
    Linear,
}

impl SamplerMipmapMode {
    /// The Vulkan enumerant value.
    pub fn as_raw(self) -> (raw: i32)
        ensures
            raw == (match self {
                SamplerMipmapMode::Nearest => 0int,
                SamplerMipmapMode::Linear => 1int,
            }),
    {
        match self {
            SamplerMipmapMode::Nearest => 0,
            SamplerMipmapMode::Linear => 1,
        }
    }
}

/// A Vulkan texture coordinate wrap mode (`VkSamplerAddressMode`).
#[derive(Debug, Clone, Copy, PartialEq, Eq, Structural)]
pub enum SamplerAddressMode {
    Repeat,
    MirroredRepeat,
    ClampToEdge,
}

impl SamplerAddressMode {
    /// The Vulkan enumerant value.
    pub fn as_raw(self) -> (raw: i32)
        ensures
            raw == (match self {
                SamplerAddressMode::Repeat => 0int,
                SamplerAddressMode::MirroredRepeat => 1int,
                SamplerAddressMode::ClampToEdge => 2int,
            }),
    {
        match self {
            SamplerAddressMode::Repeat => 0,
            SamplerAddressMode::MirroredRepeat => 1,
            SamplerAddressMode::ClampToEdge => 2,
        }
    }
}

/// The Vulkan magnification filter of a glTF filter.
pub fn vulkan_texture_filter(filter: StaticMeshTextureFilter) -> (f: SamplerFilter)
    ensures
        f == (match filter {
            StaticMeshTextureFilter::Nearest => SamplerFilter::Nearest,
            StaticMeshTextureFilter::Linear => SamplerFilter::Linear,
        }),
{
    match filter {
        StaticMeshTextureFilter::Nearest => SamplerFilter::Nearest,
        StaticMeshTextureFilter::Linear => SamplerFilter::Linear,
    }
}

/// The texel filter within a mip level: the first word of the glTF
/// minification filter.
pub open spec fn min_texel_filter(filter: StaticMeshTextureMinFilter) -> SamplerFilter {
    match filter {
        StaticMeshTextureMinFilter::Nearest
        | StaticMeshTextureMinFilter::NearestMipmapNearest
        | StaticMeshTextureMinFilter::NearestMipmapLinear => SamplerFilter::Nearest,
        _ => SamplerFilter::Linear,
    }
}

/// The filter between mip levels: the last word of a glTF mipmap filter;
/// linear for filters without mipmaps.
pub open spec fn mipmap_mode(filter: StaticMeshTextureMinFilter) -> SamplerMipmapMode {
    match filter {
        StaticMeshTextureMinFilter::NearestMipmapNearest
        | StaticMeshTextureMinFilter::LinearMipmapNearest => SamplerMipmapMode::Nearest,
        _ => SamplerMipmapMode::Linear,
    }
}

/// The Vulkan minification filter of a glTF minification filter.
pub fn vulkan_texture_min_filter(filter: StaticMeshTextureMinFilter) -> (f: SamplerFilter)
    ensures
        f == min_texel_filter(filter),
{
    match filter {
        StaticMeshTextureMinFilter::Nearest
        | StaticMeshTextureMinFilter::NearestMipmapNearest
        | StaticMeshTextureMinFilter::NearestMipmapLinear => SamplerFilter::Nearest,
        StaticMeshTextureMinFilter::Linear
        | StaticMeshTextureMinFilter::LinearMipmapNearest
        | StaticMeshTextureMinFilter::LinearMipmapLinear => SamplerFilter::Linear,
    }
}

/// The Vulkan mipmap mode of a glTF minification filter.
pub fn vulkan_texture_mipmap_mode(filter: StaticMeshTextureMinFilter) -> (m: SamplerMipmapMode)
    ensures
        m == mipmap_mode(filter),
{
    match filter {
        StaticMeshTextureMinFilter::NearestMipmapNearest
        | StaticMeshTextureMinFilter::LinearMipmapNearest => SamplerMipmapMode::Nearest,
        StaticMeshTextureMinFilter::Nearest
        | StaticMeshTextureMinFilter::Linear
        | StaticMeshTextureMinFilter::NearestMipmapLinear
        | StaticMeshTextureMinFilter::LinearMipmapLinear => SamplerMipmapMode::Linear,
    }
}

/// The Vulkan address mode of a glTF wrap mode.
pub fn vulkan_texture_wrap(wrap: StaticMeshTextureWrap) -> (m: SamplerAddressMode)
    ensures
        m == (match wrap {
            StaticMeshTextureWrap::ClampToEdge => SamplerAddressMode::ClampToEdge,
            StaticMeshTextureWrap::MirroredRepeat => SamplerAddressMode::MirroredRepeat,
            StaticMeshTextureWrap::Repeat => SamplerAddressMode::Repeat,
        }),
{
    match wrap {
        StaticMeshTextureWrap::ClampToEdge => SamplerAddressMode::ClampToEdge,
        StaticMeshTextureWrap::MirroredRepeat => SamplerAddressMode::MirroredRepeat,
        StaticMeshTextureWrap::Repeat => SamplerAddressMode::Repeat,
    }
}

/// The highest mip level a sampler may read: the last level of the chain for
/// a mipmapping filter, the base level otherwise.
pub fn texture_sampler_max_lod(min_filter: StaticMeshTextureMinFilter, mip_levels: u32) -> (lod: u32)
    ensures
        lod == (if min_filter_uses_mipmaps(min_filter) && mip_levels > 0 {
            mip_levels - 1
        } else {
            0
        }),
{
    if min_filter.uses_mipmaps() {
        mip_levels.saturating_sub(1)
    } else {
        0
    }
}

/// The depth aspect flag of a Vulkan image.
pub const IMAGE_ASPECT_DEPTH: u32 = 0b10;

/// The stencil aspect flag of a Vulkan image.
pub const IMAGE_ASPECT_STENCIL: u32 = 0b100;

/// Whether a Vulkan format (by its enumerant value) has a stencil component:
/// D16_UNORM_S8_UINT, D24_UNORM_S8_UINT or D32_SFLOAT_S8_UINT.
pub open spec fn has_stencil(format: i32) -> bool {
    format == 128 || format == 129 || format == 130
}

/// The aspects a depth attachment of the given format is viewed with: depth,
/// and stencil too when the format has it.
pub fn depth_aspect_mask(format: i32) -> (mask: u32)
    ensures
        mask == (if has_stencil(format) {
            IMAGE_ASPECT_DEPTH + IMAGE_ASPECT_STENCIL
        } else {
            IMAGE_ASPECT_DEPTH as int
        }),
{
    if format == 128 || format == 129 || format == 130 {
        IMAGE_ASPECT_DEPTH + IMAGE_ASPECT_STENCIL
    } else {
        IMAGE_ASPECT_DEPTH
    }
}

/// A two-dimensional size in pixels.
#[derive(Debug, Clone, Copy, PartialEq, Eq, Structural)]
pub struct Extent2D {
    pub width: u32,
    pub height: u32,
}

/// `value` limited to `low..=high`.
pub open spec fn clamped(value: u32, low: u32, high: u32) -> u32 {
    if value < low {
        low
    } else if value > high {
        high
    } else {
        value
    }
}

/// The swapchain size for a window: the surface's current size when it fixes
/// one (a width other than `u32::MAX`), otherwise the window size limited to
/// the surface's range.
pub open spec fn swap_extent(current: Extent2D, min: Extent2D, max: Extent2D, window: Extent2D) -> Extent2D {
    if current.width != u32::MAX {
        current
    } else {
        Extent2D {
            width: clamped(window.width, min.width, max.width),
            height: clamped(window.height, min.height, max.height),
        }
    }
}

fn clamp_u32(value: u32, low: u32, high: u32) -> (c: u32)
    requires
        low <= high,
    ensures
        c == clamped(value, low, high),
{
    if value < low {
        low
    } else if value > high {
        high
    } else {
        value
    }
}

/// Chooses the swapchain size.
pub fn choose_swap_extent(current: Extent2D, min: Extent2D, max: Extent2D, window: Extent2D) -> (extent:
    Extent2D)
    requires
        current.width == u32::MAX ==> min.width <= max.width && min.height <= max.height,
    ensures
        extent == swap_extent(current, min, max, window),
{
    if current.width != u32::MAX {
        return current;
    }
    Extent2D {
        width: clamp_u32(window.width, min.width, max.width),
        height: clamp_u32(window.height, min.height, max.height),
    }
}

/// The mailbox present mode.
pub const PRESENT_MODE_MAILBOX: i32 = 1;

/// The FIFO present mode, which every Vulkan surface supports.
pub const PRESENT_MODE_FIFO: i32 = 2;

/// Chooses the present mode: mailbox when offered, otherwise FIFO.
pub fn choose_present_mode(present_modes: &[i32]) -> (mode: i32)
    ensures
        mode == (if present_modes@.contains(PRESENT_MODE_MAILBOX) {
            PRESENT_MODE_MAILBOX
        } else {
            PRESENT_MODE_FIFO
        }),
{
    let mut i: usize = 0;
    while i < present_modes.len()
        invariant
            i <= present_modes@.len(),
            forall|k: int| 0 <= k < i ==> present_modes@[k] != PRESENT_MODE_MAILBOX,
        decreases present_modes@.len() - i,
    {
        if present_modes[i] == PRESENT_MODE_MAILBOX {
            return PRESENT_MODE_MAILBOX;
        }
        i = i + 1;
    }
    PRESENT_MODE_FIFO
}

/// A surface format a Vulkan surface offers: a format and a color space, by
/// their enumerant values.
#[derive(Debug, Clone, Copy, PartialEq, Eq, Structural)]
pub struct SurfaceFormat {
    pub format: i32,
    pub color_space: i32,
}

/// B8G8R8A8_SRGB in the sRGB nonlinear color space, the preferred format.
pub open spec fn preferred_surface_format(f: SurfaceFormat) -> bool {
    f.format == 50 && f.color_space == 0
}

/// Chooses the surface format: the first B8G8R8A8_SRGB / sRGB-nonlinear one
/// offered, otherwise the first offered.
pub fn choose_surface_format(formats: &[SurfaceFormat]) -> (chosen: SurfaceFormat)
    requires
        formats@.len() > 0,
    ensures
        (exists|i: int| 0 <= i < formats@.len() && preferred_surface_format(formats@[i]))
            ==> preferred_surface_format(chosen) && formats@.contains(chosen),
        !(exists|i: int| 0 <= i < formats@.len() && preferred_surface_format(formats@[i]))
            ==> chosen == formats@[0],
{
    let mut i: usize = 0;
    while i < formats.len()
        invariant
            i <= formats@.len(),
            forall|k: int| 0 <= k < i ==> !preferred_surface_format(#[trigger] formats@[k]),
        decreases formats@.len() - i,
    {
        let f = formats[i];
        if f.format == 50 && f.color_space == 0 {
            return f;
        }
        i = i + 1;
    }
    formats[0]
}

/// The queue families the renderer uses.
#[derive(Debug, Clone, Copy, PartialEq, Eq, Structural)]
pub struct QueueFamilyIndices {
    pub graphics: u32,
    pub present: u32,
}

impl QueueFamilyIndices {
    /// The distinct families, in increasing order: one when graphics and
    /// presentation share a family.
    pub fn unique(self) -> (families: Vec<u32>)
        ensures
            families@ == (if self.graphics == self.present {
                seq![self.graphics]
            } else if self.graphics < self.present {
                seq![self.graphics, self.present]
            } else {
                seq![self.present, self.graphics]
            }),
    {
        let mut families: Vec<u32> = Vec::new();
        if self.graphics == self.present {
            families.push(self.graphics);
        } else if self.graphics < self.present {
            families.push(self.graphics);
            families.push(self.present);
        } else {
            families.push(self.present);
            families.push(self.graphics);
        }
        families
    }
}

/// The number of swapchain images to ask for: one more than the surface's
/// minimum, limited by its maximum when it has one (a maximum of zero means
/// none).
pub open spec fn swapchain_images(min_image_count: u32, max_image_count: u32) -> int {
    if max_image_count > 0 && min_image_count + 1 > max_image_count {
        max_image_count as int
    } else {
        min_image_count + 1
    }
}

/// The number of swapchain images to ask for.
pub fn swapchain_image_count(min_image_count: u32, max_image_count: u32) -> (count: u32)
    requires
        min_image_count < u32::MAX,
    ensures
        count == swapchain_images(min_image_count, max_image_count),
{
    let count = min_image_count + 1;
    if max_image_count > 0 && count > max_image_count {
        max_image_count
    } else {
        count
    }
}

/// Swapchain images owned by one queue family at a time.
pub const SHARING_MODE_EXCLUSIVE: i32 = 0;

/// Swapchain images shared by several queue families.
pub const SHARING_MODE_CONCURRENT: i32 = 1;

/// The sharing mode of the swapchain images: concurrent when graphics and
/// presentation use different families, exclusive otherwise.
pub fn swapchain_sharing_mode(indices: QueueFamilyIndices) -> (mode: i32)
    ensures
        mode == (if indices.graphics != indices.present {
            SHARING_MODE_CONCURRENT
        } else {
            SHARING_MODE_EXCLUSIVE
        }),
{
    let families = indices.unique();
    if families.len() > 1 {
        SHARING_MODE_CONCURRENT
    } else {
        SHARING_MODE_EXCLUSIVE
    }
}

/// The 1x1 opaque white texture that stands in for a missing base color
/// texture, sampled with the default sampler.
pub fn fallback_white_texture_asset() -> (texture: StaticMeshTextureAsset)
    ensures
        texture.name@ == "FinalEngine fallback white texture"@,
        texture.width == 1,
        texture.height == 1,
        texture.rgba@ == seq![255u8, 255u8, 255u8, 255u8],
        texture.sampler == default_sampler(),
{
    let mut rgba: Vec<u8> = Vec::new();
    rgba.push(255);
    rgba.push(255);
    rgba.push(255);
    rgba.push(255);
    StaticMeshTextureAsset {
        name: String::from_str("FinalEngine fallback white texture"),
        width: 1,
        height: 1,
        rgba,
        sampler: StaticMeshTextureSampler::default(),
    }
}

} // verus!
