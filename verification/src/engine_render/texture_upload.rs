//! Preparing a texture for the GPU: checking its pixel data, choosing how
//! many mip levels it gets and which blits build them.

use vstd::prelude::*;

use crate::engine_assets::types::StaticMeshTextureAsset;
use crate::engine_render::{log2_floor, texture_mip_level_count};

verus! {

/// Why a texture cannot be uploaded.
#[derive(Debug, Clone, Copy, PartialEq, Eq, Structural)]
pub enum TextureUploadError {
    /// A side of the texture is zero texels long.
    InvalidDimensions { width: u32, height: u32 },
    /// The RGBA data does not hold four bytes per texel.
    WrongByteCount { expected: usize, actual: usize },
}

/// The number of RGBA bytes a `width` x `height` texture holds.
pub open spec fn rgba_byte_count(width: u32, height: u32) -> int {
    width as int * height as int * 4
}

/// Whether a texture can be uploaded, and which error it is refused with.
pub open spec fn texture_upload_check(width: u32, height: u32, byte_count: nat) -> Result<
    usize,
    TextureUploadError,
> {
    if width == 0 || height == 0 {
        Err(TextureUploadError::InvalidDimensions { width, height })
    } else if byte_count != rgba_byte_count(width, height) {
        Err(
            TextureUploadError::WrongByteCount {
                expected: rgba_byte_count(width, height) as usize,
                actual: byte_count as usize,
            },
        )
    } else {
        Ok(byte_count as usize)
    }
}

/// Checks a texture before upload: both sides at least one texel, and four
/// bytes of RGBA data per texel. Gives the byte count on success.
pub fn check_texture_upload(texture: &StaticMeshTextureAsset) -> (checked: Result<
    usize,
    TextureUploadError,
>)
    requires
        rgba_byte_count(texture.width, texture.height) <= usize::MAX,
    ensures
        checked == texture_upload_check(texture.width, texture.height, texture.rgba@.len()),
{
    if texture.width == 0 || texture.height == 0 {
        return Err(TextureUploadError::InvalidDimensions {
            width: texture.width,
            height: texture.height,
        });
    }
    assert(texture.width as int * texture.height as int <= rgba_byte_count(
        texture.width,
        texture.height,
    )) by (nonlinear_arith)
        requires
            texture.width > 0,
            texture.height > 0,
    ;
    let texels = texture.width as usize * texture.height as usize;
    let expected = texels * 4;
    if texture.rgba.len() != expected {
        return Err(TextureUploadError::WrongByteCount { expected, actual: texture.rgba.len() });
    }
    Ok(expected)
}

/// The number of mip levels a texture is uploaded with: its full chain,
/// unless the format cannot build a chain by linear blits, in which case one.
pub open spec fn upload_mip_levels(width: u32, height: u32, linear_blit_supported: bool) -> int {
    let requested = log2_floor(if width >= height {
        width as nat
    } else {
        height as nat
    }) + 1;
    if requested > 1 && !linear_blit_supported {
        1
    } else {
        requested as int
    }
}

/// The number of mip levels a texture is uploaded with.
pub fn texture_upload_mip_levels(width: u32, height: u32, linear_blit_supported: bool) -> (levels:
    u32)
    requires
        width > 0 || height > 0,
    ensures
        levels == upload_mip_levels(width, height, linear_blit_supported),
{
    let requested = texture_mip_level_count(width, height);
    if requested > 1 && !linear_blit_supported {
        1
    } else {
        requested
    }
}

/// A side of the next mip level: half the side, rounded down, and never
/// below one texel.
pub open spec fn halved(side: int) -> int {
    if side > 1 {
        side / 2
    } else {
        1
    }
}

/// A side of mip level `level` of a texture whose base side is `side`.
pub open spec fn mip_side(side: int, level: nat) -> int
    decreases level,
{
    if level == 0 {
        side
    } else {
        halved(mip_side(side, (level - 1) as nat))
    }
}

/// One blit of a mip chain: level `source_level` scaled into the next level.
#[derive(Debug, Clone, Copy, PartialEq, Eq, Structural)]
pub struct MipBlit {
    pub source_level: u32,
    pub source_width: i32,
    pub source_height: i32,
    pub destination_width: i32,
    pub destination_height: i32,
}

/// The blits that build a mip chain of `mip_levels` levels on a
/// `width` x `height` base: each level is made from the one before it.
pub fn texture_mip_blits(width: i32, height: i32, mip_levels: u32) -> (blits: Vec<MipBlit>)
    ensures
        blits@.len() == (if mip_levels <= 1 {
            0
        } else {
            mip_levels - 1
        }),
        forall|k: int|
            0 <= k < blits@.len() ==> {
                let blit = #[trigger] blits@[k];
                &&& blit.source_level == k
                &&& blit.source_width == mip_side(width as int, k as nat)
                &&& blit.source_height == mip_side(height as int, k as nat)
                &&& blit.destination_width == mip_side(width as int, (k + 1) as nat)
                &&& blit.destination_height == mip_side(height as int, (k + 1) as nat)
            },
{
    let mut blits: Vec<MipBlit> = Vec::new();
    if mip_levels <= 1 {
        return blits;
    }
    let mut mip_width = width;
    let mut mip_height = height;
    let mut level: u32 = 1;
    while level < mip_levels
        invariant
            1 <= level <= mip_levels,
            blits@.len() == level - 1,
            mip_width == mip_side(width as int, (level - 1) as nat),
            mip_height == mip_side(height as int, (level - 1) as nat),
            forall|k: int|
                0 <= k < blits@.len() ==> {
                    let blit = #[trigger] blits@[k];
                    &&& blit.source_level == k
                    &&& blit.source_width == mip_side(width as int, k as nat)
                    &&& blit.source_height == mip_side(height as int, k as nat)
                    &&& blit.destination_width == mip_side(width as int, (k + 1) as nat)
                    &&& blit.destination_height == mip_side(height as int, (k + 1) as nat)
                },
        decreases mip_levels - level,
    {
        let next_width = if mip_width > 1 {
            mip_width / 2
        } else {
            1
        };
        let next_height = if mip_height > 1 {
            mip_height / 2
        } else {
            1
        };
        blits.push(
            MipBlit {
                source_level: level - 1,
                source_width: mip_width,
                source_height: mip_height,
                destination_width: next_width,
                destination_height: next_height,
            },
        );
        mip_width = next_width;
        mip_height = next_height;
        level = level + 1;
    }
    blits
}

proof fn lemma_mip_side_halves_first(side: int, level: nat)
    ensures
        mip_side(side, level + 1) == mip_side(halved(side), level),
    decreases level,
{
    assert(mip_side(side, level + 1) == halved(mip_side(side, level)));
    if level > 0 {
        lemma_mip_side_halves_first(side, (level - 1) as nat);
        assert(mip_side(side, level) == mip_side(side, ((level - 1) as nat) + 1));
        assert(mip_side(halved(side), level) == halved(
            mip_side(halved(side), (level - 1) as nat),
        ));
    }
}

proof fn lemma_mip_side_reaches_one(side: int)
    requires
        side >= 1,
    ensures
        mip_side(side, log2_floor(side as nat)) == 1,
    decreases side,
{
    if side >= 2 {
        lemma_mip_side_reaches_one(side / 2);
        lemma_mip_side_halves_first(side, log2_floor((side / 2) as nat));
    }
}

proof fn lemma_mip_side_monotonic(a: int, b: int, level: nat)
    requires
        a <= b,
    ensures
        mip_side(a, level) <= mip_side(b, level),
        level > 0 ==> mip_side(a, level) >= 1,
    decreases level,
{
    if level > 0 {
        lemma_mip_side_monotonic(a, b, (level - 1) as nat);
    }
}

/// The full mip chain of a texture ends in a single texel: with as many
/// levels as `texture_mip_level_count` gives, the last blit of the chain
/// writes a 1 x 1 level.
pub proof fn law_full_mip_chain_ends_at_one_texel(width: u32, height: u32)
    requires
        width > 0,
        height > 0,
        width <= i32::MAX,
        height <= i32::MAX,
    ensures
        ({
            let largest = if width >= height {
                width as int
            } else {
                height as int
            };
            let levels = log2_floor(largest as nat) + 1;
            &&& mip_side(width as int, (levels - 1) as nat) == 1
            &&& mip_side(height as int, (levels - 1) as nat) == 1
        }),
{
    let largest = if width >= height {
        width as int
    } else {
        height as int
    };
    let last = log2_floor(largest as nat);
    lemma_mip_side_reaches_one(largest);
    lemma_mip_side_monotonic(width as int, largest, last);
    lemma_mip_side_monotonic(height as int, largest, last);
    if last == 0 {
        assert(largest == 1) by {
            if largest >= 2 {
                assert(log2_floor(largest as nat) == 1 + log2_floor((largest / 2) as nat));
            }
        }
    }
}

/// The undefined image layout.
pub const IMAGE_LAYOUT_UNDEFINED: i32 = 0;

/// The layout of an image sampled by shaders.
pub const IMAGE_LAYOUT_SHADER_READ_ONLY_OPTIMAL: i32 = 5;

/// The layout of an image written by transfers.
pub const IMAGE_LAYOUT_TRANSFER_DST_OPTIMAL: i32 = 7;

/// The access and stage masks of an image layout transition.
#[derive(Debug, Clone, Copy, PartialEq, Eq, Structural)]
pub struct TransitionMasks {
    pub src_access: u32,
    pub dst_access: u32,
    pub src_stage: u32,
    pub dst_stage: u32,
}

/// The masks of the two transitions a texture upload makes: from undefined
/// to transfer destination (before the copy), and from transfer destination
/// to shader read (after it); no other transition is made.
pub open spec fn transition_masks(old_layout: i32, new_layout: i32) -> Option<TransitionMasks> {
    if old_layout == IMAGE_LAYOUT_UNDEFINED && new_layout == IMAGE_LAYOUT_TRANSFER_DST_OPTIMAL {
        Some(TransitionMasks { src_access: 0, dst_access: 0x1000, src_stage: 0x1, dst_stage: 0x1000 })
    } else if old_layout == IMAGE_LAYOUT_TRANSFER_DST_OPTIMAL && new_layout
        == IMAGE_LAYOUT_SHADER_READ_ONLY_OPTIMAL {
        Some(TransitionMasks { src_access: 0x1000, dst_access: 0x20, src_stage: 0x1000, dst_stage: 0x80 })
    } else {
        None
    }
}

/// The access and stage masks of a layout transition; `None` for a
/// transition the uploader does not make.
pub fn layout_transition_masks(old_layout: i32, new_layout: i32) -> (masks: Option<TransitionMasks>)
    ensures
        masks == transition_masks(old_layout, new_layout),
{
    if old_layout == IMAGE_LAYOUT_UNDEFINED && new_layout == IMAGE_LAYOUT_TRANSFER_DST_OPTIMAL {
        Some(TransitionMasks { src_access: 0, dst_access: 0x1000, src_stage: 0x1, dst_stage: 0x1000 })
    } else if old_layout == IMAGE_LAYOUT_TRANSFER_DST_OPTIMAL && new_layout
        == IMAGE_LAYOUT_SHADER_READ_ONLY_OPTIMAL {
        Some(TransitionMasks { src_access: 0x1000, dst_access: 0x20, src_stage: 0x1000, dst_stage: 0x80 })
    } else {
        None
    }
}

} // verus!
