//! glTF samplers, buffer views and the default scene's root nodes.

use vstd::prelude::*;
use vstd::string::StringExecFns;

use super::gltf::{
    array_item, array_item_at, buffers_view, field_u64, gltf_u64, optional_u64, reports,
    gltf_optional_u64, GltfFailure,
};
use super::json::{json_array, json_get, json_u64, JsonValue};
use super::types::{
    default_sampler, AssetError, StaticMeshTextureFilter, StaticMeshTextureMinFilter,
    StaticMeshTextureSampler, StaticMeshTextureWrap,
};
use crate::text::{prefixed_number, number_message};

verus! {

/// The magnification filter a glTF filter code names.
pub open spec fn texture_filter(code: u64) -> Option<StaticMeshTextureFilter> {
    if code == 9728 {
        Some(StaticMeshTextureFilter::Nearest)
    } else if code == 9729 {
        Some(StaticMeshTextureFilter::Linear)
    } else {
        None
    }
}

/// The minification filter a glTF filter code names.
pub open spec fn texture_min_filter(code: u64) -> Option<StaticMeshTextureMinFilter> {
    if code == 9728 {
        Some(StaticMeshTextureMinFilter::Nearest)
    } else if code == 9729 {
        Some(StaticMeshTextureMinFilter::Linear)
    } else if code == 9984 {
        Some(StaticMeshTextureMinFilter::NearestMipmapNearest)
    } else if code == 9985 {
        Some(StaticMeshTextureMinFilter::LinearMipmapNearest)
    } else if code == 9986 {
        Some(StaticMeshTextureMinFilter::NearestMipmapLinear)
    } else if code == 9987 {
        Some(StaticMeshTextureMinFilter::LinearMipmapLinear)
    } else {
        None
    }
}

/// The wrap mode a glTF wrap code names.
pub open spec fn texture_wrap(code: u64) -> Option<StaticMeshTextureWrap> {
    if code == 33071 {
        Some(StaticMeshTextureWrap::ClampToEdge)
    } else if code == 33648 {
        Some(StaticMeshTextureWrap::MirroredRepeat)
    } else if code == 10497 {
        Some(StaticMeshTextureWrap::Repeat)
    } else {
        None
    }
}

/// Maps a glTF magnification filter code; other codes are unsupported.
pub fn gltf_texture_filter(value: u64) -> (result: Result<StaticMeshTextureFilter, AssetError>)
    ensures
        match texture_filter(value) {
            Some(f) => result matches Ok(g) && g == f,
            None => result matches Err(e) && e is UnsupportedGltfFeature,
        },
{
    if value == 9728 {
        Ok(StaticMeshTextureFilter::Nearest)
    } else if value == 9729 {
        Ok(StaticMeshTextureFilter::Linear)
    } else {
        Err(
            AssetError::UnsupportedGltfFeature(
                prefixed_number("unsupported glTF texture filter value ", value),
            ),
        )
    }
}

/// Maps a glTF minification filter code; other codes are unsupported.
pub fn gltf_texture_min_filter(value: u64) -> (result: Result<StaticMeshTextureMinFilter, AssetError>)
    ensures
        match texture_min_filter(value) {
            Some(f) => result matches Ok(g) && g == f,
            None => result matches Err(e) && e is UnsupportedGltfFeature,
        },
{
    if value == 9728 {
        Ok(StaticMeshTextureMinFilter::Nearest)
    } else if value == 9729 {
        Ok(StaticMeshTextureMinFilter::Linear)
    } else if value == 9984 {
        Ok(StaticMeshTextureMinFilter::NearestMipmapNearest)
    } else if value == 9985 {
        Ok(StaticMeshTextureMinFilter::LinearMipmapNearest)
    } else if value == 9986 {
        Ok(StaticMeshTextureMinFilter::NearestMipmapLinear)
    } else if value == 9987 {
        Ok(StaticMeshTextureMinFilter::LinearMipmapLinear)
    } else {
        Err(
            AssetError::UnsupportedGltfFeature(
                prefixed_number("unsupported glTF texture minFilter value ", value),
            ),
        )
    }
}

/// Maps a glTF wrap code; other codes are unsupported.
pub fn gltf_texture_wrap(value: u64) -> (result: Result<StaticMeshTextureWrap, AssetError>)
    ensures
        match texture_wrap(value) {
            Some(w) => result matches Ok(g) && g == w,
            None => result matches Err(e) && e is UnsupportedGltfFeature,
        },
{
    if value == 33071 {
        Ok(StaticMeshTextureWrap::ClampToEdge)
    } else if value == 33648 {
        Ok(StaticMeshTextureWrap::MirroredRepeat)
    } else if value == 10497 {
        Ok(StaticMeshTextureWrap::Repeat)
    } else {
        Err(
            AssetError::UnsupportedGltfFeature(
                prefixed_number("unsupported glTF texture wrap value ", value),
            ),
        )
    }
}

/// One sampler setting: absent means the default, a code must be one the
/// setting knows.
pub open spec fn sampler_setting<T>(
    sampler: JsonValue,
    name: Seq<char>,
    decode: spec_fn(u64) -> Option<T>,
    default: T,
) -> Result<T, GltfFailure> {
    match json_u64(json_get(sampler, name)) {
        None => Ok(default),
        Some(code) => match decode(code) {
            Some(x) => Ok(x),
            None => Err(GltfFailure::Unsupported),
        },
    }
}

/// The sampler a glTF texture is read with: the default sampler when the
/// texture names none, otherwise the named sampler's settings, each absent
/// one taken from the default.
pub open spec fn texture_sampler(doc: JsonValue, texture: JsonValue) -> Result<
    StaticMeshTextureSampler,
    GltfFailure,
> {
    let d = default_sampler();
    match json_u64(json_get(texture, "sampler"@)) {
        None => Ok(d),
        Some(index) => match array_item(doc, "samplers"@, index as int) {
            Err(f) => Err(f),
            Ok(s) => match sampler_setting(s, "magFilter"@, |c: u64| texture_filter(c), d.mag_filter) {
                Err(f) => Err(f),
                Ok(mag) => match sampler_setting(
                    s,
                    "minFilter"@,
                    |c: u64| texture_min_filter(c),
                    d.min_filter,
                ) {
                    Err(f) => Err(f),
                    Ok(min) => match sampler_setting(s, "wrapS"@, |c: u64| texture_wrap(c), d.wrap_s) {
                        Err(f) => Err(f),
                        Ok(ws) => match sampler_setting(
                            s,
                            "wrapT"@,
                            |c: u64| texture_wrap(c),
                            d.wrap_t,
                        ) {
                            Err(f) => Err(f),
                            Ok(wt) => Ok(
                                StaticMeshTextureSampler {
                                    mag_filter: mag,
                                    min_filter: min,
                                    wrap_s: ws,
                                    wrap_t: wt,
                                },
                            ),
                        },
                    },
                },
            },
        },
    }
}

fn optional_code(value: &JsonValue, name: &'static str) -> (code: Option<u64>)
    ensures
        code == json_u64(json_get(*value, name@)),
{
    match value.get(name) {
        Some(v) => v.as_u64(),
        None => None,
    }
}

/// The sampler of a glTF texture.
pub fn gltf_texture_sampler(document: &JsonValue, texture: &JsonValue) -> (result: Result<
    StaticMeshTextureSampler,
    AssetError,
>)
    ensures
        match texture_sampler(*document, *texture) {
            Ok(s) => result matches Ok(t) && t == s,
            Err(f) => result matches Err(e) && reports(e, f),
        },
{
    let defaults = StaticMeshTextureSampler::default();
    let sampler_index = match optional_code(texture, "sampler") {
        Some(i) => i,
        None => return Ok(defaults),
    };
    let sampler = match array_item_at(document, "samplers", sampler_index) {
        Ok(s) => s,
        Err(e) => return Err(e),
    };
    let mag_filter = match optional_code(sampler, "magFilter") {
        Some(code) => match gltf_texture_filter(code) {
            Ok(f) => f,
            Err(e) => return Err(e),
        },
        None => defaults.mag_filter,
    };
    let min_filter = match optional_code(sampler, "minFilter") {
        Some(code) => match gltf_texture_min_filter(code) {
            Ok(f) => f,
            Err(e) => return Err(e),
        },
        None => defaults.min_filter,
    };
    let wrap_s = match optional_code(sampler, "wrapS") {
        Some(code) => match gltf_texture_wrap(code) {
            Ok(w) => w,
            Err(e) => return Err(e),
        },
        None => defaults.wrap_s,
    };
    let wrap_t = match optional_code(sampler, "wrapT") {
        Some(code) => match gltf_texture_wrap(code) {
            Ok(w) => w,
            Err(e) => return Err(e),
        },
        None => defaults.wrap_t,
    };
    Ok(StaticMeshTextureSampler { mag_filter, min_filter, wrap_s, wrap_t })
}

/// The bytes of buffer view `view_index`, which must lie inside its buffer.
pub open spec fn view_bytes(doc: JsonValue, buffers: Seq<Seq<u8>>, view_index: int) -> Result<
    Seq<u8>,
    GltfFailure,
> {
    match array_item(doc, "bufferViews"@, view_index) {
        Err(f) => Err(f),
        Ok(view) => match field_u64(view, "buffer"@) {
            Err(f) => Err(f),
            Ok(b) => if b >= buffers.len() {
                Err(GltfFailure::InvalidMesh)
            } else {
                let offset = optional_u64(view, "byteOffset"@);
                match field_u64(view, "byteLength"@) {
                    Err(f) => Err(f),
                    Ok(length) => if offset + length > buffers[b as int].len() {
                        Err(GltfFailure::InvalidMesh)
                    } else {
                        Ok(buffers[b as int].subrange(offset as int, offset + length))
                    },
                }
            },
        },
    }
}

/// The bytes of a buffer view.
pub fn buffer_view_bytes<'a>(document: &JsonValue, buffers: &'a [Vec<u8>], buffer_view_index: u64) -> (result:
    Result<&'a [u8], AssetError>)
    ensures
        match view_bytes(*document, buffers_view(buffers@), buffer_view_index as int) {
            Ok(b) => result matches Ok(r) && r@ == b,
            Err(f) => result matches Err(e) && reports(e, f),
        },
{
    let buffer_view = match array_item_at(document, "bufferViews", buffer_view_index) {
        Ok(v) => v,
        Err(e) => return Err(e),
    };
    let buffer_index = match gltf_u64(buffer_view, "buffer") {
        Ok(i) => i,
        Err(e) => return Err(e),
    };
    if buffer_index >= buffers.len() as u64 {
        return Err(
            AssetError::InvalidGltfMesh(
                prefixed_number("bufferView references missing buffer ", buffer_index),
            ),
        );
    }
    let buffer = &buffers[buffer_index as usize];
    proof {
        assert(buffers_view(buffers@)[buffer_index as int] == buffer@);
    }
    let view_offset = gltf_optional_u64(buffer_view, "byteOffset");
    let view_length = match gltf_u64(buffer_view, "byteLength") {
        Ok(n) => n,
        Err(e) => return Err(e),
    };
    if view_offset > buffer.len() as u64 || view_length > buffer.len() as u64 - view_offset {
        let mut message = String::from_str("bufferView range ");
        crate::text::push_decimal(&mut message, view_offset);
        message.append("..");
        if view_length <= u64::MAX - view_offset {
            crate::text::push_decimal(&mut message, view_offset + view_length);
        } else {
            message.append("(overflow)");
        }
        message.append(" exceeds buffer length ");
        crate::text::push_decimal(&mut message, buffer.len() as u64);
        return Err(AssetError::InvalidGltfMesh(message));
    }
    let start = view_offset as usize;
    let end = (view_offset + view_length) as usize;
    Ok(&buffer.as_slice()[start..end])
}

/// Whether every item is an unsigned integer usable as an index.
pub open spec fn node_indices_valid(nodes: Seq<JsonValue>) -> bool {
    forall|i: int|
        0 <= i < nodes.len() ==> #[trigger] json_u64(Some(nodes[i])) is Some && json_u64(
            Some(nodes[i]),
        )->Some_0 <= usize::MAX
}

/// The root nodes of the document's default scene: none when the document
/// has no (or an empty) scene list or the scene lists no nodes; the default
/// scene is `scene`, or the first one.
pub open spec fn scene_root_nodes(doc: JsonValue) -> Result<Option<Seq<int>>, GltfFailure> {
    match json_array(json_get(doc, "scenes"@)) {
        None => Ok(None),
        Some(scenes) => if scenes.len() == 0 {
            Ok(None)
        } else {
            let index = match json_u64(json_get(doc, "scene"@)) {
                Some(i) => i as int,
                None => 0,
            };
            if index >= scenes.len() {
                Err(GltfFailure::InvalidMesh)
            } else {
                match json_array(json_get(scenes[index], "nodes"@)) {
                    None => Ok(None),
                    Some(nodes) => if node_indices_valid(nodes) {
                        Ok(Some(Seq::new(nodes.len(), |i: int| json_u64(Some(nodes[i]))->Some_0 as int)))
                    } else {
                        Err(GltfFailure::InvalidMesh)
                    },
                }
            }
        },
    }
}

/// The root nodes of the default scene.
#[verifier::loop_isolation(false)]
pub fn default_scene_node_indices(document: &JsonValue) -> (result: Result<Option<Vec<usize>>, AssetError>)
    ensures
        match scene_root_nodes(*document) {
            Ok(None) => result matches Ok(None),
            Ok(Some(nodes)) => result matches Ok(Some(v)) && v@.len() == nodes.len() && forall|i: int|
                0 <= i < nodes.len() ==> #[trigger] v@[i] == nodes[i],
            Err(f) => result matches Err(e) && reports(e, f),
        },
{
    let scenes = match document.get("scenes") {
        Some(v) => match v.as_array() {
            Some(items) => items,
            None => return Ok(None),
        },
        None => return Ok(None),
    };
    if scenes.len() == 0 {
        return Ok(None);
    }
    let scene_index: u64 = match optional_code(document, "scene") {
        Some(i) => i,
        None => 0,
    };
    if scene_index >= scenes.len() as u64 {
        return Err(
            AssetError::InvalidGltfMesh(
                number_message("default scene index ", scene_index, " is out of range"),
            ),
        );
    }
    let scene = &scenes[scene_index as usize];
    let nodes = match scene.get("nodes") {
        Some(v) => match v.as_array() {
            Some(items) => items,
            None => return Ok(None),
        },
        None => return Ok(None),
    };
    let mut indices: Vec<usize> = Vec::new();
    let mut i: usize = 0;
    while i < nodes.len()
        invariant
            i <= nodes@.len(),
            indices@.len() == i,
            forall|k: int|
                0 <= k < i ==> #[trigger] json_u64(Some(nodes@[k])) is Some && indices@[k]
                    == json_u64(Some(nodes@[k]))->Some_0,
        decreases nodes@.len() - i,
    {
        let node = match nodes[i].as_u64() {
            Some(n) => n,
            None => {
                proof {
                    assert(json_u64(Some(nodes@[i as int])) is None);
                }
                return Err(
                    AssetError::InvalidGltfMesh(
                        String::from_str("scene node index must be an unsigned integer"),
                    ),
                );
            },
        };
        if node > usize::MAX as u64 {
            proof {
                assert(json_u64(Some(nodes@[i as int]))->Some_0 > usize::MAX);
            }
            return Err(
                AssetError::InvalidGltfMesh(
                    String::from_str("scene node index must be an unsigned integer"),
                ),
            );
        }
        indices.push(node as usize);
        i = i + 1;
    }
    Ok(Some(indices))
}

/// The glTF sampler codes are OpenGL's: each wrap code names its own mode
/// (`33071` CLAMP_TO_EDGE, `33648` MIRRORED_REPEAT, `10497` REPEAT), no two
/// codes name the same mode, and no other code names one. The code glTF
/// gives as the default for each setting names the default sampler's value
/// (REPEAT for both wraps, LINEAR magnification, LINEAR_MIPMAP_LINEAR
/// minification).
pub proof fn law_sampler_codes_name_their_modes(code: u64, other: u64)
    ensures
        texture_wrap(code) == Some(StaticMeshTextureWrap::Repeat) <==> code == 10497,
        texture_wrap(code) == Some(StaticMeshTextureWrap::ClampToEdge) <==> code == 33071,
        texture_wrap(code) == Some(StaticMeshTextureWrap::MirroredRepeat) <==> code == 33648,
        texture_wrap(code) is Some && texture_wrap(code) == texture_wrap(other) ==> code == other,
        texture_filter(code) is Some && texture_filter(code) == texture_filter(other) ==> code == other,
        texture_min_filter(code) is Some && texture_min_filter(code) == texture_min_filter(other)
            ==> code == other,
        texture_filter(code) is Some ==> texture_min_filter(code) is Some,
        texture_wrap(10497) == Some(default_sampler().wrap_s),
        texture_wrap(10497) == Some(default_sampler().wrap_t),
        texture_filter(9729) == Some(default_sampler().mag_filter),
        texture_min_filter(9987) == Some(default_sampler().min_filter),
{
}

/// A texture's sampler takes each wrap mode from the code its sampler gives
/// for it, and REPEAT (glTF's default) where the code is absent: a sampler
/// that spells out `10497` reads the same as one that leaves it out.
pub proof fn law_sampler_wraps_follow_codes(doc: JsonValue, texture: JsonValue, sampler: JsonValue)
    requires
        json_u64(json_get(texture, "sampler"@)) matches Some(i) && json_array(
            json_get(doc, "samplers"@),
        ) matches Some(samplers) && i < samplers.len() && samplers[i as int] == sampler,
        texture_sampler(doc, texture) is Ok,
    ensures
        ({
            let read = texture_sampler(doc, texture)->Ok_0;
            &&& read.wrap_s == match json_u64(json_get(sampler, "wrapS"@)) {
                Some(10497) | None => StaticMeshTextureWrap::Repeat,
                Some(33071) => StaticMeshTextureWrap::ClampToEdge,
                Some(_) => StaticMeshTextureWrap::MirroredRepeat,
            }
            &&& read.wrap_t == match json_u64(json_get(sampler, "wrapT"@)) {
                Some(10497) | None => StaticMeshTextureWrap::Repeat,
                Some(33071) => StaticMeshTextureWrap::ClampToEdge,
                Some(_) => StaticMeshTextureWrap::MirroredRepeat,
            }
        }),
{
}

} // verus!
