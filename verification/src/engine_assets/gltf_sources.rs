//! Where glTF buffers and images come from: embedded base64 data URIs, the
//! GLB binary chunk, buffer views, or files next to the document.

use base64::Engine;
use vstd::prelude::*;
use vstd::string::{StrSliceExecFns, StringExecFns};

use super::gltf::{array_item, array_item_at, buffers_view, reports, GltfFailure};
use super::gltf_material::{buffer_view_bytes, gltf_texture_sampler, texture_sampler, view_bytes};
use super::json::{json_get, json_str, json_u64, JsonValue};
use super::types::{AssetError, StaticMeshTextureAsset, StaticMeshTextureSampler};
use crate::chars::{
    ends_with_chars, find_char, first_index_of, has_prefix, has_suffix, strip_prefix_chars,
};
use crate::text::{debug_quoted, number_message, two_number_message};

verus! {

/// The base64 payload of a `data:` URI whose metadata ends in `;base64`.
pub open spec fn data_uri_payload(uri: Seq<char>) -> Option<Seq<char>> {
    if !has_prefix(uri, "data:"@) {
        None
    } else {
        let rest = uri.skip("data:"@.len() as int);
        match first_index_of(rest, ',') {
            None => None,
            Some(comma) => if has_suffix(rest.take(comma), ";base64"@) {
                Some(rest.skip(comma + 1))
            } else {
                None
            },
        }
    }
}

/// The base64 payload of a `data:` URI: what follows the first comma, when
/// the metadata before it ends in `;base64`.
pub fn data_uri_base64_payload(uri: &str) -> (payload: Option<&str>)
    ensures
        match payload {
            Some(p) => data_uri_payload(uri@) == Some(p@),
            None => data_uri_payload(uri@) is None,
        },
{
    let rest = match strip_prefix_chars(uri, "data:") {
        Some(rest) => rest,
        None => return None,
    };
    let comma = match find_char(rest, ',') {
        Some(i) => i,
        None => return None,
    };
    let n = rest.unicode_len();
    let metadata = rest.substring_char(0, comma);
    if !ends_with_chars(metadata, ";base64") {
        return None;
    }
    Some(rest.substring_char(comma + 1, n))
}

/// What the standard base64 alphabet (with padding) decodes `text` to, when
/// it is valid base64. Stated by the `base64` crate, not here.
pub uninterp spec fn base64_standard_decode(text: Seq<char>) -> Option<Seq<u8>>;

/// Decodes standard base64 with `base64::engine::general_purpose::STANDARD`.
/// The result is named, not stated: it is whatever the crate decodes the
/// text to, and an error exactly when the crate finds no decoding.
#[verifier::external_body]
fn decode_base64_standard(text: &str) -> (result: Result<Vec<u8>, base64::DecodeError>)
    ensures
        match result {
            Ok(bytes) => base64_standard_decode(text@) == Some(bytes@),
            Err(_) => base64_standard_decode(text@) is None,
        },
{
    base64::engine::general_purpose::STANDARD.decode(text)
}

/// The prefix of a buffer URI that embeds its bytes as base64.
pub open spec fn octet_stream_prefix() -> Seq<char> {
    "data:application/octet-stream;base64,"@
}

/// The other prefix glTF allows for an embedded buffer.
pub open spec fn gltf_buffer_prefix() -> Seq<char> {
    "data:application/gltf-buffer;base64,"@
}

/// Where a buffer's bytes come from.
pub enum BufferOrigin {
    /// Base64 text embedded in the document.
    Embedded(Seq<char>),
    /// A file, named relative to the document's directory.
    External(Seq<char>),
    /// The binary chunk of the GLB file.
    GlbBinary,
}

/// Where buffer `index` gets its bytes: an embedded data URI, a relative file
/// (only when the document has a directory and the URI is no URL), or, for the
/// first buffer without a URI, the GLB binary chunk.
pub open spec fn buffer_origin(buffer: JsonValue, index: int, has_base_dir: bool, has_glb: bool) -> Result<
    BufferOrigin,
    GltfFailure,
> {
    match json_str(json_get(buffer, "uri"@)) {
        Some(uri) => if has_prefix(uri, octet_stream_prefix()) {
            Ok(BufferOrigin::Embedded(uri.skip(octet_stream_prefix().len() as int)))
        } else if has_prefix(uri, gltf_buffer_prefix()) {
            Ok(BufferOrigin::Embedded(uri.skip(gltf_buffer_prefix().len() as int)))
        } else if !has_base_dir {
            Err(GltfFailure::Unsupported)
        } else if uri.contains(':') {
            Err(GltfFailure::Unsupported)
        } else {
            Ok(BufferOrigin::External(uri))
        },
        None => if index == 0 {
            if has_glb {
                Ok(BufferOrigin::GlbBinary)
            } else {
                Err(GltfFailure::MissingField("buffers[0].uri or GLB BIN chunk"@))
            }
        } else {
            Err(GltfFailure::Unsupported)
        },
    }
}

/// The bytes of a buffer, or the file that holds them.
#[derive(Debug)]
pub enum BufferSource {
    Bytes(Vec<u8>),
    ExternalFile(String),
}

proof fn lemma_contains_iff_first_index(s: Seq<char>, c: char)
    ensures
        s.contains(c) <==> first_index_of(s, c) is Some,
{
    if s.contains(c) {
        let i = choose|i: int| 0 <= i < s.len() && s[i] == c;
        assert(0 <= i < s.len() && s[i] == c);
    }
    if first_index_of(s, c) is Some {
        let i = choose|i: int| 0 <= i < s.len() && s[i] == c;
        assert(s[i] == c);
    }
}

/// Resolves where buffer `index` gets its bytes, decoding embedded base64.
pub fn resolve_gltf_buffer(
    buffer: &JsonValue,
    index: usize,
    base_dir_available: bool,
    glb_binary_chunk: Option<&[u8]>,
) -> (result: Result<BufferSource, AssetError>)
    ensures
        match buffer_origin(*buffer, index as int, base_dir_available, glb_binary_chunk is Some) {
            Err(f) => result matches Err(e) && reports(e, f),
            Ok(BufferOrigin::Embedded(text)) => match base64_standard_decode(text) {
                Some(bytes) => result matches Ok(BufferSource::Bytes(b)) && b@ == bytes,
                None => result matches Err(e) && reports(e, GltfFailure::DecodeBuffer),
            },
            Ok(BufferOrigin::External(uri)) => result matches Ok(BufferSource::ExternalFile(f))
                && f@ == uri,
            Ok(BufferOrigin::GlbBinary) => result matches Ok(BufferSource::Bytes(b))
                && glb_binary_chunk matches Some(chunk) && b@ == chunk@,
        },
{
    let uri = match buffer.get("uri") {
        Some(v) => v.as_str(),
        None => None,
    };
    match uri {
        Some(uri) => {
            let embedded = match strip_prefix_chars(uri, "data:application/octet-stream;base64,") {
                Some(payload) => Some(payload),
                None => strip_prefix_chars(uri, "data:application/gltf-buffer;base64,"),
            };
            if let Some(payload) = embedded {
                return match decode_base64_standard(payload) {
                    Ok(bytes) => Ok(BufferSource::Bytes(bytes)),
                    Err(error) => Err(AssetError::DecodeGltfBuffer(error)),
                };
            }
            if !base_dir_available {
                let mut message = number_message("buffer[", index as u64, "] uses external URI ");
                let quoted = debug_quoted(uri);
            message.append(quoted.as_str());
                message.append(", but no base directory is available");
                return Err(AssetError::UnsupportedGltfFeature(message));
            }
            proof {
                lemma_contains_iff_first_index(uri@, ':');
            }
            if find_char(uri, ':').is_some() {
                let mut message = number_message("buffer[", index as u64, "] URI ");
                let quoted = debug_quoted(uri);
            message.append(quoted.as_str());
                message.append(" is not a relative file path");
                return Err(AssetError::UnsupportedGltfFeature(message));
            }
            Ok(BufferSource::ExternalFile(String::from_str(uri)))
        },
        None => {
            if index == 0 {
                match glb_binary_chunk {
                    Some(chunk) => Ok(BufferSource::Bytes(vstd::slice::slice_to_vec(chunk))),
                    None => Err(AssetError::MissingGltfField("buffers[0].uri or GLB BIN chunk")),
                }
            } else {
                Err(
                    AssetError::UnsupportedGltfFeature(
                        number_message(
                            "buffer[",
                            index as u64,
                            "] has no URI and only the first GLB buffer may omit URI",
                        ),
                    ),
                )
            }
        },
    }
}

/// A buffer's bytes cut to its declared `byteLength`, which they must reach.
pub open spec fn fitted_buffer(buffer: JsonValue, decoded: Seq<u8>) -> Result<Seq<u8>, GltfFailure> {
    match json_u64(json_get(buffer, "byteLength"@)) {
        None => Err(GltfFailure::MissingField("buffers[].byteLength"@)),
        Some(length) => if decoded.len() < length {
            Err(GltfFailure::InvalidMesh)
        } else {
            Ok(decoded.take(length as int))
        },
    }
}

/// Cuts a buffer's bytes to its declared `byteLength`.
pub fn fit_gltf_buffer(buffer: &JsonValue, index: usize, decoded: Vec<u8>) -> (result: Result<
    Vec<u8>,
    AssetError,
>)
    ensures
        match fitted_buffer(*buffer, decoded@) {
            Ok(b) => result matches Ok(v) && v@ == b,
            Err(f) => result matches Err(e) && reports(e, f),
        },
{
    let expected = match buffer.get("byteLength") {
        Some(v) => v.as_u64(),
        None => None,
    };
    let expected = match expected {
        Some(n) => n,
        None => return Err(AssetError::MissingGltfField("buffers[].byteLength")),
    };
    if (decoded.len() as u64) < expected {
        let mut message = two_number_message(
            "buffer[",
            index as u64,
            "] byteLength expected at least ",
            expected,
        );
        message.append(", decoded ");
        crate::text::push_decimal(&mut message, decoded.len() as u64);
        return Err(AssetError::InvalidGltfMesh(message));
    }
    let mut bytes = decoded;
    bytes.truncate(expected as usize);
    Ok(bytes)
}

/// The bytes of buffer `index` of a document read without a directory (so
/// with no external files).
pub open spec fn embedded_buffer(buffer: JsonValue, index: int, glb: Option<Seq<u8>>) -> Result<
    Seq<u8>,
    GltfFailure,
> {
    match buffer_origin(buffer, index, false, glb is Some) {
        Err(f) => Err(f),
        Ok(BufferOrigin::Embedded(text)) => match base64_standard_decode(text) {
            None => Err(GltfFailure::DecodeBuffer),
            Some(bytes) => fitted_buffer(buffer, bytes),
        },
        Ok(BufferOrigin::GlbBinary) => fitted_buffer(buffer, glb->Some_0),
        Ok(BufferOrigin::External(_)) => Err(GltfFailure::Unsupported),
    }
}

/// The bytes of the first `n` buffers; the first failure is reported.
pub open spec fn embedded_buffer_prefix(buffers: Seq<JsonValue>, glb: Option<Seq<u8>>, n: nat) -> Result<
    Seq<Seq<u8>>,
    GltfFailure,
>
    decreases n,
{
    if n == 0 {
        Ok(seq![])
    } else {
        match embedded_buffer_prefix(buffers, glb, (n - 1) as nat) {
            Err(f) => Err(f),
            Ok(prefix) => match embedded_buffer(buffers[n - 1], n - 1, glb) {
                Err(f) => Err(f),
                Ok(b) => Ok(prefix.push(b)),
            },
        }
    }
}

/// The bytes of every buffer of a document read without a directory.
pub open spec fn embedded_buffers(doc: JsonValue, glb: Option<Seq<u8>>) -> Result<
    Seq<Seq<u8>>,
    GltfFailure,
> {
    match super::json::json_array(json_get(doc, "buffers"@)) {
        None => Err(GltfFailure::MissingField("buffers"@)),
        Some(buffers) => embedded_buffer_prefix(buffers, glb, buffers.len()),
    }
}

proof fn lemma_embedded_prefix_failure_persists(
    buffers: Seq<JsonValue>,
    glb: Option<Seq<u8>>,
    n: nat,
    later: nat,
)
    requires
        embedded_buffer_prefix(buffers, glb, n) is Err,
        n <= later,
    ensures
        embedded_buffer_prefix(buffers, glb, later) == embedded_buffer_prefix(buffers, glb, n),
    decreases later - n,
{
    if later > n {
        lemma_embedded_prefix_failure_persists(buffers, glb, n, (later - 1) as nat);
    }
}

/// Decodes every buffer of a document that has no directory: embedded data
/// URIs and the GLB binary chunk; a buffer in an external file is refused.
pub fn decode_embedded_gltf_buffers(document: &JsonValue, glb_binary_chunk: Option<&[u8]>) -> (result:
    Result<Vec<Vec<u8>>, AssetError>)
    ensures
        match embedded_buffers(*document, bytes_of(glb_binary_chunk)) {
            Ok(bs) => result matches Ok(v) && buffers_view(v@) == bs,
            Err(f) => result matches Err(e) && reports(e, f),
        },
{
    let buffers = match document.get("buffers") {
        Some(v) => match v.as_array() {
            Some(items) => items,
            None => return Err(AssetError::MissingGltfField("buffers")),
        },
        None => return Err(AssetError::MissingGltfField("buffers")),
    };
    let ghost glb = bytes_of(glb_binary_chunk);
    let mut decoded: Vec<Vec<u8>> = Vec::new();
    let mut i: usize = 0;
    proof {
        assert(buffers_view(decoded@) == Seq::<Seq<u8>>::empty());
    }
    while i < buffers.len()
        invariant
            i <= buffers@.len(),
            embedded_buffers(*document, glb) == embedded_buffer_prefix(buffers@, glb, buffers@.len()),
            glb == bytes_of(glb_binary_chunk),
            embedded_buffer_prefix(buffers@, glb, i as nat) == Ok::<Seq<Seq<u8>>, GltfFailure>(
                buffers_view(decoded@),
            ),
        decreases buffers@.len() - i,
    {
        let source = match resolve_gltf_buffer(&buffers[i], i, false, glb_binary_chunk) {
            Ok(source) => source,
            Err(e) => {
                proof {
                    lemma_embedded_prefix_failure_persists(
                        buffers@,
                        glb,
                        (i + 1) as nat,
                        buffers@.len(),
                    );
                }
                return Err(e);
            },
        };
        let bytes = match source {
            BufferSource::Bytes(bytes) => bytes,
            BufferSource::ExternalFile(_) => {
                return Err(
                    AssetError::UnsupportedGltfFeature(
                        String::from_str("external buffers need a base directory"),
                    ),
                );
            },
        };
        let fitted = match fit_gltf_buffer(&buffers[i], i, bytes) {
            Ok(b) => b,
            Err(e) => {
                proof {
                    lemma_embedded_prefix_failure_persists(
                        buffers@,
                        glb,
                        (i + 1) as nat,
                        buffers@.len(),
                    );
                }
                return Err(e);
            },
        };
        let ghost before = decoded@;
        decoded.push(fitted);
        proof {
            assert(buffers_view(decoded@) == buffers_view(before).push(fitted@));
        }
        i = i + 1;
    }
    Ok(decoded)
}

/// Where an image's encoded bytes come from.
pub enum ImageOrigin {
    /// Bytes at hand: decoded from a data URI or taken from a buffer view.
    Bytes(Seq<u8>),
    /// A file, named relative to the document's directory.
    External(Seq<char>),
}

/// Where a glTF image's encoded bytes come from: a base64 data URI, a
/// relative file (only when the document has a directory and the URI is no
/// URL), or a buffer view.
pub open spec fn image_origin(doc: JsonValue, buffers: Seq<Seq<u8>>, image: JsonValue, has_base_dir: bool) -> Result<
    ImageOrigin,
    GltfFailure,
> {
    match json_str(json_get(image, "uri"@)) {
        Some(uri) => match data_uri_payload(uri) {
            Some(payload) => match base64_standard_decode(payload) {
                Some(bytes) => Ok(ImageOrigin::Bytes(bytes)),
                None => Err(GltfFailure::DecodeBuffer),
            },
            None => if !has_base_dir {
                Err(GltfFailure::Unsupported)
            } else if uri.contains(':') {
                Err(GltfFailure::Unsupported)
            } else {
                Ok(ImageOrigin::External(uri))
            },
        },
        None => match json_u64(json_get(image, "bufferView"@)) {
            None => Err(GltfFailure::MissingField("images[].uri or images[].bufferView"@)),
            Some(view) => match view_bytes(doc, buffers, view as int) {
                Err(f) => Err(f),
                Ok(bytes) => Ok(ImageOrigin::Bytes(bytes)),
            },
        },
    }
}

/// The encoded bytes of an image, or the file that holds them.
#[derive(Debug)]
pub enum ImageSource {
    Bytes(Vec<u8>),
    ExternalFile(String),
}

/// Whether `source` is what `origin` describes.
pub open spec fn image_source_matches(source: ImageSource, origin: ImageOrigin) -> bool {
    match origin {
        ImageOrigin::Bytes(b) => source matches ImageSource::Bytes(v) && v@ == b,
        ImageOrigin::External(uri) => source matches ImageSource::ExternalFile(f) && f@ == uri,
    }
}

/// Resolves where a glTF image's encoded bytes come from, decoding data URIs.
pub fn resolve_gltf_image(
    document: &JsonValue,
    buffers: &[Vec<u8>],
    image: &JsonValue,
    base_dir_available: bool,
) -> (result: Result<ImageSource, AssetError>)
    ensures
        match image_origin(*document, buffers_view(buffers@), *image, base_dir_available) {
            Ok(origin) => result matches Ok(source) && image_source_matches(source, origin),
            Err(f) => result matches Err(e) && reports(e, f),
        },
{
    let uri = match image.get("uri") {
        Some(v) => v.as_str(),
        None => None,
    };
    if let Some(uri) = uri {
        if let Some(encoded) = data_uri_base64_payload(uri) {
            return match decode_base64_standard(encoded) {
                Ok(bytes) => Ok(ImageSource::Bytes(bytes)),
                Err(error) => Err(AssetError::DecodeGltfBuffer(error)),
            };
        }
        if !base_dir_available {
            let mut message = String::from_str("image URI ");
            let quoted = debug_quoted(uri);
            message.append(quoted.as_str());
            message.append(" is external, but no base directory is available");
            return Err(AssetError::UnsupportedGltfFeature(message));
        }
        proof {
            lemma_contains_iff_first_index(uri@, ':');
        }
        if find_char(uri, ':').is_some() {
            let mut message = String::from_str("image URI ");
            let quoted = debug_quoted(uri);
            message.append(quoted.as_str());
            message.append(" is not a relative file path");
            return Err(AssetError::UnsupportedGltfFeature(message));
        }
        return Ok(ImageSource::ExternalFile(String::from_str(uri)));
    }
    let view = match image.get("bufferView") {
        Some(v) => v.as_u64(),
        None => None,
    };
    let view = match view {
        Some(v) => v,
        None => return Err(AssetError::MissingGltfField("images[].uri or images[].bufferView")),
    };
    match buffer_view_bytes(document, buffers, view) {
        Ok(bytes) => Ok(ImageSource::Bytes(vstd::slice::slice_to_vec(bytes))),
        Err(e) => Err(e),
    }
}

/// The width, height and RGBA8 pixels (row by row) that the `image` crate
/// decodes from an encoded image, when it recognizes and decodes it. Stated
/// by the crate, not here.
pub uninterp spec fn rgba8_image(encoded: Seq<u8>) -> Option<(u32, u32, Seq<u8>)>;

/// Decodes an image with `image::load_from_memory` and converts it to RGBA8
/// (`DynamicImage::to_rgba8`), handing back its width, height and pixels. The
/// result is named, not stated; an error comes exactly when the crate finds
/// no decoding. An RGBA8 buffer holds at least four bytes per pixel
/// (`ImageBuffer::from_raw` refuses a smaller container).
#[verifier::external_body]
fn decode_rgba8(encoded: &[u8]) -> (result: Result<(u32, u32, Vec<u8>), image::ImageError>)
    ensures
        match result {
            Ok((width, height, pixels)) => rgba8_image(encoded@) == Some((width, height, pixels@))
                && pixels@.len() >= width * height * 4,
            Err(_) => rgba8_image(encoded@) is None,
        },
{
    match image::load_from_memory(encoded) {
        Ok(image) => {
            let rgba = image.to_rgba8();
            Ok((rgba.width(), rgba.height(), rgba.into_raw()))
        },
        Err(error) => Err(error),
    }
}

/// Decodes an encoded image into a texture with the given name and sampler.
pub fn decode_texture_image(
    name: String,
    sampler: StaticMeshTextureSampler,
    encoded: &[u8],
) -> (result: Result<StaticMeshTextureAsset, AssetError>)
    ensures
        match rgba8_image(encoded@) {
            Some((width, height, pixels)) => result matches Ok(t) && t.name@ == name@ && t.width
                == width && t.height == height && t.rgba@ == pixels && t.sampler == sampler
                && t.rgba@.len() >= t.width * t.height * 4,
            None => result matches Err(e) && reports(e, GltfFailure::Image),
        },
{
    match decode_rgba8(encoded) {
        Ok((width, height, rgba)) => Ok(StaticMeshTextureAsset { name, width, height, rgba, sampler }),
        Err(error) => Err(AssetError::GltfImage(error)),
    }
}

/// The base color texture a primitive's material names, if any: its image
/// name (or a default name), its sampler, and where its image comes from.
pub open spec fn base_color_texture_origin(
    doc: JsonValue,
    buffers: Seq<Seq<u8>>,
    primitive: JsonValue,
    has_base_dir: bool,
) -> Result<Option<(Seq<char>, StaticMeshTextureSampler, ImageOrigin)>, GltfFailure> {
    match json_u64(json_get(primitive, "material"@)) {
        None => Ok(None),
        Some(m) => match array_item(doc, "materials"@, m as int) {
            Err(f) => Err(f),
            Ok(material) => {
                let texture_index = match json_get(material, "pbrMetallicRoughness"@) {
                    Some(pbr) => match json_get(pbr, "baseColorTexture"@) {
                        Some(t) => json_u64(json_get(t, "index"@)),
                        None => None,
                    },
                    None => None,
                };
                match texture_index {
                    None => Ok(None),
                    Some(ti) => match array_item(doc, "textures"@, ti as int) {
                        Err(f) => Err(f),
                        Ok(texture) => match texture_sampler(doc, texture) {
                            Err(f) => Err(f),
                            Ok(sampler) => match json_u64(json_get(texture, "source"@)) {
                                None => Err(GltfFailure::MissingField("textures[].source"@)),
                                Some(src) => match array_item(doc, "images"@, src as int) {
                                    Err(f) => Err(f),
                                    Ok(image) => {
                                        let name = match json_str(json_get(image, "name"@)) {
                                            Some(n) => n,
                                            None => "glTF base color texture"@,
                                        };
                                        match image_origin(doc, buffers, image, has_base_dir) {
                                            Err(f) => Err(f),
                                            Ok(origin) => Ok(Some((name, sampler, origin))),
                                        }
                                    },
                                },
                            },
                        },
                    },
                }
            },
        },
    }
}

/// A base color texture before its image is decoded.
#[derive(Debug)]
pub struct TextureSource {
    pub name: String,
    pub sampler: StaticMeshTextureSampler,
    pub image: ImageSource,
}

fn member<'a>(value: &'a JsonValue, key: &str) -> (found: Option<&'a JsonValue>)
    ensures
        match found {
            Some(v) => json_get(*value, key@) == Some(*v),
            None => json_get(*value, key@) is None,
        },
{
    value.get(key)
}

/// Finds the base color texture of a primitive's material and where its
/// image comes from.
pub fn gltf_base_color_texture_source(
    document: &JsonValue,
    buffers: &[Vec<u8>],
    primitive: &JsonValue,
    base_dir_available: bool,
) -> (result: Result<Option<TextureSource>, AssetError>)
    ensures
        match base_color_texture_origin(*document, buffers_view(buffers@), *primitive, base_dir_available) {
            Ok(None) => result matches Ok(None),
            Ok(Some((name, sampler, origin))) => result matches Ok(Some(t)) && t.name@ == name
                && t.sampler == sampler && image_source_matches(t.image, origin),
            Err(f) => result matches Err(e) && reports(e, f),
        },
{
    let material_index = match member(primitive, "material") {
        Some(v) => v.as_u64(),
        None => None,
    };
    let material_index = match material_index {
        Some(m) => m,
        None => return Ok(None),
    };
    let material = match array_item_at(document, "materials", material_index) {
        Ok(m) => m,
        Err(e) => return Err(e),
    };
    let texture_index = match member(material, "pbrMetallicRoughness") {
        Some(pbr) => match member(pbr, "baseColorTexture") {
            Some(t) => match member(t, "index") {
                Some(i) => i.as_u64(),
                None => None,
            },
            None => None,
        },
        None => None,
    };
    let texture_index = match texture_index {
        Some(t) => t,
        None => return Ok(None),
    };
    let texture = match array_item_at(document, "textures", texture_index) {
        Ok(t) => t,
        Err(e) => return Err(e),
    };
    let sampler = match gltf_texture_sampler(document, texture) {
        Ok(s) => s,
        Err(e) => return Err(e),
    };
    let source_index = match member(texture, "source") {
        Some(v) => v.as_u64(),
        None => None,
    };
    let source_index = match source_index {
        Some(s) => s,
        None => return Err(AssetError::MissingGltfField("textures[].source")),
    };
    let image_info = match array_item_at(document, "images", source_index) {
        Ok(i) => i,
        Err(e) => return Err(e),
    };
    let name = match member(image_info, "name") {
        Some(v) => match v.as_str() {
            Some(n) => String::from_str(n),
            None => String::from_str("glTF base color texture"),
        },
        None => String::from_str("glTF base color texture"),
    };
    let image = match resolve_gltf_image(document, buffers, image_info, base_dir_available) {
        Ok(i) => i,
        Err(e) => return Err(e),
    };
    Ok(Some(TextureSource { name, sampler, image }))
}

/// The decoded base color texture of a primitive in a document read without
/// a directory (so with no external image files).
pub open spec fn embedded_base_color_texture(doc: JsonValue, buffers: Seq<Seq<u8>>, primitive: JsonValue) -> Result<
    Option<(Seq<char>, StaticMeshTextureSampler, (u32, u32, Seq<u8>))>,
    GltfFailure,
> {
    match base_color_texture_origin(doc, buffers, primitive, false) {
        Err(f) => Err(f),
        Ok(None) => Ok(None),
        Ok(Some((name, sampler, ImageOrigin::Bytes(bytes)))) => match rgba8_image(bytes) {
            Some(image) => Ok(Some((name, sampler, image))),
            None => Err(GltfFailure::Image),
        },
        Ok(Some((_, _, ImageOrigin::External(_)))) => Err(GltfFailure::Unsupported),
    }
}

/// The decoded base color texture of a primitive, for a document with no
/// directory.
pub fn gltf_primitive_base_color_texture(
    document: &JsonValue,
    buffers: &[Vec<u8>],
    primitive: &JsonValue,
) -> (result: Result<Option<StaticMeshTextureAsset>, AssetError>)
    ensures
        match embedded_base_color_texture(*document, buffers_view(buffers@), *primitive) {
            Ok(None) => result matches Ok(None),
            Ok(Some((name, sampler, (width, height, pixels)))) => result matches Ok(Some(t))
                && t.name@ == name && t.sampler == sampler && t.width == width && t.height == height
                && t.rgba@ == pixels,
            Err(f) => result matches Err(e) && reports(e, f),
        },
{
    let source = match gltf_base_color_texture_source(document, buffers, primitive, false) {
        Ok(Some(source)) => source,
        Ok(None) => return Ok(None),
        Err(e) => return Err(e),
    };
    match source.image {
        ImageSource::Bytes(bytes) => match decode_texture_image(source.name, source.sampler, bytes.as_slice()) {
            Ok(texture) => Ok(Some(texture)),
            Err(e) => Err(e),
        },
        ImageSource::ExternalFile(_) => Err(
            AssetError::UnsupportedGltfFeature(
                String::from_str("external images need a base directory"),
            ),
        ),
    }
}

/// The bytes an optional slice holds.
pub open spec fn bytes_of(b: Option<&[u8]>) -> Option<Seq<u8>> {
    match b {
        Some(s) => Some(s@),
        None => None,
    }
}

/// A buffer URI made of either base64 data prefix glTF allows,
/// `data:application/octet-stream;base64,` or
/// `data:application/gltf-buffer;base64,`, followed by any text embeds its
/// bytes: the buffer's bytes are what that text decodes to, cut to the
/// declared `byteLength`, whatever the buffer's position, directory or GLB
/// chunk.
pub proof fn law_data_uri_buffers_are_embedded(
    buffer: JsonValue,
    payload: Seq<char>,
    index: int,
    has_base_dir: bool,
    has_glb: bool,
    glb: Option<Seq<u8>>,
)
    requires
        json_str(json_get(buffer, "uri"@)) == Some("data:application/octet-stream;base64,"@ + payload)
            || json_str(json_get(buffer, "uri"@)) == Some(
            "data:application/gltf-buffer;base64,"@ + payload,
        ),
    ensures
        buffer_origin(buffer, index, has_base_dir, has_glb) == Ok::<BufferOrigin, GltfFailure>(
            BufferOrigin::Embedded(payload),
        ),
        match (base64_standard_decode(payload), json_u64(json_get(buffer, "byteLength"@))) {
            (Some(bytes), Some(length)) => length <= bytes.len() ==> embedded_buffer(
                buffer,
                index,
                glb,
            ) == Ok::<Seq<u8>, GltfFailure>(bytes.take(length as int)),
            _ => true,
        },
        base64_standard_decode(payload) is None ==> embedded_buffer(buffer, index, glb) == Err::<
            Seq<u8>,
            GltfFailure,
        >(GltfFailure::DecodeBuffer),
{
    reveal_strlit("data:application/octet-stream;base64,");
    reveal_strlit("data:application/gltf-buffer;base64,");
    let octet = "data:application/octet-stream;base64,"@;
    let gltf = "data:application/gltf-buffer;base64,"@;
    let uri = json_str(json_get(buffer, "uri"@))->Some_0;
    if uri == octet + payload {
        assert(uri.take(octet.len() as int) =~= octet);
        assert(uri.skip(octet.len() as int) =~= payload);
    } else {
        assert(uri == gltf + payload);
        assert(uri[17] == 'g');
        assert(octet[17] == 'o');
        assert(uri.take(gltf.len() as int) =~= gltf);
        assert(uri.skip(gltf.len() as int) =~= payload);
        if has_prefix(uri, octet) {
            assert(uri.take(octet.len() as int)[17] == uri[17]);
        }
    }
    assert(buffer_origin(buffer, index, false, glb is Some) == Ok::<BufferOrigin, GltfFailure>(
        BufferOrigin::Embedded(payload),
    ));
}

} // verus!
