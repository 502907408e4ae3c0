//! Reading glTF documents: field lookups, accessors, buffer views, indices
//! and vertex attribute words.
//!
//! Vertex attributes are IEEE-754 single-precision numbers; this module hands
//! them out as their 32-bit patterns, exactly as the buffer stores them.

use vstd::prelude::*;
use vstd::string::{StringExecFns, StringSliceAdditionalSpecFns};

use super::glb::{le_u32, le_u32_at};
use super::json::{json_array, json_get, json_str, json_u64, str_eq, JsonValue};
use super::types::AssetError;
use crate::text::{prefixed_number, number_message, two_number_message};

verus! {

/// The kind of failure a glTF read reports.
pub enum GltfFailure {
    /// A field the reader needs is absent (or of the wrong JSON type).
    MissingField(Seq<char>),
    /// The document uses a feature the importer does not support.
    Unsupported,
    /// The document's mesh data is inconsistent.
    InvalidMesh,
    /// An embedded base64 payload does not decode.
    DecodeBuffer,
    /// An image does not decode.
    Image,
}

/// Whether `e` is the error that reports `f`.
pub open spec fn reports(e: AssetError, f: GltfFailure) -> bool {
    match f {
        GltfFailure::MissingField(name) => e matches AssetError::MissingGltfField(m) && m@ == name,
        GltfFailure::Unsupported => e is UnsupportedGltfFeature,
        GltfFailure::InvalidMesh => e is InvalidGltfMesh,
        GltfFailure::DecodeBuffer => e is DecodeGltfBuffer,
        GltfFailure::Image => e is GltfImage,
    }
}

/// Item `index` of the top-level array `name`.
pub open spec fn array_item(doc: JsonValue, name: Seq<char>, index: int) -> Result<
    JsonValue,
    GltfFailure,
> {
    match json_array(json_get(doc, name)) {
        Some(items) => if 0 <= index < items.len() {
            Ok(items[index])
        } else {
            Err(GltfFailure::MissingField(name))
        },
        None => Err(GltfFailure::MissingField(name)),
    }
}

/// The unsigned integer field `name`.
pub open spec fn field_u64(v: JsonValue, name: Seq<char>) -> Result<u64, GltfFailure> {
    match json_u64(json_get(v, name)) {
        Some(n) => Ok(n),
        None => Err(GltfFailure::MissingField(name)),
    }
}

/// The unsigned integer field `name`, zero when absent.
pub open spec fn optional_u64(v: JsonValue, name: Seq<char>) -> u64 {
    match json_u64(json_get(v, name)) {
        Some(n) => n,
        None => 0,
    }
}

/// The string field `name`.
pub open spec fn field_str(v: JsonValue, name: Seq<char>) -> Result<Seq<char>, GltfFailure> {
    match json_str(json_get(v, name)) {
        Some(s) => Ok(s),
        None => Err(GltfFailure::MissingField(name)),
    }
}

/// Converts an unsigned 64-bit number to an index, when it fits.
pub fn to_index(n: u64) -> (i: Option<usize>)
    ensures
        match i {
            Some(i) => i == n,
            None => n > usize::MAX,
        },
{
    if n <= usize::MAX as u64 {
        Some(n as usize)
    } else {
        None
    }
}

/// Item `index` of the document's top-level array `name`.
pub fn gltf_array_item<'a>(document: &'a JsonValue, name: &'static str, index: usize) -> (result:
    Result<&'a JsonValue, AssetError>)
    ensures
        match array_item(*document, name@, index as int) {
            Ok(item) => result matches Ok(v) && *v == item,
            Err(f) => result matches Err(e) && reports(e, f),
        },
{
    match document.get(name) {
        Some(value) => match value.as_array() {
            Some(items) => {
                if index < items.len() {
                    return Ok(&items[index]);
                }
            },
            None => {},
        },
        None => {},
    }
    Err(AssetError::MissingGltfField(name))
}

/// Item `index` of the document's top-level array `name`, for an index
/// read from the document.
pub fn array_item_at<'a>(document: &'a JsonValue, name: &'static str, index: u64) -> (result:
    Result<&'a JsonValue, AssetError>)
    ensures
        match array_item(*document, name@, index as int) {
            Ok(item) => result matches Ok(v) && *v == item,
            Err(f) => result matches Err(e) && reports(e, f),
        },
{
    match document.get(name) {
        Some(value) => match value.as_array() {
            Some(items) => {
                if index < items.len() as u64 {
                    return Ok(&items[index as usize]);
                }
            },
            None => {},
        },
        None => {},
    }
    Err(AssetError::MissingGltfField(name))
}

/// The unsigned integer field `name` of a value.
pub fn gltf_u64(value: &JsonValue, name: &'static str) -> (result: Result<u64, AssetError>)
    ensures
        match field_u64(*value, name@) {
            Ok(n) => result == Ok::<u64, AssetError>(n),
            Err(f) => result matches Err(e) && reports(e, f),
        },
{
    match value.get(name) {
        Some(v) => match v.as_u64() {
            Some(n) => Ok(n),
            None => Err(AssetError::MissingGltfField(name)),
        },
        None => Err(AssetError::MissingGltfField(name)),
    }
}

/// The unsigned integer field `name` of a value, zero when absent.
pub fn gltf_optional_u64(value: &JsonValue, name: &'static str) -> (n: u64)
    ensures
        n == optional_u64(*value, name@),
{
    match value.get(name) {
        Some(v) => match v.as_u64() {
            Some(n) => n,
            None => 0,
        },
        None => 0,
    }
}

/// The string field `name` of a value.
pub fn gltf_str<'a>(value: &'a JsonValue, name: &'static str) -> (result: Result<&'a str, AssetError>)
    ensures
        match field_str(*value, name@) {
            Ok(s) => result matches Ok(t) && t@ == s,
            Err(f) => result matches Err(e) && reports(e, f),
        },
{
    match value.get(name) {
        Some(v) => match v.as_str() {
            Some(s) => Ok(s),
            None => Err(AssetError::MissingGltfField(name)),
        },
        None => Err(AssetError::MissingGltfField(name)),
    }
}

/// The byte size of one component of a glTF component type.
pub open spec fn component_type_bytes(component_type: u64) -> Option<nat> {
    if component_type == 5123 {
        Some(2)
    } else if component_type == 5125 {
        Some(4)
    } else if component_type == 5126 {
        Some(4)
    } else {
        None
    }
}

/// The number of components of a glTF accessor type.
pub open spec fn accessor_type_components(accessor_type: Seq<char>) -> Option<nat> {
    if accessor_type == "SCALAR"@ {
        Some(1)
    } else if accessor_type == "VEC2"@ {
        Some(2)
    } else if accessor_type == "VEC3"@ {
        Some(3)
    } else if accessor_type == "VEC4"@ {
        Some(4)
    } else {
        None
    }
}

/// The byte size of one element of an accessor.
pub open spec fn element_size(accessor: JsonValue) -> Result<nat, GltfFailure> {
    match field_u64(accessor, "componentType"@) {
        Err(f) => Err(f),
        Ok(ct) => match component_type_bytes(ct) {
            None => Err(GltfFailure::Unsupported),
            Some(bytes) => match field_str(accessor, "type"@) {
                Err(f) => Err(f),
                Ok(t) => match accessor_type_components(t) {
                    None => Err(GltfFailure::Unsupported),
                    Some(n) => Ok(bytes * n),
                },
            },
        },
    }
}

/// The byte size of one element of an accessor: its component size times
/// its component count.
pub fn accessor_component_size(accessor: &JsonValue) -> (result: Result<usize, AssetError>)
    ensures
        match element_size(*accessor) {
            Ok(n) => result matches Ok(m) && m == n,
            Err(f) => result matches Err(e) && reports(e, f),
        },
{
    let component_type = match gltf_u64(accessor, "componentType") {
        Ok(ct) => ct,
        Err(e) => return Err(e),
    };
    let component_size: usize = if component_type == 5123 {
        2
    } else if component_type == 5125 {
        4
    } else if component_type == 5126 {
        4
    } else {
        return Err(
            AssetError::UnsupportedGltfFeature(
                number_message("component type ", component_type, " is not supported"),
            ),
        );
    };
    let accessor_type = match gltf_str(accessor, "type") {
        Ok(t) => t,
        Err(e) => return Err(e),
    };
    let components: usize = if str_eq(accessor_type, "SCALAR") {
        1
    } else if str_eq(accessor_type, "VEC2") {
        2
    } else if str_eq(accessor_type, "VEC3") {
        3
    } else if str_eq(accessor_type, "VEC4") {
        4
    } else {
        let mut message = String::from_str("accessor type ");
        message.append(accessor_type);
        message.append(" is not supported");
        return Err(AssetError::UnsupportedGltfFeature(message));
    };
    Ok(component_size * components)
}

/// Where an accessor's elements lie: the buffer they are in, the byte offset
/// of the first one, and the distance between consecutive ones.
pub struct BufferSpan {
    pub buffer: int,
    pub offset: int,
    pub stride: int,
}

/// The span of an accessor's elements in the buffers, or why there is none.
pub open spec fn accessor_span(doc: JsonValue, buffers: Seq<Seq<u8>>, accessor: JsonValue) -> Result<
    BufferSpan,
    GltfFailure,
> {
    match field_u64(accessor, "bufferView"@) {
        Err(f) => Err(f),
        Ok(view_index) => match array_item(doc, "bufferViews"@, view_index as int) {
            Err(f) => Err(f),
            Ok(view) => match field_u64(view, "buffer"@) {
                Err(f) => Err(f),
                Ok(buffer_index) => if buffer_index >= buffers.len() {
                    Err(GltfFailure::InvalidMesh)
                } else {
                    let view_offset = optional_u64(view, "byteOffset"@);
                    let accessor_offset = optional_u64(accessor, "byteOffset"@);
                    let stride = optional_u64(view, "byteStride"@);
                    match field_u64(view, "byteLength"@) {
                        Err(f) => Err(f),
                        Ok(view_length) => if view_offset + view_length > usize::MAX
                            || view_offset + view_length > buffers[buffer_index as int].len()
                            || view_offset + accessor_offset > usize::MAX || stride > usize::MAX {
                            Err(GltfFailure::InvalidMesh)
                        } else {
                            match element_size(accessor) {
                                Err(f) => Err(f),
                                Ok(size) => Ok(
                                    BufferSpan {
                                        buffer: buffer_index as int,
                                        offset: view_offset + accessor_offset,
                                        stride: if stride >= size {
                                            stride as int
                                        } else {
                                            size as int
                                        },
                                    },
                                ),
                            }
                        },
                    }
                },
            },
        },
    }
}

/// The views of a list of buffers.
pub open spec fn buffers_view(buffers: Seq<Vec<u8>>) -> Seq<Seq<u8>> {
    buffers.map_values(|b: Vec<u8>| b@)
}

/// Locates an accessor's elements: the buffer they are in, the byte offset
/// of the first one and the stride between them, never smaller than one
/// element. The buffer view must lie inside its buffer.
pub fn accessor_buffer_span<'a>(
    document: &JsonValue,
    buffers: &'a [Vec<u8>],
    accessor: &JsonValue,
) -> (result: Result<(&'a Vec<u8>, usize, usize), AssetError>)
    ensures
        match accessor_span(*document, buffers_view(buffers@), *accessor) {
            Ok(span) => result matches Ok((b, offset, stride)) && 0 <= span.buffer
                < buffers@.len() && *b == buffers@[span.buffer] && offset == span.offset && stride
                == span.stride,
            Err(f) => result matches Err(e) && reports(e, f),
        },
{
    let buffer_view_index = match gltf_u64(accessor, "bufferView") {
        Ok(i) => i,
        Err(e) => return Err(e),
    };
    let buffer_view = match array_item_at(document, "bufferViews", buffer_view_index) {
        Ok(v) => v,
        Err(e) => return Err(e),
    };
    let buffer_index = match gltf_u64(buffer_view, "buffer") {
        Ok(i) => i,
        Err(e) => return Err(e),
    };
    if buffer_index >= buffers.len() as u64 {
        return Err(
            AssetError::InvalidGltfMesh(
                prefixed_number("bufferView references missing buffer ", buffer_index),
            ),
        );
    }
    let buffer = &buffers[buffer_index as usize];
    let view_offset = gltf_optional_u64(buffer_view, "byteOffset");
    let accessor_offset = gltf_optional_u64(accessor, "byteOffset");
    let view_length = match gltf_u64(buffer_view, "byteLength") {
        Ok(n) => n,
        Err(e) => return Err(e),
    };
    let stride = gltf_optional_u64(buffer_view, "byteStride");
    if view_offset > usize::MAX as u64 || view_length > usize::MAX as u64 - view_offset {
        return Err(
            AssetError::InvalidGltfMesh(String::from_str("bufferView byte range overflows usize")),
        );
    }
    let view_end = view_offset + view_length;
    if view_end > buffer.len() as u64 {
        let mut message = two_number_message("bufferView range ", view_offset, "..", view_end);
        message.append(" exceeds buffer length ");
        crate::text::push_decimal(&mut message, buffer.len() as u64);
        return Err(AssetError::InvalidGltfMesh(message));
    }
    if accessor_offset > usize::MAX as u64 - view_offset || stride > usize::MAX as u64 {
        return Err(
            AssetError::InvalidGltfMesh(String::from_str("accessor byte range overflows usize")),
        );
    }
    let component_size = match accessor_component_size(accessor) {
        Ok(n) => n,
        Err(e) => return Err(e),
    };
    let offset = (view_offset + accessor_offset) as usize;
    let stride = if stride >= component_size as u64 {
        stride as usize
    } else {
        component_size
    };
    proof {
        assert(buffers_view(buffers@)[buffer_index as int] == buffers@[buffer_index as int]@);
    }
    Ok((buffer, offset, stride))
}

/// The little-endian unsigned 16-bit number in `b[at..at + 2]`.
pub open spec fn le_u16(b: Seq<u8>, at: int) -> int {
    b[at] + 256 * b[at + 1]
}

/// The first `count` index values stored from `offset` on, `stride` bytes
/// apart, as 32-bit (`wide`) or 16-bit numbers. The first element that lies
/// past the end, or (for 32-bit values) does not fit 16 bits, is reported.
pub open spec fn index_values(bytes: Seq<u8>, offset: int, stride: int, wide: bool, count: nat) -> Result<
    Seq<u16>,
    GltfFailure,
>
    decreases count,
{
    if count == 0 {
        Ok(seq![])
    } else {
        match index_values(bytes, offset, stride, wide, (count - 1) as nat) {
            Err(f) => Err(f),
            Ok(prefix) => {
                let start = offset + (count - 1) * stride;
                let size = if wide {
                    4int
                } else {
                    2int
                };
                if start + size > bytes.len() {
                    Err(GltfFailure::InvalidMesh)
                } else if wide && le_u32(bytes, start) > 65535 {
                    Err(GltfFailure::Unsupported)
                } else if wide {
                    Ok(prefix.push(le_u32(bytes, start) as u16))
                } else {
                    Ok(prefix.push(le_u16(bytes, start) as u16))
                }
            },
        }
    }
}

/// The triangle indices of accessor `accessor_index`: unsigned 16- or 32-bit
/// scalars, each of which must fit 16 bits.
pub open spec fn accessor_indices(doc: JsonValue, buffers: Seq<Seq<u8>>, accessor_index: int) -> Result<
    Seq<u16>,
    GltfFailure,
> {
    match array_item(doc, "accessors"@, accessor_index) {
        Err(f) => Err(f),
        Ok(accessor) => match field_u64(accessor, "componentType"@) {
            Err(f) => Err(f),
            Ok(ct) => match field_str(accessor, "type"@) {
                Err(f) => Err(f),
                Ok(t) => if t != "SCALAR"@ || !(ct == 5123 || ct == 5125) {
                    Err(GltfFailure::Unsupported)
                } else {
                    match field_u64(accessor, "count"@) {
                        Err(f) => Err(f),
                        Ok(count) => match accessor_span(doc, buffers, accessor) {
                            Err(f) => Err(f),
                            Ok(span) => if span.stride < (if ct == 5125 {
                                4int
                            } else {
                                2int
                            }) {
                                Err(GltfFailure::InvalidMesh)
                            } else {
                                index_values(
                                    buffers[span.buffer],
                                    span.offset,
                                    span.stride,
                                    ct == 5125,
                                    count as nat,
                                )
                            },
                        },
                    }
                },
            },
        },
    }
}

/// Once a prefix of the index elements fails, every longer prefix fails
/// the same way.
proof fn lemma_index_values_failure_persists(
    bytes: Seq<u8>,
    offset: int,
    stride: int,
    wide: bool,
    count: nat,
    later: nat,
)
    requires
        index_values(bytes, offset, stride, wide, count) is Err,
        count <= later,
    ensures
        index_values(bytes, offset, stride, wide, later) == index_values(
            bytes,
            offset,
            stride,
            wide,
            count,
        ),
    decreases later - count,
{
    if later > count {
        lemma_index_values_failure_persists(bytes, offset, stride, wide, count, (later - 1) as nat);
    }
}

fn read_index_values(bytes: &Vec<u8>, offset: usize, stride: usize, wide: bool, count: u64) -> (result:
    Result<Vec<u16>, AssetError>)
    requires
        stride >= (if wide {
            4int
        } else {
            2int
        }),
    ensures
        match index_values(bytes@, offset as int, stride as int, wide, count as nat) {
            Ok(v) => result matches Ok(r) && r@ == v,
            Err(f) => result matches Err(e) && reports(e, f),
        },
{
    let size: usize = if wide {
        4
    } else {
        2
    };
    let len = bytes.len();
    let mut indices: Vec<u16> = Vec::new();
    let mut index: u64 = 0;
    while index < count
        invariant
            len == bytes@.len(),
            stride >= size,
            size == (if wide {
                4int
            } else {
                2int
            }),
            index <= count,
            index_values(bytes@, offset as int, stride as int, wide, index as nat) == Ok::<
                Seq<u16>,
                GltfFailure,
            >(indices@),
        decreases count - index,
    {
        let ghost start_spec = offset + index * stride;
        let start = match to_index(index) {
            Some(i) => match i.checked_mul(stride) {
                Some(m) => m.checked_add(offset),
                None => None,
            },
            None => None,
        };
        let fits = match start {
            Some(st) => st <= bytes.len() && bytes.len() - st >= size,
            None => false,
        };
        if !fits {
            proof {
                if index > usize::MAX {
                    assert(index * stride >= index) by (nonlinear_arith)
                        requires
                            stride >= 1,
                            index > usize::MAX,
                    ;
                }
                assert(start_spec + size > bytes@.len());
                lemma_index_values_failure_persists(
                    bytes@,
                    offset as int,
                    stride as int,
                    wide,
                    (index + 1) as nat,
                    count as nat,
                );
            }
            return Err(
                AssetError::InvalidGltfMesh(
                    prefixed_number("index accessor reads past buffer bounds at element ", index),
                ),
            );
        }
        let st = match start {
            Some(st) => st,
            None => 0,
        };
        let value: u16 = if wide {
            let word = le_u32_at(bytes.as_slice(), st);
            if word > 65535 {
                proof {
                    lemma_index_values_failure_persists(
                        bytes@,
                        offset as int,
                        stride as int,
                        wide,
                        (index + 1) as nat,
                        count as nat,
                    );
                }
                return Err(
                    AssetError::UnsupportedGltfFeature(
                        number_message("index value ", word as u64, " exceeds Vulkan UINT16 path"),
                    ),
                );
            }
            word as u16
        } else {
            let b0 = bytes[st] as u16;
            let b1 = bytes[st + 1] as u16;
            b0 + b1 * 256
        };
        indices.push(value);
        index = index + 1;
    }
    Ok(indices)
}

/// Reads the triangle indices of accessor `accessor_index`.
pub fn read_accessor_indices(document: &JsonValue, buffers: &[Vec<u8>], accessor_index: u64) -> (result:
    Result<Vec<u16>, AssetError>)
    ensures
        match accessor_indices(*document, buffers_view(buffers@), accessor_index as int) {
            Ok(v) => result matches Ok(r) && r@ == v,
            Err(f) => result matches Err(e) && reports(e, f),
        },
{
    let accessor = match array_item_at(document, "accessors", accessor_index) {
        Ok(a) => a,
        Err(e) => return Err(e),
    };
    let component_type = match gltf_u64(accessor, "componentType") {
        Ok(ct) => ct,
        Err(e) => return Err(e),
    };
    let accessor_type = match gltf_str(accessor, "type") {
        Ok(t) => t,
        Err(e) => return Err(e),
    };
    if !str_eq(accessor_type, "SCALAR") || !(component_type == 5123 || component_type == 5125) {
        return Err(
            AssetError::UnsupportedGltfFeature(
                String::from_str("indices must be UNSIGNED_SHORT or UNSIGNED_INT SCALAR"),
            ),
        );
    }
    let count = match gltf_u64(accessor, "count") {
        Ok(n) => n,
        Err(e) => return Err(e),
    };
    let (bytes, offset, stride) = match accessor_buffer_span(document, buffers, accessor) {
        Ok(span) => span,
        Err(e) => return Err(e),
    };
    let wide = component_type == 5125;
    let size: usize = if wide {
        4
    } else {
        2
    };
    if stride < size {
        let mut message = number_message("index stride ", stride as u64, " is smaller than element size ");
        crate::text::push_decimal(&mut message, size as u64);
        return Err(AssetError::InvalidGltfMesh(message));
    }
    read_index_values(bytes, offset, stride, wide, count)
}

/// The first `count` attribute elements stored from `offset` on, `stride`
/// bytes apart, each `element_bytes` long, of which the first `words`
/// little-endian 32-bit words are kept. The first element that lies past the
/// end is reported.
pub open spec fn attribute_words(
    bytes: Seq<u8>,
    offset: int,
    stride: int,
    element_bytes: int,
    words: nat,
    count: nat,
) -> Result<Seq<u32>, GltfFailure>
    decreases count,
{
    if count == 0 {
        Ok(seq![])
    } else {
        match attribute_words(bytes, offset, stride, element_bytes, words, (count - 1) as nat) {
            Err(f) => Err(f),
            Ok(prefix) => {
                let start = offset + (count - 1) * stride;
                if start + element_bytes > bytes.len() {
                    Err(GltfFailure::InvalidMesh)
                } else {
                    Ok(prefix + Seq::new(words, |k: int| le_u32(bytes, start + 4 * k) as u32))
                }
            },
        }
    }
}

proof fn lemma_attribute_words_failure_persists(
    bytes: Seq<u8>,
    offset: int,
    stride: int,
    element_bytes: int,
    words: nat,
    count: nat,
    later: nat,
)
    requires
        attribute_words(bytes, offset, stride, element_bytes, words, count) is Err,
        count <= later,
    ensures
        attribute_words(bytes, offset, stride, element_bytes, words, later) == attribute_words(
            bytes,
            offset,
            stride,
            element_bytes,
            words,
            count,
        ),
    decreases later - count,
{
    if later > count {
        lemma_attribute_words_failure_persists(
            bytes,
            offset,
            stride,
            element_bytes,
            words,
            count,
            (later - 1) as nat,
        );
    }
}

fn read_attribute_words(
    bytes: &Vec<u8>,
    offset: usize,
    stride: usize,
    element_bytes: usize,
    words: usize,
    count: u64,
    label: &str,
) -> (result: Result<Vec<u32>, AssetError>)
    requires
        stride >= element_bytes,
        element_bytes >= 1,
        4 * words <= element_bytes,
    ensures
        match attribute_words(
            bytes@,
            offset as int,
            stride as int,
            element_bytes as int,
            words as nat,
            count as nat,
        ) {
            Ok(v) => result matches Ok(r) && r@ == v,
            Err(f) => result matches Err(e) && reports(e, f),
        },
{
    let len = bytes.len();
    let mut values: Vec<u32> = Vec::new();
    let mut index: u64 = 0;
    while index < count
        invariant
            len == bytes@.len(),
            stride >= element_bytes,
            element_bytes >= 1,
            4 * words <= element_bytes,
            index <= count,
            attribute_words(
                bytes@,
                offset as int,
                stride as int,
                element_bytes as int,
                words as nat,
                index as nat,
            ) == Ok::<Seq<u32>, GltfFailure>(values@),
        decreases count - index,
    {
        let ghost start_spec = offset + index * stride;
        let start = match to_index(index) {
            Some(i) => match i.checked_mul(stride) {
                Some(m) => m.checked_add(offset),
                None => None,
            },
            None => None,
        };
        let fits = match start {
            Some(st) => st <= len && len - st >= element_bytes,
            None => false,
        };
        if !fits {
            proof {
                if index > usize::MAX {
                    assert(index * stride >= index) by (nonlinear_arith)
                        requires
                            stride >= 1,
                            index > usize::MAX,
                    ;
                }
                assert(start_spec + element_bytes > bytes@.len());
                lemma_attribute_words_failure_persists(
                    bytes@,
                    offset as int,
                    stride as int,
                    element_bytes as int,
                    words as nat,
                    (index + 1) as nat,
                    count as nat,
                );
            }
            let mut message = String::from_str(label);
            message.append(" accessor reads past buffer bounds at element ");
            crate::text::push_decimal(&mut message, index);
            return Err(AssetError::InvalidGltfMesh(message));
        }
        let st = match start {
            Some(st) => st,
            None => 0,
        };
        let ghost before = values@;
        let mut k: usize = 0;
        while k < words
            invariant
                len == bytes@.len(),
                st == start_spec,
                st + element_bytes <= len,
                4 * words <= element_bytes,
                k <= words,
                values@ == before + Seq::new(k as nat, |j: int| le_u32(bytes@, st + 4 * j) as u32),
            decreases words - k,
        {
            values.push(le_u32_at(bytes.as_slice(), st + 4 * k));
            proof {
                assert(values@ == before + Seq::new((k + 1) as nat, |j: int| le_u32(bytes@, st + 4 * j) as u32));
            }
            k = k + 1;
        }
        index = index + 1;
    }
    Ok(values)
}

/// The float attribute of accessor `accessor_index`, when its component type
/// is FLOAT and its type one of `types`: the first `words` words of each
/// element.
pub open spec fn float_attribute(
    doc: JsonValue,
    buffers: Seq<Seq<u8>>,
    accessor_index: int,
    allowed: spec_fn(Seq<char>) -> bool,
    components: spec_fn(Seq<char>) -> nat,
    words: nat,
) -> Result<Seq<u32>, GltfFailure> {
    match array_item(doc, "accessors"@, accessor_index) {
        Err(f) => Err(f),
        Ok(accessor) => match field_u64(accessor, "componentType"@) {
            Err(f) => Err(f),
            Ok(ct) => match field_str(accessor, "type"@) {
                Err(f) => Err(f),
                Ok(t) => if ct != 5126 || !allowed(t) {
                    Err(GltfFailure::Unsupported)
                } else {
                    match field_u64(accessor, "count"@) {
                        Err(f) => Err(f),
                        Ok(count) => match accessor_span(doc, buffers, accessor) {
                            Err(f) => Err(f),
                            Ok(span) => if span.stride < 4 * components(t) {
                                Err(GltfFailure::InvalidMesh)
                            } else {
                                attribute_words(
                                    buffers[span.buffer],
                                    span.offset,
                                    span.stride,
                                    (4 * components(t)) as int,
                                    words,
                                    count as nat,
                                )
                            },
                        },
                    }
                },
            },
        },
    }
}

/// Positions and normals: FLOAT VEC3, all three components.
pub open spec fn vec3_attribute(doc: JsonValue, buffers: Seq<Seq<u8>>, accessor_index: int) -> Result<
    Seq<u32>,
    GltfFailure,
> {
    float_attribute(doc, buffers, accessor_index, |t: Seq<char>| t == "VEC3"@, |t: Seq<char>| 3, 3)
}

/// Vertex colors: FLOAT VEC3 or VEC4, the red, green and blue components.
pub open spec fn color_attribute(doc: JsonValue, buffers: Seq<Seq<u8>>, accessor_index: int) -> Result<
    Seq<u32>,
    GltfFailure,
> {
    float_attribute(
        doc,
        buffers,
        accessor_index,
        |t: Seq<char>| t == "VEC3"@ || t == "VEC4"@,
        |t: Seq<char>| if t == "VEC4"@ {
            4
        } else {
            3
        },
        3,
    )
}

/// Texture coordinates: FLOAT VEC2, both components.
pub open spec fn vec2_attribute(doc: JsonValue, buffers: Seq<Seq<u8>>, accessor_index: int) -> Result<
    Seq<u32>,
    GltfFailure,
> {
    float_attribute(doc, buffers, accessor_index, |t: Seq<char>| t == "VEC2"@, |t: Seq<char>| 2, 2)
}

/// Reads a FLOAT accessor of the given component count (`components_of`
/// gives it for the accessor's type) and keeps `words` words per element.
fn read_float_accessor(
    document: &JsonValue,
    buffers: &[Vec<u8>],
    count: u64,
    accessor: &JsonValue,
    components: usize,
    words: usize,
    label: &str,
) -> (result: Result<Vec<u32>, AssetError>)
    requires
        1 <= components <= 4,
        words <= components,
    ensures
        match accessor_span(*document, buffers_view(buffers@), *accessor) {
            Err(f) => result matches Err(e) && reports(e, f),
            Ok(span) => if span.stride < 4 * components {
                result matches Err(e) && reports(e, GltfFailure::InvalidMesh)
            } else {
                match attribute_words(
                    buffers_view(buffers@)[span.buffer],
                    span.offset,
                    span.stride,
                    4 * components,
                    words as nat,
                    count as nat,
                ) {
                    Ok(v) => result matches Ok(r) && r@ == v,
                    Err(f) => result matches Err(e) && reports(e, f),
                }
            },
        },
{
    let (bytes, offset, stride) = match accessor_buffer_span(document, buffers, accessor) {
        Ok(span) => span,
        Err(e) => return Err(e),
    };
    let element_bytes = 4 * components;
    if stride < element_bytes {
        let mut message = String::from_str(label);
        message.append(" stride ");
        crate::text::push_decimal(&mut message, stride as u64);
        message.append(" is smaller than element size ");
        crate::text::push_decimal(&mut message, element_bytes as u64);
        return Err(AssetError::InvalidGltfMesh(message));
    }
    proof {
        let span = accessor_span(*document, buffers_view(buffers@), *accessor)->Ok_0;
        assert(buffers_view(buffers@)[span.buffer] == buffers@[span.buffer]@);
    }
    read_attribute_words(bytes, offset, stride, element_bytes, words, count, label)
}

/// Reads the FLOAT VEC3 accessor `accessor_index` (positions and normals), as the
/// bit patterns of its single-precision components, element after element:
/// 3 words per element.
pub fn read_accessor_vec3_bits(
    document: &JsonValue,
    buffers: &[Vec<u8>],
    accessor_index: u64,
    label: &str,
) -> (result: Result<Vec<u32>, AssetError>)
    ensures
        match vec3_attribute(*document, buffers_view(buffers@), accessor_index as int) {
            Ok(v) => result matches Ok(r) && r@ == v,
            Err(f) => result matches Err(e) && reports(e, f),
        },
{
    let accessor = match array_item_at(document, "accessors", accessor_index) {
        Ok(a) => a,
        Err(e) => return Err(e),
    };
    let component_type = match gltf_u64(accessor, "componentType") {
        Ok(ct) => ct,
        Err(e) => return Err(e),
    };
    let accessor_type = match gltf_str(accessor, "type") {
        Ok(t) => t,
        Err(e) => return Err(e),
    };
    if component_type != 5126 || !(str_eq(accessor_type, "VEC3")) {
        let mut message = String::from_str(label);
        message.append(" must be FLOAT VEC3");
        return Err(AssetError::UnsupportedGltfFeature(message));
    }
    let components: usize = 3;
    let count = match gltf_u64(accessor, "count") {
        Ok(n) => n,
        Err(e) => return Err(e),
    };
    read_float_accessor(document, buffers, count, accessor, components, 3, label)
}

/// Reads the FLOAT VEC3 or VEC4 accessor `accessor_index` (vertex colors; the alpha of VEC4 colors is dropped), as the
/// bit patterns of its single-precision components, element after element:
/// 3 words per element.
pub fn read_accessor_color_bits(
    document: &JsonValue,
    buffers: &[Vec<u8>],
    accessor_index: u64,
    label: &str,
) -> (result: Result<Vec<u32>, AssetError>)
    ensures
        match color_attribute(*document, buffers_view(buffers@), accessor_index as int) {
            Ok(v) => result matches Ok(r) && r@ == v,
            Err(f) => result matches Err(e) && reports(e, f),
        },
{
    let accessor = match array_item_at(document, "accessors", accessor_index) {
        Ok(a) => a,
        Err(e) => return Err(e),
    };
    let component_type = match gltf_u64(accessor, "componentType") {
        Ok(ct) => ct,
        Err(e) => return Err(e),
    };
    let accessor_type = match gltf_str(accessor, "type") {
        Ok(t) => t,
        Err(e) => return Err(e),
    };
    if component_type != 5126 || !(str_eq(accessor_type, "VEC3") || str_eq(accessor_type, "VEC4")) {
        let mut message = String::from_str(label);
        message.append(" must be FLOAT VEC3 or FLOAT VEC4");
        return Err(AssetError::UnsupportedGltfFeature(message));
    }
    let components: usize = if str_eq(accessor_type, "VEC4") {
        4
    } else {
        3
    };
    let count = match gltf_u64(accessor, "count") {
        Ok(n) => n,
        Err(e) => return Err(e),
    };
    read_float_accessor(document, buffers, count, accessor, components, 3, label)
}

/// Reads the FLOAT VEC2 accessor `accessor_index` (texture coordinates), as the
/// bit patterns of its single-precision components, element after element:
/// 2 words per element.
pub fn read_accessor_vec2_bits(
    document: &JsonValue,
    buffers: &[Vec<u8>],
    accessor_index: u64,
    label: &str,
) -> (result: Result<Vec<u32>, AssetError>)
    ensures
        match vec2_attribute(*document, buffers_view(buffers@), accessor_index as int) {
            Ok(v) => result matches Ok(r) && r@ == v,
            Err(f) => result matches Err(e) && reports(e, f),
        },
{
    let accessor = match array_item_at(document, "accessors", accessor_index) {
        Ok(a) => a,
        Err(e) => return Err(e),
    };
    let component_type = match gltf_u64(accessor, "componentType") {
        Ok(ct) => ct,
        Err(e) => return Err(e),
    };
    let accessor_type = match gltf_str(accessor, "type") {
        Ok(t) => t,
        Err(e) => return Err(e),
    };
    if component_type != 5126 || !(str_eq(accessor_type, "VEC2")) {
        let mut message = String::from_str(label);
        message.append(" must be FLOAT VEC2");
        return Err(AssetError::UnsupportedGltfFeature(message));
    }
    let components: usize = 2;
    let count = match gltf_u64(accessor, "count") {
        Ok(n) => n,
        Err(e) => return Err(e),
    };
    read_float_accessor(document, buffers, count, accessor, components, 2, label)
}

/// The distance between consecutive elements of an accessor whose element is
/// `size` bytes, in a buffer view `view`: the view's `byteStride` when it
/// declares one at least that large, otherwise the element size (the
/// elements are packed back to back).
pub open spec fn effective_stride(view: JsonValue, size: nat) -> int {
    match json_u64(json_get(view, "byteStride"@)) {
        Some(s) => if s >= size {
            s as int
        } else {
            size as int
        },
        None => size as int,
    }
}

/// Where an accessor's elements lie follows its buffer view: the first
/// element is at the view's `byteOffset` plus the accessor's `byteOffset`
/// (each 0 when absent), in the buffer the view names, and element `k`
/// lies `k` strides further on, the stride being the view's `byteStride`
/// when that is at least the element size.
pub proof fn law_accessor_span_follows_view(
    doc: JsonValue,
    buffers: Seq<Seq<u8>>,
    accessor: JsonValue,
    view: JsonValue,
    size: nat,
)
    requires
        json_u64(json_get(accessor, "bufferView"@)) matches Some(vi) && json_array(
            json_get(doc, "bufferViews"@),
        ) matches Some(views) && vi < views.len() && views[vi as int] == view,
        element_size(accessor) == Ok::<nat, GltfFailure>(size),
        accessor_span(doc, buffers, accessor) is Ok,
    ensures
        ({
            let span = accessor_span(doc, buffers, accessor)->Ok_0;
            &&& json_u64(json_get(view, "buffer"@)) == Some(span.buffer as u64)
            &&& span.offset == (match json_u64(json_get(view, "byteOffset"@)) {
                Some(o) => o as int,
                None => 0,
            }) + (match json_u64(json_get(accessor, "byteOffset"@)) {
                Some(o) => o as int,
                None => 0,
            })
            &&& span.stride == effective_stride(view, size)
            &&& span.stride >= size
        }),
{
}

/// The words `attribute_words` keeps, element by element: word `j` of
/// element `k` is the little-endian word `4 * j` bytes into the element that
/// starts `k` strides after `offset`.
pub proof fn lemma_attribute_words_elements(
    bytes: Seq<u8>,
    offset: int,
    stride: int,
    element_bytes: int,
    words: nat,
    count: nat,
)
    requires
        attribute_words(bytes, offset, stride, element_bytes, words, count) is Ok,
    ensures
        ({
            let ws = attribute_words(bytes, offset, stride, element_bytes, words, count)->Ok_0;
            &&& ws.len() == count * words
            &&& forall|k: int, j: int|
                0 <= k < count && 0 <= j < words ==> #[trigger] ws[k * words + j] == le_u32(
                    bytes,
                    offset + k * stride + 4 * j,
                ) as u32
        }),
    decreases count,
{
    if count > 0 {
        let c = (count - 1) as nat;
        lemma_attribute_words_elements(bytes, offset, stride, element_bytes, words, c);
        let prefix = attribute_words(bytes, offset, stride, element_bytes, words, c)->Ok_0;
        let ws = attribute_words(bytes, offset, stride, element_bytes, words, count)->Ok_0;
        let start = offset + c * stride;
        assert(ws == prefix + Seq::new(words, |i: int| le_u32(bytes, start + 4 * i) as u32));
        assert(count * words == c * words + words) by (nonlinear_arith)
            requires
                c == count - 1,
        ;
        assert forall|k: int, j: int| 0 <= k < count && 0 <= j < words implies #[trigger] ws[k * words
            + j] == le_u32(bytes, offset + k * stride + 4 * j) as u32 by {
            if k < c {
                assert(k * words + j < c * words) by (nonlinear_arith)
                    requires
                        0 <= k < c,
                        0 <= j < words,
                ;
                assert(0 <= k * words) by (nonlinear_arith)
                    requires
                        0 <= k,
                ;
            } else {
                assert(k == c);
                assert(k * words + j - c * words == j);
                assert(k * stride == c * stride);
            }
        }
    }
}

/// The positions (or normals) of a FLOAT VEC3 accessor are read from where
/// its buffer view puts them: word `j` of element `k` is the little-endian
/// word at the view's `byteOffset` plus the accessor's `byteOffset`, plus `k`
/// times the view's stride (its `byteStride` when at least the 12-byte
/// element, otherwise 12), plus `4 * j`, in the buffer the view names.
pub proof fn law_vec3_elements_follow_view_stride(
    doc: JsonValue,
    buffers: Seq<Seq<u8>>,
    accessor_index: int,
    view: JsonValue,
)
    requires
        vec3_attribute(doc, buffers, accessor_index) is Ok,
        array_item(doc, "accessors"@, accessor_index) matches Ok(accessor) && json_u64(
            json_get(accessor, "bufferView"@),
        ) matches Some(vi) && json_array(json_get(doc, "bufferViews"@)) matches Some(views) && vi
            < views.len() && views[vi as int] == view,
    ensures
        ({
            let accessor = array_item(doc, "accessors"@, accessor_index)->Ok_0;
            let ws = vec3_attribute(doc, buffers, accessor_index)->Ok_0;
            let count = json_u64(json_get(accessor, "count"@))->Some_0;
            let buffer = buffers[json_u64(json_get(view, "buffer"@))->Some_0 as int];
            let first = (match json_u64(json_get(view, "byteOffset"@)) {
                Some(o) => o as int,
                None => 0,
            }) + (match json_u64(json_get(accessor, "byteOffset"@)) {
                Some(o) => o as int,
                None => 0,
            });
            &&& ws.len() == count * 3
            &&& forall|k: int, j: int|
                0 <= k < count && 0 <= j < 3 ==> #[trigger] ws[k * 3 + j] == le_u32(
                    buffer,
                    first + k * effective_stride(view, 12) + 4 * j,
                ) as u32
        }),
{
    let accessor = array_item(doc, "accessors"@, accessor_index)->Ok_0;
    let span = accessor_span(doc, buffers, accessor)->Ok_0;
    reveal_strlit("SCALAR");
    reveal_strlit("VEC2");
    reveal_strlit("VEC3");
    assert(json_u64(json_get(accessor, "componentType"@)) == Some(5126u64));
    assert(json_str(json_get(accessor, "type"@)) == Some("VEC3"@));
    assert("VEC3"@.len() != "SCALAR"@.len());
    assert("VEC3"@[3] != "VEC2"@[3]);
    assert(element_size(accessor) == Ok::<nat, GltfFailure>(12));
    law_accessor_span_follows_view(doc, buffers, accessor, view, 12);
    let count = json_u64(json_get(accessor, "count"@))->Some_0;
    lemma_attribute_words_elements(buffers[span.buffer], span.offset, span.stride, 12, 3, count as nat);
}

/// The index values `index_values` reads, element by element: index `k` is
/// the little-endian number (32-bit when `wide`, else 16-bit) that starts
/// `k` strides after `offset`.
pub proof fn law_index_values_follow_stride(bytes: Seq<u8>, offset: int, stride: int, wide: bool, count: nat)
    requires
        index_values(bytes, offset, stride, wide, count) is Ok,
    ensures
        ({
            let values = index_values(bytes, offset, stride, wide, count)->Ok_0;
            &&& values.len() == count
            &&& forall|k: int|
                0 <= k < count ==> #[trigger] values[k] as int == if wide {
                    le_u32(bytes, offset + k * stride)
                } else {
                    le_u16(bytes, offset + k * stride)
                }
        }),
    decreases count,
{
    if count > 0 {
        let c = (count - 1) as nat;
        law_index_values_follow_stride(bytes, offset, stride, wide, c);
        let prefix = index_values(bytes, offset, stride, wide, c)->Ok_0;
        let values = index_values(bytes, offset, stride, wide, count)->Ok_0;
        let start = offset + c * stride;
        assert forall|k: int| 0 <= k < count implies #[trigger] values[k] as int == if wide {
            le_u32(bytes, offset + k * stride)
        } else {
            le_u16(bytes, offset + k * stride)
        } by {
            if k < c {
                assert(values[k] == prefix[k]);
            } else {
                assert(k * stride == c * stride);
                let b0 = bytes[start];
                let b1 = bytes[start + 1];
                if wide {
                    assert(0 <= le_u32(bytes, start) <= 65535);
                } else {
                    assert(0 <= b0 < 256 && 0 <= b1 < 256);
                    assert(0 <= le_u16(bytes, start) <= 65535);
                }
            }
        }
    }
}

} // verus!
