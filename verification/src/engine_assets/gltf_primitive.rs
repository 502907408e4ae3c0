//! Reading what a glTF primitive and its scene nodes hold: number arrays
//! (node transforms, material factors), the base color factor, and the
//! vertex attributes and indices of a triangle primitive, with the checks the
//! importer makes on them.
//!
//! Numbers are handed out as the bit patterns the document gives them: JSON
//! numbers as doubles, accessor components as single-precision numbers.

use vstd::prelude::*;
use vstd::string::StringExecFns;

use super::gltf::{
    array_item, array_item_at, color_attribute, read_accessor_color_bits,
    read_accessor_indices, read_accessor_vec2_bits, read_accessor_vec3_bits, reports,
    vec2_attribute, vec3_attribute, accessor_indices, buffers_view, GltfFailure,
};
use super::gltf_mesh::{
    attribute_counts_match, check_attribute_counts, first_out_of_range, gltf_primitive_accessors,
    primitive_accessors, PrimitiveAccessors,
};
use super::json::{json_get, json_u64, JsonValue};
use super::types::AssetError;
use crate::text::{decimal, push_decimal};

verus! {

/// The bits of the double 0.0.
pub const F64_ZERO_BITS: u64 = 0;

/// The bits of the double 1.0.
pub const F64_ONE_BITS: u64 = 0x3ff0_0000_0000_0000;

/// The double bits of JSON values that are all numbers.
pub open spec fn number_bits(items: Seq<JsonValue>) -> Option<Seq<u64>> {
    if forall|i: int| 0 <= i < items.len() ==> (#[trigger] items[i]) is Number {
        Some(Seq::new(items.len(), |i: int| items[i]->Number_0.f64_bits))
    } else {
        None
    }
}

/// The number array `name` of `count` numbers, `default` when absent. A
/// member that is no array counts as missing; one of another length, or with
/// an item that is no number, as invalid.
pub open spec fn optional_numbers(
    value: JsonValue,
    name: Seq<char>,
    count: nat,
    default: Seq<u64>,
) -> Result<Seq<u64>, GltfFailure> {
    match json_get(value, name) {
        None => Ok(default),
        Some(JsonValue::Array(items)) => if items@.len() != count {
            Err(GltfFailure::InvalidMesh)
        } else {
            match number_bits(items@) {
                Some(bits) => Ok(bits),
                None => Err(GltfFailure::InvalidMesh),
            }
        },
        Some(_) => Err(GltfFailure::MissingField(name)),
    }
}

/// The 16-number matrix `name`, column after column.
pub open spec fn matrix_numbers(value: JsonValue, name: Seq<char>) -> Result<Seq<u64>, GltfFailure> {
    match json_get(value, name) {
        Some(JsonValue::Array(items)) => if items@.len() != 16 {
            Err(GltfFailure::InvalidMesh)
        } else {
            match number_bits(items@) {
                Some(bits) => Ok(bits),
                None => Err(GltfFailure::InvalidMesh),
            }
        },
        _ => Err(GltfFailure::MissingField(name)),
    }
}

/// The double bits of the items, when every item is a number.
fn items_number_bits(items: &Vec<JsonValue>) -> (bits: Option<Vec<u64>>)
    ensures
        match number_bits(items@) {
            Some(b) => bits matches Some(v) && v@ == b,
            None => bits is None,
        },
{
    let mut bits: Vec<u64> = Vec::new();
    let mut i: usize = 0;
    while i < items.len()
        invariant
            i <= items@.len(),
            bits@.len() == i,
            forall|k: int| 0 <= k < i ==> (#[trigger] items@[k]) is Number,
            forall|k: int| 0 <= k < i ==> bits@[k] == items@[k]->Number_0.f64_bits,
        decreases items@.len() - i,
    {
        match &items[i] {
            JsonValue::Number(n) => {
                bits.push(n.f64_bits);
            },
            _ => {
                return None;
            },
        }
        i = i + 1;
    }
    assert(bits@ == Seq::new(items@.len(), |k: int| items@[k]->Number_0.f64_bits));
    Some(bits)
}

/// A copy of a list of bit patterns.
fn copy_bits(bits: &[u64]) -> (copy: Vec<u64>)
    ensures
        copy@ == bits@,
{
    let mut copy: Vec<u64> = Vec::new();
    let mut i: usize = 0;
    while i < bits.len()
        invariant
            i <= bits@.len(),
            copy@ == bits@.take(i as int),
        decreases bits@.len() - i,
    {
        copy.push(bits[i]);
        assert(bits@.take(i + 1) == bits@.take(i as int).push(bits@[i as int]));
        i = i + 1;
    }
    assert(bits@.take(i as int) == bits@);
    copy
}

/// `name` followed by `middle`, a number and `suffix`.
fn named_message(name: &str, middle: &str, n: u64, suffix: &str) -> (text: String)
    ensures
        text@ == name@ + middle@ + decimal(n as nat) + suffix@,
{
    let mut text = String::from_str(name);
    text.append(middle);
    push_decimal(&mut text, n);
    text.append(suffix);
    text
}

/// `name` followed by `suffix`.
fn name_with(name: &str, suffix: &str) -> (text: String)
    ensures
        text@ == name@ + suffix@,
{
    let mut text = String::from_str(name);
    text.append(suffix);
    text
}

/// Reads the number array `name` of `count` numbers, or gives `default`
/// when the value has no such member.
pub fn gltf_optional_number_bits(
    value: &JsonValue,
    name: &'static str,
    count: usize,
    default: &[u64],
) -> (result: Result<Vec<u64>, AssetError>)
    ensures
        match optional_numbers(*value, name@, count as nat, default@) {
            Ok(bits) => result matches Ok(v) && v@ == bits,
            Err(f) => result matches Err(e) && reports(e, f),
        },
{
    match value.get(name) {
        None => Ok(copy_bits(default)),
        Some(JsonValue::Array(items)) => {
            if items.len() != count {
                return Err(
                    AssetError::InvalidGltfMesh(
                        named_message(name, " must contain ", count as u64, " numbers"),
                    ),
                );
            }
            match items_number_bits(items) {
                Some(bits) => Ok(bits),
                None => Err(AssetError::InvalidGltfMesh(name_with(name, " values must be numeric"))),
            }
        },
        Some(_) => Err(AssetError::MissingGltfField(name)),
    }
}

/// Reads the 16-number matrix `name`, column after column.
pub fn gltf_matrix_bits(value: &JsonValue, name: &'static str) -> (result: Result<
    Vec<u64>,
    AssetError,
>)
    ensures
        match matrix_numbers(*value, name@) {
            Ok(bits) => result matches Ok(v) && v@ == bits,
            Err(f) => result matches Err(e) && reports(e, f),
        },
{
    match value.get(name) {
        Some(JsonValue::Array(items)) => {
            if items.len() != 16 {
                return Err(
                    AssetError::InvalidGltfMesh(name_with(name, " matrix must contain 16 numbers")),
                );
            }
            match items_number_bits(items) {
                Some(bits) => Ok(bits),
                None => Err(
                    AssetError::InvalidGltfMesh(name_with(name, " matrix values must be numeric")),
                ),
            }
        },
        _ => Err(AssetError::MissingGltfField(name)),
    }
}

/// How a node places its content: a matrix, or a translation, a rotation
/// quaternion and a scale (the double bits of each number).
#[derive(Debug, Clone, PartialEq, Eq)]
pub enum NodeTransformSource {
    Matrix(Vec<u64>),
    Components { translation: Vec<u64>, rotation: Vec<u64>, scale: Vec<u64> },
}

/// No translation.
pub open spec fn zero_translation() -> Seq<u64> {
    seq![F64_ZERO_BITS, F64_ZERO_BITS, F64_ZERO_BITS]
}

/// The identity rotation (x, y, z, w).
pub open spec fn identity_rotation() -> Seq<u64> {
    seq![F64_ZERO_BITS, F64_ZERO_BITS, F64_ZERO_BITS, F64_ONE_BITS]
}

/// The unit scale.
pub open spec fn unit_scale() -> Seq<u64> {
    seq![F64_ONE_BITS, F64_ONE_BITS, F64_ONE_BITS]
}

/// Reads how a node places its content: its `matrix` when it has one,
/// otherwise its `translation`, `rotation` and `scale`, each defaulting to
/// the identity.
pub fn gltf_node_transform_source(node: &JsonValue) -> (result: Result<
    NodeTransformSource,
    AssetError,
>)
    ensures
        json_get(*node, "matrix"@) is Some ==> match matrix_numbers(*node, "matrix"@) {
            Ok(m) => result matches Ok(NodeTransformSource::Matrix(v)) && v@ == m,
            Err(f) => result matches Err(e) && reports(e, f),
        },
        json_get(*node, "matrix"@) is None ==> match optional_numbers(
            *node,
            "translation"@,
            3,
            zero_translation(),
        ) {
            Err(f) => result matches Err(e) && reports(e, f),
            Ok(t) => match optional_numbers(*node, "rotation"@, 4, identity_rotation()) {
                Err(f) => result matches Err(e) && reports(e, f),
                Ok(r) => match optional_numbers(*node, "scale"@, 3, unit_scale()) {
                    Err(f) => result matches Err(e) && reports(e, f),
                    Ok(s) => result matches Ok(
                        NodeTransformSource::Components { translation, rotation, scale },
                    ) && translation@ == t && rotation@ == r && scale@ == s,
                },
            },
        },
{
    if node.get("matrix").is_some() {
        return match gltf_matrix_bits(node, "matrix") {
            Ok(m) => Ok(NodeTransformSource::Matrix(m)),
            Err(e) => Err(e),
        };
    }
    let zeros: [u64; 3] = [F64_ZERO_BITS, F64_ZERO_BITS, F64_ZERO_BITS];
    let quaternion: [u64; 4] = [F64_ZERO_BITS, F64_ZERO_BITS, F64_ZERO_BITS, F64_ONE_BITS];
    let ones: [u64; 3] = [F64_ONE_BITS, F64_ONE_BITS, F64_ONE_BITS];
    assert(zeros@ == zero_translation());
    assert(quaternion@ == identity_rotation());
    assert(ones@ == unit_scale());
    let translation = match gltf_optional_number_bits(node, "translation", 3, &zeros) {
        Ok(t) => t,
        Err(e) => return Err(e),
    };
    let rotation = match gltf_optional_number_bits(node, "rotation", 4, &quaternion) {
        Ok(r) => r,
        Err(e) => return Err(e),
    };
    let scale = match gltf_optional_number_bits(node, "scale", 3, &ones) {
        Ok(s) => s,
        Err(e) => return Err(e),
    };
    Ok(NodeTransformSource::Components { translation, rotation, scale })
}

/// Opaque white, the base color of a material that sets none.
pub open spec fn white_factor() -> Seq<u64> {
    seq![F64_ONE_BITS, F64_ONE_BITS, F64_ONE_BITS, F64_ONE_BITS]
}

/// The base color factor of a primitive's material: none without a
/// material; white when the material has no metallic-roughness block or the
/// block sets no factor.
pub open spec fn base_color_factor(doc: JsonValue, primitive: JsonValue) -> Result<
    Option<Seq<u64>>,
    GltfFailure,
> {
    match json_u64(json_get(primitive, "material"@)) {
        None => Ok(None),
        Some(m) => match array_item(doc, "materials"@, m as int) {
            Err(f) => Err(f),
            Ok(material) => match json_get(material, "pbrMetallicRoughness"@) {
                None => Ok(Some(white_factor())),
                Some(pbr) => match optional_numbers(pbr, "baseColorFactor"@, 4, white_factor()) {
                    Ok(bits) => Ok(Some(bits)),
                    Err(f) => Err(f),
                },
            },
        },
    }
}

/// Reads the base color factor of a primitive's material.
pub fn gltf_base_color_factor_bits(document: &JsonValue, primitive: &JsonValue) -> (result: Result<
    Option<Vec<u64>>,
    AssetError,
>)
    ensures
        match base_color_factor(*document, *primitive) {
            Ok(Some(bits)) => result matches Ok(Some(v)) && v@ == bits,
            Ok(None) => result matches Ok(None),
            Err(f) => result matches Err(e) && reports(e, f),
        },
{
    let material_index = match primitive.get("material") {
        Some(v) => match v.as_u64() {
            Some(m) => m,
            None => return Ok(None),
        },
        None => return Ok(None),
    };
    let material = match array_item_at(document, "materials", material_index) {
        Ok(m) => m,
        Err(e) => return Err(e),
    };
    let white: [u64; 4] = [F64_ONE_BITS, F64_ONE_BITS, F64_ONE_BITS, F64_ONE_BITS];
    assert(white@ == white_factor());
    match material.get("pbrMetallicRoughness") {
        None => Ok(Some(copy_bits(&white))),
        Some(pbr) => match gltf_optional_number_bits(pbr, "baseColorFactor", 4, &white) {
            Ok(bits) => Ok(Some(bits)),
            Err(e) => Err(e),
        },
    }
}

/// An optional FLOAT VEC3 attribute (normals).
pub open spec fn optional_vec3(doc: JsonValue, buffers: Seq<Seq<u8>>, accessor: Option<u64>) -> Result<
    Option<Seq<u32>>,
    GltfFailure,
> {
    match accessor {
        None => Ok(None),
        Some(a) => match vec3_attribute(doc, buffers, a as int) {
            Ok(words) => Ok(Some(words)),
            Err(f) => Err(f),
        },
    }
}

/// An optional color attribute.
pub open spec fn optional_color(doc: JsonValue, buffers: Seq<Seq<u8>>, accessor: Option<u64>) -> Result<
    Option<Seq<u32>>,
    GltfFailure,
> {
    match accessor {
        None => Ok(None),
        Some(a) => match color_attribute(doc, buffers, a as int) {
            Ok(words) => Ok(Some(words)),
            Err(f) => Err(f),
        },
    }
}

/// An optional FLOAT VEC2 attribute (texture coordinates).
pub open spec fn optional_vec2(doc: JsonValue, buffers: Seq<Seq<u8>>, accessor: Option<u64>) -> Result<
    Option<Seq<u32>>,
    GltfFailure,
> {
    match accessor {
        None => Ok(None),
        Some(a) => match vec2_attribute(doc, buffers, a as int) {
            Ok(words) => Ok(Some(words)),
            Err(f) => Err(f),
        },
    }
}

/// The indices of the whole triangles of an index list.
pub open spec fn whole_triangles(indices: Seq<u16>) -> Seq<u16> {
    indices.take(3 * (indices.len() / 3) as int)
}

/// The number of elements of an attribute with `per` words each, or
/// `default` when absent.
pub open spec fn element_count(words: Option<Seq<u32>>, per: nat, default: nat) -> nat {
    match words {
        Some(w) => w.len() / per,
        None => default,
    }
}

/// The vertex data of a triangle primitive other than its positions
/// (normals, colors, texture coordinates, each absent when the primitive
/// names no accessor for it), with the index list.
pub struct PrimitiveAttributes {
    pub normals: Option<Vec<u32>>,
    pub colors: Option<Vec<u32>>,
    pub texcoords: Option<Vec<u32>>,
    pub indices: Vec<u16>,
}

/// The words of an optional attribute.
pub open spec fn words_of(v: Option<Vec<u32>>) -> Option<Seq<u32>> {
    match v {
        Some(w) => Some(w@),
        None => None,
    }
}

/// The normals, colors, texture coordinates and indices of a primitive with
/// `positions` positions, read in that order, then checked: without normals
/// (which are then generated from the triangles) every index of a whole
/// triangle must name a position; the attribute counts must match.
pub open spec fn primitive_attributes(
    doc: JsonValue,
    buffers: Seq<Seq<u8>>,
    accessors: PrimitiveAccessors,
    positions: nat,
) -> Result<(Option<Seq<u32>>, Option<Seq<u32>>, Option<Seq<u32>>, Seq<u16>), GltfFailure> {
    match optional_vec3(doc, buffers, accessors.normal) {
        Err(f) => Err(f),
        Ok(normals) => match optional_color(doc, buffers, accessors.color) {
            Err(f) => Err(f),
            Ok(colors) => match optional_vec2(doc, buffers, accessors.texcoord) {
                Err(f) => Err(f),
                Ok(texcoords) => match accessor_indices(doc, buffers, accessors.indices as int) {
                    Err(f) => Err(f),
                    Ok(indices) => if normals is None && first_out_of_range(
                        whole_triangles(indices),
                        positions,
                    ) is Some {
                        Err(GltfFailure::InvalidMesh)
                    } else {
                        match attribute_counts_match(
                            positions,
                            element_count(normals, 3, positions),
                            element_count(colors, 3, positions),
                            match texcoords {
                                Some(t) => Some(t.len() / 2),
                                None => None,
                            },
                        ) {
                            Err(f) => Err(f),
                            Ok(()) => Ok((normals, colors, texcoords, indices)),
                        }
                    },
                },
            },
        },
    }
}

fn read_optional(
    document: &JsonValue,
    buffers: &[Vec<u8>],
    accessor: Option<u64>,
    kind: u8,
    label: &str,
) -> (result: Result<Option<Vec<u32>>, AssetError>)
    requires
        kind <= 2,
    ensures
        match (if kind == 0 {
            optional_vec3(*document, buffers_view(buffers@), accessor)
        } else if kind == 1 {
            optional_color(*document, buffers_view(buffers@), accessor)
        } else {
            optional_vec2(*document, buffers_view(buffers@), accessor)
        }) {
            Ok(w) => result matches Ok(v) && words_of(v) == w,
            Err(f) => result matches Err(e) && reports(e, f),
        },
{
    match accessor {
        None => Ok(None),
        Some(a) => {
            let read = if kind == 0 {
                read_accessor_vec3_bits(document, buffers, a, label)
            } else if kind == 1 {
                read_accessor_color_bits(document, buffers, a, label)
            } else {
                read_accessor_vec2_bits(document, buffers, a, label)
            };
            match read {
                Ok(words) => Ok(Some(words)),
                Err(e) => Err(e),
            }
        },
    }
}

/// Finds the first index of a whole triangle that names no position.
fn first_missing_position(indices: &Vec<u16>, positions: usize) -> (missing: Option<u16>)
    ensures
        match first_out_of_range(whole_triangles(indices@), positions as nat) {
            Some(i) => missing == Some(whole_triangles(indices@)[i]),
            None => missing is None,
        },
{
    let whole = indices.len() - indices.len() % 3;
    let ghost triangles = whole_triangles(indices@);
    assert(whole == 3 * (indices@.len() / 3));
    let mut i: usize = 0;
    while i < whole
        invariant
            whole <= indices@.len(),
            triangles == indices@.take(whole as int),
            triangles == whole_triangles(indices@),
            i <= whole,
            forall|j: int| 0 <= j < i ==> triangles[j] < positions,
        decreases whole - i,
    {
        if indices[i] as usize >= positions {
            proof {
                assert(triangles[i as int] == indices@[i as int]);
                let k = choose|k: int|
                    0 <= k < triangles.len() && triangles[k] >= positions && forall|j: int|
                        0 <= j < k ==> triangles[j] < positions;
                assert(0 <= k < triangles.len() && triangles[k] >= positions);
                if k < i {
                    assert(triangles[k] < positions);
                }
                if i < k {
                    assert(triangles[i as int] < positions);
                }
            }
            return Some(indices[i]);
        }
        i = i + 1;
    }
    None
}

/// Reads the normals, colors, texture coordinates and indices of a triangle
/// primitive with `positions` positions, and checks them as the importer
/// does before it builds the vertices.
pub fn gltf_primitive_attributes(
    document: &JsonValue,
    buffers: &[Vec<u8>],
    accessors: &PrimitiveAccessors,
    positions: usize,
) -> (result: Result<PrimitiveAttributes, AssetError>)
    ensures
        match primitive_attributes(*document, buffers_view(buffers@), *accessors, positions as nat) {
            Ok((n, c, t, i)) => result matches Ok(a) && words_of(a.normals) == n && words_of(
                a.colors,
            ) == c && words_of(a.texcoords) == t && a.indices@ == i,
            Err(f) => result matches Err(e) && reports(e, f),
        },
{
    let normals = match read_optional(document, buffers, accessors.normal, 0, "NORMAL") {
        Ok(n) => n,
        Err(e) => return Err(e),
    };
    let colors = match read_optional(document, buffers, accessors.color, 1, "COLOR_0") {
        Ok(c) => c,
        Err(e) => return Err(e),
    };
    let texcoords = match read_optional(document, buffers, accessors.texcoord, 2, "TEXCOORD_0") {
        Ok(t) => t,
        Err(e) => return Err(e),
    };
    let indices = match read_accessor_indices(document, buffers, accessors.indices) {
        Ok(i) => i,
        Err(e) => return Err(e),
    };
    if normals.is_none() {
        if let Some(index) = first_missing_position(&indices, positions) {
            let mut message = String::from_str("index ");
            push_decimal(&mut message, index as u64);
            message.append(" references missing position");
            return Err(AssetError::InvalidGltfMesh(message));
        }
    }
    let normal_count = match &normals {
        Some(n) => n.len() / 3,
        None => positions,
    };
    let color_count = match &colors {
        Some(c) => c.len() / 3,
        None => positions,
    };
    let texcoord_count = match &texcoords {
        Some(t) => Some(t.len() / 2),
        None => None,
    };
    match check_attribute_counts(positions, normal_count, color_count, texcoord_count) {
        Ok(()) => {},
        Err(e) => return Err(e),
    }
    Ok(PrimitiveAttributes { normals, colors, texcoords, indices })
}

/// What a triangle primitive is read for first: its accessors, its
/// positions and its material's base color factor, in that order.
pub open spec fn primitive_header(doc: JsonValue, buffers: Seq<Seq<u8>>, primitive: JsonValue) -> Result<
    (PrimitiveAccessors, Seq<u32>, Option<Seq<u64>>),
    GltfFailure,
> {
    match primitive_accessors(primitive) {
        Err(f) => Err(f),
        Ok(accessors) => match vec3_attribute(doc, buffers, accessors.position as int) {
            Err(f) => Err(f),
            Ok(positions) => match base_color_factor(doc, primitive) {
                Err(f) => Err(f),
                Ok(factor) => Ok((accessors, positions, factor)),
            },
        },
    }
}

/// The accessors, positions (three single-precision words per vertex) and
/// base color factor (double bits) of a triangle primitive.
pub struct PrimitiveHeader {
    pub accessors: PrimitiveAccessors,
    pub positions: Vec<u32>,
    pub base_color_factor: Option<Vec<u64>>,
}

/// The bits of an optional factor.
pub open spec fn bits_of(v: Option<Vec<u64>>) -> Option<Seq<u64>> {
    match v {
        Some(b) => Some(b@),
        None => None,
    }
}

/// Reads the accessors, positions and base color factor of a triangle
/// primitive.
pub fn gltf_primitive_header(document: &JsonValue, buffers: &[Vec<u8>], primitive: &JsonValue) -> (result:
    Result<PrimitiveHeader, AssetError>)
    ensures
        match primitive_header(*document, buffers_view(buffers@), *primitive) {
            Ok((a, p, b)) => result matches Ok(h) && h.accessors == a && h.positions@ == p
                && bits_of(h.base_color_factor) == b,
            Err(f) => result matches Err(e) && reports(e, f),
        },
{
    let accessors = match gltf_primitive_accessors(primitive) {
        Ok(a) => a,
        Err(e) => return Err(e),
    };
    let positions = match read_accessor_vec3_bits(document, buffers, accessors.position, "POSITION") {
        Ok(p) => p,
        Err(e) => return Err(e),
    };
    let base_color_factor = match gltf_base_color_factor_bits(document, primitive) {
        Ok(b) => b,
        Err(e) => return Err(e),
    };
    Ok(PrimitiveHeader { accessors, positions, base_color_factor })
}

} // verus!
