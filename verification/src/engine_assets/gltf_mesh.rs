//! Static mesh rules: which index lists are acceptable, how primitives name
//! their accessors, how imported meshes are named, and how index data is
//! laid out in a buffer.

use vstd::prelude::*;
use vstd::string::{StringExecFns};

use super::gltf::{index_values, le_u16, reports, GltfFailure};
use super::json::{json_array, json_get, json_str, json_u64, JsonValue};
use super::types::AssetError;
use crate::text::{prefixed_number, decimal, two_number_message};

verus! {

/// Why a vertex count and an index list do not form a triangle mesh.
pub enum MeshFailure {
    NoVertices,
    NoIndices,
    PartialTriangle,
    /// The first index that names no vertex.
    IndexOutOfRange(u16),
}

/// The position of the first index that names no vertex.
pub open spec fn first_out_of_range(indices: Seq<u16>, vertex_count: nat) -> Option<int> {
    if exists|i: int| 0 <= i < indices.len() && indices[i] >= vertex_count {
        Some(
            choose|i: int|
                0 <= i < indices.len() && indices[i] >= vertex_count && forall|j: int|
                    0 <= j < i ==> indices[j] < vertex_count,
        )
    } else {
        None
    }
}

/// Whether `vertex_count` vertices and `indices` form a triangle mesh: at
/// least one vertex, at least one whole triangle, and every index naming a
/// vertex; otherwise the first rule broken.
pub open spec fn mesh_check(vertex_count: nat, indices: Seq<u16>) -> Option<MeshFailure> {
    if vertex_count == 0 {
        Some(MeshFailure::NoVertices)
    } else if indices.len() == 0 {
        Some(MeshFailure::NoIndices)
    } else if indices.len() % 3 != 0 {
        Some(MeshFailure::PartialTriangle)
    } else {
        match first_out_of_range(indices, vertex_count) {
            Some(i) => Some(MeshFailure::IndexOutOfRange(indices[i])),
            None => None,
        }
    }
}

/// The message each mesh failure is reported with.
pub open spec fn mesh_failure_message(f: MeshFailure, vertex_count: nat) -> Seq<char> {
    match f {
        MeshFailure::NoVertices => "static mesh must contain at least one vertex"@,
        MeshFailure::NoIndices => "static mesh must contain at least one index"@,
        MeshFailure::PartialTriangle => "static mesh index count must be a multiple of three"@,
        MeshFailure::IndexOutOfRange(index) => "index "@ + decimal(index as nat)
            + " references only "@ + decimal(vertex_count) + " vertices"@,
    }
}

/// Checks that `vertex_count` vertices and `indices` form a triangle mesh,
/// as a static mesh asset must.
pub fn validate_static_mesh(vertex_count: usize, indices: &[u16]) -> (result: Result<(), AssetError>)
    ensures
        match mesh_check(vertex_count as nat, indices@) {
            None => result is Ok,
            Some(f) => result matches Err(AssetError::InvalidGltfMesh(m)) && m@
                == mesh_failure_message(f, vertex_count as nat),
        },
{
    if vertex_count == 0 {
        return Err(
            AssetError::InvalidGltfMesh(String::from_str("static mesh must contain at least one vertex")),
        );
    }
    if indices.len() == 0 {
        return Err(
            AssetError::InvalidGltfMesh(String::from_str("static mesh must contain at least one index")),
        );
    }
    if indices.len() % 3 != 0 {
        return Err(
            AssetError::InvalidGltfMesh(
                String::from_str("static mesh index count must be a multiple of three"),
            ),
        );
    }
    let mut i: usize = 0;
    while i < indices.len()
        invariant
            vertex_count > 0,
            indices@.len() > 0,
            indices@.len() % 3 == 0,
            i <= indices@.len(),
            forall|j: int| 0 <= j < i ==> indices@[j] < vertex_count,
        decreases indices@.len() - i,
    {
        if indices[i] as usize >= vertex_count {
            proof {
                let k = choose|k: int|
                    0 <= k < indices@.len() && indices@[k] >= vertex_count && forall|j: int|
                        0 <= j < k ==> indices@[j] < vertex_count;
                assert(0 <= k < indices@.len() && indices@[k] >= vertex_count);
                if k < i {
                    assert(indices@[k] < vertex_count);
                }
                if i < k {
                    assert(indices@[i as int] < vertex_count);
                }
            }
            return Err(
                AssetError::InvalidGltfMesh(
                    two_number_message(
                        "index ",
                        indices[i] as u64,
                        " references only ",
                        vertex_count as u64,
                    ).concat(" vertices"),
                ),
            );
        }
        i = i + 1;
    }
    Ok(())
}

/// A valid mesh's indices all name existing vertices and come in whole
/// triangles.
pub proof fn law_valid_mesh_indices_name_vertices(vertex_count: nat, indices: Seq<u16>)
    requires
        mesh_check(vertex_count, indices) is None,
    ensures
        vertex_count > 0,
        indices.len() > 0,
        indices.len() % 3 == 0,
        forall|i: int| 0 <= i < indices.len() ==> indices[i] < vertex_count,
{
    if exists|i: int| 0 <= i < indices.len() && indices[i] >= vertex_count {
        let i = choose|i: int| 0 <= i < indices.len() && indices[i] >= vertex_count;
        lemma_least_out_of_range(indices, vertex_count, i);
    }
}

proof fn lemma_least_out_of_range(indices: Seq<u16>, vertex_count: nat, i: int)
    requires
        0 <= i < indices.len(),
        indices[i] >= vertex_count,
    ensures
        exists|k: int|
            0 <= k < indices.len() && indices[k] >= vertex_count && forall|j: int|
                0 <= j < k ==> indices[j] < vertex_count,
    decreases i,
{
    if exists|j: int| 0 <= j < i && indices[j] >= vertex_count {
        let j = choose|j: int| 0 <= j < i && indices[j] >= vertex_count;
        lemma_least_out_of_range(indices, vertex_count, j);
    } else {
        assert(forall|j: int| 0 <= j < i ==> indices[j] < vertex_count);
    }
}

/// The little-endian bytes of 16-bit values, one after another.
pub open spec fn u16_le_bytes(values: Seq<u16>) -> Seq<u8>
    decreases values.len(),
{
    if values.len() == 0 {
        seq![]
    } else {
        let v = values.last();
        u16_le_bytes(values.drop_last()) + seq![(v % 256) as u8, (v / 256) as u8]
    }
}

/// Appends the little-endian bytes of 16-bit values to a buffer.
pub fn write_u16(buffer: &mut Vec<u8>, values: &[u16])
    ensures
        final(buffer)@ == old(buffer)@ + u16_le_bytes(values@),
{
    let mut i: usize = 0;
    proof {
        assert(values@.take(0) == Seq::<u16>::empty());
        assert(buffer@ == old(buffer)@ + u16_le_bytes(values@.take(0)));
    }
    while i < values.len()
        invariant
            i <= values@.len(),
            buffer@ == old(buffer)@ + u16_le_bytes(values@.take(i as int)),
        decreases values@.len() - i,
    {
        let v = values[i];
        buffer.push((v % 256) as u8);
        buffer.push((v / 256) as u8);
        proof {
            assert(values@.take(i + 1).drop_last() == values@.take(i as int));
            assert(values@.take(i + 1).last() == v);
        }
        i = i + 1;
    }
    proof {
        assert(values@.take(values@.len() as int) == values@);
    }
}

proof fn lemma_u16_le_bytes_len(values: Seq<u16>)
    ensures
        u16_le_bytes(values).len() == 2 * values.len(),
    decreases values.len(),
{
    if values.len() > 0 {
        lemma_u16_le_bytes_len(values.drop_last());
    }
}

proof fn lemma_u16_le_bytes_prefix(values: Seq<u16>, n: nat)
    requires
        n <= values.len(),
    ensures
        u16_le_bytes(values).subrange(0, 2 * n as int) == u16_le_bytes(values.take(n as int)),
    decreases values.len(),
{
    lemma_u16_le_bytes_len(values);
    lemma_u16_le_bytes_len(values.take(n as int));
    if n < values.len() {
        lemma_u16_le_bytes_prefix(values.drop_last(), n);
        lemma_u16_le_bytes_len(values.drop_last());
        assert(values.drop_last().take(n as int) == values.take(n as int));
        assert(u16_le_bytes(values).subrange(0, 2 * n as int) == u16_le_bytes(
            values.drop_last(),
        ).subrange(0, 2 * n as int));
    } else {
        assert(values.take(n as int) == values);
    }
}

/// Index data written with `write_u16` reads back, through the 16-bit index
/// accessor reader, as the same indices.
pub proof fn law_written_indices_read_back(values: Seq<u16>)
    ensures
        index_values(u16_le_bytes(values), 0, 2, false, values.len()) == Ok::<
            Seq<u16>,
            GltfFailure,
        >(values),
{
    lemma_read_back_prefix(values, values.len());
    assert(values.take(values.len() as int) == values);
}

proof fn lemma_read_back_prefix(values: Seq<u16>, n: nat)
    requires
        n <= values.len(),
    ensures
        index_values(u16_le_bytes(values), 0, 2, false, n) == Ok::<Seq<u16>, GltfFailure>(
            values.take(n as int),
        ),
    decreases n,
{
    let bytes = u16_le_bytes(values);
    lemma_u16_le_bytes_len(values);
    if n == 0 {
        assert(values.take(0) == Seq::<u16>::empty());
    } else {
        lemma_read_back_prefix(values, (n - 1) as nat);
        let start = 2 * (n - 1);
        lemma_u16_le_bytes_prefix(values, n);
        let prefix_bytes = u16_le_bytes(values.take(n as int));
        let v = values[n - 1];
        assert(values.take(n as int).drop_last() == values.take(n - 1));
        assert(values.take(n as int).last() == v);
        lemma_u16_le_bytes_len(values.take(n - 1));
        assert(prefix_bytes[start] == (v % 256) as u8);
        assert(prefix_bytes[start + 1] == (v / 256) as u8);
        assert(bytes[start] == prefix_bytes[start]);
        assert(bytes[start + 1] == prefix_bytes[start + 1]);
        assert(le_u16(bytes, start) == v);
        assert(values.take(n - 1).push(v) == values.take(n as int));
    }
}

/// The accessors a triangle primitive draws from.
#[derive(Debug, Clone, Copy, PartialEq, Eq)]
pub struct PrimitiveAccessors {
    pub position: u64,
    pub normal: Option<u64>,
    pub color: Option<u64>,
    pub texcoord: Option<u64>,
    pub indices: u64,
}

/// The accessors of a primitive: it needs an attribute object with a
/// POSITION accessor and an index accessor, may name NORMAL, COLOR_0 and
/// TEXCOORD_0 accessors, and must draw triangles (mode 4, the default).
pub open spec fn primitive_accessors(primitive: JsonValue) -> Result<PrimitiveAccessors, GltfFailure> {
    match json_get(primitive, "attributes"@) {
        Some(attributes) => if !(attributes is Object) {
            Err(GltfFailure::MissingField("meshes[].primitives[].attributes"@))
        } else {
            match json_u64(json_get(attributes, "POSITION"@)) {
                None => Err(GltfFailure::MissingField("attributes.POSITION"@)),
                Some(position) => match json_u64(json_get(primitive, "indices"@)) {
                    None => Err(GltfFailure::MissingField("meshes[].primitives[].indices"@)),
                    Some(indices) => match json_u64(json_get(primitive, "mode"@)) {
                        Some(mode) if mode != 4 => Err(GltfFailure::Unsupported),
                        _ => Ok(
                            PrimitiveAccessors {
                                position,
                                normal: json_u64(json_get(attributes, "NORMAL"@)),
                                color: json_u64(json_get(attributes, "COLOR_0"@)),
                                texcoord: json_u64(json_get(attributes, "TEXCOORD_0"@)),
                                indices,
                            },
                        ),
                    },
                },
            }
        },
        None => Err(GltfFailure::MissingField("meshes[].primitives[].attributes"@)),
    }
}

fn optional_u64_member(value: &JsonValue, key: &str) -> (n: Option<u64>)
    ensures
        n == json_u64(json_get(*value, key@)),
{
    match value.get(key) {
        Some(v) => v.as_u64(),
        None => None,
    }
}

/// Reads which accessors a triangle primitive draws from.
pub fn gltf_primitive_accessors(primitive: &JsonValue) -> (result: Result<PrimitiveAccessors, AssetError>)
    ensures
        match primitive_accessors(*primitive) {
            Ok(a) => result matches Ok(b) && b == a,
            Err(f) => result matches Err(e) && reports(e, f),
        },
{
    let attributes = match primitive.get("attributes") {
        Some(a) => a,
        None => return Err(AssetError::MissingGltfField("meshes[].primitives[].attributes")),
    };
    match attributes {
        JsonValue::Object(_) => {},
        _ => return Err(AssetError::MissingGltfField("meshes[].primitives[].attributes")),
    }
    let position = match optional_u64_member(attributes, "POSITION") {
        Some(p) => p,
        None => return Err(AssetError::MissingGltfField("attributes.POSITION")),
    };
    let normal = optional_u64_member(attributes, "NORMAL");
    let color = optional_u64_member(attributes, "COLOR_0");
    let texcoord = optional_u64_member(attributes, "TEXCOORD_0");
    let indices = match optional_u64_member(primitive, "indices") {
        Some(i) => i,
        None => return Err(AssetError::MissingGltfField("meshes[].primitives[].indices")),
    };
    match optional_u64_member(primitive, "mode") {
        Some(mode) => {
            if mode != 4 {
                return Err(
                    AssetError::UnsupportedGltfFeature(
                        String::from_str("only TRIANGLES primitive mode is supported"),
                    ),
                );
            }
        },
        None => {},
    }
    Ok(PrimitiveAccessors { position, normal, color, texcoord, indices })
}

/// Whether the attribute arrays of a primitive line up: texture coordinates
/// (when present) first, then normals and colors, must have one entry per
/// position.
pub open spec fn attribute_counts_match(
    positions: nat,
    normals: nat,
    colors: nat,
    texcoords: Option<nat>,
) -> Result<(), GltfFailure> {
    if texcoords matches Some(t) && t != positions {
        Err(GltfFailure::InvalidMesh)
    } else if normals != positions || colors != positions {
        Err(GltfFailure::InvalidMesh)
    } else {
        Ok(())
    }
}

/// Checks that a primitive's attribute arrays have one entry per position.
pub fn check_attribute_counts(
    positions: usize,
    normals: usize,
    colors: usize,
    texcoords: Option<usize>,
) -> (result: Result<(), AssetError>)
    ensures
        match attribute_counts_match(
            positions as nat,
            normals as nat,
            colors as nat,
            match texcoords {
                Some(t) => Some(t as nat),
                None => None,
            },
        ) {
            Ok(()) => result is Ok,
            Err(f) => result matches Err(e) && reports(e, f),
        },
{
    if let Some(t) = texcoords {
        if t != positions {
            return Err(
                AssetError::InvalidGltfMesh(
                    String::from_str("POSITION and TEXCOORD_0 accessor counts must match"),
                ),
            );
        }
    }
    if normals != positions || colors != positions {
        return Err(
            AssetError::InvalidGltfMesh(
                String::from_str("POSITION, NORMAL, and COLOR_0 accessor counts must match"),
            ),
        );
    }
    Ok(())
}

/// The name of mesh `index`: its `name`, or "glTF Mesh" and its index.
pub open spec fn mesh_name(mesh: JsonValue, index: nat) -> Seq<char> {
    match json_str(json_get(mesh, "name"@)) {
        Some(name) => name,
        None => "glTF Mesh "@ + decimal(index),
    }
}

/// The name of a mesh.
pub fn gltf_mesh_name(mesh: &JsonValue, mesh_index: u64) -> (name: String)
    ensures
        name@ == mesh_name(*mesh, mesh_index as nat),
{
    match mesh.get("name") {
        Some(v) => match v.as_str() {
            Some(n) => String::from_str(n),
            None => prefixed_number("glTF Mesh ", mesh_index),
        },
        None => prefixed_number("glTF Mesh ", mesh_index),
    }
}

/// The name of primitive `index` of a mesh (or node instance) named `base`:
/// the base name alone when the mesh has a single primitive.
pub open spec fn primitive_name(base: Seq<char>, primitive_count: nat, index: nat) -> Seq<char> {
    if primitive_count == 1 {
        base
    } else {
        base + " primitive "@ + decimal(index)
    }
}

/// The name of a primitive.
pub fn gltf_primitive_name(base: &str, primitive_count: usize, primitive_index: usize) -> (name: String)
    ensures
        name@ == primitive_name(base@, primitive_count as nat, primitive_index as nat),
{
    if primitive_count == 1 {
        String::from_str(base)
    } else {
        let mut name = String::from_str(base);
        name.append(" primitive ");
        crate::text::push_decimal(&mut name, primitive_index as u64);
        name
    }
}

/// The primitives of a mesh.
pub fn gltf_mesh_primitives(mesh: &JsonValue) -> (result: Result<&Vec<JsonValue>, AssetError>)
    ensures
        match json_array(json_get(*mesh, "primitives"@)) {
            Some(items) => result matches Ok(v) && v@ == items,
            None => result matches Err(AssetError::MissingGltfField(m)) && m@
                == "meshes[].primitives"@,
        },
{
    match mesh.get("primitives") {
        Some(v) => match v.as_array() {
            Some(items) => Ok(items),
            None => Err(AssetError::MissingGltfField("meshes[].primitives")),
        },
        None => Err(AssetError::MissingGltfField("meshes[].primitives")),
    }
}

/// The node index a `children` entry names; it must be an unsigned integer.
pub fn gltf_child_index(child: &JsonValue) -> (result: Result<u64, AssetError>)
    ensures
        match json_u64(Some(*child)) {
            Some(n) => result == Ok::<u64, AssetError>(n),
            None => result matches Err(AssetError::InvalidGltfMesh(m)) && m@
                == "node child index must be an unsigned integer"@,
        },
{
    match child.as_u64() {
        Some(n) => Ok(n),
        None => Err(
            AssetError::InvalidGltfMesh(String::from_str("node child index must be an unsigned integer")),
        ),
    }
}

/// A triangle primitive draws from the accessors its `attributes` name under
/// glTF's semantic names: positions from `POSITION`, normals from `NORMAL`,
/// vertex colors from `COLOR_0` and texture coordinates from `TEXCOORD_0`
/// (each optional one absent when its member is), and indices from the
/// primitive's `indices`. It is read exactly when the attributes are an
/// object naming a `POSITION` accessor, `indices` names one, and the mode,
/// if given, is TRIANGLES (4).
pub proof fn law_primitive_draws_from_named_accessors(primitive: JsonValue, attributes: JsonValue)
    requires
        json_get(primitive, "attributes"@) == Some(attributes),
    ensures
        primitive_accessors(primitive) is Ok <==> {
            &&& attributes is Object
            &&& json_u64(json_get(attributes, "POSITION"@)) is Some
            &&& json_u64(json_get(primitive, "indices"@)) is Some
            &&& (json_u64(json_get(primitive, "mode"@)) is None || json_u64(
                json_get(primitive, "mode"@),
            ) == Some(4u64))
        },
        primitive_accessors(primitive) matches Ok(a) ==> {
            &&& Some(a.position) == json_u64(json_get(attributes, "POSITION"@))
            &&& a.normal == json_u64(json_get(attributes, "NORMAL"@))
            &&& a.color == json_u64(json_get(attributes, "COLOR_0"@))
            &&& a.texcoord == json_u64(json_get(attributes, "TEXCOORD_0"@))
            &&& Some(a.indices) == json_u64(json_get(primitive, "indices"@))
        },
{
}

} // verus!
