use finalengine::engine_assets::database::AssetDatabase;
use finalengine::engine_assets::glb::parse_glb;
use finalengine::engine_assets::glb_document::glb_document;
use finalengine::engine_assets::gltf::read_accessor_indices;
use finalengine::engine_assets::gltf_material::{
    default_scene_node_indices, gltf_texture_filter, gltf_texture_min_filter,
    gltf_texture_sampler, gltf_texture_wrap,
};
use finalengine::engine_assets::gltf_mesh::{
    gltf_mesh_name, gltf_primitive_name, validate_static_mesh, write_u16,
};
use finalengine::engine_assets::gltf_sources::{
    data_uri_base64_payload, decode_embedded_gltf_buffers, decode_texture_image,
    gltf_primitive_base_color_texture, resolve_gltf_buffer, resolve_gltf_image,
};
use finalengine::engine_assets::json::{parse_gltf_document, JsonMember, JsonNumber, JsonValue};
use finalengine::engine_assets::types::{
    AssetError, AssetId, AssetKind, AssetMetadata, StaticMeshTextureFilter,
    StaticMeshTextureMinFilter, StaticMeshTextureSampler, StaticMeshTextureWrap,
    ASSET_METADATA_SCHEMA_VERSION,
};
use base64::Engine;

fn to_library_json(value: &serde_json::Value) -> JsonValue {
    match value {
        serde_json::Value::Null => JsonValue::Null,
        serde_json::Value::Bool(b) => JsonValue::Bool(*b),
        serde_json::Value::Number(n) => JsonValue::Number(JsonNumber {
            as_u64: n.as_u64(),
            f64_bits: n.as_f64().unwrap_or(0.0).to_bits(),
        }),
        serde_json::Value::String(s) => JsonValue::String(s.clone()),
        serde_json::Value::Array(items) => {
            JsonValue::Array(items.iter().map(to_library_json).collect())
        }
        serde_json::Value::Object(members) => JsonValue::Object(
            members
                .iter()
                .map(|(key, value)| JsonMember {
                    key: key.clone(),
                    value: to_library_json(value),
                })
                .collect(),
        ),
    }
}

fn json(text: &str) -> JsonValue {
    to_library_json(&serde_json::from_str::<serde_json::Value>(text).unwrap())
}

#[test]
fn database_rejects_duplicate_source_paths() {
    let mut database = AssetDatabase::default();
    let first = AssetMetadata::new(AssetKind::Texture, "textures/albedo.png");
    let second = AssetMetadata::new(AssetKind::Texture, "textures/albedo.png");

    database.register(first).unwrap();

    assert!(matches!(
        database.register(second),
        Err(AssetError::DuplicatePath(_))
    ));
}

#[test]
fn database_reads_back_registered_assets() {
    let mut database = AssetDatabase::new();
    assert!(database.is_empty());
    let metadata = AssetMetadata::new(AssetKind::Mesh, "meshes/crate.glb");
    let id = metadata.id;
    assert_eq!(database.register(metadata).unwrap(), id);
    assert_eq!(database.len(), 1);
    assert!(!database.is_empty());
    let found = database.get(id).unwrap();
    assert_eq!(found.source_path, "meshes/crate.glb");
    assert_eq!(found.kind, AssetKind::Mesh);
    assert_eq!(database.find_by_path("meshes/crate.glb").unwrap().id, id);
    assert!(database.find_by_path("meshes/other.glb").is_none());
    assert!(database.get(AssetId::new()).is_none());
}

#[test]
fn database_rejects_duplicate_ids_before_paths() {
    let mut database = AssetDatabase::new();
    let first = AssetMetadata::new(AssetKind::Scene, "scenes/main.ron");
    let mut second = AssetMetadata::new(AssetKind::Scene, "scenes/main.ron");
    second.id = first.id;
    database.register(first).unwrap();
    match database.register(second) {
        Err(AssetError::DuplicateId(id)) => assert_eq!(database.get(id).unwrap().kind, AssetKind::Scene),
        other => panic!("expected a duplicate id, got {other:?}"),
    }
    assert_eq!(database.len(), 1);
}

#[test]
fn new_metadata_has_schema_version_and_no_dependencies() {
    let metadata = AssetMetadata::new(AssetKind::Audio, "audio/theme.ogg");
    assert_eq!(metadata.schema_version, ASSET_METADATA_SCHEMA_VERSION);
    assert_eq!(metadata.schema_version, 1);
    assert_eq!(metadata.source_path, "audio/theme.ogg");
    assert!(metadata.imported_path.is_none());
    assert!(metadata.dependencies.is_empty());
    assert_ne!(metadata.id, AssetMetadata::new(AssetKind::Audio, "audio/theme.ogg").id);
}

#[test]
fn fresh_asset_id_is_a_version_four_uuid() {
    let value = AssetId::new().as_uuid();
    assert_eq!((value >> 76) & 0xf, 4);
    assert_eq!((value >> 62) & 0x3, 2);
    assert_eq!(uuid::Uuid::from_u128(value).get_version_num(), 4);
}

#[test]
fn asset_ids_keep_their_uuid() {
    let id = AssetId::from_uuid(0x1234_5678_9abc_def0_1234_5678_9abc_def0);
    assert_eq!(id.as_uuid(), 0x1234_5678_9abc_def0_1234_5678_9abc_def0);
}

#[test]
fn static_mesh_rejects_out_of_range_indices() {
    let vertex_count = 1;

    assert!(matches!(
        validate_static_mesh(vertex_count, &[0, 1, 2]),
        Err(AssetError::InvalidGltfMesh(_))
    ));
}

#[test]
fn static_mesh_check_reports_each_failure() {
    let message = |result: Result<(), AssetError>| match result {
        Err(AssetError::InvalidGltfMesh(text)) => text,
        other => panic!("expected an invalid mesh, got {other:?}"),
    };
    assert_eq!(
        message(validate_static_mesh(0, &[0, 1, 2])),
        "static mesh must contain at least one vertex"
    );
    assert_eq!(
        message(validate_static_mesh(3, &[])),
        "static mesh must contain at least one index"
    );
    assert_eq!(
        message(validate_static_mesh(3, &[0, 1])),
        "static mesh index count must be a multiple of three"
    );
    assert_eq!(
        message(validate_static_mesh(1, &[0, 1, 2])),
        "index 1 references only 1 vertices"
    );
    assert!(validate_static_mesh(3, &[0, 1, 2, 2, 1, 0]).is_ok());
}

#[test]
fn written_indices_are_little_endian() {
    let mut buffer = vec![9];
    write_u16(&mut buffer, &[0x0102, 0xfffe]);
    assert_eq!(buffer, vec![9, 0x02, 0x01, 0xfe, 0xff]);
}

#[test]
fn gltf_sampler_codes_map_to_settings() {
    assert_eq!(gltf_texture_filter(9728).unwrap(), StaticMeshTextureFilter::Nearest);
    assert_eq!(gltf_texture_filter(9729).unwrap(), StaticMeshTextureFilter::Linear);
    assert_eq!(
        gltf_texture_min_filter(9987).unwrap(),
        StaticMeshTextureMinFilter::LinearMipmapLinear
    );
    assert_eq!(gltf_texture_wrap(33648).unwrap(), StaticMeshTextureWrap::MirroredRepeat);
    match gltf_texture_filter(1) {
        Err(AssetError::UnsupportedGltfFeature(text)) => {
            assert_eq!(text, "unsupported glTF texture filter value 1")
        }
        other => panic!("expected an unsupported feature, got {other:?}"),
    }
}

#[test]
fn texture_sampler_defaults_fill_missing_settings() {
    let document = json(r#"{ "samplers": [ { "magFilter": 9728, "wrapS": 33071 } ] }"#);
    let texture = json(r#"{ "source": 0, "sampler": 0 }"#);
    let sampler = gltf_texture_sampler(&document, &texture).unwrap();
    assert_eq!(sampler.mag_filter, StaticMeshTextureFilter::Nearest);
    assert_eq!(sampler.min_filter, StaticMeshTextureMinFilter::LinearMipmapLinear);
    assert_eq!(sampler.wrap_s, StaticMeshTextureWrap::ClampToEdge);
    assert_eq!(sampler.wrap_t, StaticMeshTextureWrap::Repeat);
}

#[test]
fn default_scene_lists_its_root_nodes() {
    let document = json(r#"{ "scene": 1, "scenes": [ { "nodes": [0] }, { "nodes": [2, 1] } ] }"#);
    assert_eq!(default_scene_node_indices(&document).unwrap(), Some(vec![2, 1]));
    let no_scenes = json(r#"{ "meshes": [] }"#);
    assert_eq!(default_scene_node_indices(&no_scenes).unwrap(), None);
    let out_of_range = json(r#"{ "scene": 4, "scenes": [ { "nodes": [0] } ] }"#);
    match default_scene_node_indices(&out_of_range) {
        Err(AssetError::InvalidGltfMesh(text)) => {
            assert_eq!(text, "default scene index 4 is out of range")
        }
        other => panic!("expected an invalid mesh, got {other:?}"),
    }
}

#[test]
fn data_uri_payload_needs_base64_marker() {
    assert_eq!(
        data_uri_base64_payload("data:application/octet-stream;base64,AAEC"),
        Some("AAEC")
    );
    assert_eq!(data_uri_base64_payload("data:text/plain,hello"), None);
    assert_eq!(data_uri_base64_payload("scene.bin"), None);
}

#[test]
fn embedded_buffer_is_decoded_from_data_uri() {
    let document = json(
        r#"{ "buffers": [ { "byteLength": 3, "uri": "data:application/octet-stream;base64,AAEC" } ] }"#,
    );
    let buffers = decode_embedded_gltf_buffers(&document, None).unwrap();
    assert_eq!(buffers, vec![vec![0, 1, 2]]);
}

#[test]
fn mesh_and_primitive_names_follow_gltf_defaults() {
    let named = json(r#"{ "name": "Crate", "primitives": [] }"#);
    let unnamed = json(r#"{ "primitives": [] }"#);
    assert_eq!(gltf_mesh_name(&named, 0), "Crate");
    assert_eq!(gltf_mesh_name(&unnamed, 7), "glTF Mesh 7");
    assert_eq!(gltf_primitive_name("Crate", 1, 0), "Crate");
    assert_eq!(gltf_primitive_name("Crate", 2, 1), "Crate primitive 1");
}

fn triangle_glb() -> (Vec<u8>, Vec<u8>) {
    let positions = [[0.0_f32, 0.0, 0.0], [1.0, 0.0, 0.0], [0.0, 1.0, 0.0]];
    let indices = [0_u16, 1, 2];
    let mut buffer = Vec::new();
    for position in positions {
        for component in position {
            buffer.extend_from_slice(&component.to_le_bytes());
        }
    }
    let index_offset = buffer.len();
    write_u16(&mut buffer, &indices);
    let json_source = format!(
        r#"{{
  "buffers": [{{ "byteLength": {buffer_len} }}],
  "bufferViews": [
    {{ "buffer": 0, "byteOffset": 0, "byteLength": 36 }},
    {{ "buffer": 0, "byteOffset": {index_offset}, "byteLength": 6 }}
  ],
  "accessors": [
    {{ "bufferView": 0, "componentType": 5126, "count": 3, "type": "VEC3" }},
    {{ "bufferView": 1, "componentType": 5123, "count": 3, "type": "SCALAR" }}
  ],
  "meshes": [ {{ "name": "Binary Triangle", "primitives": [ {{ "attributes": {{ "POSITION": 0 }}, "indices": 1 }} ] }} ]
}}"#,
        buffer_len = buffer.len(),
    );
    let mut json_chunk = json_source.into_bytes();
    while json_chunk.len() % 4 != 0 {
        json_chunk.push(b' ');
    }
    let mut bin_chunk = buffer.clone();
    while bin_chunk.len() % 4 != 0 {
        bin_chunk.push(0);
    }
    let total_length = 12 + 8 + json_chunk.len() + 8 + bin_chunk.len();
    let mut glb = Vec::new();
    glb.extend_from_slice(&0x4654_6C67_u32.to_le_bytes());
    glb.extend_from_slice(&2_u32.to_le_bytes());
    glb.extend_from_slice(&(total_length as u32).to_le_bytes());
    glb.extend_from_slice(&(json_chunk.len() as u32).to_le_bytes());
    glb.extend_from_slice(&0x4E4F_534A_u32.to_le_bytes());
    glb.extend_from_slice(&json_chunk);
    glb.extend_from_slice(&(bin_chunk.len() as u32).to_le_bytes());
    glb.extend_from_slice(&0x004E_4942_u32.to_le_bytes());
    glb.extend_from_slice(&bin_chunk);
    (glb, bin_chunk)
}

#[test]
fn glb_container_yields_triangle_document_and_indices() {
    let (glb, bin_chunk) = triangle_glb();
    let document = parse_glb(&glb).unwrap();
    assert_eq!(document.bin_chunk.as_deref(), Some(bin_chunk.as_slice()));
    assert!(document.json_source.ends_with('}'));
    let gltf = json(&document.json_source);
    let buffers = decode_embedded_gltf_buffers(&gltf, document.bin_chunk.as_deref()).unwrap();
    assert_eq!(buffers[0].len(), 42);
    assert_eq!(read_accessor_indices(&gltf, &buffers, 1).unwrap(), vec![0, 1, 2]);
    let mesh = &to_library_json(
        &serde_json::from_str::<serde_json::Value>(&document.json_source).unwrap()["meshes"][0],
    );
    assert_eq!(gltf_mesh_name(mesh, 0), "Binary Triangle");
}

#[test]
fn glb_header_errors_are_reported() {
    let (glb, _) = triangle_glb();
    let short = parse_glb(&glb[..8]);
    assert!(matches!(short, Err(AssetError::InvalidGlb(ref text)) if text == "file is shorter than the 12-byte GLB header"));
    let mut bad_magic = glb.clone();
    bad_magic[0] = b'x';
    assert!(matches!(parse_glb(&bad_magic), Err(AssetError::InvalidGlb(ref text)) if text == "magic header is not glTF"));
    let mut version_one = glb.clone();
    version_one[4] = 1;
    assert!(matches!(parse_glb(&version_one), Err(AssetError::UnsupportedGltfFeature(ref text)) if text == "GLB version 1 is not supported"));
    let mut longer = glb.clone();
    longer.push(0);
    let expected = format!(
        "declared length {} does not match file length {}",
        glb.len(),
        glb.len() + 1
    );
    assert!(matches!(parse_glb(&longer), Err(AssetError::InvalidGlb(ref text)) if *text == expected));
}

#[test]
fn glb_json_chunk_must_be_utf8() {
    let (mut glb, _) = triangle_glb();
    // The JSON chunk starts after the 12-byte header and its own 8-byte header.
    glb[20] = 0xFF;
    assert!(matches!(
        parse_glb(&glb),
        Err(AssetError::InvalidGlb(ref text)) if text.starts_with("JSON chunk is not UTF-8: ")
    ));
}

use finalengine::engine_assets::gltf_primitive::{
    gltf_base_color_factor_bits, gltf_matrix_bits, gltf_node_transform_source,
    gltf_optional_number_bits, gltf_primitive_attributes, gltf_primitive_header,
    NodeTransformSource, F64_ONE_BITS,
};
use finalengine::engine_assets::gltf_scene::{
    gltf_scene_name, is_binary_gltf_path, SceneWalk, WalkStep,
};

fn bits(values: &[f64]) -> Vec<u64> {
    values.iter().map(|v| v.to_bits()).collect()
}

#[test]
fn number_arrays_are_checked_and_defaulted() {
    let node = json(r#"{ "translation": [1, 2.5, -3], "scale": [1, 2], "rotation": [0, 0, "x", 1], "weights": 4 }"#);
    assert_eq!(
        gltf_optional_number_bits(&node, "translation", 3, &[0, 0, 0]).unwrap(),
        bits(&[1.0, 2.5, -3.0])
    );
    assert_eq!(gltf_optional_number_bits(&node, "offset", 2, &[7, 8]).unwrap(), vec![7, 8]);
    assert!(matches!(
        gltf_optional_number_bits(&node, "scale", 3, &[0, 0, 0]),
        Err(AssetError::InvalidGltfMesh(ref text)) if text == "scale must contain 3 numbers"
    ));
    assert!(matches!(
        gltf_optional_number_bits(&node, "rotation", 4, &[0, 0, 0, 0]),
        Err(AssetError::InvalidGltfMesh(ref text)) if text == "rotation values must be numeric"
    ));
    assert!(matches!(
        gltf_optional_number_bits(&node, "weights", 1, &[0]),
        Err(AssetError::MissingGltfField("weights"))
    ));
    assert!(matches!(
        gltf_matrix_bits(&node, "matrix"),
        Err(AssetError::MissingGltfField("matrix"))
    ));
}

#[test]
fn node_transform_prefers_matrix_over_components() {
    let matrix_node = json(r#"{ "matrix": [1,0,0,0, 0,1,0,0, 0,0,1,0, 5,6,7,1], "translation": [9, 9, 9] }"#);
    match gltf_node_transform_source(&matrix_node).unwrap() {
        NodeTransformSource::Matrix(m) => {
            assert_eq!(m.len(), 16);
            assert_eq!(m[12], 5.0_f64.to_bits());
        }
        other => panic!("expected a matrix, got {other:?}"),
    }
    let short_matrix = json(r#"{ "matrix": [1, 0] }"#);
    assert!(matches!(
        gltf_node_transform_source(&short_matrix),
        Err(AssetError::InvalidGltfMesh(ref text)) if text == "matrix matrix must contain 16 numbers"
    ));
    let plain = json(r#"{ "translation": [1, 2, 3] }"#);
    assert_eq!(
        gltf_node_transform_source(&plain).unwrap(),
        NodeTransformSource::Components {
            translation: bits(&[1.0, 2.0, 3.0]),
            rotation: bits(&[0.0, 0.0, 0.0, 1.0]),
            scale: bits(&[1.0, 1.0, 1.0]),
        }
    );
}

#[test]
fn base_color_factor_defaults_to_white_with_a_material() {
    let document = json(
        r#"{ "materials": [ {}, { "pbrMetallicRoughness": { "baseColorFactor": [0.5, 0.25, 1, 1] } }, { "pbrMetallicRoughness": {} } ] }"#,
    );
    let white = vec![F64_ONE_BITS; 4];
    assert_eq!(F64_ONE_BITS, 1.0_f64.to_bits());
    assert_eq!(gltf_base_color_factor_bits(&document, &json(r#"{}"#)).unwrap(), None);
    assert_eq!(
        gltf_base_color_factor_bits(&document, &json(r#"{ "material": 0 }"#)).unwrap(),
        Some(white.clone())
    );
    assert_eq!(
        gltf_base_color_factor_bits(&document, &json(r#"{ "material": 1 }"#)).unwrap(),
        Some(bits(&[0.5, 0.25, 1.0, 1.0]))
    );
    assert_eq!(
        gltf_base_color_factor_bits(&document, &json(r#"{ "material": 2 }"#)).unwrap(),
        Some(white)
    );
    assert!(matches!(
        gltf_base_color_factor_bits(&document, &json(r#"{ "material": 3 }"#)),
        Err(AssetError::MissingGltfField("materials"))
    ));
}

#[test]
fn triangle_primitive_reads_positions_and_indices() {
    let (glb, _) = triangle_glb();
    let parsed = parse_glb(&glb).unwrap();
    let document = json(&parsed.json_source);
    let buffers = decode_embedded_gltf_buffers(&document, parsed.bin_chunk.as_deref()).unwrap();
    let primitive = json(r#"{ "attributes": { "POSITION": 0 }, "indices": 1 }"#);
    let header = gltf_primitive_header(&document, &buffers, &primitive).unwrap();
    assert_eq!(header.accessors.position, 0);
    assert_eq!(header.base_color_factor, None);
    let positions: Vec<f32> = header.positions.iter().map(|b| f32::from_bits(*b)).collect();
    assert_eq!(positions, vec![0.0, 0.0, 0.0, 1.0, 0.0, 0.0, 0.0, 1.0, 0.0]);
    let attributes = gltf_primitive_attributes(&document, &buffers, &header.accessors, 3).unwrap();
    assert_eq!(attributes.indices, vec![0, 1, 2]);
    assert!(attributes.normals.is_none());
    assert!(attributes.colors.is_none());
    match gltf_primitive_attributes(&document, &buffers, &header.accessors, 2) {
        Err(AssetError::InvalidGltfMesh(text)) => {
            assert_eq!(text, "index 2 references missing position")
        }
        other => panic!("expected a missing position, got {:?}", other.is_ok()),
    }
    let lines = json(r#"{ "attributes": { "POSITION": 0 }, "indices": 1, "mode": 1 }"#);
    assert!(matches!(
        gltf_primitive_header(&document, &buffers, &lines),
        Err(AssetError::UnsupportedGltfFeature(_))
    ));
}

fn walk_all(document: &JsonValue) -> Result<Vec<WalkStep>, AssetError> {
    let mut walk = SceneWalk::start(document)?;
    let mut steps = Vec::new();
    while let Some(step) = walk.next_step(document)? {
        if step != WalkStep::Advance {
            steps.push(step);
        }
    }
    Ok(steps)
}

#[test]
fn scene_walk_visits_nodes_depth_first() {
    let document = json(
        r#"{
  "scenes": [ { "nodes": [0, 3] } ],
  "nodes": [
    { "name": "Root", "children": [1, 2] },
    { "mesh": 0 },
    { "name": "Named", "mesh": 1 },
    { "mesh": 1 }
  ],
  "meshes": [
    { "name": "Box", "primitives": [ {}, {} ] },
    { "primitives": [ {} ] }
  ]
}"#,
    );
    let primitive = |mesh_index: u64, primitive_index: usize, name: &str, depth: usize| {
        WalkStep::Primitive { mesh_index, primitive_index, name: name.to_string(), depth: Some(depth) }
    };
    assert_eq!(
        walk_all(&document).unwrap(),
        vec![
            WalkStep::EnterNode { node_index: 0, depth: 0 },
            WalkStep::EnterNode { node_index: 1, depth: 1 },
            primitive(0, 0, "Box primitive 0", 1),
            primitive(0, 1, "Box primitive 1", 1),
            WalkStep::EnterNode { node_index: 2, depth: 1 },
            primitive(1, 0, "Named", 1),
            WalkStep::EnterNode { node_index: 3, depth: 0 },
            primitive(1, 0, "glTF Mesh 1", 0),
        ]
    );
}

#[test]
fn scene_walk_without_scene_lists_mesh_primitives() {
    let document = json(r#"{ "meshes": [ { "primitives": [ {} ] }, { "name": "Pair", "primitives": [ {}, {} ] } ] }"#);
    assert_eq!(
        walk_all(&document).unwrap(),
        vec![
            WalkStep::Primitive { mesh_index: 0, primitive_index: 0, name: "glTF Mesh 0".to_string(), depth: None },
            WalkStep::Primitive { mesh_index: 1, primitive_index: 0, name: "Pair primitive 0".to_string(), depth: None },
            WalkStep::Primitive { mesh_index: 1, primitive_index: 1, name: "Pair primitive 1".to_string(), depth: None },
        ]
    );
    assert!(matches!(
        SceneWalk::start(&json(r#"{ "asset": {} }"#)),
        Err(AssetError::MissingGltfField("meshes"))
    ));
}

#[test]
fn scene_walk_reports_bad_children_and_missing_nodes() {
    let bad_child = json(r#"{ "scenes": [ { "nodes": [0] } ], "nodes": [ { "children": ["a"] } ] }"#);
    assert!(matches!(
        walk_all(&bad_child),
        Err(AssetError::InvalidGltfMesh(ref text)) if text == "node child index must be an unsigned integer"
    ));
    let missing = json(r#"{ "scenes": [ { "nodes": [4] } ], "nodes": [] }"#);
    assert!(matches!(walk_all(&missing), Err(AssetError::MissingGltfField("nodes"))));
}

#[test]
fn scene_files_are_named_by_stem_and_typed_by_extension() {
    assert!(is_binary_gltf_path("assets/test_scene/Scene.GLB"));
    assert!(!is_binary_gltf_path("assets/test_scene/scene.gltf"));
    assert!(!is_binary_gltf_path("assets/test_scene/glb"));
    assert_eq!(gltf_scene_name("assets/test_scene/scene.glb"), "scene");
    assert_eq!(gltf_scene_name(""), "glTF Test Scene");
}

fn two_texel_png() -> Vec<u8> {
    let pixels = vec![255u8, 0, 0, 255, 0, 0, 255, 128];
    let image = image::RgbaImage::from_raw(2, 1, pixels).unwrap();
    let mut encoded = std::io::Cursor::new(Vec::new());
    image::DynamicImage::ImageRgba8(image)
        .write_to(&mut encoded, image::ImageFormat::Png)
        .unwrap();
    encoded.into_inner()
}

fn nearest_clamped_sampler() -> StaticMeshTextureSampler {
    StaticMeshTextureSampler {
        mag_filter: StaticMeshTextureFilter::Nearest,
        min_filter: StaticMeshTextureMinFilter::Nearest,
        wrap_s: StaticMeshTextureWrap::ClampToEdge,
        wrap_t: StaticMeshTextureWrap::ClampToEdge,
    }
}

#[test]
fn png_texture_decodes_to_rgba_texels() {
    let texture =
        decode_texture_image("albedo".to_string(), nearest_clamped_sampler(), &two_texel_png())
            .unwrap();
    assert_eq!(texture.name, "albedo");
    assert_eq!((texture.width, texture.height), (2, 1));
    assert_eq!(texture.rgba, vec![255, 0, 0, 255, 0, 0, 255, 128]);
    assert_eq!(texture.sampler, nearest_clamped_sampler());
}

#[test]
fn undecodable_texture_bytes_are_an_image_error() {
    let result = decode_texture_image(
        "broken".to_string(),
        nearest_clamped_sampler(),
        &[1, 2, 3, 4],
    );
    assert!(matches!(result, Err(AssetError::GltfImage(_))));
}

#[test]
fn base_color_texture_is_read_from_an_embedded_image() {
    let uri = format!(
        "data:image/png;base64,{}",
        base64::engine::general_purpose::STANDARD.encode(two_texel_png())
    );
    let document = json(&format!(
        r#"{{
            "materials": [ {{ "pbrMetallicRoughness": {{ "baseColorTexture": {{ "index": 0 }} }} }} ],
            "textures": [ {{ "source": 0, "sampler": 0 }} ],
            "samplers": [ {{ "magFilter": 9728, "minFilter": 9728, "wrapS": 33071, "wrapT": 33071 }} ],
            "images": [ {{ "name": "checker", "uri": "{uri}" }} ]
        }}"#
    ));
    let primitive = json(r#"{ "material": 0 }"#);
    let texture = gltf_primitive_base_color_texture(&document, &[], &primitive)
        .unwrap()
        .unwrap();
    assert_eq!(texture.name, "checker");
    assert_eq!((texture.width, texture.height), (2, 1));
    assert_eq!(texture.rgba, vec![255, 0, 0, 255, 0, 0, 255, 128]);
    assert_eq!(texture.sampler, nearest_clamped_sampler());

    let untextured = json(r#"{ "materials": [ { } ] }"#);
    assert!(gltf_primitive_base_color_texture(&untextured, &[], &primitive)
        .unwrap()
        .is_none());
}

#[test]
fn external_uris_are_quoted_in_messages() {
    let image = json(r#"{ "uri": "tex\"ture.png" }"#);
    let result = resolve_gltf_image(&json("{}"), &[], &image, false);
    let expected = format!("image URI {:?} is external, but no base directory is available", "tex\"ture.png");
    assert!(matches!(result, Err(AssetError::UnsupportedGltfFeature(ref text)) if *text == expected));

    let image = json(r#"{ "uri": "http://example.com/a.png" }"#);
    let result = resolve_gltf_image(&json("{}"), &[], &image, true);
    assert!(matches!(result, Err(AssetError::UnsupportedGltfFeature(ref text))
        if text == "image URI \"http://example.com/a.png\" is not a relative file path"));

    let buffer = json(r#"{ "byteLength": 4, "uri": "data\tfile.bin" }"#);
    let result = resolve_gltf_buffer(&buffer, 2, false, None);
    let expected = format!(
        "buffer[2] uses external URI {:?}, but no base directory is available",
        "data\tfile.bin"
    );
    assert!(matches!(result, Err(AssetError::UnsupportedGltfFeature(ref text)) if *text == expected));

    let buffer = json(r#"{ "byteLength": 4, "uri": "c:\\scene.bin" }"#);
    let result = resolve_gltf_buffer(&buffer, 1, true, None);
    let expected = format!("buffer[1] URI {:?} is not a relative file path", "c:\\scene.bin");
    assert!(matches!(result, Err(AssetError::UnsupportedGltfFeature(ref text)) if *text == expected));
}

#[test]
fn database_compares_paths_by_components() {
    let mut database = AssetDatabase::new();
    let first = AssetMetadata::new(AssetKind::Texture, "textures/albedo.png");
    let id = first.id;
    database.register(first).unwrap();
    for same in ["textures//albedo.png", "textures/./albedo.png", "textures/albedo.png/"] {
        assert_eq!(database.find_by_path(same).unwrap().id, id);
        let again = AssetMetadata::new(AssetKind::Texture, same);
        assert!(matches!(
            database.register(again),
            Err(AssetError::DuplicatePath(ref path)) if path == same
        ));
    }
    assert!(database.find_by_path("./textures/albedo.png").is_none());
    assert!(database.find_by_path("textures/../textures/albedo.png").is_none());
    assert_eq!(database.len(), 1);
}

#[test]
fn gltf_text_is_parsed_into_the_document_model() {
    let document = parse_gltf_document(
        r#"{ "asset": { "version": "2.0" }, "scene": 3, "scale": 0.5, "names": ["a", null, true] }"#,
    )
    .unwrap();
    let JsonValue::Object(members) = &document else { panic!("expected an object") };
    let keys: Vec<&str> = members.iter().map(|m| m.key.as_str()).collect();
    assert_eq!(keys, vec!["asset", "names", "scale", "scene"]);
    assert!(matches!(&members[1].value, JsonValue::Array(items)
        if matches!(items.as_slice(), [JsonValue::String(a), JsonValue::Null, JsonValue::Bool(true)] if a == "a")));
    assert!(matches!(&members[2].value, JsonValue::Number(n)
        if n.as_u64.is_none() && n.f64_bits == 0.5f64.to_bits()));
    assert!(matches!(&members[3].value, JsonValue::Number(n)
        if n.as_u64 == Some(3) && n.f64_bits == 3.0f64.to_bits()));
    assert!(matches!(parse_gltf_document("{ \"scene\": "), Err(AssetError::GltfJson(_))));
}

#[test]
fn glb_file_yields_its_parsed_document() {
    let (glb, bin_chunk) = triangle_glb();
    let (document, bin) = glb_document(&glb).unwrap();
    assert_eq!(bin.as_deref(), Some(bin_chunk.as_slice()));
    let buffers = decode_embedded_gltf_buffers(&document, bin.as_deref()).unwrap();
    assert_eq!(read_accessor_indices(&document, &buffers, 1).unwrap(), vec![0, 1, 2]);
    assert!(matches!(glb_document(&glb[..8]), Err(AssetError::InvalidGlb(_))));

    let mut broken = glb.clone();
    broken[20] = b'[';
    broken[21] = b'}';
    assert!(matches!(glb_document(&broken), Err(AssetError::GltfJson(_))));
}

#[test]
fn uri_quoting_matches_debug_for_unprintable_characters() {
    let uri = "tex\u{200b}ture\u{85}.png";
    let image = JsonValue::Object(vec![JsonMember {
        key: "uri".to_string(),
        value: JsonValue::String(uri.to_string()),
    }]);
    let result = resolve_gltf_image(&json("{}"), &[], &image, false);
    let expected = format!("image URI {uri:?} is external, but no base directory is available");
    assert!(matches!(result, Err(AssetError::UnsupportedGltfFeature(ref text)) if *text == expected));
}
