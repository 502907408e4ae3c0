//! Reading a glTF document out of a GLB file.

use vstd::prelude::*;
use vstd::utf8::*;

use super::glb::{bytes_view, glb_container, glb_failure_error_matches, parse_glb, trim_chunk_padding};
use super::json::{json_text_value, parse_gltf_document, JsonValue};
use super::types::AssetError;

verus! {

/// Reads a GLB file into its glTF document and its binary chunk: the
/// container is split as `parse_glb` splits it, then the JSON chunk is parsed.
pub fn glb_document(bytes: &[u8]) -> (result: Result<(JsonValue, Option<Vec<u8>>), AssetError>)
    ensures
        match glb_container(bytes@) {
            Err(failure) => result matches Err(e) && glb_failure_error_matches(
                failure,
                bytes@.len(),
                e,
            ),
            Ok((json, bin)) => if !valid_utf8(json) {
                result matches Err(AssetError::InvalidGlb(_))
            } else {
                match json_text_value(decode_utf8(trim_chunk_padding(json))) {
                    Some(document) => result matches Ok((d, b)) && d == document && bytes_view(b)
                        == bin,
                    None => result matches Err(AssetError::GltfJson(_)),
                }
            },
        },
{
    let glb = match parse_glb(bytes) {
        Ok(glb) => glb,
        Err(e) => return Err(e),
    };
    match parse_gltf_document(glb.json_source.as_str()) {
        Ok(document) => Ok((document, glb.bin_chunk)),
        Err(e) => Err(e),
    }
}

} // verus!
