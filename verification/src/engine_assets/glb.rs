//! The GLB container: a 12-byte header followed by length-prefixed chunks,
//! one of which holds the glTF JSON text and one the binary buffer.

use core::str::Utf8Error;
use vstd::prelude::*;
use vstd::string::{StringExecFns, StringSliceAdditionalSpecFns};
use vstd::utf8::*;

use super::types::AssetError;
use crate::text::{decimal, number_message, two_number_message};

verus! {

/// "glTF", the magic number of a GLB file.
pub const GLB_MAGIC: u32 = 0x4654_6C67;

/// The type tag of the JSON chunk.
pub const GLB_JSON_CHUNK: u32 = 0x4E4F_534A;

/// The type tag of the binary buffer chunk.
pub const GLB_BIN_CHUNK: u32 = 0x004E_4942;

/// The little-endian unsigned 32-bit number in `b[at..at + 4]`.
pub open spec fn le_u32(b: Seq<u8>, at: int) -> int {
    b[at] + 256 * b[at + 1] + 65536 * b[at + 2] + 16777216 * b[at + 3]
}

/// Why a byte sequence is not a well-formed GLB container.
#[derive(Debug, Clone, Copy, PartialEq, Eq, Structural)]
pub enum GlbFailure {
    /// Fewer than the 12 header bytes.
    TooShort,
    /// The header does not start with the GLB magic number.
    BadMagic,
    /// The header names a container version other than 2.
    UnsupportedVersion(u32),
    /// The header's total length differs from the byte count.
    LengthMismatch(u32),
    /// A chunk header runs past the end.
    ChunkHeaderPastEnd,
    /// A chunk's payload runs past the end.
    ChunkPayloadPastEnd,
    /// No JSON chunk.
    MissingJsonChunk,
}

/// The chunks from `cursor` on, with the JSON and binary payloads seen so
/// far: a later chunk of the same type replaces an earlier one and chunks of
/// other types are skipped.
pub open spec fn glb_chunks_from(
    bytes: Seq<u8>,
    cursor: int,
    json: Option<Seq<u8>>,
    bin: Option<Seq<u8>>,
) -> Result<(Option<Seq<u8>>, Option<Seq<u8>>), GlbFailure>
    decreases bytes.len() - cursor,
{
    if cursor >= bytes.len() || cursor < 0 {
        Ok((json, bin))
    } else if cursor + 8 > bytes.len() {
        Err(GlbFailure::ChunkHeaderPastEnd)
    } else {
        let start = cursor + 8;
        let end = start + le_u32(bytes, cursor);
        let chunk_type = le_u32(bytes, cursor + 4);
        if end > bytes.len() {
            Err(GlbFailure::ChunkPayloadPastEnd)
        } else {
            let payload = bytes.subrange(start, end);
            glb_chunks_from(
                bytes,
                end,
                if chunk_type == GLB_JSON_CHUNK { Some(payload) } else { json },
                if chunk_type == GLB_BIN_CHUNK { Some(payload) } else { bin },
            )
        }
    }
}

/// The JSON chunk and the optional binary chunk of a GLB container, or why
/// the bytes are not one.
pub open spec fn glb_container(bytes: Seq<u8>) -> Result<(Seq<u8>, Option<Seq<u8>>), GlbFailure> {
    if bytes.len() < 12 {
        Err(GlbFailure::TooShort)
    } else if le_u32(bytes, 0) != GLB_MAGIC {
        Err(GlbFailure::BadMagic)
    } else if le_u32(bytes, 4) != 2 {
        Err(GlbFailure::UnsupportedVersion(le_u32(bytes, 4) as u32))
    } else if le_u32(bytes, 8) != bytes.len() {
        Err(GlbFailure::LengthMismatch(le_u32(bytes, 8) as u32))
    } else {
        match glb_chunks_from(bytes, 12, None, None) {
            Err(failure) => Err(failure),
            Ok((None, _)) => Err(GlbFailure::MissingJsonChunk),
            Ok((Some(json), bin)) => Ok((json, bin)),
        }
    }
}

/// The error a malformed GLB container of `file_length` bytes is reported with.
pub open spec fn glb_failure_error_matches(
    failure: GlbFailure,
    file_length: nat,
    error: AssetError,
) -> bool {
    match failure {
        GlbFailure::TooShort => error matches AssetError::InvalidGlb(m)
            && m@ == "file is shorter than the 12-byte GLB header"@,
        GlbFailure::BadMagic => error matches AssetError::InvalidGlb(m) && m@
            == "magic header is not glTF"@,
        GlbFailure::UnsupportedVersion(v) => error matches AssetError::UnsupportedGltfFeature(m)
            && m@ == "GLB version "@ + decimal(v as nat) + " is not supported"@,
        GlbFailure::LengthMismatch(d) => error matches AssetError::InvalidGlb(m) && m@
            == "declared length "@ + decimal(d as nat) + " does not match file length "@
            + decimal(file_length),
        GlbFailure::ChunkHeaderPastEnd => error matches AssetError::InvalidGlb(m) && m@
            == "chunk header extends past end of file"@,
        GlbFailure::ChunkPayloadPastEnd => error matches AssetError::InvalidGlb(m) && m@
            == "chunk payload extends past end of file"@,
        GlbFailure::MissingJsonChunk => error matches AssetError::InvalidGlb(m) && m@
            == "missing JSON chunk"@,
    }
}

/// `b` without its trailing spaces and NUL bytes, the padding that aligns a
/// GLB chunk to four bytes.
pub open spec fn trim_chunk_padding(b: Seq<u8>) -> Seq<u8>
    decreases b.len(),
{
    if b.len() > 0 && (b.last() == 32 || b.last() == 0) {
        trim_chunk_padding(b.drop_last())
    } else {
        b
    }
}

/// The JSON text and binary buffer of a GLB file.
#[derive(Debug, Clone)]
pub struct GlbDocument {
    pub json_source: String,
    pub bin_chunk: Option<Vec<u8>>,
}

/// Reads the little-endian `u32` at `offset`; a read past the end is refused.
pub fn read_u32_le(bytes: &[u8], offset: usize) -> (result: Result<u32, AssetError>)
    ensures
        match result {
            Ok(v) => offset + 4 <= bytes@.len() && v == le_u32(bytes@, offset as int),
            Err(AssetError::InvalidGlb(m)) => offset + 4 > bytes@.len() && m@
                == "u32 read exceeds GLB byte bounds"@,
            Err(_) => false,
        },
{
    if offset > bytes.len() || bytes.len() - offset < 4 {
        return Err(AssetError::InvalidGlb(String::from_str("u32 read exceeds GLB byte bounds")));
    }
    Ok(le_u32_at(bytes, offset))
}

pub(crate) fn le_u32_at(bytes: &[u8], at: usize) -> (v: u32)
    requires
        at + 4 <= bytes@.len(),
    ensures
        v == le_u32(bytes@, at as int),
{
    let b0 = bytes[at] as u32;
    let b1 = bytes[at + 1] as u32;
    let b2 = bytes[at + 2] as u32;
    let b3 = bytes[at + 3] as u32;
    b0 + b1 * 256 + b2 * 65536 + b3 * 16777216
}

#[verifier::external_type_specification]
#[verifier::external_body]
pub struct ExUtf8Error(Utf8Error);

/// Checks UTF-8 with `std::str::from_utf8`: it succeeds exactly on valid
/// UTF-8 and then views the same bytes as text.
#[verifier::external_body]
fn str_from_utf8(bytes: &[u8]) -> (result: Result<&str, Utf8Error>)
    ensures
        result is Ok <==> valid_utf8(bytes@),
        result matches Ok(s) ==> s.spec_bytes() == bytes@,
{
    core::str::from_utf8(bytes)
}

/// The length of `b` without its trailing chunk padding.
fn padded_text_length(b: &[u8]) -> (n: usize)
    ensures
        n <= b@.len(),
        b@.subrange(0, n as int) == trim_chunk_padding(b@),
{
    let mut n = b.len();
    proof {
        assert(b@.subrange(0, n as int) == b@);
    }
    while n > 0 && (b[n - 1] == 32 || b[n - 1] == 0)
        invariant
            n <= b@.len(),
            trim_chunk_padding(b@.subrange(0, n as int)) == trim_chunk_padding(b@),
        decreases n,
    {
        proof {
            assert(b@.subrange(0, n as int).drop_last() == b@.subrange(0, n - 1));
        }
        n = n - 1;
    }
    n
}

/// The trimmed text ends where a character starts: the byte after it, if
/// any, is padding, which is no continuation byte.
proof fn lemma_trim_is_char_boundary(b: Seq<u8>)
    requires
        valid_utf8(b),
    ensures
        trim_chunk_padding(b).len() <= b.len(),
        trim_chunk_padding(b) == b.subrange(0, trim_chunk_padding(b).len() as int),
        is_char_boundary(b, trim_chunk_padding(b).len() as int),
    decreases b.len(),
{
    if b.len() > 0 && (b.last() == 32 || b.last() == 0) {
        let shorter = b.drop_last();
        lemma_trim_prefix(b);
        let k = trim_chunk_padding(b).len() as int;
        if k < b.len() {
            lemma_trim_next_is_padding(b);
            is_char_boundary_iff_not_is_continuation_byte(b, k);
        } else {
            is_char_boundary_start_end_of_seq(b);
        }
    } else {
        is_char_boundary_start_end_of_seq(b);
    }
}

proof fn lemma_trim_prefix(b: Seq<u8>)
    ensures
        trim_chunk_padding(b).len() <= b.len(),
        trim_chunk_padding(b) == b.subrange(0, trim_chunk_padding(b).len() as int),
    decreases b.len(),
{
    if b.len() > 0 && (b.last() == 32 || b.last() == 0) {
        lemma_trim_prefix(b.drop_last());
        assert(b.drop_last().subrange(0, trim_chunk_padding(b).len() as int) == b.subrange(
            0,
            trim_chunk_padding(b).len() as int,
        ));
    } else {
        assert(b.subrange(0, b.len() as int) == b);
    }
}

/// Every byte that trimming removes is padding.
proof fn lemma_trim_next_is_padding(b: Seq<u8>)
    ensures
        forall|i: int|
            trim_chunk_padding(b).len() <= i < b.len() ==> (#[trigger] b[i] == 32 || b[i] == 0),
    decreases b.len(),
{
    lemma_trim_prefix(b);
    if b.len() > 0 && (b.last() == 32 || b.last() == 0) {
        lemma_trim_next_is_padding(b.drop_last());
        lemma_trim_prefix(b.drop_last());
        assert forall|i: int| trim_chunk_padding(b).len() <= i < b.len() implies (#[trigger] b[i]
            == 32 || b[i] == 0) by {
            if i < b.len() - 1 {
                assert(b[i] == b.drop_last()[i]);
            }
        }
    }
}

/// The bytes an optional buffer holds.
pub open spec fn bytes_view(b: Option<Vec<u8>>) -> Option<Seq<u8>> {
    match b {
        Some(v) => Some(v@),
        None => None,
    }
}

/// Splits the bytes of a GLB file into its JSON and binary chunks.
fn split_glb_chunks(bytes: &[u8]) -> (result: Result<(Vec<u8>, Option<Vec<u8>>), AssetError>)
    ensures
        match glb_container(bytes@) {
            Err(failure) => result matches Err(e) && glb_failure_error_matches(
                failure,
                bytes@.len(),
                e,
            ),
            Ok((json, bin)) => result matches Ok((j, b)) && j@ == json && match bin {
                Some(x) => b matches Some(v) && v@ == x,
                None => b is None,
            },
        },
{
    let len = bytes.len();
    if len < 12 {
        return Err(
            AssetError::InvalidGlb(String::from_str("file is shorter than the 12-byte GLB header")),
        );
    }
    let magic = le_u32_at(bytes, 0);
    let version = le_u32_at(bytes, 4);
    let declared_length = le_u32_at(bytes, 8);
    if magic != GLB_MAGIC {
        return Err(AssetError::InvalidGlb(String::from_str("magic header is not glTF")));
    }
    if version != 2 {
        return Err(
            AssetError::UnsupportedGltfFeature(
                number_message("GLB version ", version as u64, " is not supported"),
            ),
        );
    }
    if declared_length as usize != len {
        return Err(
            AssetError::InvalidGlb(
                two_number_message(
                    "declared length ",
                    declared_length as u64,
                    " does not match file length ",
                    len as u64,
                ),
            ),
        );
    }
    let mut cursor: usize = 12;
    let mut json_chunk: Option<Vec<u8>> = None;
    let mut bin_chunk: Option<Vec<u8>> = None;
    while cursor < len
        invariant
            len == bytes@.len(),
            12 <= cursor <= len,
            le_u32(bytes@, 0) == GLB_MAGIC,
            le_u32(bytes@, 4) == 2,
            le_u32(bytes@, 8) == len,
            glb_chunks_from(bytes@, cursor as int, bytes_view(json_chunk), bytes_view(bin_chunk))
                == glb_chunks_from(bytes@, 12, None, None),
        decreases len - cursor,
    {
        if len - cursor < 8 {
            return Err(AssetError::InvalidGlb(String::from_str("chunk header extends past end of file")));
        }
        let chunk_length = le_u32_at(bytes, cursor) as usize;
        let chunk_type = le_u32_at(bytes, cursor + 4);
        let start = cursor + 8;
        if chunk_length > len - start {
            return Err(AssetError::InvalidGlb(String::from_str("chunk payload extends past end of file")));
        }
        let end = start + chunk_length;
        if chunk_type == GLB_JSON_CHUNK {
            json_chunk = Some(vstd::slice::slice_to_vec(&bytes[start..end]));
        } else if chunk_type == GLB_BIN_CHUNK {
            bin_chunk = Some(vstd::slice::slice_to_vec(&bytes[start..end]));
        }
        cursor = end;
    }
    match json_chunk {
        None => Err(AssetError::InvalidGlb(String::from_str("missing JSON chunk"))),
        Some(json) => Ok((json, bin_chunk)),
    }
}

/// Splits a GLB file into its JSON text, without chunk padding, and its
/// binary chunk.
pub fn parse_glb(bytes: &[u8]) -> (result: Result<GlbDocument, AssetError>)
    ensures
        match glb_container(bytes@) {
            Err(failure) => result matches Err(e) && glb_failure_error_matches(
                failure,
                bytes@.len(),
                e,
            ),
            Ok((json, bin)) => match result {
                Ok(doc) => {
                    &&& valid_utf8(json)
                    &&& doc.json_source@ == decode_utf8(trim_chunk_padding(json))
                    &&& encode_utf8(doc.json_source@) == trim_chunk_padding(json)
                    &&& match bin {
                        Some(b) => doc.bin_chunk matches Some(v) && v@ == b,
                        None => doc.bin_chunk is None,
                    }
                },
                Err(AssetError::InvalidGlb(_)) => !valid_utf8(json),
                Err(_) => false,
            },
        },
{
    let (json, bin) = match split_glb_chunks(bytes) {
        Ok(chunks) => chunks,
        Err(e) => return Err(e),
    };
    match str_from_utf8(json.as_slice()) {
        Ok(_) => {},
        Err(error) => {
            let mut message = String::from_str("JSON chunk is not UTF-8: ");
            let detail = error.to_string();
            message.append(detail.as_str());
            return Err(AssetError::InvalidGlb(message));
        },
    }
    let trimmed_len = padded_text_length(json.as_slice());
    proof {
        lemma_trim_is_char_boundary(json@);
        valid_utf8_split(json@, trimmed_len as int);
    }
    let trimmed = &json.as_slice()[0..trimmed_len];
    let source = match str_from_utf8(trimmed) {
        Ok(source) => source,
        Err(_) => {
            proof {
                assert(trimmed@ == json@.subrange(0, trimmed_len as int));
            }
            return Err(AssetError::InvalidGlb(String::from_str("JSON chunk is not UTF-8")));
        },
    };
    proof {
        encode_utf8_decode_utf8(source@);
    }
    Ok(GlbDocument { json_source: source.to_owned(), bin_chunk: bin })
}

/// The four little-endian bytes of `n` (< 2^32).
pub open spec fn le_bytes(n: nat) -> Seq<u8> {
    seq![
        (n % 256) as u8,
        ((n / 256) % 256) as u8,
        ((n / 65536) % 256) as u8,
        ((n / 16777216) % 256) as u8,
    ]
}

/// A GLB chunk: its payload length, its type tag, then the payload.
pub open spec fn glb_chunk(chunk_type: u32, payload: Seq<u8>) -> Seq<u8> {
    le_bytes(payload.len()) + le_bytes(chunk_type as nat) + payload
}

/// The GLB file holding a JSON chunk and a binary chunk, in that order.
pub open spec fn glb_file(json: Seq<u8>, bin: Seq<u8>) -> Seq<u8> {
    let total = 28 + json.len() + bin.len();
    le_bytes(GLB_MAGIC as nat) + le_bytes(2) + le_bytes(total) + glb_chunk(GLB_JSON_CHUNK, json)
        + glb_chunk(GLB_BIN_CHUNK, bin)
}

proof fn lemma_le_u32_of_le_bytes(a: Seq<u8>, n: nat, c: Seq<u8>)
    requires
        n < 0x1_0000_0000,
    ensures
        le_u32(a + le_bytes(n) + c, a.len() as int) == n,
{
    let f = a + le_bytes(n) + c;
    let at = a.len() as int;
    assert(f[at] == le_bytes(n)[0]);
    assert(f[at + 1] == le_bytes(n)[1]);
    assert(f[at + 2] == le_bytes(n)[2]);
    assert(f[at + 3] == le_bytes(n)[3]);
    assert(n % 256 + 256 * ((n / 256) % 256) + 65536 * ((n / 65536) % 256) + 16777216 * ((n
        / 16777216) % 256) == n) by (nonlinear_arith)
        requires
            n < 0x1_0000_0000,
    ;
}

/// Reading a chunk that sits at `prefix.len()` records its payload and moves
/// past it.
proof fn lemma_read_one_chunk(
    prefix: Seq<u8>,
    chunk_type: u32,
    payload: Seq<u8>,
    rest: Seq<u8>,
    json: Option<Seq<u8>>,
    bin: Option<Seq<u8>>,
)
    requires
        payload.len() < 0x1_0000_0000,
    ensures
        ({
            let f = prefix + glb_chunk(chunk_type, payload) + rest;
            let next = prefix.len() + 8 + payload.len();
            glb_chunks_from(f, prefix.len() as int, json, bin) == glb_chunks_from(
                f,
                next as int,
                if chunk_type == GLB_JSON_CHUNK { Some(payload) } else { json },
                if chunk_type == GLB_BIN_CHUNK { Some(payload) } else { bin },
            )
        }),
{
    let f = prefix + glb_chunk(chunk_type, payload) + rest;
    let p = prefix.len() as int;
    assert(f == prefix + le_bytes(payload.len()) + (le_bytes(chunk_type as nat) + payload + rest));
    lemma_le_u32_of_le_bytes(prefix, payload.len(), le_bytes(chunk_type as nat) + payload + rest);
    assert(f == (prefix + le_bytes(payload.len())) + le_bytes(chunk_type as nat) + (payload
        + rest));
    lemma_le_u32_of_le_bytes(prefix + le_bytes(payload.len()), chunk_type as nat, payload + rest);
    assert(f.subrange(p + 8, p + 8 + payload.len()) == payload);
}

/// What a GLB writer lays out, the container reader gives back: a file
/// holding a JSON chunk and a binary chunk, whose total length fits the
/// header's 32-bit field, splits into exactly that JSON and that binary chunk.
pub proof fn law_glb_container_round_trip(json: Seq<u8>, bin: Seq<u8>)
    requires
        28 + json.len() + bin.len() < 0x1_0000_0000,
    ensures
        glb_container(glb_file(json, bin)) == Ok::<(Seq<u8>, Option<Seq<u8>>), GlbFailure>(
            (json, Some(bin)),
        ),
{
    let total = (28 + json.len() + bin.len()) as nat;
    let f = glb_file(json, bin);
    let header = le_bytes(GLB_MAGIC as nat) + le_bytes(2) + le_bytes(total);
    let json_chunk = glb_chunk(GLB_JSON_CHUNK, json);
    let bin_chunk = glb_chunk(GLB_BIN_CHUNK, bin);
    assert(f.len() == total);
    assert(f == Seq::<u8>::empty() + le_bytes(GLB_MAGIC as nat) + (le_bytes(2) + le_bytes(total)
        + json_chunk + bin_chunk));
    lemma_le_u32_of_le_bytes(
        Seq::<u8>::empty(),
        GLB_MAGIC as nat,
        le_bytes(2) + le_bytes(total) + json_chunk + bin_chunk,
    );
    assert(f == le_bytes(GLB_MAGIC as nat) + le_bytes(2) + (le_bytes(total) + json_chunk
        + bin_chunk));
    lemma_le_u32_of_le_bytes(le_bytes(GLB_MAGIC as nat), 2, le_bytes(total) + json_chunk + bin_chunk);
    assert(f == le_bytes(GLB_MAGIC as nat) + le_bytes(2) + le_bytes(total) + (json_chunk
        + bin_chunk));
    lemma_le_u32_of_le_bytes(
        le_bytes(GLB_MAGIC as nat) + le_bytes(2),
        total,
        json_chunk + bin_chunk,
    );
    assert(f == header + json_chunk + bin_chunk);
    lemma_read_one_chunk(header, GLB_JSON_CHUNK, json, bin_chunk, None, None);
    assert(f == (header + json_chunk) + bin_chunk + Seq::<u8>::empty());
    lemma_read_one_chunk(
        header + json_chunk,
        GLB_BIN_CHUNK,
        bin,
        Seq::<u8>::empty(),
        Some(json),
        None,
    );
}

} // verus!
