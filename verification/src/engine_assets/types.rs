//! Asset identities, metadata, errors and texture descriptions.

use vstd::prelude::*;
use vstd::string::StringExecFns;

use crate::identifiers::{is_random_uuid, new_random_uuid_value};

verus! {

#[verifier::external_type_specification]
#[verifier::external_body]
pub struct ExImageError(image::ImageError);

#[verifier::external_type_specification]
#[verifier::external_body]
pub struct ExDecodeError(base64::DecodeError);

/// Why an asset operation failed.
#[derive(Debug)]
pub enum AssetError {
    /// The source path is already registered.
    DuplicatePath(String),
    /// The asset id is already registered.
    DuplicateId(AssetId),
    /// Metadata could not be written out (the message of the serializer).
    Serialize(String),
    /// Metadata could not be read back (the message of the deserializer).
    Deserialize(String),
    /// Reading an asset file failed (the message of the I/O error).
    Io(String),
    /// The glTF JSON text could not be parsed (the message of the parser).
    GltfJson(String),
    /// A glTF image could not be decoded.
    GltfImage(image::ImageError),
    /// A glTF document lacks a field the importer needs.
    MissingGltfField(&'static str),
    /// A glTF document uses a feature the importer does not support.
    UnsupportedGltfFeature(String),
    /// glTF mesh data is inconsistent.
    InvalidGltfMesh(String),
    /// A GLB container is malformed.
    InvalidGlb(String),
    /// An embedded base64 buffer could not be decoded.
    DecodeGltfBuffer(base64::DecodeError),
}

/// A stable asset identity: the 128-bit value of a UUID.
#[derive(Debug, Clone, Copy, PartialEq, Eq, PartialOrd, Ord, Hash, Structural)]
pub struct AssetId(pub u128);

impl AssetId {
    /// A fresh random identity: a version 4 UUID.
    pub fn new() -> (id: Self)
        ensures
            is_random_uuid(id.0),
    {
        AssetId(new_random_uuid_value())
    }

    /// The identity with the given UUID value.
    pub fn from_uuid(uuid: u128) -> (id: Self)
        ensures
            id.0 == uuid,
    {
        AssetId(uuid)
    }

    /// The UUID value of the identity.
    pub fn as_uuid(self) -> (uuid: u128)
        ensures
            uuid == self.0,
    {
        self.0
    }
}

impl Default for AssetId {
    /// A fresh random identity, as `AssetId::new` draws it.
    fn default() -> (id: Self)
        ensures
            is_random_uuid(id.0),
    {
        AssetId::new()
    }
}

/// What kind of content an asset holds.
#[derive(Debug, Clone, Copy, PartialEq, Eq, Structural)]
pub enum AssetKind {
    Scene,
    Prefab,
    Mesh,
    Texture,
    Material,
    Shader,
    Script,
    Audio,
    Unknown,
}

/// The metadata the asset database keeps for one asset.
#[derive(Debug, Clone)]
pub struct AssetMetadata {
    pub schema_version: u32,
    pub id: AssetId,
    pub kind: AssetKind,
    pub source_path: String,
    pub imported_path: Option<String>,
    pub dependencies: Vec<AssetId>,
}

/// The metadata schema version this engine writes.
pub const ASSET_METADATA_SCHEMA_VERSION: u32 = 1;

impl AssetMetadata {
    /// Metadata for a new asset: a fresh id, the current schema version, no
    /// imported file and no dependencies.
    pub fn new(kind: AssetKind, source_path: &str) -> (metadata: Self)
        ensures
            metadata.schema_version == ASSET_METADATA_SCHEMA_VERSION,
            is_random_uuid(metadata.id.0),
            metadata.kind == kind,
            metadata.source_path@ == source_path@,
            metadata.imported_path is None,
            metadata.dependencies@.len() == 0,
    {
        AssetMetadata {
            schema_version: ASSET_METADATA_SCHEMA_VERSION,
            id: AssetId::new(),
            kind,
            source_path: String::from_str(source_path),
            imported_path: None,
            dependencies: Vec::new(),
        }
    }
}

/// Magnification filter of a texture sampler.
#[derive(Debug, Clone, Copy, PartialEq, Eq, PartialOrd, Ord, Hash, Structural)]
pub enum StaticMeshTextureFilter {
    Nearest,
    Linear,
}

/// Minification filter of a texture sampler, with its mipmap selection.
#[derive(Debug, Clone, Copy, PartialEq, Eq, PartialOrd, Ord, Hash, Structural)]
pub enum StaticMeshTextureMinFilter {
    Nearest,
    Linear,
    NearestMipmapNearest,
    LinearMipmapNearest,
    NearestMipmapLinear,
    LinearMipmapLinear,
}

/// Whether a minification filter samples a mip chain.
pub open spec fn min_filter_uses_mipmaps(filter: StaticMeshTextureMinFilter) -> bool {
    !(filter is Nearest || filter is Linear)
}

impl StaticMeshTextureMinFilter {
    pub fn uses_mipmaps(self) -> (uses: bool)
        ensures
            uses == min_filter_uses_mipmaps(self),
    {
        match self {
            StaticMeshTextureMinFilter::NearestMipmapNearest
            | StaticMeshTextureMinFilter::LinearMipmapNearest
            | StaticMeshTextureMinFilter::NearestMipmapLinear
            | StaticMeshTextureMinFilter::LinearMipmapLinear => true,
            _ => false,
        }
    }
}

/// Texture coordinate wrapping of a sampler.
#[derive(Debug, Clone, Copy, PartialEq, Eq, PartialOrd, Ord, Hash, Structural)]
pub enum StaticMeshTextureWrap {
    ClampToEdge,
    MirroredRepeat,
    Repeat,
}

/// How a texture is sampled.
#[derive(Debug, Clone, Copy, PartialEq, Eq, PartialOrd, Ord, Hash, Structural)]
pub struct StaticMeshTextureSampler {
    pub mag_filter: StaticMeshTextureFilter,
    pub min_filter: StaticMeshTextureMinFilter,
    pub wrap_s: StaticMeshTextureWrap,
    pub wrap_t: StaticMeshTextureWrap,
}

/// The sampler glTF prescribes when a texture names none: linear filtering
/// with trilinear mipmaps and repeating coordinates.
pub open spec fn default_sampler() -> StaticMeshTextureSampler {
    StaticMeshTextureSampler {
        mag_filter: StaticMeshTextureFilter::Linear,
        min_filter: StaticMeshTextureMinFilter::LinearMipmapLinear,
        wrap_s: StaticMeshTextureWrap::Repeat,
        wrap_t: StaticMeshTextureWrap::Repeat,
    }
}

impl Default for StaticMeshTextureSampler {
    fn default() -> (sampler: Self)
        ensures
            sampler == default_sampler(),
    {
        StaticMeshTextureSampler {
            mag_filter: StaticMeshTextureFilter::Linear,
            min_filter: StaticMeshTextureMinFilter::LinearMipmapLinear,
            wrap_s: StaticMeshTextureWrap::Repeat,
            wrap_t: StaticMeshTextureWrap::Repeat,
        }
    }
}

/// A decoded RGBA8 texture and the sampler it is read with.
#[derive(Debug, Clone)]
pub struct StaticMeshTextureAsset {
    pub name: String,
    pub width: u32,
    pub height: u32,
    pub rgba: Vec<u8>,
    pub sampler: StaticMeshTextureSampler,
}

} // verus!
