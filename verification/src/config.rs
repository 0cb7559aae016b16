//! Upload configuration and the per-asset-class size ceilings.
//!
//! Each asset class has its own per-chunk ceiling and maximum declared size;
//! a chunk or an upload over its ceiling is rejected before any state
//! changes.

use vstd::prelude::*;

verus! {

/// The class of asset an upload belongs to, deciding its ceilings, its
/// default extension and its destination.
#[derive(Clone, Copy, PartialEq, Eq, Structural, Debug)]
pub enum AssetClass {
    /// A large asset placed on a registry-selected volume, with usage
    /// accounting.
    Video,
    /// A small image placed in a fixed local directory, with no accounting.
    Thumbnail,
    /// A channel image placed in a fixed local directory, with no accounting.
    ChannelImage,
}

pub const VIDEO_CHUNK_LIMIT: u64 = 10 * 1024 * 1024;

pub const THUMBNAIL_CHUNK_LIMIT: u64 = 2 * 1024 * 1024;

pub const CHANNEL_IMAGE_CHUNK_LIMIT: u64 = 1 * 1024 * 1024;

pub const THUMBNAIL_SIZE_LIMIT: u64 = 5 * 1024 * 1024;

pub const CHANNEL_IMAGE_SIZE_LIMIT: u64 = 2 * 1024 * 1024;

pub const DEFAULT_MAX_FILE_SIZE: usize = 500 * 1024 * 1024;

/// Upload settings: where local assets live and how large a video upload may
/// declare itself to be.
pub struct UploadConfig {
    pub upload_dir: String,
    pub max_file_size: usize,
}

impl Default for UploadConfig {
    /// The stock configuration: local assets under `uploads`, videos up to
    /// `DEFAULT_MAX_FILE_SIZE` bytes.
    fn default() -> (r: Self)
        ensures
            r.upload_dir@ == "uploads"@,
            r.max_file_size == DEFAULT_MAX_FILE_SIZE,
    {
        UploadConfig { upload_dir: "uploads".to_owned(), max_file_size: DEFAULT_MAX_FILE_SIZE }
    }
}

/// The largest payload one chunk of this class may carry.
pub open spec fn spec_chunk_limit(class: AssetClass) -> u64 {
    match class {
        AssetClass::Video => VIDEO_CHUNK_LIMIT,
        AssetClass::Thumbnail => THUMBNAIL_CHUNK_LIMIT,
        AssetClass::ChannelImage => CHANNEL_IMAGE_CHUNK_LIMIT,
    }
}

pub fn chunk_limit(class: AssetClass) -> (r: u64)
    ensures
        r == spec_chunk_limit(class),
{
    match class {
        AssetClass::Video => VIDEO_CHUNK_LIMIT,
        AssetClass::Thumbnail => THUMBNAIL_CHUNK_LIMIT,
        AssetClass::ChannelImage => CHANNEL_IMAGE_CHUNK_LIMIT,
    }
}

/// The largest total size an upload of this class may declare.
pub open spec fn spec_size_limit(class: AssetClass, config: UploadConfig) -> u64 {
    match class {
        AssetClass::Video => config.max_file_size as u64,
        AssetClass::Thumbnail => THUMBNAIL_SIZE_LIMIT,
        AssetClass::ChannelImage => CHANNEL_IMAGE_SIZE_LIMIT,
    }
}

pub fn size_limit(class: AssetClass, config: &UploadConfig) -> (r: u64)
    ensures
        r == spec_size_limit(class, *config),
{
    match class {
        AssetClass::Video => config.max_file_size as u64,
        AssetClass::Thumbnail => THUMBNAIL_SIZE_LIMIT,
        AssetClass::ChannelImage => CHANNEL_IMAGE_SIZE_LIMIT,
    }
}

/// The extension given to an assembled asset whose original name has none.
pub open spec fn spec_default_extension(class: AssetClass) -> Seq<char> {
    match class {
        AssetClass::Video => "mp4"@,
        AssetClass::Thumbnail => "jpg"@,
        AssetClass::ChannelImage => "jpg"@,
    }
}

pub fn default_extension(class: AssetClass) -> (r: &'static str)
    ensures
        r@ == spec_default_extension(class),
{
    match class {
        AssetClass::Video => "mp4",
        AssetClass::Thumbnail => "jpg",
        AssetClass::ChannelImage => "jpg",
    }
}

} // verus!
