//! The request and response shapes of the upload interface, and the errors
//! a request can be rejected with.

use vstd::prelude::*;

verus! {

/// The uniform response envelope: either data with `success` set, or a
/// message with it cleared.
pub struct ApiResponse<T> {
    pub success: bool,
    pub data: Option<T>,
    pub message: Option<String>,
}

impl<T> ApiResponse<T> {
    pub fn success(data: T) -> (r: Self)
        ensures
            r.success,
            r.data == Some(data),
            r.message is None,
    {
        ApiResponse { success: true, data: Some(data), message: None }
    }

    pub fn error(message: String) -> (r: Self)
        ensures
            !r.success,
            r.data is None,
            r.message == Some(message),
    {
        ApiResponse { success: false, data: None, message: Some(message) }
    }
}

/// The metadata a client declares with every chunk it sends.
#[derive(Debug)]
pub struct ChunkUploadRequest {
    pub chunk_number: u32,
    pub total_chunks: u32,
    pub chunk_size: u64,
    pub total_size: u64,
    pub file_name: String,
    pub upload_id: Option<String>,
}

/// What a chunk-upload call reports back: where the upload stands and, once
/// completed, where the assembled asset goes.
#[derive(Debug)]
pub struct ChunkUploadResponse {
    pub upload_id: String,
    pub chunk_number: u32,
    pub uploaded: bool,
    pub next_chunk: Option<u32>,
    pub completed: bool,
    pub file_path: Option<String>,
    pub disk_location: Option<String>,
    pub file_size: Option<u64>,
    pub disk_id: Option<u64>,
}

/// A completed upload: the stored file, its volume and its size.
#[derive(Debug)]
pub struct UploadResponse {
    pub file_path: String,
    pub disk_location: String,
    pub file_size: u64,
}

/// A status read: which chunks are in, how many are declared, and whether
/// the upload is complete.
#[derive(Debug)]
pub struct UploadStatusResponse {
    pub upload_id: String,
    pub uploaded_chunks: Vec<u32>,
    pub total_chunks: u32,
    pub completed: bool,
    pub file_path: Option<String>,
}

/// Why a request was refused. Validation failures change no state; capacity
/// exhaustion keeps the staged chunks so the client can retry later without
/// re-uploading.
#[derive(Clone, Copy, PartialEq, Eq, Structural, Debug)]
pub enum UploadError {
    /// One chunk's payload exceeds the per-chunk ceiling of its class.
    OversizedChunk,
    /// The declared total size exceeds the maximum for the asset class.
    OversizedFile,
    /// The chunk number or chunk count is inconsistent with the session.
    InvalidMetadata,
    /// No session exists for the given upload id.
    NotFound,
    /// No active volume has room for a new asset.
    CapacityExhausted,
    /// The upload was already claimed for assembly by another caller.
    AlreadyFinalized,
    /// Not every declared chunk has been received yet.
    Incomplete,
    /// Commit or abort was asked for an upload that was never claimed.
    NotClaimed,
}

/// Paging parameters of listing calls.
pub struct PaginationQuery {
    pub page: Option<u32>,
    pub limit: Option<u32>,
}

impl PaginationQuery {
    /// The page size, defaulting to 20 entries.
    pub fn effective_limit(&self) -> (r: u32)
        ensures
            r == match self.limit {
                Some(l) => l,
                None => 20u32,
            },
    {
        match self.limit {
            Some(l) => l,
            None => 20,
        }
    }

    /// How many entries the requested page skips: pages are 1-based, so page
    /// `p` with limit `l` starts after `(p - 1) * l` entries; a missing or
    /// zero page reads as the first.
    pub fn offset(&self) -> (r: u64)
        ensures
            r == {
                let p = match self.page {
                    Some(p) => if p >= 1 { p } else { 1u32 },
                    None => 1u32,
                };
                let l = match self.limit {
                    Some(l) => l,
                    None => 20u32,
                };
                (p - 1) * l
            },
    {
        let p: u32 = match self.page {
            Some(p) => if p >= 1 { p } else { 1 },
            None => 1,
        };
        let l = self.effective_limit();
        let skipped_pages = (p - 1) as u64;
        let page_size = l as u64;
        proof {
            assert(skipped_pages * page_size < 0x10000000000000000) by (nonlinear_arith)
                requires
                    skipped_pages < 0x100000000,
                    page_size < 0x100000000,
            ;
        }
        skipped_pages * page_size
    }
}

} // verus!
