use chunkstore::api::{ChunkUploadRequest, UploadError};
use chunkstore::config::{AssetClass, UploadConfig};
use chunkstore::finalize::{abort_finalize, begin_finalize, commit_finalize};
use chunkstore::receiver::{get_upload_status, process_chunk};
use chunkstore::store::SessionStore;
use chunkstore::volume::{DiskStorage, VolumeRegistry};

fn meta(id: &str, number: u32, total_chunks: u32, total_size: u64) -> ChunkUploadRequest {
    ChunkUploadRequest {
        chunk_number: number,
        total_chunks,
        chunk_size: 4,
        total_size,
        file_name: "movie.mkv".to_string(),
        upload_id: Some(id.to_string()),
    }
}

fn volume(id: u64, total: u64, used: u64) -> DiskStorage {
    DiskStorage {
        id,
        name: format!("disk{}", id),
        path: format!("/mnt/disk{}", id),
        total_space: total,
        used_space: used,
        is_active: true,
    }
}

/// Stages all chunks of a video upload against an empty pool, so the upload
/// is complete but unclaimed (capacity exhausted at delivery time).
fn staged_complete_upload(id: &str) -> SessionStore {
    let mut store = SessionStore::new();
    let empty = VolumeRegistry::new();
    let config = UploadConfig::default();
    let r = process_chunk(
        &mut store, &empty, &config, AssetClass::Video,
        &meta(id, 1, 2, 8), b"abcd".to_vec(), 0, "t".to_string(), "tok",
    );
    let (resp, plan) = r.unwrap();
    assert!(!resp.completed);
    assert!(plan.is_none());
    let r = process_chunk(
        &mut store, &empty, &config, AssetClass::Video,
        &meta(id, 2, 2, 8), b"efgh".to_vec(), 0, "t".to_string(), "tok",
    );
    assert_eq!(r.unwrap_err(), UploadError::CapacityExhausted);
    store
}

#[test]
fn finalizing_twice_accounts_usage_exactly_once() {
    let id = "race".to_string();
    let mut store = staged_complete_upload(&id);
    let mut reg = VolumeRegistry::new();
    assert!(reg.add_volume(volume(9, 1000, 100)));

    // First caller wins the claim.
    let plan = begin_finalize(&mut store, &reg, AssetClass::Video, &id, "tok")
        .expect("first claim succeeds");
    assert_eq!(plan.data, b"abcdefgh".to_vec());
    assert_eq!(plan.file_name, "tok.mkv".to_string());
    assert_eq!(plan.total_size, 8);
    assert_eq!(plan.disk.as_ref().unwrap().id, 9);

    // A concurrent loser finds the claim taken and must not re-plan.
    let second = begin_finalize(&mut store, &reg, AssetClass::Video, &id, "tok2");
    assert_eq!(second.unwrap_err(), UploadError::AlreadyFinalized);
    assert_eq!(reg.volumes[0].used_space, 100);

    // The winner commits: usage grows by the declared size, once.
    commit_finalize(&mut store, &mut reg, &plan).expect("commit succeeds");
    assert_eq!(reg.volumes[0].used_space, 108);
    assert_eq!(store.sessions.len(), 0);

    // Nothing is left to finalize or commit: usage cannot grow again.
    let third = begin_finalize(&mut store, &reg, AssetClass::Video, &id, "tok3");
    assert_eq!(third.unwrap_err(), UploadError::NotFound);
    let recommit = commit_finalize(&mut store, &mut reg, &plan);
    assert_eq!(recommit.unwrap_err(), UploadError::NotFound);
    assert_eq!(reg.volumes[0].used_space, 108);
}

#[test]
fn incomplete_upload_cannot_be_finalized() {
    let mut store = SessionStore::new();
    let reg = VolumeRegistry::new();
    let config = UploadConfig::default();
    let id = "partial".to_string();
    process_chunk(
        &mut store, &reg, &config, AssetClass::Video,
        &meta(&id, 1, 3, 12), b"abcd".to_vec(), 0, "t".to_string(), "tok",
    )
    .unwrap();
    let r = begin_finalize(&mut store, &reg, AssetClass::Video, &id, "tok");
    assert_eq!(r.unwrap_err(), UploadError::Incomplete);
}

#[test]
fn commit_without_claim_is_refused() {
    let id = "unclaimed".to_string();
    let mut store = staged_complete_upload(&id);
    let mut reg = VolumeRegistry::new();
    assert!(reg.add_volume(volume(9, 1000, 0)));
    let plan = begin_finalize(&mut store, &reg, AssetClass::Video, &id, "tok").unwrap();
    // Release the claim, as a failed write would.
    abort_finalize(&mut store, &id).unwrap();
    let r = commit_finalize(&mut store, &mut reg, &plan);
    assert_eq!(r.unwrap_err(), UploadError::NotClaimed);
    assert_eq!(reg.volumes[0].used_space, 0);
    assert_eq!(store.sessions.len(), 1);
}

#[test]
fn aborted_finalize_can_be_retried_from_intact_chunks() {
    let id = "retry".to_string();
    let mut store = staged_complete_upload(&id);
    let mut reg = VolumeRegistry::new();
    assert!(reg.add_volume(volume(3, 1000, 0)));

    let first = begin_finalize(&mut store, &reg, AssetClass::Video, &id, "tokA").unwrap();
    // The write fails; the claim is released, chunks stay.
    abort_finalize(&mut store, &id).unwrap();
    assert_eq!(reg.volumes[0].used_space, 0);
    let status = get_upload_status(&store, &id).unwrap();
    assert_eq!(status.uploaded_chunks, vec![1, 2]);

    // Retry assembles the same content.
    let again = begin_finalize(&mut store, &reg, AssetClass::Video, &id, "tokB").unwrap();
    assert_eq!(again.data, first.data);
    commit_finalize(&mut store, &mut reg, &again).unwrap();
    assert_eq!(reg.volumes[0].used_space, 8);
}

#[test]
fn finalize_of_unknown_upload_is_not_found() {
    let mut store = SessionStore::new();
    let reg = VolumeRegistry::new();
    let r = begin_finalize(&mut store, &reg, AssetClass::Video, &"ghost".to_string(), "tok");
    assert_eq!(r.unwrap_err(), UploadError::NotFound);
    let r = abort_finalize(&mut store, &"ghost".to_string());
    assert_eq!(r.unwrap_err(), UploadError::NotFound);
}

#[test]
fn extension_defaults_when_name_has_none() {
    let mut store = SessionStore::new();
    let empty = VolumeRegistry::new();
    let config = UploadConfig::default();
    let m = ChunkUploadRequest {
        chunk_number: 1,
        total_chunks: 1,
        chunk_size: 4,
        total_size: 4,
        file_name: "rawvideo".to_string(),
        upload_id: Some("noext".to_string()),
    };
    let r = process_chunk(
        &mut store, &empty, &config, AssetClass::Video,
        &m, b"data".to_vec(), 0, "t".to_string(), "tok",
    );
    assert_eq!(r.unwrap_err(), UploadError::CapacityExhausted);
    let mut reg = VolumeRegistry::new();
    assert!(reg.add_volume(volume(1, 100, 0)));
    let plan = begin_finalize(&mut store, &reg, AssetClass::Video, &"noext".to_string(), "tok")
        .unwrap();
    assert_eq!(plan.file_name, "tok.mp4".to_string());
}
