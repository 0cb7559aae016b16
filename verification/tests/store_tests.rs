use chunkstore::api::{ChunkUploadRequest, UploadError};
use chunkstore::config::{AssetClass, UploadConfig};
use chunkstore::receiver::{cancel_upload, get_upload_status, process_chunk};
use chunkstore::store::{cleanup_expired_uploads, SessionStore, RETENTION_SECS};
use chunkstore::volume::VolumeRegistry;

fn meta(id: &str, number: u32, total_chunks: u32) -> ChunkUploadRequest {
    ChunkUploadRequest {
        chunk_number: number,
        total_chunks,
        chunk_size: 2,
        total_size: 2 * total_chunks as u64,
        file_name: "clip.mp4".to_string(),
        upload_id: Some(id.to_string()),
    }
}

fn stage(store: &mut SessionStore, id: &str, number: u32, total: u32, now: u64) {
    let reg = VolumeRegistry::new();
    let config = UploadConfig::default();
    process_chunk(
        store, &reg, &config, AssetClass::Video,
        &meta(id, number, total), b"xy".to_vec(), now, "t".to_string(), "tok",
    )
    .unwrap();
}

#[test]
fn reaper_removes_expired_sessions_and_upload_restarts_fresh() {
    let mut store = SessionStore::new();
    stage(&mut store, "old", 1, 3, 1_000);
    stage(&mut store, "young", 1, 3, 90_000);

    // One second past the retention window of the old session.
    let now = 1_000 + RETENTION_SECS + 1;
    cleanup_expired_uploads(&mut store, now);

    // The expired session is fully absent; the young one survives intact.
    assert_eq!(
        get_upload_status(&store, &"old".to_string()).unwrap_err(),
        UploadError::NotFound
    );
    let young = get_upload_status(&store, &"young".to_string()).unwrap();
    assert_eq!(young.uploaded_chunks, vec![1]);

    // A subsequent chunk for the reaped id starts a brand-new session: the
    // old chunk 1 is gone, only the new chunk 2 is present.
    stage(&mut store, "old", 2, 3, now);
    let fresh = get_upload_status(&store, &"old".to_string()).unwrap();
    assert_eq!(fresh.uploaded_chunks, vec![2]);
    assert!(!fresh.completed);
}

#[test]
fn session_at_the_retention_boundary_is_kept() {
    let mut store = SessionStore::new();
    stage(&mut store, "edge", 1, 2, 1_000);
    // Exactly created_at + window: not yet older than the window.
    cleanup_expired_uploads(&mut store, 1_000 + RETENTION_SECS);
    assert!(get_upload_status(&store, &"edge".to_string()).is_ok());
    // One more second and it is reclaimed.
    cleanup_expired_uploads(&mut store, 1_000 + RETENTION_SECS + 1);
    assert_eq!(
        get_upload_status(&store, &"edge".to_string()).unwrap_err(),
        UploadError::NotFound
    );
}

#[test]
fn cancel_removes_the_session_and_reports_nothing_to_cancel_after() {
    let mut store = SessionStore::new();
    stage(&mut store, "c1", 1, 3, 0);
    stage(&mut store, "c2", 1, 3, 0);
    cancel_upload(&mut store, &"c1".to_string()).expect("something to cancel");
    assert_eq!(
        get_upload_status(&store, &"c1".to_string()).unwrap_err(),
        UploadError::NotFound
    );
    assert!(get_upload_status(&store, &"c2".to_string()).is_ok());
    let again = cancel_upload(&mut store, &"c1".to_string());
    assert_eq!(again.unwrap_err(), UploadError::NotFound);
}

#[test]
fn status_of_unknown_upload_is_not_found() {
    let store = SessionStore::new();
    assert_eq!(
        get_upload_status(&store, &"nobody".to_string()).unwrap_err(),
        UploadError::NotFound
    );
}

#[test]
fn sessions_are_kept_per_upload_id() {
    let mut store = SessionStore::new();
    stage(&mut store, "a", 1, 2, 0);
    stage(&mut store, "b", 2, 2, 0);
    assert_eq!(store.sessions.len(), 2);
    let a = get_upload_status(&store, &"a".to_string()).unwrap();
    let b = get_upload_status(&store, &"b".to_string()).unwrap();
    assert_eq!(a.uploaded_chunks, vec![1]);
    assert_eq!(b.uploaded_chunks, vec![2]);
}
