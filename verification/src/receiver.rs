//! The chunk receiver: one call per delivered chunk.
//!
//! A chunk is validated against the per-class ceilings before any state
//! changes, the session is opened on first contact (later declarations are
//! ignored — only the first is authoritative), the payload is recorded under
//! its chunk number with overwrite semantics, and, when the delivery
//! completes the upload, the finalize claim and assembly plan are produced
//! in the same call.

use vstd::prelude::*;
use vstd::pervasive::unreached;
use vstd::string::StringExecFns;
use crate::api::ChunkUploadRequest;
use crate::api::ChunkUploadResponse;
use crate::api::UploadError;
use crate::api::UploadStatusResponse;
use crate::config::AssetClass;
use crate::config::UploadConfig;
use crate::config::chunk_limit;
use crate::config::size_limit;
use crate::config::spec_chunk_limit;
use crate::config::spec_size_limit;
use crate::finalize::FinalizePlan;
use crate::finalize::begin_finalize;
use crate::finalize::selected_from;
use crate::naming::fresh_token;
use crate::naming::spec_asset_name;
use crate::session::UploadSession;
use crate::session::assembled_bytes;
use crate::store::SessionStore;
use crate::volume::VolumeRegistry;

verus! {

/// The upload id a delivery runs under: the one the client sent, or the
/// freshly minted token when it sent none.
pub open spec fn effective_id(meta: ChunkUploadRequest, upload_token: Seq<char>) -> Seq<char> {
    match meta.upload_id {
        Some(id) => id@,
        None => upload_token,
    }
}

/// `s1` is `s0` with the payload of chunk `number` recorded and nothing else
/// changed.
pub open spec fn stored_session(
    s0: UploadSession,
    s1: UploadSession,
    number: u32,
    payload: Vec<u8>,
) -> bool {
    &&& s1.same_metadata(s0)
    &&& s1.chunks@ == s0.chunks@.update(number - 1, Some(payload))
}

/// `s` is a session freshly opened from the declared metadata, holding
/// exactly the one chunk that opened it.
pub open spec fn fresh_session(
    s: UploadSession,
    id: Seq<char>,
    meta: ChunkUploadRequest,
    payload: Vec<u8>,
    now: u64,
) -> bool {
    &&& s.upload_id@ == id
    &&& s.file_name@ == meta.file_name@
    &&& s.chunk_size == meta.chunk_size
    &&& s.total_chunks == meta.total_chunks
    &&& s.total_size == meta.total_size
    &&& s.created_at == now
    &&& s.chunks@.len() == meta.total_chunks
    &&& s.chunks@[meta.chunk_number - 1] == Some(payload)
    &&& forall|j: int|
        0 <= j < s.chunks@.len() && j != meta.chunk_number - 1 ==> s.chunks@[j] is None
}

/// The report for a delivery that left the upload incomplete: the chunk was
/// recorded and `next_chunk` names the minimum missing chunk number.
pub open spec fn partial_resp(
    resp: ChunkUploadResponse,
    id: Seq<char>,
    number: u32,
    s1: UploadSession,
) -> bool {
    &&& resp.upload_id@ == id
    &&& resp.chunk_number == number
    &&& resp.uploaded
    &&& !resp.completed
    &&& resp.next_chunk matches Some(k) && 1 <= k <= s1.total_chunks && !s1.received(k as int)
        && (forall|j: int| 1 <= j < k ==> s1.received(j))
    &&& resp.file_path is None
    &&& resp.disk_location is None
    &&& resp.file_size is None
    &&& resp.disk_id is None
}

/// The report for a delivery to an upload that was already claimed for
/// assembly: completed, with nothing recorded and nothing planned again.
pub open spec fn terminal_resp(resp: ChunkUploadResponse, id: Seq<char>, number: u32) -> bool {
    &&& resp.upload_id@ == id
    &&& resp.chunk_number == number
    &&& !resp.uploaded
    &&& resp.completed
    &&& resp.next_chunk is None
    &&& resp.file_path is None
    &&& resp.disk_location is None
    &&& resp.file_size is None
    &&& resp.disk_id is None
}

/// The report and plan for the delivery that completed the upload: the asset
/// is the chunks concatenated in ascending order, named by the content
/// token, placed on the selected volume for videos and in the fixed local
/// directory for images.
pub open spec fn completed_resp(
    resp: ChunkUploadResponse,
    id: Seq<char>,
    number: u32,
    s1: UploadSession,
    plan: FinalizePlan,
    class: AssetClass,
    registry: VolumeRegistry,
    content_token: Seq<char>,
) -> bool {
    &&& resp.upload_id@ == id
    &&& resp.chunk_number == number
    &&& resp.uploaded
    &&& resp.completed
    &&& resp.next_chunk is None
    &&& resp.file_size == Some(s1.total_size)
    &&& plan.upload_id@ == id
    &&& plan.total_size == s1.total_size
    &&& plan.data@ == assembled_bytes(s1.chunks@, s1.total_chunks as int)
    &&& plan.file_name@ == spec_asset_name(content_token, s1.file_name@, class)
    &&& match class {
        AssetClass::Video => {
            &&& plan.disk matches Some(d) && selected_from(d, registry)
                && resp.disk_id == Some(d.id)
                && (resp.disk_location matches Some(nm) && nm@ == d.name@)
            &&& resp.file_path matches Some(p) && p@ == plan.file_name@
        },
        AssetClass::Thumbnail => {
            &&& plan.disk is None
            &&& resp.file_path matches Some(p) && p@ == "thumbnails/"@ + plan.file_name@
            &&& resp.disk_location matches Some(nm) && nm@ == "local"@
            &&& resp.disk_id is None
        },
        AssetClass::ChannelImage => {
            &&& plan.disk is None
            &&& resp.file_path matches Some(p) && p@ == "channels/"@ + plan.file_name@
            &&& resp.disk_location matches Some(nm) && nm@ == "local"@
            &&& resp.disk_id is None
        },
    }
}

/// What a delivery does once its session holds the chunk: nothing more while
/// chunks are missing; when the upload is complete, either capacity is
/// exhausted (videos only, nothing claimed, chunks kept for a retry) or the
/// claim is taken and the assembly planned.
pub open spec fn step_completion(
    s1: UploadSession,
    registry: VolumeRegistry,
    class: AssetClass,
    id: Seq<char>,
    number: u32,
    content_token: Seq<char>,
    r: Result<(ChunkUploadResponse, Option<FinalizePlan>), UploadError>,
) -> bool {
    if s1.complete() {
        if class == AssetClass::Video && !registry.has_eligible() {
            &&& r matches Err(e) && e == UploadError::CapacityExhausted
            &&& !s1.finalized
        } else {
            &&& r matches Ok(pair) && pair.1 matches Some(plan)
                && completed_resp(pair.0, id, number, s1, plan, class, registry, content_token)
            &&& s1.finalized
        }
    } else {
        &&& r matches Ok(pair) && pair.1 is None && partial_resp(pair.0, id, number, s1)
        &&& !s1.finalized
    }
}

/// The whole contract of one delivery, relating the store before and after
/// the call to the result. Validation failures change nothing; otherwise the
/// session keyed by the effective id is opened or updated and every other
/// session is untouched.
pub open spec fn receive_outcome(
    pre: SessionStore,
    post: SessionStore,
    registry: VolumeRegistry,
    config: UploadConfig,
    class: AssetClass,
    meta: ChunkUploadRequest,
    payload: Vec<u8>,
    now: u64,
    upload_token: Seq<char>,
    content_token: Seq<char>,
    r: Result<(ChunkUploadResponse, Option<FinalizePlan>), UploadError>,
) -> bool {
    let id = effective_id(meta, upload_token);
    if payload@.len() > spec_chunk_limit(class) {
        &&& r matches Err(e) && e == UploadError::OversizedChunk
        &&& post.sessions@ == pre.sessions@
    } else if meta.total_size > spec_size_limit(class, config) {
        &&& r matches Err(e) && e == UploadError::OversizedFile
        &&& post.sessions@ == pre.sessions@
    } else if pre.contains_id(id) {
        let i = pre.session_index(id);
        let s0 = pre.sessions@[i];
        if s0.finalized {
            &&& r matches Ok(pair) && pair.1 is None
                && terminal_resp(pair.0, id, meta.chunk_number)
            &&& post.sessions@ == pre.sessions@
        } else if meta.chunk_number < 1 || meta.chunk_number > s0.total_chunks {
            &&& r matches Err(e) && e == UploadError::InvalidMetadata
            &&& post.sessions@ == pre.sessions@
        } else {
            &&& post.sessions@.len() == pre.sessions@.len()
            &&& forall|j: int|
                0 <= j < post.sessions@.len() && j != i ==> post.sessions@[j] == pre.sessions@[j]
            &&& stored_session(s0, post.sessions@[i], meta.chunk_number, payload)
            &&& step_completion(
                post.sessions@[i],
                registry,
                class,
                id,
                meta.chunk_number,
                content_token,
                r,
            )
        }
    } else {
        if meta.chunk_number < 1 || meta.chunk_number > meta.total_chunks {
            &&& r matches Err(e) && e == UploadError::InvalidMetadata
            &&& post.sessions@ == pre.sessions@
        } else {
            let i = pre.sessions@.len() as int;
            &&& post.sessions@.len() == pre.sessions@.len() + 1
            &&& forall|j: int| 0 <= j < i ==> post.sessions@[j] == pre.sessions@[j]
            &&& fresh_session(post.sessions@[i], id, meta, payload, now)
            &&& step_completion(
                post.sessions@[i],
                registry,
                class,
                id,
                meta.chunk_number,
                content_token,
                r,
            )
        }
    }
}

/// Receives one chunk under explicit tokens: `upload_token` becomes the
/// upload id when the client sent none, `content_token` names the assembled
/// asset when this delivery completes the upload.
pub fn process_chunk(
    store: &mut SessionStore,
    registry: &VolumeRegistry,
    config: &UploadConfig,
    class: AssetClass,
    meta: &ChunkUploadRequest,
    payload: Vec<u8>,
    now: u64,
    upload_token: String,
    content_token: &str,
) -> (r: Result<(ChunkUploadResponse, Option<FinalizePlan>), UploadError>)
    requires
        old(store).wf(),
    ensures
        final(store).wf(),
        receive_outcome(
            *old(store),
            *final(store),
            *registry,
            *config,
            class,
            *meta,
            payload,
            now,
            upload_token@,
            content_token@,
            r,
        ),
{
    if payload.len() as u64 > chunk_limit(class) {
        return Err(UploadError::OversizedChunk);
    }
    if meta.total_size > size_limit(class, config) {
        return Err(UploadError::OversizedFile);
    }
    let upload_id: String = match &meta.upload_id {
        Some(id) => id.clone(),
        None => upload_token,
    };
    let i: usize;
    match store.find(&upload_id) {
        Some(idx) => {
            if store.sessions[idx].finalized {
                let resp = ChunkUploadResponse {
                    upload_id,
                    chunk_number: meta.chunk_number,
                    uploaded: false,
                    next_chunk: None,
                    completed: true,
                    file_path: None,
                    disk_location: None,
                    file_size: None,
                    disk_id: None,
                };
                return Ok((resp, None));
            }
            if meta.chunk_number < 1 || meta.chunk_number > store.sessions[idx].total_chunks {
                return Err(UploadError::InvalidMetadata);
            }
            store.store_chunk_at(idx, meta.chunk_number, payload);
            i = idx;
        },
        None => {
            if meta.chunk_number < 1 || meta.chunk_number > meta.total_chunks {
                return Err(UploadError::InvalidMetadata);
            }
            let s = UploadSession::new(
                upload_id.clone(),
                meta.file_name.clone(),
                meta.chunk_size,
                meta.total_chunks,
                meta.total_size,
                now,
            );
            let ghost fresh0 = s;
            store.insert_new(s);
            let idx = store.sessions.len() - 1;
            store.store_chunk_at(idx, meta.chunk_number, payload);
            proof {
                let s1 = store.sessions@[idx as int];
                assert forall|j: int|
                    0 <= j < s1.chunks@.len() && j != meta.chunk_number - 1
                    implies s1.chunks@[j] is None by {
                    assert(!fresh0.received(j + 1));
                }
            }
            i = idx;
        },
    }
    proof {
        store.lemma_index_unique(upload_id@, i as int);
    }
    if !store.sessions[i].is_complete() {
        let next = store.sessions[i].next_missing();
        let resp = ChunkUploadResponse {
            upload_id,
            chunk_number: meta.chunk_number,
            uploaded: true,
            next_chunk: next,
            completed: false,
            file_path: None,
            disk_location: None,
            file_size: None,
            disk_id: None,
        };
        return Ok((resp, None));
    }
    let total_size = store.sessions[i].total_size;
    let ghost mid = *store;
    match begin_finalize(store, registry, class, &upload_id, content_token) {
        Err(e) => Err(e),
        Ok(plan) => {
            proof {
                let s1 = store.sessions@[i as int];
                assert forall|k: int| 1 <= k <= s1.total_chunks implies s1.received(k) by {
                    assert(mid.sessions@[i as int].received(k));
                }
                assert(s1.complete());
            }
            let resp = match class {
                AssetClass::Video => {
                    match &plan.disk {
                        Some(d) => ChunkUploadResponse {
                            upload_id,
                            chunk_number: meta.chunk_number,
                            uploaded: true,
                            next_chunk: None,
                            completed: true,
                            file_path: Some(plan.file_name.clone()),
                            disk_location: Some(d.name.clone()),
                            file_size: Some(total_size),
                            disk_id: Some(d.id),
                        },
                        None => unreached(),
                    }
                },
                AssetClass::Thumbnail => {
                    let mut p = "thumbnails/".to_owned();
                    p.append(plan.file_name.as_str());
                    ChunkUploadResponse {
                        upload_id,
                        chunk_number: meta.chunk_number,
                        uploaded: true,
                        next_chunk: None,
                        completed: true,
                        file_path: Some(p),
                        disk_location: Some("local".to_owned()),
                        file_size: Some(total_size),
                        disk_id: None,
                    }
                },
                AssetClass::ChannelImage => {
                    let mut p = "channels/".to_owned();
                    p.append(plan.file_name.as_str());
                    ChunkUploadResponse {
                        upload_id,
                        chunk_number: meta.chunk_number,
                        uploaded: true,
                        next_chunk: None,
                        completed: true,
                        file_path: Some(p),
                        disk_location: Some("local".to_owned()),
                        file_size: Some(total_size),
                        disk_id: None,
                    }
                },
            };
            Ok((resp, Some(plan)))
        },
    }
}

/// Receives one video chunk, minting fresh tokens for the upload id (when
/// absent) and the would-be asset name. The tokens are random, so the
/// contract holds for whatever values they took; validation failures change
/// nothing either way.
pub fn upload_video_chunk(
    store: &mut SessionStore,
    registry: &VolumeRegistry,
    config: &UploadConfig,
    meta: &ChunkUploadRequest,
    payload: Vec<u8>,
    now: u64,
) -> (r: Result<(ChunkUploadResponse, Option<FinalizePlan>), UploadError>)
    requires
        old(store).wf(),
    ensures
        final(store).wf(),
        exists|ut: Seq<char>, ct: Seq<char>|
            #[trigger] receive_outcome(
                *old(store),
                *final(store),
                *registry,
                *config,
                AssetClass::Video,
                *meta,
                payload,
                now,
                ut,
                ct,
                r,
            ),
        payload@.len() > spec_chunk_limit(AssetClass::Video) ==> (r matches Err(e)
            && e == UploadError::OversizedChunk)
            && final(store).sessions@ == old(store).sessions@,
        payload@.len() <= spec_chunk_limit(AssetClass::Video) && meta.total_size
            > spec_size_limit(AssetClass::Video, *config) ==> (r matches Err(e)
            && e == UploadError::OversizedFile)
            && final(store).sessions@ == old(store).sessions@,
{
    let upload_token = fresh_token();
    let content_token = fresh_token();
    let ghost ut = upload_token@;
    let ghost ct = content_token@;
    let r = process_chunk(
        store,
        registry,
        config,
        AssetClass::Video,
        meta,
        payload,
        now,
        upload_token,
        content_token.as_str(),
    );
    proof {
        assert(receive_outcome(
            *old(store),
            *store,
            *registry,
            *config,
            AssetClass::Video,
            *meta,
            payload,
            now,
            ut,
            ct,
            r,
        ));
    }
    r
}

/// Receives one thumbnail chunk; see `upload_video_chunk`.
pub fn upload_thumbnail_chunk(
    store: &mut SessionStore,
    registry: &VolumeRegistry,
    config: &UploadConfig,
    meta: &ChunkUploadRequest,
    payload: Vec<u8>,
    now: u64,
) -> (r: Result<(ChunkUploadResponse, Option<FinalizePlan>), UploadError>)
    requires
        old(store).wf(),
    ensures
        final(store).wf(),
        exists|ut: Seq<char>, ct: Seq<char>|
            #[trigger] receive_outcome(
                *old(store),
                *final(store),
                *registry,
                *config,
                AssetClass::Thumbnail,
                *meta,
                payload,
                now,
                ut,
                ct,
                r,
            ),
        payload@.len() > spec_chunk_limit(AssetClass::Thumbnail) ==> (r matches Err(e)
            && e == UploadError::OversizedChunk)
            && final(store).sessions@ == old(store).sessions@,
        payload@.len() <= spec_chunk_limit(AssetClass::Thumbnail) && meta.total_size
            > spec_size_limit(AssetClass::Thumbnail, *config) ==> (r matches Err(e)
            && e == UploadError::OversizedFile)
            && final(store).sessions@ == old(store).sessions@,
{
    let upload_token = fresh_token();
    let content_token = fresh_token();
    let ghost ut = upload_token@;
    let ghost ct = content_token@;
    let r = process_chunk(
        store,
        registry,
        config,
        AssetClass::Thumbnail,
        meta,
        payload,
        now,
        upload_token,
        content_token.as_str(),
    );
    proof {
        assert(receive_outcome(
            *old(store),
            *store,
            *registry,
            *config,
            AssetClass::Thumbnail,
            *meta,
            payload,
            now,
            ut,
            ct,
            r,
        ));
    }
    r
}

/// Receives one channel-image chunk; see `upload_video_chunk`.
pub fn upload_channel_image_chunk(
    store: &mut SessionStore,
    registry: &VolumeRegistry,
    config: &UploadConfig,
    meta: &ChunkUploadRequest,
    payload: Vec<u8>,
    now: u64,
) -> (r: Result<(ChunkUploadResponse, Option<FinalizePlan>), UploadError>)
    requires
        old(store).wf(),
    ensures
        final(store).wf(),
        exists|ut: Seq<char>, ct: Seq<char>|
            #[trigger] receive_outcome(
                *old(store),
                *final(store),
                *registry,
                *config,
                AssetClass::ChannelImage,
                *meta,
                payload,
                now,
                ut,
                ct,
                r,
            ),
        payload@.len() > spec_chunk_limit(AssetClass::ChannelImage) ==> (r matches Err(e)
            && e == UploadError::OversizedChunk)
            && final(store).sessions@ == old(store).sessions@,
        payload@.len() <= spec_chunk_limit(AssetClass::ChannelImage) && meta.total_size
            > spec_size_limit(AssetClass::ChannelImage, *config) ==> (r matches Err(e)
            && e == UploadError::OversizedFile)
            && final(store).sessions@ == old(store).sessions@,
{
    let upload_token = fresh_token();
    let content_token = fresh_token();
    let ghost ut = upload_token@;
    let ghost ct = content_token@;
    let r = process_chunk(
        store,
        registry,
        config,
        AssetClass::ChannelImage,
        meta,
        payload,
        now,
        upload_token,
        content_token.as_str(),
    );
    proof {
        assert(receive_outcome(
            *old(store),
            *store,
            *registry,
            *config,
            AssetClass::ChannelImage,
            *meta,
            payload,
            now,
            ut,
            ct,
            r,
        ));
    }
    r
}

/// A pure status read: which chunks are in (ascending), how many are
/// declared, and whether the upload is complete. Unknown ids are not found.
pub fn get_upload_status(store: &SessionStore, upload_id: &String) -> (r: Result<
    UploadStatusResponse,
    UploadError,
>)
    requires
        store.wf(),
    ensures
        match r {
            Err(e) => e == UploadError::NotFound && !store.contains_id(upload_id@),
            Ok(resp) => store.contains_id(upload_id@) && {
                let s = store.sessions@[store.session_index(upload_id@)];
                &&& resp.upload_id@ == upload_id@
                &&& resp.total_chunks == s.total_chunks
                &&& resp.completed == s.complete()
                &&& resp.file_path is None
                &&& forall|a: int, b: int|
                    0 <= a < b < resp.uploaded_chunks@.len()
                        ==> resp.uploaded_chunks@[a] < resp.uploaded_chunks@[b]
                &&& forall|a: int|
                    0 <= a < resp.uploaded_chunks@.len()
                        ==> s.received(#[trigger] resp.uploaded_chunks@[a] as int)
                &&& forall|k: int|
                    1 <= k <= s.total_chunks && s.received(k)
                        ==> resp.uploaded_chunks@.contains(k as u32)
            },
        },
{
    let i = match store.find(upload_id) {
        None => {
            return Err(UploadError::NotFound);
        },
        Some(i) => i,
    };
    let s = &store.sessions[i];
    let uploaded_chunks = s.received_chunks();
    let completed = s.is_complete();
    Ok(UploadStatusResponse {
        upload_id: upload_id.clone(),
        uploaded_chunks,
        total_chunks: s.total_chunks,
        completed,
        file_path: None,
    })
}

/// Cancels an upload: its session and every staged chunk are dropped. An
/// unknown id reports not-found — there was nothing to cancel.
pub fn cancel_upload(store: &mut SessionStore, upload_id: &String) -> (r: Result<
    (),
    UploadError,
>)
    requires
        old(store).wf(),
    ensures
        final(store).wf(),
        ({
            let pre = *old(store);
            let post = *final(store);
            if !pre.contains_id(upload_id@) {
                &&& r matches Err(e) && e == UploadError::NotFound
                &&& post.sessions@ == pre.sessions@
            } else {
                &&& r matches Ok(u) && u == ()
                &&& post.sessions@ == pre.sessions@.remove(pre.session_index(upload_id@))
                &&& !post.contains_id(upload_id@)
            }
        }),
{
    let i = match store.find(upload_id) {
        None => {
            return Err(UploadError::NotFound);
        },
        Some(i) => i,
    };
    store.remove_at(i);
    Ok(())
}

} // verus!
