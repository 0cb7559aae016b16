//! The global guarantees of the upload core, stated and proved over the
//! same spec functions the executable contracts use.

use vstd::prelude::*;
use crate::api::ChunkUploadRequest;
use crate::api::ChunkUploadResponse;
use crate::api::UploadError;
use crate::config::AssetClass;
use crate::config::UploadConfig;
use crate::config::spec_chunk_limit;
use crate::config::spec_size_limit;
use crate::finalize::FinalizePlan;
use crate::receiver::effective_id;
use crate::receiver::fresh_session;
use crate::receiver::receive_outcome;
use crate::receiver::stored_session;
use crate::session::UploadSession;
use crate::session::assembled_bytes;
use crate::store::SessionStore;
use crate::volume::VolumeRegistry;

verus! {

/// The chunk table after a sequence of deliveries, each recording its
/// payload under its chunk number, later deliveries overwriting earlier
/// ones.
pub open spec fn apply_deliveries(
    chunks0: Seq<Option<Vec<u8>>>,
    ds: Seq<(u32, Vec<u8>)>,
) -> Seq<Option<Vec<u8>>>
    decreases ds.len(),
{
    if ds.len() == 0 {
        chunks0
    } else {
        apply_deliveries(chunks0, ds.drop_last()).update(
            ds.last().0 - 1,
            Some(ds.last().1),
        )
    }
}

/// Chunk number `k` occurs somewhere in the delivery sequence.
pub open spec fn delivered(ds: Seq<(u32, Vec<u8>)>, k: int) -> bool {
    exists|a: int| 0 <= a < ds.len() && (#[trigger] ds[a]).0 == k
}

/// Every delivery is in range and carries the payload that belongs to its
/// chunk number.
pub open spec fn deliveries_of(
    ds: Seq<(u32, Vec<u8>)>,
    n: int,
    f: spec_fn(int) -> Vec<u8>,
) -> bool {
    forall|a: int|
        0 <= a < ds.len() ==> 1 <= (#[trigger] ds[a]).0 <= n && ds[a].1 == f(ds[a].0 as int)
}

/// Recording one chunk in a session is one delivery applied to its chunk
/// table: the executable receive path realizes `apply_deliveries` step by
/// step.
pub proof fn lemma_store_chunk_is_delivery(
    s0: UploadSession,
    s1: UploadSession,
    number: u32,
    payload: Vec<u8>,
)
    requires
        stored_session(s0, s1, number, payload),
    ensures
        s1.chunks@ == apply_deliveries(s0.chunks@, seq![(number, payload)]),
{
    let ds = seq![(number, payload)];
    assert(ds.last() == (number, payload));
    assert(ds.drop_last().len() == 0);
    assert(apply_deliveries(s0.chunks@, ds.drop_last()) == s0.chunks@);
}

/// What a delivery sequence leaves in each slot: the payload belonging to
/// the chunk number if the chunk was delivered at least once — no matter in
/// which order or how often — and nothing otherwise.
pub proof fn lemma_deliveries_determined(
    chunks0: Seq<Option<Vec<u8>>>,
    ds: Seq<(u32, Vec<u8>)>,
    f: spec_fn(int) -> Vec<u8>,
)
    requires
        forall|j: int| 0 <= j < chunks0.len() ==> chunks0[j] is None,
        deliveries_of(ds, chunks0.len() as int, f),
    ensures
        apply_deliveries(chunks0, ds).len() == chunks0.len(),
        forall|k: int|
            1 <= k <= chunks0.len() ==> #[trigger] apply_deliveries(chunks0, ds)[k - 1]
                == (if delivered(ds, k) {
                    Some(f(k))
                } else {
                    None::<Vec<u8>>
                }),
    decreases ds.len(),
{
    if ds.len() == 0 {
        assert forall|k: int| 1 <= k <= chunks0.len() implies !delivered(ds, k) by {}
    } else {
        let front = ds.drop_last();
        let d = ds.last();
        assert(deliveries_of(front, chunks0.len() as int, f));
        lemma_deliveries_determined(chunks0, front, f);
        let cur = apply_deliveries(chunks0, ds);
        let prev = apply_deliveries(chunks0, front);
        assert(ds[ds.len() - 1] == d);
        assert forall|k: int| 1 <= k <= chunks0.len() implies #[trigger] cur[k - 1]
            == (if delivered(ds, k) {
                Some(f(k))
            } else {
                None::<Vec<u8>>
            }) by {
            if k == d.0 {
                assert(cur[k - 1] == Some(d.1));
                assert(delivered(ds, k));
            } else {
                assert(cur[k - 1] == prev[k - 1]);
                if delivered(ds, k) {
                    let a = choose|a: int| 0 <= a < ds.len() && (#[trigger] ds[a]).0 == k;
                    assert(front[a] == ds[a]);
                    assert(delivered(front, k));
                } else if delivered(front, k) {
                    let a = choose|a: int| 0 <= a < front.len() && (#[trigger] front[a]).0 == k;
                    assert(ds[a] == front[a]);
                }
            }
        }
    }
}

/// Delivering the chunks of an upload in any order, with any number of
/// duplicate retransmissions, yields the same chunk table and therefore the
/// same assembled content, as long as every chunk is delivered at least once
/// and each chunk number always carries the same payload.
pub proof fn lemma_assembly_order_independent(
    chunks0: Seq<Option<Vec<u8>>>,
    ds1: Seq<(u32, Vec<u8>)>,
    ds2: Seq<(u32, Vec<u8>)>,
    f: spec_fn(int) -> Vec<u8>,
)
    requires
        forall|j: int| 0 <= j < chunks0.len() ==> chunks0[j] is None,
        deliveries_of(ds1, chunks0.len() as int, f),
        deliveries_of(ds2, chunks0.len() as int, f),
        forall|k: int| 1 <= k <= chunks0.len() ==> delivered(ds1, k) && delivered(ds2, k),
    ensures
        apply_deliveries(chunks0, ds1) == apply_deliveries(chunks0, ds2),
        assembled_bytes(apply_deliveries(chunks0, ds1), chunks0.len() as int)
            == assembled_bytes(apply_deliveries(chunks0, ds2), chunks0.len() as int),
{
    lemma_deliveries_determined(chunks0, ds1, f);
    lemma_deliveries_determined(chunks0, ds2, f);
    let c1 = apply_deliveries(chunks0, ds1);
    let c2 = apply_deliveries(chunks0, ds2);
    assert forall|j: int| 0 <= j < c1.len() implies c1[j] == c2[j] by {
        let k = j + 1;
        assert(c1[k - 1] == (if delivered(ds1, k) {
            Some(f(k))
        } else {
            None::<Vec<u8>>
        }));
        assert(c2[k - 1] == (if delivered(ds2, k) {
            Some(f(k))
        } else {
            None::<Vec<u8>>
        }));
    }
    assert(c1 =~= c2);
}

/// The finalize claim is exclusive: a store in the state that a successful
/// `begin_finalize` leaves behind answers any further claim attempt on the
/// same upload from its `finalized` flag, so `begin_finalize`'s contract
/// forces every later call to return `AlreadyFinalized` and change nothing.
pub proof fn lemma_finalize_claim_exclusive(pre: SessionStore, mid: SessionStore, id: Seq<char>)
    requires
        pre.wf(),
        mid.wf(),
        pre.contains_id(id),
        mid.sessions@.len() == pre.sessions@.len(),
        mid.sessions@[pre.session_index(id)].same_metadata(
            pre.sessions@[pre.session_index(id)],
        ),
        mid.sessions@[pre.session_index(id)].finalized,
    ensures
        mid.contains_id(id),
        mid.sessions@[mid.session_index(id)].finalized,
{
    let i = pre.session_index(id);
    assert(mid.sessions@[i].upload_id@ == id);
    mid.lemma_index_unique(id, i);
}

/// Usage is accounted exactly once: a successful `commit_finalize` removes
/// the session, so the store it leaves behind no longer contains the upload
/// id, and `begin_finalize` and `commit_finalize` alike can only answer
/// `NotFound` for it — the registry cannot be charged a second time.
pub proof fn lemma_commit_consumes_session(mid: SessionStore, post: SessionStore, id: Seq<char>)
    requires
        mid.wf(),
        post.wf(),
        mid.contains_id(id),
        post.sessions@ == mid.sessions@.remove(mid.session_index(id)),
    ensures
        !post.contains_id(id),
{
    let i = mid.session_index(id);
    if post.contains_id(id) {
        let j = post.session_index(id);
        assert(post.sessions@[j].upload_id@ == id);
        let j0: int = if j < i {
            j
        } else {
            j + 1
        };
        assert(post.sessions@[j] == mid.sessions@[j0]);
        assert(mid.sessions@[j0].upload_id@ == mid.sessions@[i].upload_id@);
        assert(j0 != i);
    }
}

/// A reaped upload restarts from scratch: once the reaper has removed a
/// session (its id is absent), the next valid chunk delivery under that id
/// opens a brand-new session holding only the newly delivered chunk.
pub proof fn lemma_reaped_upload_restarts_fresh(
    pre: SessionStore,
    post: SessionStore,
    registry: VolumeRegistry,
    config: UploadConfig,
    class: AssetClass,
    meta: ChunkUploadRequest,
    payload: Vec<u8>,
    now: u64,
    upload_token: Seq<char>,
    content_token: Seq<char>,
    r: Result<(ChunkUploadResponse, Option<FinalizePlan>), UploadError>,
)
    requires
        !pre.contains_id(effective_id(meta, upload_token)),
        payload@.len() <= spec_chunk_limit(class),
        meta.total_size <= spec_size_limit(class, config),
        1 <= meta.chunk_number <= meta.total_chunks,
        receive_outcome(
            pre,
            post,
            registry,
            config,
            class,
            meta,
            payload,
            now,
            upload_token,
            content_token,
            r,
        ),
    ensures
        post.sessions@.len() == pre.sessions@.len() + 1,
        fresh_session(
            post.sessions@[pre.sessions@.len() as int],
            effective_id(meta, upload_token),
            meta,
            payload,
            now,
        ),
{
}

} // verus!
