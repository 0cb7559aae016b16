//! The keyed store of in-flight upload sessions.
//!
//! Sessions are keyed by upload id, unique across the store. The store is
//! the explicit, single-writer form of the staging state: every mutation of
//! a session goes through it, and the reaper sweep removes exactly the
//! sessions older than the retention window.

use vstd::prelude::*;
use crate::session::UploadSession;

verus! {

/// How long a stalled upload is kept before the reaper reclaims it.
pub const RETENTION_SECS: u64 = 24 * 60 * 60;

/// A session is abandoned once it is older than the retention window.
pub open spec fn expired(s: UploadSession, now: u64) -> bool {
    s.created_at + RETENTION_SECS < now
}

pub struct SessionStore {
    pub sessions: Vec<UploadSession>,
}

impl SessionStore {
    /// Every session is well formed and no two share an upload id.
    pub open spec fn wf(self) -> bool {
        &&& forall|i: int| 0 <= i < self.sessions@.len() ==> (#[trigger] self.sessions@[i]).wf()
        &&& forall|i: int, j: int|
            0 <= i < j < self.sessions@.len()
                ==> self.sessions@[i].upload_id@ != self.sessions@[j].upload_id@
    }

    pub open spec fn contains_id(self, id: Seq<char>) -> bool {
        exists|i: int|
            0 <= i < self.sessions@.len() && (#[trigger] self.sessions@[i]).upload_id@ == id
    }

    /// The index of the session with a given id; meaningful only when the id
    /// is present, and unique then because ids are unique.
    pub open spec fn session_index(self, id: Seq<char>) -> int {
        choose|i: int|
            0 <= i < self.sessions@.len() && (#[trigger] self.sessions@[i]).upload_id@ == id
    }

    /// In a well-formed store, any session matching `id` sits at
    /// `session_index(id)`.
    pub proof fn lemma_index_unique(self, id: Seq<char>, i: int)
        requires
            self.wf(),
            0 <= i < self.sessions@.len(),
            self.sessions@[i].upload_id@ == id,
        ensures
            self.contains_id(id),
            self.session_index(id) == i,
    {
        let k = self.session_index(id);
        if k != i {
            assert(self.sessions@[k].upload_id@ != self.sessions@[i].upload_id@);
        }
    }

    pub fn new() -> (r: SessionStore)
        ensures
            r.wf(),
            r.sessions@.len() == 0,
    {
        SessionStore { sessions: Vec::new() }
    }

    /// Looks an upload id up, returning the index of its session.
    pub fn find(&self, id: &String) -> (r: Option<usize>)
        requires
            self.wf(),
        ensures
            match r {
                Some(i) => {
                    &&& i < self.sessions@.len()
                    &&& self.sessions@[i as int].upload_id@ == id@
                    &&& self.contains_id(id@)
                    &&& self.session_index(id@) == i
                },
                None => !self.contains_id(id@),
            },
    {
        let mut i: usize = 0;
        while i < self.sessions.len()
            invariant
                self.wf(),
                0 <= i <= self.sessions@.len(),
                forall|j: int| 0 <= j < i ==> (#[trigger] self.sessions@[j]).upload_id@ != id@,
            decreases self.sessions@.len() - i,
        {
            if self.sessions[i].upload_id == *id {
                proof {
                    self.lemma_index_unique(id@, i as int);
                }
                return Some(i);
            }
            i = i + 1;
        }
        None
    }

    /// Inserts a session whose id is not yet present.
    pub fn insert_new(&mut self, s: UploadSession)
        requires
            old(self).wf(),
            s.wf(),
            !old(self).contains_id(s.upload_id@),
        ensures
            final(self).wf(),
            final(self).sessions@ == old(self).sessions@.push(s),
            final(self).contains_id(s.upload_id@),
            final(self).session_index(s.upload_id@) == old(self).sessions@.len(),
    {
        self.sessions.push(s);
        proof {
            assert forall|i: int, j: int| 0 <= i < j < self.sessions@.len()
                implies self.sessions@[i].upload_id@ != self.sessions@[j].upload_id@ by {
                if j == self.sessions@.len() - 1 {
                    assert(!old(self).contains_id(s.upload_id@));
                    assert(old(self).sessions@[i].upload_id@ != s.upload_id@);
                }
            }
            self.lemma_index_unique(s.upload_id@, self.sessions@.len() - 1);
        }
    }

    /// Records the payload of chunk `number` in the session at index `i`,
    /// leaving every other session untouched.
    pub fn store_chunk_at(&mut self, i: usize, number: u32, data: Vec<u8>)
        requires
            old(self).wf(),
            i < old(self).sessions@.len(),
            1 <= number <= old(self).sessions@[i as int].total_chunks,
        ensures
            final(self).wf(),
            final(self).sessions@.len() == old(self).sessions@.len(),
            final(self).sessions@[i as int].same_metadata(old(self).sessions@[i as int]),
            final(self).sessions@[i as int].finalized == old(self).sessions@[i as int].finalized,
            final(self).sessions@[i as int].chunks@ == old(self).sessions@[i as int].chunks@
                .update(number - 1, Some(data)),
            forall|j: int|
                0 <= j < final(self).sessions@.len() && j != i
                    ==> final(self).sessions@[j] == old(self).sessions@[j],
    {
        let mut s = self.sessions.remove(i);
        s.store_chunk(number, data);
        self.sessions.insert(i, s);
        proof {
            assert(self.sessions@ =~= old(self).sessions@.update(i as int, s));
        }
    }

    /// Marks the session at index `i` as claimed for assembly.
    pub fn claim_at(&mut self, i: usize)
        requires
            old(self).wf(),
            i < old(self).sessions@.len(),
        ensures
            final(self).wf(),
            final(self).sessions@.len() == old(self).sessions@.len(),
            final(self).sessions@[i as int].same_metadata(old(self).sessions@[i as int]),
            final(self).sessions@[i as int].finalized,
            final(self).sessions@[i as int].chunks@ == old(self).sessions@[i as int].chunks@,
            forall|j: int|
                0 <= j < final(self).sessions@.len() && j != i
                    ==> final(self).sessions@[j] == old(self).sessions@[j],
    {
        let mut s = self.sessions.remove(i);
        s.finalized = true;
        self.sessions.insert(i, s);
        proof {
            assert(self.sessions@ =~= old(self).sessions@.update(i as int, s));
        }
    }

    /// Releases the claim on the session at index `i`, so that a failed
    /// assembly can be retried from the intact chunks.
    pub fn release_at(&mut self, i: usize)
        requires
            old(self).wf(),
            i < old(self).sessions@.len(),
        ensures
            final(self).wf(),
            final(self).sessions@.len() == old(self).sessions@.len(),
            final(self).sessions@[i as int].same_metadata(old(self).sessions@[i as int]),
            !final(self).sessions@[i as int].finalized,
            final(self).sessions@[i as int].chunks@ == old(self).sessions@[i as int].chunks@,
            forall|j: int|
                0 <= j < final(self).sessions@.len() && j != i
                    ==> final(self).sessions@[j] == old(self).sessions@[j],
    {
        let mut s = self.sessions.remove(i);
        s.finalized = false;
        self.sessions.insert(i, s);
        proof {
            assert(self.sessions@ =~= old(self).sessions@.update(i as int, s));
        }
    }

    /// Deletes the session at index `i` together with all its chunks.
    pub fn remove_at(&mut self, i: usize)
        requires
            old(self).wf(),
            i < old(self).sessions@.len(),
        ensures
            final(self).wf(),
            final(self).sessions@ == old(self).sessions@.remove(i as int),
            !final(self).contains_id(old(self).sessions@[i as int].upload_id@),
    {
        let ghost id = self.sessions@[i as int].upload_id@;
        self.sessions.remove(i);
        proof {
            if self.contains_id(id) {
                let k = self.session_index(id);
                let k0 = if k < i { k } else { k + 1 };
                assert(old(self).sessions@[k0].upload_id@ == id);
                assert(old(self).sessions@[i as int].upload_id@ == id);
            }
        }
    }
}

/// The reaper sweep: deletes every session older than the retention window,
/// chunks and metadata record alike, and keeps every other session exactly
/// as it was, in order.
pub fn cleanup_expired_uploads(store: &mut SessionStore, now: u64)
    requires
        old(store).wf(),
    ensures
        final(store).wf(),
        forall|j: int|
            0 <= j < final(store).sessions@.len()
                ==> !expired(#[trigger] final(store).sessions@[j], now)
                    && old(store).sessions@.contains(final(store).sessions@[j]),
        forall|k: int|
            0 <= k < old(store).sessions@.len() && !expired(old(store).sessions@[k], now)
                ==> final(store).sessions@.contains(#[trigger] old(store).sessions@[k]),
        forall|k: int|
            0 <= k < old(store).sessions@.len() && expired(old(store).sessions@[k], now)
                ==> !final(store).contains_id((#[trigger] old(store).sessions@[k]).upload_id@),
        forall|k: int|
            0 <= k < old(store).sessions@.len() && !expired(old(store).sessions@[k], now)
                ==> final(store).contains_id((#[trigger] old(store).sessions@[k]).upload_id@),
{
    let mut i: usize = 0;
    while i < store.sessions.len()
        invariant
            store.wf(),
            0 <= i <= store.sessions@.len(),
            forall|j: int| 0 <= j < i ==> !expired(#[trigger] store.sessions@[j], now),
            forall|j: int|
                0 <= j < store.sessions@.len()
                    ==> old(store).sessions@.contains(#[trigger] store.sessions@[j]),
            forall|k: int|
                0 <= k < old(store).sessions@.len() && !expired(old(store).sessions@[k], now)
                    ==> store.sessions@.contains(#[trigger] old(store).sessions@[k]),
        decreases store.sessions@.len() - i,
    {
        let created = store.sessions[i].created_at;
        let is_expired = created <= u64::MAX - RETENTION_SECS && created + RETENTION_SECS < now;
        if is_expired {
            let ghost pre = store.sessions@;
            store.sessions.remove(i);
            proof {
                assert(expired(pre[i as int], now));
                assert forall|j: int| 0 <= j < store.sessions@.len()
                    implies old(store).sessions@.contains(#[trigger] store.sessions@[j])
                        && (j < i ==> !expired(store.sessions@[j], now)) by {
                    if j < i {
                        assert(store.sessions@[j] == pre[j]);
                    } else {
                        assert(store.sessions@[j] == pre[j + 1]);
                    }
                }
                assert forall|k: int|
                    0 <= k < old(store).sessions@.len()
                        && !expired(old(store).sessions@[k], now)
                    implies store.sessions@.contains(#[trigger] old(store).sessions@[k]) by {
                    let a = choose|a: int|
                        0 <= a < pre.len() && pre[a] == old(store).sessions@[k];
                    if a < i {
                        assert(store.sessions@[a] == old(store).sessions@[k]);
                    } else {
                        assert(store.sessions@[a - 1] == old(store).sessions@[k]);
                    }
                }
                assert forall|p: int, q: int| 0 <= p < q < store.sessions@.len()
                    implies store.sessions@[p].upload_id@ != store.sessions@[q].upload_id@ by {
                    let p0: int = if p < i { p } else { p + 1 };
                    let q0: int = if q < i { q } else { q + 1 };
                    assert(store.sessions@[p] == pre[p0]);
                    assert(store.sessions@[q] == pre[q0]);
                }
                assert forall|j: int| 0 <= j < store.sessions@.len()
                    implies (#[trigger] store.sessions@[j]).wf() by {
                    if j < i {
                        assert(store.sessions@[j] == pre[j]);
                    } else {
                        assert(store.sessions@[j] == pre[j + 1]);
                    }
                }
            }
        } else {
            i = i + 1;
        }
    }
    proof {
        assert forall|k: int|
            0 <= k < old(store).sessions@.len() && expired(old(store).sessions@[k], now)
            implies !store.contains_id(old(store).sessions@[k].upload_id@) by {
            let id = old(store).sessions@[k].upload_id@;
            if store.contains_id(id) {
                let j = store.session_index(id);
                assert(store.sessions@[j].upload_id@ == id);
                let k2 = choose|k2: int|
                    0 <= k2 < old(store).sessions@.len()
                        && old(store).sessions@[k2] == store.sessions@[j];
                assert(old(store).sessions@.contains(store.sessions@[j]));
                if k2 != k {
                    assert(old(store).sessions@[k2].upload_id@
                        != old(store).sessions@[k].upload_id@);
                }
                assert(!expired(old(store).sessions@[k2], now));
            }
        }
        assert forall|k: int|
            0 <= k < old(store).sessions@.len() && !expired(old(store).sessions@[k], now)
            implies store.contains_id(old(store).sessions@[k].upload_id@) by {
            let a = choose|a: int|
                0 <= a < store.sessions@.len()
                    && store.sessions@[a] == old(store).sessions@[k];
            assert(store.sessions@[a].upload_id@ == old(store).sessions@[k].upload_id@);
        }
    }
}

} // verus!
