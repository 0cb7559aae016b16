//! One in-flight upload: declared metadata plus the chunks received so far.
//!
//! Chunk numbers are 1-based and client-sequential. Receipt is keyed by
//! chunk number with last-write-wins payloads, so re-delivery overwrites and
//! never corrupts state; the received set only grows. Once `finalized` is
//! set the session is terminal: it has been claimed for assembly and no
//! further chunk mutates it.

use vstd::prelude::*;

verus! {

/// The server-side record of one logical file transfer split across chunks.
pub struct UploadSession {
    pub upload_id: String,
    pub file_name: String,
    pub chunk_size: u64,
    pub total_chunks: u32,
    pub total_size: u64,
    pub created_at: u64,
    pub finalized: bool,
    /// Slot `k - 1` holds the payload of chunk `k`, or `None` until it arrives.
    pub chunks: Vec<Option<Vec<u8>>>,
}

/// The bytes of all chunks of `chunks[0..n]` that are present, concatenated
/// in ascending chunk-number order.
pub open spec fn assembled_bytes(chunks: Seq<Option<Vec<u8>>>, n: int) -> Seq<u8>
    decreases n,
{
    if n <= 0 {
        Seq::empty()
    } else {
        assembled_bytes(chunks, n - 1) + match chunks[n - 1] {
            Some(data) => data@,
            None => Seq::empty(),
        }
    }
}

impl UploadSession {
    /// Declared metadata is sane and the chunk table matches it.
    pub open spec fn wf(self) -> bool {
        &&& self.total_chunks >= 1
        &&& self.chunks@.len() == self.total_chunks
    }

    /// Chunk number `k` has been received.
    pub open spec fn received(self, k: int) -> bool {
        1 <= k <= self.chunks@.len() && self.chunks@[k - 1] is Some
    }

    /// Every chunk `1..=total_chunks` has been received.
    pub open spec fn complete(self) -> bool {
        forall|k: int| 1 <= k <= self.total_chunks ==> self.received(k)
    }

    /// The metadata fields that are fixed on creation, equal in both sessions.
    pub open spec fn same_metadata(self, other: UploadSession) -> bool {
        &&& self.upload_id@ == other.upload_id@
        &&& self.file_name@ == other.file_name@
        &&& self.chunk_size == other.chunk_size
        &&& self.total_chunks == other.total_chunks
        &&& self.total_size == other.total_size
        &&& self.created_at == other.created_at
    }

    /// Opens a fresh session with the declared metadata and no chunk received.
    pub fn new(
        upload_id: String,
        file_name: String,
        chunk_size: u64,
        total_chunks: u32,
        total_size: u64,
        created_at: u64,
    ) -> (s: UploadSession)
        requires
            total_chunks >= 1,
        ensures
            s.wf(),
            s.upload_id@ == upload_id@,
            s.file_name@ == file_name@,
            s.chunk_size == chunk_size,
            s.total_chunks == total_chunks,
            s.total_size == total_size,
            s.created_at == created_at,
            !s.finalized,
            forall|k: int| !s.received(k),
    {
        let mut chunks: Vec<Option<Vec<u8>>> = Vec::new();
        let mut i: u32 = 0;
        while i < total_chunks
            invariant
                0 <= i <= total_chunks,
                chunks@.len() == i,
                forall|j: int| 0 <= j < i ==> chunks@[j] is None,
            decreases total_chunks - i,
        {
            chunks.push(None);
            i = i + 1;
        }
        UploadSession {
            upload_id,
            file_name,
            chunk_size,
            total_chunks,
            total_size,
            created_at,
            finalized: false,
            chunks,
        }
    }

    /// Records the payload of chunk `number`, overwriting any earlier
    /// delivery of the same number and touching no other chunk.
    pub fn store_chunk(&mut self, number: u32, data: Vec<u8>)
        requires
            old(self).wf(),
            1 <= number <= old(self).total_chunks,
        ensures
            final(self).wf(),
            final(self).same_metadata(*old(self)),
            final(self).finalized == old(self).finalized,
            final(self).chunks@ == old(self).chunks@.update(number - 1, Some(data)),
    {
        self.chunks.set((number - 1) as usize, Some(data));
    }

    /// The received chunk numbers, in ascending order with no duplicates.
    pub fn received_chunks(&self) -> (r: Vec<u32>)
        requires
            self.wf(),
        ensures
            forall|a: int, b: int| 0 <= a < b < r@.len() ==> r@[a] < r@[b],
            forall|a: int| 0 <= a < r@.len() ==> self.received(#[trigger] r@[a] as int),
            forall|k: int| 1 <= k <= self.total_chunks && self.received(k) ==> r@.contains(k as u32),
    {
        let mut r: Vec<u32> = Vec::new();
        let mut i: usize = 0;
        while i < self.chunks.len()
            invariant
                self.wf(),
                0 <= i <= self.chunks@.len(),
                forall|a: int, b: int| 0 <= a < b < r@.len() ==> r@[a] < r@[b],
                forall|a: int| 0 <= a < r@.len() ==> 1 <= #[trigger] r@[a] <= i,
                forall|a: int| 0 <= a < r@.len() ==> self.received(#[trigger] r@[a] as int),
                forall|k: int| 1 <= k <= i && self.received(k) ==> r@.contains(k as u32),
            decreases self.chunks@.len() - i,
        {
            let ghost r0 = r@;
            if self.chunks[i].is_some() {
                r.push((i + 1) as u32);
                proof {
                    assert(r@[r0.len() as int] == (i + 1) as u32);
                    assert forall|k: int| 1 <= k <= i + 1 && self.received(k)
                        implies r@.contains(k as u32) by {
                        if k <= i {
                            assert(r0.contains(k as u32));
                            let a = choose|a: int| 0 <= a < r0.len() && r0[a] == k as u32;
                            assert(r@[a] == k as u32);
                        }
                    }
                }
            }
            i = i + 1;
        }
        r
    }

    /// The lowest chunk number not yet received, letting the client resume
    /// precisely; `None` exactly when the session is complete.
    pub fn next_missing(&self) -> (r: Option<u32>)
        requires
            self.wf(),
        ensures
            r is None <==> self.complete(),
            r matches Some(k) ==> {
                &&& 1 <= k <= self.total_chunks
                &&& !self.received(k as int)
                &&& forall|j: int| 1 <= j < k ==> self.received(j)
            },
    {
        let mut i: usize = 0;
        while i < self.chunks.len()
            invariant
                self.wf(),
                0 <= i <= self.chunks@.len(),
                forall|j: int| 1 <= j <= i ==> self.received(j),
            decreases self.chunks@.len() - i,
        {
            if self.chunks[i].is_none() {
                assert(!self.received(i + 1));
                return Some((i + 1) as u32);
            }
            i = i + 1;
        }
        None
    }

    /// Whether every declared chunk has been received.
    pub fn is_complete(&self) -> (r: bool)
        requires
            self.wf(),
        ensures
            r == self.complete(),
    {
        self.next_missing().is_none()
    }

    /// Concatenates the received chunks strictly in ascending chunk-number
    /// order into the assembled asset.
    pub fn assemble(&self) -> (r: Vec<u8>)
        requires
            self.wf(),
        ensures
            r@ == assembled_bytes(self.chunks@, self.total_chunks as int),
    {
        let mut r: Vec<u8> = Vec::new();
        let mut i: usize = 0;
        while i < self.chunks.len()
            invariant
                self.wf(),
                0 <= i <= self.chunks@.len(),
                r@ == assembled_bytes(self.chunks@, i as int),
            decreases self.chunks@.len() - i,
        {
            match &self.chunks[i] {
                Some(data) => {
                    let mut j: usize = 0;
                    while j < data.len()
                        invariant
                            0 <= j <= data@.len(),
                            r@ == assembled_bytes(self.chunks@, i as int)
                                + data@.subrange(0, j as int),
                            self.wf(),
                            i < self.chunks@.len(),
                            self.chunks@[i as int] matches Some(d) && d == data,
                        decreases data@.len() - j,
                    {
                        r.push(data[j]);
                        proof {
                            assert(data@.subrange(0, j + 1)
                                =~= data@.subrange(0, j as int).push(data@[j as int]));
                        }
                        j = j + 1;
                    }
                    proof {
                        assert(data@.subrange(0, data@.len() as int) =~= data@);
                    }
                },
                None => {},
            }
            i = i + 1;
        }
        r
    }
}

} // verus!
