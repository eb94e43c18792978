//! Transfer planning: single-shot versus multi-part, chunk boundaries,
//! part numbering and progress accounting.
//!
//! The physical calls (open a multi-part session, upload a part, complete
//! the session, presign a link) happen outside the library. The caller
//! drives a `MultipartUpload` value: ask `next_part` which bytes to send,
//! perform the send, then `record_part` with the returned integrity token.
//! The machine guarantees that parts are numbered 1, 2, ... with no gaps or
//! repeats, that part sizes partition the file exactly, and that when the
//! file is consumed the completion list holds exactly `ceil(size / part
//! size)` entries in ascending part-number order.

use vstd::prelude::*;

verus! {

/// Fixed size of every part but the last in a multi-part transfer (5 MiB,
/// the minimum most object stores accept for all but the final part).
pub const PART_SIZE: u64 = 5 * 1024 * 1024;

/// Files strictly larger than this (4 GiB) use the multi-part path.
pub const MULTIPART_THRESHOLD: u64 = 4294967296;

/// How a transfer request is carried out.
#[derive(Debug, Clone, Copy, PartialEq, Eq, Structural)]
pub enum UploadMode {
    /// The object is already there and identical: only re-sign a link.
    PresignOnly,
    /// Stream the whole file as one request body.
    SinglePut,
    /// Open a multi-part session and send fixed-size chunks.
    Multipart,
}

/// The transfer mode for a file: skip-and-relink when the decision engine
/// said so, multi-part for files strictly larger than the threshold,
/// single-shot otherwise.
pub open spec fn spec_upload_mode(file_size: u64, just_presign: bool) -> UploadMode {
    if just_presign {
        UploadMode::PresignOnly
    } else if file_size > MULTIPART_THRESHOLD {
        UploadMode::Multipart
    } else {
        UploadMode::SinglePut
    }
}

/// Picks the transfer mode from the file size and the sync decision.
pub fn choose_upload_mode(file_size: u64, just_presign: bool) -> (m: UploadMode)
    ensures
        m == spec_upload_mode(file_size, just_presign),
{
    if just_presign {
        UploadMode::PresignOnly
    } else if file_size > MULTIPART_THRESHOLD {
        UploadMode::Multipart
    } else {
        UploadMode::SinglePut
    }
}

/// Number of parts a multi-part transfer of a file of this size uploads:
/// the file size divided by the part size, rounded up.
pub open spec fn spec_num_parts(file_size: u64) -> int {
    (file_size + PART_SIZE - 1) / (PART_SIZE as int)
}

/// Byte count of part `i` (0-based): the fixed part size, except that the
/// last part carries only what remains.
pub open spec fn spec_part_len(file_size: u64, i: int) -> int {
    if file_size - i * PART_SIZE < PART_SIZE {
        file_size - i * PART_SIZE
    } else {
        PART_SIZE as int
    }
}

/// Total byte count of the first `k` parts.
pub open spec fn spec_sum_part_lens(file_size: u64, k: int) -> int
    decreases k,
{
    if k <= 0 {
        0
    } else {
        spec_sum_part_lens(file_size, k - 1) + spec_part_len(file_size, k - 1)
    }
}

/// The part count is the least number of `PART_SIZE` chunks covering the
/// file: `n * PART_SIZE` reaches the size and `(n - 1) * PART_SIZE` falls
/// short of it.
pub proof fn lemma_num_parts_bounds(file_size: u64)
    ensures
        spec_num_parts(file_size) >= 0,
        spec_num_parts(file_size) * PART_SIZE >= file_size,
        (spec_num_parts(file_size) - 1) * PART_SIZE < file_size,
        file_size == 0 ==> spec_num_parts(file_size) == 0,
{
    let s = file_size as int;
    let p = PART_SIZE as int;
    let n = spec_num_parts(file_size);
    assert(n == (s + p - 1) / p);
    assert(p * n + (s + p - 1) % p == s + p - 1 && 0 <= (s + p - 1) % p < p)
        by (nonlinear_arith)
        requires
            n == (s + p - 1) / p,
            p == PART_SIZE as int,
            s >= 0,
    ;
    assert(n * p == s + p - 1 - ((s + p - 1) % p)) by (nonlinear_arith)
        requires
            p * n + (s + p - 1) % p == s + p - 1,
    ;
    assert(n * p >= s);
    assert((n - 1) * p == n * p - p) by (nonlinear_arith);
    assert((n - 1) * p < s);
    if n < 0 {
        assert(n * p <= -p) by (nonlinear_arith)
            requires
                n <= -1,
                p > 0,
        ;
    }
    if file_size == 0 && n > 0 {
        assert((n - 1) * p >= 0) by (nonlinear_arith)
            requires
                n >= 1,
                p > 0,
        ;
    }
}

/// The first `k` parts cover exactly `min(k * PART_SIZE, file_size)` bytes.
pub proof fn lemma_sum_part_lens(file_size: u64, k: int)
    requires
        0 <= k <= spec_num_parts(file_size),
    ensures
        spec_sum_part_lens(file_size, k) == if k * PART_SIZE <= file_size {
            k * PART_SIZE as int
        } else {
            file_size as int
        },
    decreases k,
{
    let s = file_size as int;
    let p = PART_SIZE as int;
    let n = spec_num_parts(file_size);
    if k == 0 {
        assert(spec_sum_part_lens(file_size, 0) == 0);
        assert(k * PART_SIZE as int == 0) by (nonlinear_arith)
            requires
                k == 0,
        ;
    }
    if k > 0 {
        lemma_sum_part_lens(file_size, k - 1);
        lemma_num_parts_bounds(file_size);
        assert((k - 1) * p < s) by (nonlinear_arith)
            requires
                k - 1 <= n - 1,
                (n - 1) * p < s,
                p > 0,
        ;
        assert((k - 1) * p == k * p - p) by (nonlinear_arith);
        assert(spec_sum_part_lens(file_size, k - 1) == (k - 1) * p);
        if s - (k - 1) * p < p {
            assert(spec_part_len(file_size, k - 1) == s - (k - 1) * p);
            assert(spec_sum_part_lens(file_size, k) == s);
            assert(k * p > s);
        } else {
            assert(spec_part_len(file_size, k - 1) == p);
            assert(spec_sum_part_lens(file_size, k) == k * p);
            assert(k * p <= s);
        }
    }
}

/// Multi-part partition law: for a file of size `S` split into parts of
/// `PART_SIZE`, the part count is `S / PART_SIZE` rounded up, every part
/// except the last carries exactly `PART_SIZE` bytes, every part is
/// non-empty and no larger than `PART_SIZE`, and the per-part byte counts
/// sum to exactly `S`.
pub proof fn lemma_part_partition(file_size: u64)
    ensures
        spec_sum_part_lens(file_size, spec_num_parts(file_size)) == file_size,
        forall|i: int|
            0 <= i < spec_num_parts(file_size) ==> 1 <= #[trigger] spec_part_len(file_size, i)
                <= PART_SIZE,
        forall|i: int|
            0 <= i < spec_num_parts(file_size) - 1 ==> #[trigger] spec_part_len(file_size, i)
                == PART_SIZE,
{
    let s = file_size as int;
    let p = PART_SIZE as int;
    let n = spec_num_parts(file_size);
    lemma_num_parts_bounds(file_size);
    lemma_sum_part_lens(file_size, n);
    assert forall|i: int| 0 <= i < n implies 1 <= #[trigger] spec_part_len(file_size, i)
        <= p by {
        assert(i * p <= (n - 1) * p) by (nonlinear_arith)
            requires
                i <= n - 1,
                p > 0,
        ;
    }
    assert forall|i: int| 0 <= i < n - 1 implies #[trigger] spec_part_len(file_size, i)
        == p by {
        assert(i * p + p <= (n - 1) * p) by (nonlinear_arith)
            requires
                i + 1 <= n - 1,
                p > 0,
        ;
    }
}

/// A finished part: its 1-based number and the integrity token the store
/// returned for it.
pub struct CompletedPartRecord {
    pub part_number: u64,
    pub e_tag: String,
}

/// What the caller must send next: `length` bytes read from `offset`,
/// uploaded under `part_number`.
pub struct PartRequest {
    pub part_number: u64,
    pub offset: u64,
    pub length: u64,
}

/// Sequential multi-part transfer state: the file position reached so far
/// and the parts completed, in ascending part-number order.
pub struct MultipartUpload {
    pub file_size: u64,
    pub position: u64,
    pub parts: Vec<CompletedPartRecord>,
}

impl MultipartUpload {
    /// Invariant: the position equals the bytes covered by the recorded
    /// parts, every recorded part before the last was full, and the parts
    /// are numbered 1, 2, ... in order.
    pub open spec fn wf(self) -> bool {
        &&& self.position == if self.parts@.len() * PART_SIZE <= self.file_size {
            self.parts@.len() * PART_SIZE as int
        } else {
            self.file_size as int
        }
        &&& self.parts@.len() > 0 ==> (self.parts@.len() - 1) * PART_SIZE < self.file_size
        &&& forall|i: int|
            0 <= i < self.parts@.len() ==> #[trigger] self.parts@[i].part_number == i + 1
    }

    /// The whole file has been carried over.
    pub open spec fn done(self) -> bool {
        self.position == self.file_size
    }

    /// Opens a transfer for a file of the given size, with nothing sent yet.
    pub fn new(file_size: u64) -> (s: Self)
        ensures
            s.wf(),
            s.file_size == file_size,
            s.position == 0,
            s.parts@.len() == 0,
    {
        MultipartUpload { file_size, position: 0, parts: Vec::new() }
    }

    /// Whether every byte of the file has been uploaded.
    pub fn is_done(&self) -> (b: bool)
        ensures
            b == self.done(),
    {
        self.position == self.file_size
    }

    /// The next chunk to upload: `min(PART_SIZE, remaining)` bytes from the
    /// current position, under the next part number — or nothing, when the
    /// file is fully covered.
    pub fn next_part(&self) -> (req: Option<PartRequest>)
        requires
            self.wf(),
        ensures
            self.done() ==> req is None,
            !self.done() ==> (req matches Some(r) && {
                &&& r.part_number == self.parts@.len() + 1
                &&& r.offset == self.position
                &&& r.length == spec_part_len(self.file_size, self.parts@.len() as int)
                &&& 1 <= r.length <= PART_SIZE
            }),
    {
        if self.position == self.file_size {
            return None;
        }
        proof {
            self.lemma_len_bounded();
        }
        let remaining = self.file_size - self.position;
        let length = if remaining < PART_SIZE {
            remaining
        } else {
            PART_SIZE
        };
        let part_number = self.parts.len() as u64 + 1;
        proof {
            let s = self.file_size as int;
            let p = PART_SIZE as int;
            let k = self.parts@.len() as int;
            assert(k * p <= s) by (nonlinear_arith)
                requires
                    self.position == if k * p <= s {
                        k * p
                    } else {
                        s
                    },
                    self.position < s,
            ;
        }
        Some(PartRequest { part_number, offset: self.position, length })
    }

    /// The recorded part count never exceeds what a `u64` part number can
    /// carry: every part but perhaps the last covered `PART_SIZE` bytes of
    /// a file whose size fits in a `u64`.
    proof fn lemma_len_bounded(&self)
        requires
            self.wf(),
        ensures
            self.parts@.len() < u64::MAX,
    {
        let p = PART_SIZE as int;
        let k = self.parts@.len() as int;
        if k > 0 {
            assert(k < u64::MAX) by (nonlinear_arith)
                requires
                    (k - 1) * p < u64::MAX,
                    p == PART_SIZE as int,
            ;
        }
    }

    /// Records the integrity token of the part just uploaded and advances
    /// the position by that part's byte count.
    pub fn record_part(&mut self, e_tag: String)
        requires
            old(self).wf(),
            !old(self).done(),
        ensures
            final(self).wf(),
            final(self).file_size == old(self).file_size,
            !old(self).done() ==> final(self).position == old(self).position + spec_part_len(
                old(self).file_size,
                old(self).parts@.len() as int,
            ),
            final(self).parts@.len() == old(self).parts@.len() + 1,
            final(self).parts@.last().part_number == old(self).parts@.len() + 1,
            final(self).parts@.last().e_tag == e_tag,
            forall|i: int|
                0 <= i < old(self).parts@.len() ==> #[trigger] final(self).parts@[i] == old(
                    self,
                ).parts@[i],
    {
        proof {
            self.lemma_len_bounded();
        }
        let remaining = self.file_size - self.position;
        let length = if remaining < PART_SIZE {
            remaining
        } else {
            PART_SIZE
        };
        let part_number = self.parts.len() as u64 + 1;
        proof {
            let s = self.file_size as int;
            let p = PART_SIZE as int;
            let k = self.parts@.len() as int;
            assert(k * p <= s) by (nonlinear_arith)
                requires
                    self.position == if k * p <= s {
                        k * p
                    } else {
                        s
                    },
                    self.position < s,
            ;
            assert((k + 1) * p == k * p + p) by (nonlinear_arith);
        }
        self.parts.push(CompletedPartRecord { part_number, e_tag });
        self.position = self.position + length;
    }

    /// The completion list, available once the file is fully covered: it
    /// holds exactly one entry per planned part, numbered 1, 2, ... in
    /// ascending order with no gaps or repeats.
    pub fn completed_parts(&self) -> (v: &Vec<CompletedPartRecord>)
        requires
            self.wf(),
            self.done(),
        ensures
            v@.len() == spec_num_parts(self.file_size),
            forall|i: int| 0 <= i < v@.len() ==> #[trigger] v@[i].part_number == i + 1,
            v@ == self.parts@,
    {
        proof {
            let s = self.file_size as int;
            let p = PART_SIZE as int;
            let k = self.parts@.len() as int;
            let n = spec_num_parts(self.file_size);
            lemma_num_parts_bounds(self.file_size);
            assert(k * p >= s) by (nonlinear_arith)
                requires
                    self.position == if k * p <= s {
                        k * p
                    } else {
                        s
                    },
                    self.position == s,
            ;
            if k < n {
                assert(k * p <= (n - 1) * p) by (nonlinear_arith)
                    requires
                        k <= n - 1,
                        p > 0,
                ;
            }
            if k > n {
                assert(n * p <= (k - 1) * p) by (nonlinear_arith)
                    requires
                        n <= k - 1,
                        p > 0,
                ;
                if k > 0 {
                    assert((k - 1) * p < s);
                }
            }
        }
        &self.parts
    }
}

/// Progress accounting for a transfer: bytes written so far against the
/// total expected, which is always known up front.
pub struct ProgressTracker {
    pub bytes_written: u64,
    pub content_length: u64,
}

impl ProgressTracker {
    /// Starts tracking a transfer of `content_length` bytes.
    pub fn new(content_length: u64) -> (t: Self)
        ensures
            t.bytes_written == 0,
            t.content_length == content_length,
    {
        ProgressTracker { bytes_written: 0, content_length }
    }

    /// Accounts for `len` more bytes written. The caller never reports more
    /// than the expected total.
    pub fn track(&mut self, len: u64)
        requires
            old(self).bytes_written + len <= old(self).content_length,
        ensures
            final(self).bytes_written == old(self).bytes_written + len,
            final(self).content_length == old(self).content_length,
    {
        self.bytes_written = self.bytes_written + len;
    }

    /// Whether the transfer has written every expected byte.
    pub fn is_complete(&self) -> (b: bool)
        ensures
            b == (self.bytes_written == self.content_length),
    {
        self.bytes_written == self.content_length
    }
}

} // verus!
