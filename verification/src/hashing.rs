//! Content fingerprinting: a cheap identity signature for a local file.
//!
//! A fingerprint is the MD5 digest of the first `SAMPLE_SIZE` bytes, the MD5
//! digest of the last `SAMPLE_SIZE` bytes, and the file size. For files no
//! larger than `SAMPLE_SIZE` there is no second sample, so the end hash
//! duplicates the start hash. This is a sampled heuristic, not a full-content
//! hash: two different files sharing size and both samples are treated as
//! identical, a deliberate trade-off to avoid hashing multi-gigabyte files.

use vstd::prelude::*;

verus! {

/// Number of bytes sampled from each end of a file when fingerprinting.
pub const SAMPLE_SIZE: u64 = 8192;

/// The lowercase hexadecimal MD5 digest of a byte sequence, as the `md5`
/// crate computes it. Left uninterpreted: the digest is a function of the
/// bytes alone, and writing out the algorithm here would state nothing that
/// could be checked against the outside code.
pub uninterp spec fn md5_hex_of(bytes: Seq<u8>) -> Seq<char>;

/// Relies on `md5::compute` (the digest depends on the input bytes alone)
/// and on the `LowerHex` impl of `md5::Digest`, which prints each of the 16
/// digest bytes as exactly two lowercase hexadecimal digits.
#[verifier::external_body]
fn md5_hex(bytes: &[u8]) -> (r: String)
    ensures
        r@ == md5_hex_of(bytes@),
        r@.len() == 32,
{
    format!("{:x}", md5::compute(bytes))
}

/// MD5 of a file's entire contents, for exact comparison where the sampled
/// fingerprint is not enough. The caller reads the file; this hashes it.
pub fn calculate_file_md5(contents: &[u8]) -> (r: String)
    ensures
        r@ == md5_hex_of(contents@),
        r@.len() == 32,
{
    md5_hex(contents)
}

/// Sampled fingerprint of a local file: head digest, tail digest, size.
pub struct PartialFileHash {
    pub start_hash: String,
    pub end_hash: String,
    pub file_size: u64,
}

/// What the fingerprint of a file must be, given its head sample, its tail
/// sample and its size. For files no larger than `SAMPLE_SIZE` the tail
/// sample is ignored: no second sample exists, and the end hash duplicates
/// the start hash.
pub open spec fn spec_fingerprint(
    start_sample: Seq<u8>,
    end_sample: Seq<u8>,
    file_size: u64,
) -> (Seq<char>, Seq<char>, u64) {
    (
        md5_hex_of(start_sample),
        if file_size > SAMPLE_SIZE {
            md5_hex_of(end_sample)
        } else {
            md5_hex_of(start_sample)
        },
        file_size,
    )
}

/// Which byte ranges of a file the caller must read to fingerprint it.
pub struct SamplePlan {
    /// How many bytes to read from offset 0.
    pub start_len: u64,
    /// Offset of the trailing `SAMPLE_SIZE`-byte sample, present exactly
    /// when the file is larger than `SAMPLE_SIZE`.
    pub tail_offset: Option<u64>,
}

/// Plans the reads for fingerprinting a file of the given size: up to
/// `SAMPLE_SIZE` bytes from the start, and, only when the file is strictly
/// larger than `SAMPLE_SIZE`, the final `SAMPLE_SIZE` bytes.
pub fn sample_plan(file_size: u64) -> (p: SamplePlan)
    ensures
        p.start_len == if file_size < SAMPLE_SIZE { file_size } else { SAMPLE_SIZE },
        p.tail_offset == if file_size > SAMPLE_SIZE {
            Some((file_size - SAMPLE_SIZE) as u64)
        } else {
            None::<u64>
        },
{
    let start_len: u64 = if file_size < SAMPLE_SIZE { file_size } else { SAMPLE_SIZE };
    let tail_offset: Option<u64> = if file_size > SAMPLE_SIZE {
        Some(file_size - SAMPLE_SIZE)
    } else {
        None
    };
    SamplePlan { start_len, tail_offset }
}

/// Computes the sampled fingerprint from the bytes the caller read following
/// `sample_plan`. The tail sample is present exactly when the file is larger
/// than `SAMPLE_SIZE`; otherwise the end hash duplicates the start hash.
pub fn calculate_partial_hash(
    start_sample: &[u8],
    end_sample: Option<&[u8]>,
    file_size: u64,
) -> (fp: PartialFileHash)
    requires
        end_sample is Some <==> file_size > SAMPLE_SIZE,
    ensures
        (fp.start_hash@, fp.end_hash@, fp.file_size) == spec_fingerprint(
            start_sample@,
            if end_sample is Some { end_sample->0@ } else { start_sample@ },
            file_size,
        ),
        file_size <= SAMPLE_SIZE ==> fp.end_hash@ == fp.start_hash@,
{
    let start_hash = md5_hex(start_sample);
    let end_hash = match end_sample {
        Some(tail) => md5_hex(tail),
        None => start_hash.clone(),
    };
    PartialFileHash { start_hash, end_hash, file_size }
}

/// Fingerprinting is deterministic: any two fingerprints computed from the
/// same samples of an unmodified file agree in start hash, end hash and file
/// size.
pub proof fn lemma_fingerprint_deterministic(
    fp1: PartialFileHash,
    fp2: PartialFileHash,
    start_sample: Seq<u8>,
    end_sample: Seq<u8>,
    file_size: u64,
)
    requires
        (fp1.start_hash@, fp1.end_hash@, fp1.file_size) == spec_fingerprint(
            start_sample,
            end_sample,
            file_size,
        ),
        (fp2.start_hash@, fp2.end_hash@, fp2.file_size) == spec_fingerprint(
            start_sample,
            end_sample,
            file_size,
        ),
    ensures
        fp1.start_hash@ == fp2.start_hash@,
        fp1.end_hash@ == fp2.end_hash@,
        fp1.file_size == fp2.file_size,
{
}

} // verus!
