//! The sync decision engine: upload, or skip and merely re-sign a link.
//!
//! The policy is intentionally conservative: a size mismatch is conclusive,
//! matching size plus matching sampled hashes is treated as identical, and a
//! hash mismatch at equal size always uploads — the tool never silently
//! skips on a mismatch. False "same" verdicts are possible only when size
//! and both samples coincide, the accepted price of O(1) comparison cost.

use vstd::prelude::*;

use crate::errors::ShukError;
use crate::hashing::PartialFileHash;
use crate::remote::{HeadLookup, RemoteObjectState, TagLookup, spec_remote_size, spec_tag_value};
use crate::remote::{find_tag_value, remote_size_from_content_length};

verus! {

/// What to do with the local file.
#[derive(Debug, Clone, Copy, PartialEq, Eq, Structural)]
pub enum SyncDecision {
    /// The remote object is the same file; only re-sign a link.
    Skip,
    /// Transfer the file.
    Upload,
}

/// The decision policy for an object that exists remotely, evaluated in
/// order: differing sizes are conclusive; equal sizes with both sampled
/// hashes matching mean identical; otherwise assume the content differs.
pub open spec fn spec_decide_found(
    local: PartialFileHash,
    remote_size: u64,
    remote_start: Seq<char>,
    remote_end: Seq<char>,
) -> SyncDecision {
    if remote_size != local.file_size {
        SyncDecision::Upload
    } else if local.start_hash@ == remote_start && local.end_hash@ == remote_end {
        SyncDecision::Skip
    } else {
        SyncDecision::Upload
    }
}

/// Decides between `Skip` and `Upload` from the local fingerprint and the
/// remote object state. A missing object and a failed lookup both upload:
/// nothing is known to match.
pub fn decide(local: &PartialFileHash, remote: &RemoteObjectState) -> (d: SyncDecision)
    ensures
        remote is NotFound ==> d is Upload,
        remote is LookupFailed ==> d is Upload,
        remote matches RemoteObjectState::Found { size, start_hash, end_hash } ==> d
            == spec_decide_found(*local, *size, start_hash@, end_hash@),
{
    match remote {
        RemoteObjectState::NotFound => SyncDecision::Upload,
        RemoteObjectState::LookupFailed => SyncDecision::Upload,
        RemoteObjectState::Found { size, start_hash, end_hash } => {
            if *size != local.file_size {
                SyncDecision::Upload
            } else if local.start_hash == *start_hash && local.end_hash == *end_hash {
                SyncDecision::Skip
            } else {
                SyncDecision::Upload
            }
        },
    }
}

/// The decision depends only on size and sampled hashes: for equal size and
/// equal hashes it is `Skip`; for equal size and differing hashes `Upload`;
/// for differing size `Upload` regardless of hashes.
pub proof fn lemma_decide_policy(
    local: PartialFileHash,
    remote_size: u64,
    remote_start: Seq<char>,
    remote_end: Seq<char>,
)
    ensures
        remote_size != local.file_size ==> spec_decide_found(
            local,
            remote_size,
            remote_start,
            remote_end,
        ) is Upload,
        remote_size == local.file_size && local.start_hash@ == remote_start && local.end_hash@
            == remote_end ==> spec_decide_found(local, remote_size, remote_start, remote_end)
            is Skip,
        remote_size == local.file_size && !(local.start_hash@ == remote_start && local.end_hash@
            == remote_end) ==> spec_decide_found(local, remote_size, remote_start, remote_end)
            is Upload,
{
}

/// The decision is a pure function of the fingerprint's size and hashes and
/// of the remote state: two fingerprints that agree on those fields decide
/// alike against any remote object.
pub proof fn lemma_decide_is_pure(
    local1: PartialFileHash,
    local2: PartialFileHash,
    remote_size: u64,
    remote_start: Seq<char>,
    remote_end: Seq<char>,
)
    requires
        local1.file_size == local2.file_size,
        local1.start_hash@ == local2.start_hash@,
        local1.end_hash@ == local2.end_hash@,
    ensures
        spec_decide_found(local1, remote_size, remote_start, remote_end) == spec_decide_found(
            local2,
            remote_size,
            remote_start,
            remote_end,
        ),
{
}

/// Uploading tags the object with the file's own size and sampled hashes,
/// so probing the unmodified file a second time finds exactly those values:
/// the second invocation decides `Skip` and no bytes are transferred.
pub proof fn lemma_second_upload_skips(local: PartialFileHash)
    ensures
        spec_decide_found(local, local.file_size, local.start_hash@, local.end_hash@)
            is Skip,
{
}

/// Compares the local file against the remote object in one step, as the
/// single-file upload path does: a true service error on either lookup is
/// fatal; otherwise `Ok(true)` exactly when the sync decision would be
/// `Skip` — same size (a missing size reads as 0) and both sampled hashes
/// matching.
pub fn quick_compare(local: &PartialFileHash, head: &HeadLookup, tags: &TagLookup) -> (r: Result<
    bool,
    ShukError,
>)
    ensures
        head is ServiceError ==> r == Err::<bool, ShukError>(ShukError::LookupFailed),
        head !is ServiceError && tags is Failed ==> r == Err::<bool, ShukError>(
            ShukError::LookupFailed,
        ),
        head !is ServiceError ==> (tags matches TagLookup::Tags(ts) ==> {
            &&& r is Ok
            &&& r->Ok_0 == (spec_decide_found(
                *local,
                spec_head_size(*head),
                spec_tag_value(ts@, "start_hash"@),
                spec_tag_value(ts@, "end_hash"@),
            ) is Skip)
        }),
{
    match head {
        HeadLookup::ServiceError => Err(ShukError::LookupFailed),
        _ => {
            match tags {
                TagLookup::Failed => Err(ShukError::LookupFailed),
                TagLookup::Tags(ts) => {
                    let remote_size: u64 = match head {
                        HeadLookup::Found { content_length } => remote_size_from_content_length(
                            content_length,
                        ),
                        _ => 0,
                    };
                    let remote_start = find_tag_value(ts, "start_hash");
                    let remote_end = find_tag_value(ts, "end_hash");
                    if remote_size == local.file_size && local.start_hash == remote_start
                        && local.end_hash == remote_end {
                        Ok(true)
                    } else {
                        Ok(false)
                    }
                },
            }
        },
    }
}

/// The remote size the comparison uses for a lookup that was not a service
/// error: the reported length with its fail-safe fallbacks, or 0 when the
/// object was missing.
pub open spec fn spec_head_size(head: HeadLookup) -> u64 {
    match head {
        HeadLookup::Found { content_length } => spec_remote_size(content_length),
        _ => 0,
    }
}

/// Plans the whole single-file flow: `Ok(true)` means the object is
/// already there and identical, so only a fresh link is signed; `Ok(false)`
/// means the file is transferred. A failed existence check falls back to
/// uploading rather than aborting; a failed tag retrieval on an existing
/// object is fatal, because nothing safe can be said about a match.
pub fn plan_single_file_sync(local: &PartialFileHash, head: &HeadLookup, tags: &TagLookup) -> (r:
    Result<bool, ShukError>)
    ensures
        head is ServiceError ==> r == Ok::<bool, ShukError>(false),
        head is NotFound ==> r == Ok::<bool, ShukError>(false),
        head is Found && tags is Failed ==> r == Err::<bool, ShukError>(ShukError::LookupFailed),
        head is Found ==> (tags matches TagLookup::Tags(ts) ==> {
            &&& r is Ok
            &&& r->Ok_0 == (spec_decide_found(
                *local,
                spec_head_size(*head),
                spec_tag_value(ts@, "start_hash"@),
                spec_tag_value(ts@, "end_hash"@),
            ) is Skip)
        }),
{
    match head {
        HeadLookup::ServiceError => Ok(false),
        HeadLookup::NotFound => Ok(false),
        HeadLookup::Found { .. } => quick_compare(local, head, tags),
    }
}

} // verus!
