//! Classifying what the object store reported about a remote object.
//!
//! The network calls themselves (metadata lookup, tag retrieval) happen
//! outside the library; their outcomes arrive here as plain values and are
//! classified into the tri-state `RemoteObjectState` that the sync decision
//! engine consumes. Missing fields are recovered with safe defaults (size 0,
//! empty hash) that bias toward re-upload rather than a false skip.

use vstd::prelude::*;

use crate::errors::ShukError;

verus! {

/// One key/value pair of an object's remote tag set.
pub struct RemoteTag {
    pub key: String,
    pub value: String,
}

/// Outcome of a metadata-only ("does it exist, how big is it") lookup,
/// as the caller observed it.
pub enum HeadLookup {
    /// The store answered: no such object.
    NotFound,
    /// The store answered with metadata; the size field may be absent.
    Found { content_length: Option<i64> },
    /// The store rejected the call for a reason other than "not found".
    ServiceError,
}

/// Outcome of a tag-set retrieval, as the caller observed it.
pub enum TagLookup {
    /// The store rejected the call.
    Failed,
    /// The object's tag set, in the order the store returned it.
    Tags(Vec<RemoteTag>),
}

/// Tri-state result of probing a remote object.
pub enum RemoteObjectState {
    NotFound,
    Found { size: u64, start_hash: String, end_hash: String },
    LookupFailed,
}

/// Value of the first tag with the given key, or empty if no tag has it.
/// An absent tag is never treated as a match downstream.
pub open spec fn spec_tag_value(tags: Seq<RemoteTag>, key: Seq<char>) -> Seq<char>
    decreases tags.len(),
{
    if tags.len() == 0 {
        Seq::empty()
    } else if tags[0].key@ == key {
        tags[0].value@
    } else {
        spec_tag_value(tags.drop_first(), key)
    }
}

/// Finds the value of the first tag with the given key; absent tags resolve
/// to the empty string.
pub fn find_tag_value(tags: &Vec<RemoteTag>, key: &str) -> (r: String)
    ensures
        r@ == spec_tag_value(tags@, key@),
{
    let key_owned: String = key.to_owned();
    let n = tags.len();
    let mut i: usize = 0;
    assert(tags@.skip(0) =~= tags@);
    while i < n
        invariant
            n == tags@.len(),
            i <= n,
            key_owned@ == key@,
            spec_tag_value(tags@, key@) == spec_tag_value(tags@.skip(i as int), key@),
        decreases n - i,
    {
        if tags[i].key == key_owned {
            assert(tags@.skip(i as int)[0] == tags@[i as int]);
            return tags[i].value.clone();
        }
        assert(tags@.skip(i as int).drop_first() =~= tags@.skip(i + 1));
        i = i + 1;
    }
    assert(tags@.skip(n as int).len() == 0);
    String::new()
}

/// The size to use for a remote object given the reported content length:
/// an absent or negative length resolves to 0, which forces a re-upload
/// rather than aborting — a deliberate fail-safe.
pub open spec fn spec_remote_size(content_length: Option<i64>) -> u64 {
    match content_length {
        None => 0,
        Some(len) => if len >= 0 {
            len as u64
        } else {
            0
        },
    }
}

/// Extracts the remote object's size from the reported content length,
/// substituting 0 when the field is absent or unusable.
pub fn remote_size_from_content_length(content_length: &Option<i64>) -> (r: u64)
    ensures
        r == spec_remote_size(*content_length),
{
    match content_length {
        None => 0,
        Some(len) => {
            if *len >= 0 {
                *len as u64
            } else {
                0
            }
        },
    }
}

/// Classifies an existence check: "not found" is a non-error `false`, any
/// other failure is a lookup error.
pub fn file_exists_in_s3(head: &HeadLookup) -> (r: Result<bool, ShukError>)
    ensures
        head is NotFound ==> r == Ok::<bool, ShukError>(false),
        head is Found ==> r == Ok::<bool, ShukError>(true),
        head is ServiceError ==> r == Err::<bool, ShukError>(ShukError::LookupFailed),
{
    match head {
        HeadLookup::NotFound => Ok(false),
        HeadLookup::Found { .. } => Ok(true),
        HeadLookup::ServiceError => Err(ShukError::LookupFailed),
    }
}

/// Combines the two independent lookups into the tri-state remote object
/// state: a missing object is `NotFound`; a true service error on either
/// call is `LookupFailed`; otherwise the size falls back to 0 when absent
/// and the sampled hashes are read from the tag set, absent tags resolving
/// to the empty string.
pub fn probe(head: &HeadLookup, tags: &TagLookup) -> (r: RemoteObjectState)
    ensures
        head is NotFound ==> r is NotFound,
        head is ServiceError ==> r is LookupFailed,
        head is Found && tags is Failed ==> r is LookupFailed,
        head matches HeadLookup::Found { content_length } ==> tags matches TagLookup::Tags(ts)
            ==> {
            &&& r is Found
            &&& r->size == spec_remote_size(*content_length)
            &&& r->start_hash@ == spec_tag_value(ts@, "start_hash"@)
            &&& r->end_hash@ == spec_tag_value(ts@, "end_hash"@)
        },
{
    match head {
        HeadLookup::NotFound => RemoteObjectState::NotFound,
        HeadLookup::ServiceError => RemoteObjectState::LookupFailed,
        HeadLookup::Found { content_length } => {
            match tags {
                TagLookup::Failed => RemoteObjectState::LookupFailed,
                TagLookup::Tags(ts) => {
                    let size = remote_size_from_content_length(content_length);
                    let start_hash = find_tag_value(ts, "start_hash");
                    let end_hash = find_tag_value(ts, "end_hash");
                    RemoteObjectState::Found { size, start_hash, end_hash }
                },
            }
        },
    }
}

} // verus!
