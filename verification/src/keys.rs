//! Object-key construction: prefix normalization and prefix/key joining.
//!
//! One invariant, enforced in one place: a non-empty prefix always ends in
//! exactly one separator before a key is appended to it.

use vstd::prelude::*;
use vstd::string::StrSliceExecFns;
use vstd::string::StringExecFns;

verus! {

/// Name under which the catalog document is stored, both locally and in the
/// bucket (prefixed).
pub const METADATA_FILE_NAME: &'static str = "_shuk_metadata.json";

/// The key prefix a configured prefix string denotes: nothing when empty,
/// itself when already ending in a separator, and with one separator
/// appended otherwise.
pub open spec fn spec_normalize_prefix(prefix: Seq<char>) -> Option<Seq<char>> {
    if prefix.len() == 0 {
        None
    } else if prefix.last() == '/' {
        Some(prefix)
    } else {
        Some(prefix + seq!['/'])
    }
}

/// Normalizes a configured bucket prefix: an empty prefix means none, and a
/// non-empty one is given exactly one trailing separator.
pub fn normalize_prefix(prefix: &str) -> (r: Option<String>)
    ensures
        match r {
            None => spec_normalize_prefix(prefix@) is None,
            Some(p) => spec_normalize_prefix(prefix@) matches Some(q) && p@ == q,
        },
        r matches Some(p) ==> p@.len() > 0 && p@.last() == '/',
{
    let n = prefix.unicode_len();
    if n == 0 {
        None
    } else if prefix.get_char(n - 1) == '/' {
        Some(prefix.to_owned())
    } else {
        let joined = prefix.to_owned().concat("/");
        proof {
            reveal_strlit("/");
            assert(joined@ =~= prefix@ + seq!['/']);
        }
        Some(joined)
    }
}

/// The full object key for a file name under an optional, already
/// normalized prefix.
pub open spec fn spec_full_key(prefix: Option<Seq<char>>, key: Seq<char>) -> Seq<char> {
    match prefix {
        None => key,
        Some(p) => p + key,
    }
}

/// Joins the optional bucket prefix and a key into the full object key, the
/// single place where that concatenation happens.
pub fn join_key_prefix(prefix: &Option<String>, key: &str) -> (r: String)
    ensures
        r@ == spec_full_key(
            match prefix {
                Some(p) => Some(p@),
                None => None,
            },
            key@,
        ),
{
    match prefix {
        None => key.to_owned(),
        Some(p) => p.clone().concat(key),
    }
}

/// The key of the catalog's own persisted object under the given prefix.
pub fn metadata_object_key(prefix: &Option<String>) -> (r: String)
    ensures
        r@ == spec_full_key(
            match prefix {
                Some(p) => Some(p@),
                None => None,
            },
            METADATA_FILE_NAME@,
        ),
{
    join_key_prefix(prefix, METADATA_FILE_NAME)
}

} // verus!
