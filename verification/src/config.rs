//! Runtime configuration, as plain values.
//!
//! Loading the configuration from disk, resolving credentials and regions,
//! and prompting the user are outside collaborators; they hand the library
//! this read-only record.

use vstd::prelude::*;

use crate::keys::{normalize_prefix, spec_normalize_prefix};

verus! {

/// The settings one invocation runs under.
pub struct Config {
    pub bucket_name: String,
    pub bucket_prefix: Option<String>,
    pub presigned_time: u64,
    pub aws_profile: Option<String>,
    pub use_clipboard: Option<bool>,
    pub fallback_region: Option<String>,
}

impl Config {
    /// The prefix invariant every constructed configuration obeys: a
    /// present prefix is non-empty and ends in exactly the one separator
    /// that `normalize_prefix` put or kept there.
    pub open spec fn prefix_normalized(&self) -> bool {
        self.bucket_prefix matches Some(p) ==> p@.len() > 0 && p@.last() == '/'
    }

    /// Builds a configuration from raw loaded values, normalizing the
    /// bucket prefix so every later key join sees the invariant form.
    pub fn new(
        bucket_name: String,
        raw_prefix: &str,
        presigned_time: u64,
        aws_profile: Option<String>,
        use_clipboard: Option<bool>,
        fallback_region: Option<String>,
    ) -> (c: Config)
        ensures
            c.bucket_name == bucket_name,
            c.presigned_time == presigned_time,
            c.aws_profile == aws_profile,
            c.use_clipboard == use_clipboard,
            c.fallback_region == fallback_region,
            match c.bucket_prefix {
                None => spec_normalize_prefix(raw_prefix@) is None,
                Some(p) => spec_normalize_prefix(raw_prefix@) matches Some(q) && p@ == q,
            },
            c.prefix_normalized(),
    {
        Config {
            bucket_name,
            bucket_prefix: normalize_prefix(raw_prefix),
            presigned_time,
            aws_profile,
            use_clipboard,
            fallback_region,
        }
    }
}

} // verus!
