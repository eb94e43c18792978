//! The catalog of self-managed remote objects and its derived statistics.
//!
//! The listing and the per-object tag fetches happen outside the library;
//! each object's observed values arrive here as plain data. An object
//! becomes a catalog entry exactly when its tags name this tool as the
//! manager and do not carry the do-not-scan marker — which is how the
//! catalog's own persisted object is excluded from catalog builds. A
//! failed tag fetch drops the one object, never the whole build.
//!
//! Timestamps are carried as plain milliseconds since the Unix epoch; the
//! caller converts from whatever richer time type it uses.

use vstd::prelude::*;

use crate::errors::ShukError;
use crate::remote::{RemoteTag, spec_tag_value};
use crate::remote::find_tag_value;
use crate::render::{format_size, spec_format_size};
use crate::tags::MANAGED_BY;

verus! {

/// One catalog entry: a self-managed remote object's name, sampled hashes,
/// size, and last-modified time in epoch milliseconds.
#[derive(Debug)]
pub struct FileMetadata {
    pub filename: String,
    pub start_hash: String,
    pub end_hash: String,
    pub file_size: i64,
    pub last_modified: i64,
}

/// The catalog: the entries found under the prefix (order arbitrary) and
/// the epoch-millisecond time the snapshot was taken. Rebuilt in full on
/// every run, never patched incrementally.
pub struct ShukMetadata {
    pub files: Option<Vec<FileMetadata>>,
    pub updated_at: i64,
}

/// Whether an object with these tags belongs in the catalog: it must name
/// this tool as its manager, and must not carry the do-not-scan marker
/// that the catalog's own persisted object is tagged with.
pub open spec fn spec_is_catalog_member(tags: Seq<RemoteTag>) -> bool {
    &&& spec_tag_value(tags, "managed_by"@) == MANAGED_BY@
    &&& spec_tag_value(tags, "do_not_scan"@) != "true"@
}

/// Derives a catalog entry from one listed object's name, size, modify
/// time and fetched tag set: an entry exactly when the tags admit it, with
/// the sampled hashes read from the tags (absent tags resolve to empty,
/// which never matches anything).
pub fn get_object_metadata(
    filename: String,
    file_size: i64,
    last_modified: i64,
    tags: &Vec<RemoteTag>,
) -> (r: Option<FileMetadata>)
    ensures
        r is Some <==> spec_is_catalog_member(tags@),
        r matches Some(m) ==> {
            &&& m.filename@ == filename@
            &&& m.file_size == file_size
            &&& m.last_modified == last_modified
            &&& m.start_hash@ == spec_tag_value(tags@, "start_hash"@)
            &&& m.end_hash@ == spec_tag_value(tags@, "end_hash"@)
        },
{
    let managed_by_tag = find_tag_value(tags, "managed_by");
    let do_not_scan_tag = find_tag_value(tags, "do_not_scan");
    let is_managed = managed_by_tag == MANAGED_BY.to_owned();
    let is_marked = do_not_scan_tag == "true".to_owned();
    if is_managed && !is_marked {
        let start_hash = find_tag_value(tags, "start_hash");
        let end_hash = find_tag_value(tags, "end_hash");
        Some(FileMetadata { filename, start_hash, end_hash, file_size, last_modified })
    } else {
        None
    }
}

/// The catalog never lists the catalog's own persisted object: whatever
/// else its tags say, an object whose do-not-scan tag reads `true` — as
/// the catalog document is tagged when persisted — yields no entry.
pub proof fn lemma_catalog_excludes_marked_objects(tags: Seq<RemoteTag>)
    requires
        spec_tag_value(tags, "do_not_scan"@) == "true"@,
    ensures
        !spec_is_catalog_member(tags),
{
}

/// The entries that survive the per-object lookups, in the order the
/// outcomes arrived: failed or filtered-out objects contribute nothing.
pub open spec fn spec_collect_entries(results: Seq<Option<FileMetadata>>) -> Seq<FileMetadata>
    decreases results.len(),
{
    if results.len() == 0 {
        Seq::empty()
    } else {
        let rest = spec_collect_entries(results.drop_last());
        match results.last() {
            Some(m) => rest.push(m),
            None => rest,
        }
    }
}

/// Collects the surviving entries from the per-object outcomes, keeping
/// their arrival order and dropping every excluded or failed object.
pub fn collect_entries(results: Vec<Option<FileMetadata>>) -> (v: Vec<FileMetadata>)
    ensures
        v@ == spec_collect_entries(results@),
    decreases results@.len(),
{
    let mut results = results;
    let ghost all = results@;
    match results.pop() {
        None => {
            Vec::new()
        },
        Some(last) => {
            let mut v = collect_entries(results);
            match last {
                Some(m) => {
                    v.push(m);
                },
                None => {},
            }
            proof {
                assert(all.drop_last() =~= all.subrange(0, all.len() - 1));
            }
            v
        },
    }
}

/// Assembles the catalog snapshot from the per-object outcomes and the
/// time the build ran.
pub fn create_metadata(results: Vec<Option<FileMetadata>>, updated_at: i64) -> (c: ShukMetadata)
    ensures
        c.files matches Some(fs) && fs@ == spec_collect_entries(results@),
        c.updated_at == updated_at,
{
    let files = collect_entries(results);
    ShukMetadata { files: Some(files), updated_at }
}

/// Index of the most recently modified entry; on ties, the later entry.
pub open spec fn spec_last_max_index(fs: Seq<FileMetadata>) -> int
    decreases fs.len(),
{
    if fs.len() <= 1 {
        0
    } else {
        let i = spec_last_max_index(fs.drop_last());
        if fs.last().last_modified >= fs[i].last_modified {
            fs.len() - 1
        } else {
            i
        }
    }
}

/// The chosen index is in range, attains the maximal modify time, and is
/// the last index to attain it.
pub proof fn lemma_last_max_index(fs: Seq<FileMetadata>)
    requires
        fs.len() > 0,
    ensures
        0 <= spec_last_max_index(fs) < fs.len(),
        forall|j: int|
            0 <= j < fs.len() ==> (#[trigger] fs[j]).last_modified <= fs[spec_last_max_index(
                fs,
            )].last_modified,
        forall|j: int|
            spec_last_max_index(fs) < j < fs.len() ==> (#[trigger] fs[j]).last_modified
                < fs[spec_last_max_index(fs)].last_modified,
    decreases fs.len(),
{
    if fs.len() > 1 {
        lemma_last_max_index(fs.drop_last());
        assert(forall|j: int| 0 <= j < fs.len() - 1 ==> fs.drop_last()[j] == fs[j]);
    }
}

impl ShukMetadata {
    /// The most recently modified entry (ties go to the later entry, as a
    /// fold over the list keeping the latest maximum does). A catalog with
    /// no file list or an empty one reports the typed no-files condition
    /// rather than crashing.
    pub fn get_most_recent_file(&self) -> (r: Result<&FileMetadata, ShukError>)
        ensures
            match self.files {
                None => r == Err::<&FileMetadata, ShukError>(ShukError::NoFiles),
                Some(fs) => if fs@.len() == 0 {
                    r == Err::<&FileMetadata, ShukError>(ShukError::NoFiles)
                } else {
                    r matches Ok(m) && *m == fs@[spec_last_max_index(fs@)]
                },
            },
    {
        let fs = match &self.files {
            None => {
                return Err(ShukError::NoFiles);
            },
            Some(fs) => fs,
        };
        if fs.len() == 0 {
            return Err(ShukError::NoFiles);
        }
        let n = fs.len();
        let mut best: usize = 0;
        let mut i: usize = 1;
        assert(fs@.take(1) =~= fs@.subrange(0, 1));
        assert(spec_last_max_index(fs@.take(1)) == 0);
        while i < n
            invariant
                1 <= i <= n,
                n == fs@.len(),
                best < i,
                best == spec_last_max_index(fs@.take(i as int)),
            decreases n - i,
        {
            proof {
                let pre = fs@.take(i as int);
                let nxt = fs@.take(i + 1);
                assert(nxt.drop_last() =~= pre);
                assert(nxt.last() == fs@[i as int]);
                assert(nxt[best as int] == fs@[best as int]);
            }
            if fs[i].last_modified >= fs[best].last_modified {
                best = i;
            }
            i = i + 1;
        }
        assert(fs@.take(n as int) =~= fs@);
        Ok(&fs[best])
    }

    /// How many entries the catalog holds; the typed no-files condition
    /// when it holds no file list at all.
    pub fn file_count(&self) -> (r: Result<usize, ShukError>)
        ensures
            match self.files {
                None => r == Err::<usize, ShukError>(ShukError::NoFiles),
                Some(fs) => r == Ok::<usize, ShukError>(fs.len()),
            },
    {
        match &self.files {
            None => Err(ShukError::NoFiles),
            Some(fs) => Ok(fs.len()),
        }
    }

    /// Aggregate size of all entries, saturating nowhere: an aggregate
    /// that does not fit in 64 bits is reported as the typed overflow
    /// condition instead of a wrong total.
    pub fn get_total_file_size(&self) -> (r: Result<u64, ShukError>)
        ensures
            match self.files {
                None => r == Err::<u64, ShukError>(ShukError::NoFiles),
                Some(fs) => if spec_total_size(fs@) <= u64::MAX {
                    r == Ok::<u64, ShukError>(spec_total_size(fs@) as u64)
                } else {
                    r == Err::<u64, ShukError>(ShukError::SizeOverflow)
                },
            },
    {
        let fs = match &self.files {
            None => {
                return Err(ShukError::NoFiles);
            },
            Some(fs) => fs,
        };
        let n = fs.len();
        let mut acc: u64 = 0;
        let mut i: usize = 0;
        assert(fs@.take(0) =~= Seq::<FileMetadata>::empty());
        while i < n
            invariant
                i <= n,
                n == fs@.len(),
                acc == spec_total_size(fs@.take(i as int)),
                self.files matches Some(f) && f@ == fs@,
            decreases n - i,
        {
            proof {
                let nxt = fs@.take(i + 1);
                assert(nxt.drop_last() =~= fs@.take(i as int));
                assert(nxt.last() == fs@[i as int]);
            }
            let sz = size_to_u64(fs[i].file_size);
            acc = match acc.checked_add(sz) {
                Some(a) => a,
                None => {
                    proof {
                        assert(fs@.take(i + 1).drop_last() =~= fs@.take(i as int));
                        assert(fs@.take(i + 1).last() == fs@[i as int]);
                        assert(spec_total_size(fs@.take(i + 1)) == acc + sz);
                        lemma_total_size_lower_bound(fs@, i + 1);
                    }
                    return Err(ShukError::SizeOverflow);
                },
            };
            i = i + 1;
        }
        assert(fs@.take(n as int) =~= fs@);
        Ok(acc)
    }

    /// The aggregate size as a human-readable string; a catalog whose
    /// total cannot be computed reads as zero bytes, matching the
    /// fall-back-to-nothing policy for statistics.
    pub fn get_total_file_size_formatted(&self) -> (r: String)
        ensures
            r@ == spec_format_size(
                match self.files {
                    Some(fs) => if spec_total_size(fs@) <= u64::MAX {
                        spec_total_size(fs@) as u64
                    } else {
                        0
                    },
                    None => 0,
                },
            ),
    {
        let size: u64 = match self.get_total_file_size() {
            Ok(s) => s,
            Err(_) => 0,
        };
        format_size(size)
    }
}

/// An entry's size field read as the unsigned 64-bit value with the same
/// bit pattern, matching a plain unsigned reinterpretation of the stored
/// signed size.
pub open spec fn spec_size_as_u64(x: i64) -> u64 {
    if x >= 0 {
        x as u64
    } else {
        (x + 0x1_0000_0000_0000_0000) as u64
    }
}

/// Reinterprets a stored signed size as unsigned, two's-complement style.
pub fn size_to_u64(x: i64) -> (r: u64)
    ensures
        r == spec_size_as_u64(x),
{
    if x >= 0 {
        x as u64
    } else {
        ((x as i128) + 0x1_0000_0000_0000_0000i128) as u64
    }
}

/// Aggregate size of the entries, as an unbounded integer, so that a sum
/// beyond 64 bits is still speakable.
pub open spec fn spec_total_size(fs: Seq<FileMetadata>) -> int
    decreases fs.len(),
{
    if fs.len() == 0 {
        0
    } else {
        spec_total_size(fs.drop_last()) + spec_size_as_u64(fs.last().file_size)
    }
}

/// Every prefix sum is a lower bound of the full sum: the summands are
/// unsigned.
pub proof fn lemma_total_size_lower_bound(fs: Seq<FileMetadata>, k: int)
    requires
        0 <= k <= fs.len(),
    ensures
        spec_total_size(fs.take(k)) <= spec_total_size(fs),
    decreases fs.len() - k,
{
    if k < fs.len() {
        lemma_total_size_lower_bound(fs, k + 1);
        assert(fs.take(k + 1).drop_last() =~= fs.take(k));
    } else {
        assert(fs.take(k) =~= fs);
    }
}

} // verus!
