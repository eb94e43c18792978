//! Object tag sets and their wire format.
//!
//! Every object this tool writes carries a flat ASCII tag string of the
//! form `key=value&key=value`. Encoding and decoding are explicit functions
//! here, independently specified and testable. Any object whose tag set
//! does not name this tool as its manager is foreign and must never be
//! mutated or deleted.

use vstd::prelude::*;
use vstd::string::StrSliceExecFns;
use vstd::string::StringExecFns;

use crate::remote::RemoteTag;

verus! {

/// The manager id written into every tag set this tool attaches.
pub const MANAGED_BY: &'static str = "shuk";

/// Tags attached to every uploaded file object: the manager id and the two
/// sampled content hashes used for change detection.
pub struct ObjectTags {
    pub managed_by: String,
    pub start_hash: String,
    pub end_hash: String,
}

/// Tags attached to the catalog's own persisted object: the manager id and
/// the marker that excludes it from catalog builds.
pub struct MetadataTags {
    pub managed_by: String,
    pub do_not_scan: String,
}

/// The wire string for a file object's tag set.
pub open spec fn spec_encode_object_tags(
    managed_by: Seq<char>,
    start_hash: Seq<char>,
    end_hash: Seq<char>,
) -> Seq<char> {
    "managed_by="@ + managed_by + "&start_hash="@ + start_hash + "&end_hash="@ + end_hash
}

/// Encodes a file object's tag set into the flat `key=value&key=value`
/// wire string the object store accepts.
pub fn encode_object_tags(tags: &ObjectTags) -> (r: String)
    ensures
        r@ == spec_encode_object_tags(tags.managed_by@, tags.start_hash@, tags.end_hash@),
{
    let mut s: String = "managed_by=".to_owned();
    s.append(tags.managed_by.as_str());
    s.append("&start_hash=");
    s.append(tags.start_hash.as_str());
    s.append("&end_hash=");
    s.append(tags.end_hash.as_str());
    s
}

/// The wire string for the catalog object's tag set.
pub open spec fn spec_encode_metadata_tags(
    managed_by: Seq<char>,
    do_not_scan: Seq<char>,
) -> Seq<char> {
    "managed_by="@ + managed_by + "&do_not_scan="@ + do_not_scan
}

/// The fields of a wire string, split on the field separator. The empty
/// string holds one empty field.
pub open spec fn spec_split_fields(s: Seq<char>) -> Seq<Seq<char>>
    decreases s.len(),
{
    if s.len() == 0 {
        seq![Seq::<char>::empty()]
    } else {
        let rest = spec_split_fields(s.drop_first());
        if s[0] == '&' {
            seq![Seq::<char>::empty()] + rest
        } else {
            seq![seq![s[0]] + rest[0]] + rest.drop_first()
        }
    }
}

/// A field's key: everything before its first `=`, or the whole field.
pub open spec fn spec_field_key(f: Seq<char>) -> Seq<char>
    decreases f.len(),
{
    if f.len() == 0 {
        Seq::empty()
    } else if f[0] == '=' {
        Seq::empty()
    } else {
        seq![f[0]] + spec_field_key(f.drop_first())
    }
}

/// A field's value: everything after its first `=`, or empty when the
/// field has none.
pub open spec fn spec_field_value(f: Seq<char>) -> Seq<char>
    decreases f.len(),
{
    if f.len() == 0 {
        Seq::empty()
    } else if f[0] == '=' {
        f.drop_first()
    } else {
        spec_field_value(f.drop_first())
    }
}

/// Splitting never yields an empty field list.
pub proof fn lemma_split_fields_nonempty(s: Seq<char>)
    ensures
        spec_split_fields(s).len() >= 1,
    decreases s.len(),
{
    if s.len() > 0 {
        lemma_split_fields_nonempty(s.drop_first());
    }
}

/// A string without the field separator is one single field.
pub proof fn lemma_split_fields_whole(s: Seq<char>)
    requires
        forall|j: int| 0 <= j < s.len() ==> s[j] != '&',
    ensures
        spec_split_fields(s) =~~= seq![s],
    decreases s.len(),
{
    if s.len() > 0 {
        let d = s.drop_first();
        assert(forall|j: int| 0 <= j < d.len() ==> d[j] == s[j + 1]);
        lemma_split_fields_whole(d);
        lemma_split_fields_nonempty(d);
        assert(seq![s[0]] + d =~= s);
    }
}

/// Splitting distributes over one field separator: a separator-free first
/// field splits off whole, and the remainder splits on its own. Applied
/// left to right, this is how a decoded wire string recovers exactly the
/// fields that were encoded into it.
pub proof fn lemma_split_fields_append(a: Seq<char>, b: Seq<char>)
    requires
        forall|j: int| 0 <= j < a.len() ==> a[j] != '&',
    ensures
        spec_split_fields(a + seq!['&'] + b) =~~= seq![a] + spec_split_fields(b),
    decreases a.len(),
{
    let s = a + seq!['&'] + b;
    if a.len() == 0 {
        assert(s =~= seq!['&'] + b);
        assert(s[0] == '&');
        assert(s.drop_first() =~= b);
    } else {
        let d = s.drop_first();
        let a1 = a.drop_first();
        assert(forall|j: int| 0 <= j < a1.len() ==> a1[j] == a[j + 1]);
        assert(d =~= a1 + seq!['&'] + b);
        lemma_split_fields_append(a1, b);
        lemma_split_fields_nonempty(b);
        let rest = spec_split_fields(d);
        assert(s[0] == a[0]);
        assert(rest[0] == a1);
        assert(seq![s[0]] + rest[0] =~= a);
        assert(rest.drop_first() =~~= spec_split_fields(b));
    }
}

/// A field without `=` is all key and no value.
pub proof fn lemma_field_without_eq(f: Seq<char>)
    requires
        forall|j: int| 0 <= j < f.len() ==> f[j] != '=',
    ensures
        spec_field_key(f) =~= f,
        spec_field_value(f) =~= Seq::<char>::empty(),
    decreases f.len(),
{
    if f.len() > 0 {
        let d = f.drop_first();
        assert(forall|j: int| 0 <= j < d.len() ==> d[j] == f[j + 1]);
        lemma_field_without_eq(d);
        assert(seq![f[0]] + d =~= f);
    }
}

/// A key/value pair separated by the first `=` round-trips through field
/// parsing, as long as the key itself contains no `=`.
pub proof fn lemma_field_round_trip(key: Seq<char>, value: Seq<char>)
    requires
        forall|j: int| 0 <= j < key.len() ==> key[j] != '=',
    ensures
        spec_field_key(key + seq!['='] + value) =~= key,
        spec_field_value(key + seq!['='] + value) =~= value,
    decreases key.len(),
{
    let f = key + seq!['='] + value;
    if key.len() == 0 {
        assert(f =~= seq!['='] + value);
        assert(f[0] == '=');
        assert(f.drop_first() =~= value);
    } else {
        let k1 = key.drop_first();
        assert(forall|j: int| 0 <= j < k1.len() ==> k1[j] == key[j + 1]);
        assert(f.drop_first() =~= k1 + seq!['='] + value);
        lemma_field_round_trip(k1, value);
        assert(f[0] == key[0]);
        assert(seq![f[0]] + k1 =~= key);
    }
}

/// Encodes the catalog object's tag set into its wire string.
pub fn encode_metadata_tags(tags: &MetadataTags) -> (r: String)
    ensures
        r@ == spec_encode_metadata_tags(tags.managed_by@, tags.do_not_scan@),
{
    let mut s: String = "managed_by=".to_owned();
    s.append(tags.managed_by.as_str());
    s.append("&do_not_scan=");
    s.append(tags.do_not_scan.as_str());
    s
}

/// A file object's wire string decodes back into its three fields: the
/// manager id and the two sampled hashes, none containing a separator
/// character, come back under exactly the keys they were encoded with. A
/// later probe of the object therefore reads the very hashes the upload
/// attached — which is what lets the second run of an unchanged upload
/// skip the transfer.
pub proof fn lemma_object_tags_round_trip(
    managed_by: Seq<char>,
    start_hash: Seq<char>,
    end_hash: Seq<char>,
)
    requires
        forall|j: int|
            0 <= j < managed_by.len() ==> managed_by[j] != '&' && managed_by[j] != '=',
        forall|j: int| 0 <= j < start_hash.len() ==> start_hash[j] != '&',
        forall|j: int| 0 <= j < end_hash.len() ==> end_hash[j] != '&',
    ensures
        spec_split_fields(spec_encode_object_tags(managed_by, start_hash, end_hash)).len() == 3,
        spec_field_key(
            spec_split_fields(spec_encode_object_tags(managed_by, start_hash, end_hash))[0],
        ) == "managed_by"@,
        spec_field_value(
            spec_split_fields(spec_encode_object_tags(managed_by, start_hash, end_hash))[0],
        ) == managed_by,
        spec_field_key(
            spec_split_fields(spec_encode_object_tags(managed_by, start_hash, end_hash))[1],
        ) == "start_hash"@,
        spec_field_value(
            spec_split_fields(spec_encode_object_tags(managed_by, start_hash, end_hash))[1],
        ) == start_hash,
        spec_field_key(
            spec_split_fields(spec_encode_object_tags(managed_by, start_hash, end_hash))[2],
        ) == "end_hash"@,
        spec_field_value(
            spec_split_fields(spec_encode_object_tags(managed_by, start_hash, end_hash))[2],
        ) == end_hash,
{
    reveal_strlit("managed_by=");
    reveal_strlit("&start_hash=");
    reveal_strlit("start_hash=");
    reveal_strlit("&end_hash=");
    reveal_strlit("end_hash=");
    reveal_strlit("managed_by");
    reveal_strlit("start_hash");
    reveal_strlit("end_hash");
    let w = spec_encode_object_tags(managed_by, start_hash, end_hash);
    let a = "managed_by="@ + managed_by;
    let b = "start_hash="@ + start_hash;
    let c = "end_hash="@ + end_hash;
    assert("&start_hash="@ =~= seq!['&'] + "start_hash="@);
    assert("&end_hash="@ =~= seq!['&'] + "end_hash="@);
    assert(w =~= a + seq!['&'] + (b + seq!['&'] + c));
    assert(forall|j: int| 0 <= j < 11 ==> "managed_by="@[j] != '&');
    assert(forall|j: int| 0 <= j < a.len() ==> a[j] != '&');
    lemma_split_fields_append(a, b + seq!['&'] + c);
    assert(forall|j: int| 0 <= j < 11 ==> "start_hash="@[j] != '&');
    assert(forall|j: int| 0 <= j < b.len() ==> b[j] != '&');
    lemma_split_fields_append(b, c);
    assert(forall|j: int| 0 <= j < 9 ==> "end_hash="@[j] != '&');
    assert(forall|j: int| 0 <= j < c.len() ==> c[j] != '&');
    lemma_split_fields_whole(c);
    assert(spec_split_fields(w) =~~= seq![a, b, c]);
    assert(a =~= "managed_by"@ + seq!['='] + managed_by);
    assert(forall|j: int| 0 <= j < 10 ==> "managed_by"@[j] != '=');
    lemma_field_round_trip("managed_by"@, managed_by);
    assert(b =~= "start_hash"@ + seq!['='] + start_hash);
    assert(forall|j: int| 0 <= j < 10 ==> "start_hash"@[j] != '=');
    lemma_field_round_trip("start_hash"@, start_hash);
    assert(c =~= "end_hash"@ + seq!['='] + end_hash);
    assert(forall|j: int| 0 <= j < 8 ==> "end_hash"@[j] != '=');
    lemma_field_round_trip("end_hash"@, end_hash);
}

/// The catalog object's wire string decodes back into its two fields:
/// a manager id and a marker value free of separator characters come back
/// under exactly the keys they were encoded with. In particular the
/// persisted catalog document, tagged with the do-not-scan marker, is
/// recognized and excluded by any later catalog build that reads its tags.
pub proof fn lemma_metadata_tags_round_trip(managed_by: Seq<char>, do_not_scan: Seq<char>)
    requires
        forall|j: int|
            0 <= j < managed_by.len() ==> managed_by[j] != '&' && managed_by[j] != '=',
        forall|j: int| 0 <= j < do_not_scan.len() ==> do_not_scan[j] != '&',
    ensures
        spec_split_fields(spec_encode_metadata_tags(managed_by, do_not_scan)).len() == 2,
        spec_field_key(spec_split_fields(spec_encode_metadata_tags(managed_by, do_not_scan))[0])
            == "managed_by"@,
        spec_field_value(spec_split_fields(spec_encode_metadata_tags(managed_by, do_not_scan))[0])
            == managed_by,
        spec_field_key(spec_split_fields(spec_encode_metadata_tags(managed_by, do_not_scan))[1])
            == "do_not_scan"@,
        spec_field_value(spec_split_fields(spec_encode_metadata_tags(managed_by, do_not_scan))[1])
            == do_not_scan,
{
    reveal_strlit("managed_by=");
    reveal_strlit("&do_not_scan=");
    reveal_strlit("do_not_scan=");
    reveal_strlit("managed_by");
    reveal_strlit("do_not_scan");
    let w = spec_encode_metadata_tags(managed_by, do_not_scan);
    let a = "managed_by="@ + managed_by;
    let b = "do_not_scan="@ + do_not_scan;
    assert("&do_not_scan="@ =~= seq!['&'] + "do_not_scan="@);
    assert(w =~= a + seq!['&'] + b);
    assert(forall|j: int| 0 <= j < 11 ==> "managed_by="@[j] != '&');
    assert(forall|j: int| 0 <= j < a.len() ==> a[j] != '&');
    lemma_split_fields_append(a, b);
    assert(forall|j: int| 0 <= j < 12 ==> "do_not_scan="@[j] != '&');
    assert(forall|j: int| 0 <= j < b.len() ==> b[j] != '&');
    lemma_split_fields_whole(b);
    assert(spec_split_fields(w) =~~= seq![a, b]);
    assert(a =~= "managed_by"@ + seq!['='] + managed_by);
    assert(forall|j: int| 0 <= j < 10 ==> "managed_by"@[j] != '=');
    lemma_field_round_trip("managed_by"@, managed_by);
    assert(b =~= "do_not_scan"@ + seq!['='] + do_not_scan);
    assert(forall|j: int| 0 <= j < 11 ==> "do_not_scan"@[j] != '=');
    lemma_field_round_trip("do_not_scan"@, do_not_scan);
}

/// Parses one wire-format field into its key and value, splitting at the
/// first `=`; a field without one is all key, with an empty value.
fn parse_field(field: &str) -> (t: RemoteTag)
    ensures
        t.key@ == spec_field_key(field@),
        t.value@ == spec_field_value(field@),
{
    let m = field.unicode_len();
    let mut j: usize = 0;
    while j < m && field.get_char(j) != '='
        invariant
            j <= m,
            m == field@.len(),
            forall|k: int| 0 <= k < j ==> field@[k] != '=',
        decreases m - j,
    {
        j = j + 1;
    }
    if j == m {
        proof {
            lemma_field_without_eq(field@);
        }
        RemoteTag { key: field.to_owned(), value: String::new() }
    } else {
        let key_part = field.substring_char(0, j);
        let value_part = field.substring_char(j + 1, m);
        proof {
            let k = field@.take(j as int);
            let v = field@.skip(j + 1);
            assert(field@ =~= k + seq!['='] + v);
            lemma_field_round_trip(k, v);
            assert(key_part@ =~= k);
            assert(value_part@ =~= v);
        }
        RemoteTag { key: key_part.to_owned(), value: value_part.to_owned() }
    }
}

/// Decodes a wire string back into its tag pairs, in field order: fields
/// are separated by `&`, and each splits at its first `=` into key and
/// value.
pub fn decode_tags(s: &str) -> (r: Vec<RemoteTag>)
    requires
        s@.len() < usize::MAX,
    ensures
        r@.len() == spec_split_fields(s@).len(),
        forall|i: int|
            0 <= i < r@.len() ==> {
                &&& (#[trigger] r@[i]).key@ == spec_field_key(spec_split_fields(s@)[i])
                &&& r@[i].value@ == spec_field_value(spec_split_fields(s@)[i])
            },
{
    let n = s.unicode_len();
    let mut r: Vec<RemoteTag> = Vec::new();
    let mut start: usize = 0;
    let ghost mut done: Seq<Seq<char>> = Seq::empty();
    proof {
        assert(s@.skip(0) =~= s@);
    }
    while start <= n
        invariant
            n == s@.len(),
            n < usize::MAX,
            start <= n + 1,
            r@.len() == done.len(),
            forall|k: int|
                0 <= k < done.len() ==> {
                    &&& (#[trigger] r@[k]).key@ == spec_field_key(done[k])
                    &&& r@[k].value@ == spec_field_value(done[k])
                },
            start <= n ==> spec_split_fields(s@) == done + spec_split_fields(
                s@.skip(start as int),
            ),
            start == n + 1 ==> spec_split_fields(s@) == done,
        decreases n + 1 - start,
    {
        let mut i: usize = start;
        while i < n && s.get_char(i) != '&'
            invariant
                n == s@.len(),
                start <= i <= n,
                forall|j: int| start <= j < i ==> s@[j] != '&',
            decreases n - i,
        {
            i = i + 1;
        }
        let field = s.substring_char(start, i);
        let tag = parse_field(field);
        r.push(tag);
        proof {
            let tail = s@.skip(start as int);
            assert(forall|j: int| 0 <= j < tail.len() ==> tail[j] == s@[j + start]);
            if i == n {
                lemma_split_fields_whole(tail);
                assert(field@ =~= tail);
                done = done + seq![tail];
            } else {
                assert(s@[i as int] == '&');
                let a = tail.take(i - start);
                let b = tail.skip(i - start + 1);
                assert(tail =~= a + seq!['&'] + b);
                assert(forall|j: int| 0 <= j < a.len() ==> a[j] == s@[j + start]);
                lemma_split_fields_append(a, b);
                assert(field@ =~= a);
                assert(b =~= s@.skip(i + 1));
                done = done + seq![a];
            }
        }
        start = i + 1;
    }
    r
}

} // verus!
