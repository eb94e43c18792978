use shuk::decision::{decide, plan_single_file_sync, quick_compare, SyncDecision};
use shuk::errors::ShukError;
use shuk::hashing::{calculate_partial_hash, PartialFileHash};
use shuk::keys::join_key_prefix;
use shuk::remote::{
    file_exists_in_s3, probe, HeadLookup, RemoteObjectState, RemoteTag, TagLookup,
};
use shuk::transfer::{choose_upload_mode, UploadMode};

fn fp(start: &str, end: &str, size: u64) -> PartialFileHash {
    PartialFileHash {
        start_hash: start.to_string(),
        end_hash: end.to_string(),
        file_size: size,
    }
}

fn tag(key: &str, value: &str) -> RemoteTag {
    RemoteTag {
        key: key.to_string(),
        value: value.to_string(),
    }
}

#[test]
fn equal_size_and_hashes_skip() {
    let local = fp("aa", "bb", 100);
    let remote = RemoteObjectState::Found {
        size: 100,
        start_hash: "aa".to_string(),
        end_hash: "bb".to_string(),
    };
    assert_eq!(decide(&local, &remote), SyncDecision::Skip);
}

#[test]
fn equal_size_and_differing_hashes_upload() {
    let local = fp("aa", "bb", 100);
    let remote = RemoteObjectState::Found {
        size: 100,
        start_hash: "aa".to_string(),
        end_hash: "xx".to_string(),
    };
    assert_eq!(decide(&local, &remote), SyncDecision::Upload);
}

#[test]
fn differing_size_uploads_regardless_of_hashes() {
    let local = fp("aa", "bb", 100);
    let remote = RemoteObjectState::Found {
        size: 101,
        start_hash: "aa".to_string(),
        end_hash: "bb".to_string(),
    };
    assert_eq!(decide(&local, &remote), SyncDecision::Upload);
}

#[test]
fn missing_object_uploads() {
    let local = fp("aa", "bb", 100);
    assert_eq!(decide(&local, &RemoteObjectState::NotFound), SyncDecision::Upload);
}

#[test]
fn failed_lookup_uploads() {
    let local = fp("aa", "bb", 100);
    assert_eq!(decide(&local, &RemoteObjectState::LookupFailed), SyncDecision::Upload);
}

#[test]
fn empty_remote_hash_never_matches_empty_tag_set() {
    // An absent tag resolves to the empty string, which must not match a
    // real local hash even when the sizes agree.
    let local = fp("aa", "bb", 100);
    let head = HeadLookup::Found {
        content_length: Some(100),
    };
    let tags = TagLookup::Tags(vec![]);
    let state = probe(&head, &tags);
    assert_eq!(decide(&local, &state), SyncDecision::Upload);
}

#[test]
fn missing_remote_size_forces_reupload() {
    // A metadata answer without a size field reads as size 0, which can
    // only match an empty local file.
    let local = fp("aa", "aa", 5);
    let head = HeadLookup::Found {
        content_length: None,
    };
    let tags = TagLookup::Tags(vec![tag("start_hash", "aa"), tag("end_hash", "aa")]);
    let state = probe(&head, &tags);
    assert_eq!(decide(&local, &state), SyncDecision::Upload);
}

#[test]
fn quick_compare_matches_on_identical_files() {
    let local = fp("aa", "bb", 42);
    let head = HeadLookup::Found {
        content_length: Some(42),
    };
    let tags = TagLookup::Tags(vec![tag("start_hash", "aa"), tag("end_hash", "bb")]);
    assert!(matches!(quick_compare(&local, &head, &tags), Ok(true)));
}

#[test]
fn quick_compare_fails_closed_on_tag_lookup_error() {
    let local = fp("aa", "bb", 42);
    let head = HeadLookup::Found {
        content_length: Some(42),
    };
    assert_eq!(
        quick_compare(&local, &head, &TagLookup::Failed),
        Err(ShukError::LookupFailed)
    );
}

#[test]
fn exists_classification_is_tri_state() {
    assert_eq!(file_exists_in_s3(&HeadLookup::NotFound), Ok(false));
    assert_eq!(
        file_exists_in_s3(&HeadLookup::Found {
            content_length: Some(1)
        }),
        Ok(true)
    );
    assert_eq!(
        file_exists_in_s3(&HeadLookup::ServiceError),
        Err(ShukError::LookupFailed)
    );
}

#[test]
fn failed_existence_check_falls_back_to_upload() {
    let local = fp("aa", "bb", 42);
    let r = plan_single_file_sync(&local, &HeadLookup::ServiceError, &TagLookup::Failed);
    assert_eq!(r, Ok(false));
}

#[test]
fn second_upload_of_unmodified_file_skips() {
    // Upload tags the object with the fingerprint's own hashes; a second
    // probe of the unmodified file finds them and decides to skip.
    let content = b"0123456789";
    let local = calculate_partial_hash(content, None, content.len() as u64);
    let head = HeadLookup::Found {
        content_length: Some(content.len() as i64),
    };
    let tags = TagLookup::Tags(vec![
        tag("managed_by", "shuk"),
        tag("start_hash", &local.start_hash),
        tag("end_hash", &local.end_hash),
    ]);
    let state = probe(&head, &tags);
    assert_eq!(decide(&local, &state), SyncDecision::Skip);
    assert_eq!(plan_single_file_sync(&local, &head, &tags), Ok(true));
}

#[test]
fn first_upload_to_empty_bucket_then_relink() {
    // A 10-byte file against an empty bucket: the object is absent, so the
    // flow uploads single-shot under the bare key; running the identical
    // command again finds the tagged object and only re-signs a link.
    let content = b"0123456789";
    let local = calculate_partial_hash(content, None, content.len() as u64);

    let exists = file_exists_in_s3(&HeadLookup::NotFound);
    assert_eq!(exists, Ok(false));
    let state = probe(&HeadLookup::NotFound, &TagLookup::Tags(vec![]));
    assert_eq!(decide(&local, &state), SyncDecision::Upload);
    assert_eq!(choose_upload_mode(10, false), UploadMode::SinglePut);
    assert_eq!(join_key_prefix(&None, "a.bin"), "a.bin");

    let head_after = HeadLookup::Found {
        content_length: Some(10),
    };
    let tags_after = TagLookup::Tags(vec![
        tag("managed_by", "shuk"),
        tag("start_hash", &local.start_hash),
        tag("end_hash", &local.end_hash),
    ]);
    assert_eq!(plan_single_file_sync(&local, &head_after, &tags_after), Ok(true));
    assert_eq!(choose_upload_mode(10, true), UploadMode::PresignOnly);
}
