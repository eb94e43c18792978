use shuk::catalog::{collect_entries, create_metadata, get_object_metadata, FileMetadata, ShukMetadata};
use shuk::errors::ShukError;
use shuk::remote::RemoteTag;
use shuk::render::format_size;

fn tag(key: &str, value: &str) -> RemoteTag {
    RemoteTag {
        key: key.to_string(),
        value: value.to_string(),
    }
}

fn entry(name: &str, size: i64, modified: i64) -> FileMetadata {
    FileMetadata {
        filename: name.to_string(),
        start_hash: "s".to_string(),
        end_hash: "e".to_string(),
        file_size: size,
        last_modified: modified,
    }
}

#[test]
fn managed_object_becomes_an_entry() {
    let tags = vec![
        tag("managed_by", "shuk"),
        tag("start_hash", "aa"),
        tag("end_hash", "bb"),
    ];
    let m = get_object_metadata("a.bin".to_string(), 10, 1700000000000, &tags)
        .expect("a managed object yields an entry");
    assert_eq!(m.filename, "a.bin");
    assert_eq!(m.file_size, 10);
    assert_eq!(m.last_modified, 1700000000000);
    assert_eq!(m.start_hash, "aa");
    assert_eq!(m.end_hash, "bb");
}

#[test]
fn foreign_object_is_excluded() {
    let tags = vec![tag("managed_by", "someone-else")];
    assert!(get_object_metadata("x".to_string(), 1, 0, &tags).is_none());
    assert!(get_object_metadata("y".to_string(), 1, 0, &vec![]).is_none());
}

#[test]
fn catalog_build_excludes_the_catalog_object_itself() {
    // The persisted catalog document is tagged as self-managed plus
    // do-not-scan; a later build over the same prefix must not list it.
    let own_tags = vec![tag("managed_by", "shuk"), tag("do_not_scan", "true")];
    assert!(get_object_metadata("_shuk_metadata.json".to_string(), 123, 5, &own_tags).is_none());
}

#[test]
fn persisted_wire_tags_exclude_the_catalog_object() {
    // Follow the persisted document's tags through the full chain: encode
    // to the wire string, decode as the store hands tags back, and derive
    // an entry — none may come out.
    let tags = shuk::tags::MetadataTags {
        managed_by: "shuk".to_string(),
        do_not_scan: "true".to_string(),
    };
    let wire = shuk::tags::encode_metadata_tags(&tags);
    let decoded = shuk::tags::decode_tags(&wire);
    assert!(get_object_metadata("_shuk_metadata.json".to_string(), 9, 1, &decoded).is_none());
}

#[test]
fn do_not_scan_with_other_value_still_scans() {
    let tags = vec![tag("managed_by", "shuk"), tag("do_not_scan", "false")];
    assert!(get_object_metadata("a".to_string(), 1, 0, &tags).is_some());
}

#[test]
fn collect_entries_keeps_order_and_drops_failures() {
    let results = vec![
        Some(entry("a", 1, 10)),
        None,
        Some(entry("b", 2, 20)),
        None,
    ];
    let collected = collect_entries(results);
    assert_eq!(collected.len(), 2);
    assert_eq!(collected[0].filename, "a");
    assert_eq!(collected[1].filename, "b");
}

#[test]
fn create_metadata_snapshots_entries_and_time() {
    let c = create_metadata(vec![Some(entry("a", 1, 10)), None], 999);
    assert_eq!(c.updated_at, 999);
    assert_eq!(c.files.as_ref().unwrap().len(), 1);
}

#[test]
fn file_count_reports_entries_or_no_files() {
    let none = ShukMetadata { files: None, updated_at: 0 };
    assert_eq!(none.file_count(), Err(ShukError::NoFiles));
    let some = ShukMetadata {
        files: Some(vec![entry("a", 1, 0), entry("b", 2, 0)]),
        updated_at: 0,
    };
    assert_eq!(some.file_count(), Ok(2));
    let empty = ShukMetadata { files: Some(vec![]), updated_at: 0 };
    assert_eq!(empty.file_count(), Ok(0));
}

#[test]
fn most_recent_file_takes_the_latest_tie() {
    let c = ShukMetadata {
        files: Some(vec![
            entry("old", 1, 100),
            entry("new-first", 2, 300),
            entry("mid", 3, 200),
            entry("new-last", 4, 300),
        ]),
        updated_at: 0,
    };
    let m = c.get_most_recent_file().expect("entries exist");
    assert_eq!(m.filename, "new-last");
    assert_eq!(m.last_modified, 300);
}

#[test]
fn most_recent_file_on_empty_catalog_is_a_typed_condition() {
    let none = ShukMetadata { files: None, updated_at: 0 };
    assert_eq!(none.get_most_recent_file().unwrap_err(), ShukError::NoFiles);
    let empty = ShukMetadata { files: Some(vec![]), updated_at: 0 };
    assert_eq!(empty.get_most_recent_file().unwrap_err(), ShukError::NoFiles);
}

#[test]
fn total_size_sums_entries() {
    let c = ShukMetadata {
        files: Some(vec![entry("a", 1000, 0), entry("b", 24, 0)]),
        updated_at: 0,
    };
    assert_eq!(c.get_total_file_size(), Ok(1024));
}

#[test]
fn total_size_overflow_is_reported_not_wrapped() {
    // A negative stored size reads as a huge unsigned value; two of them
    // cannot fit in 64 bits.
    let c = ShukMetadata {
        files: Some(vec![entry("a", -1, 0), entry("b", 2, 0)]),
        updated_at: 0,
    };
    assert_eq!(c.get_total_file_size(), Err(ShukError::SizeOverflow));
}

#[test]
fn total_size_without_files_is_no_files() {
    let none = ShukMetadata { files: None, updated_at: 0 };
    assert_eq!(none.get_total_file_size(), Err(ShukError::NoFiles));
}

#[test]
fn formatted_total_falls_back_to_zero_bytes() {
    let none = ShukMetadata { files: None, updated_at: 0 };
    assert_eq!(none.get_total_file_size_formatted(), "0 B");
    let overflowing = ShukMetadata {
        files: Some(vec![entry("a", -1, 0), entry("b", 2, 0)]),
        updated_at: 0,
    };
    assert_eq!(overflowing.get_total_file_size_formatted(), "0 B");
}

#[test]
fn formatted_total_uses_units() {
    let c = ShukMetadata {
        files: Some(vec![entry("a", 1536, 0)]),
        updated_at: 0,
    };
    assert_eq!(c.get_total_file_size_formatted(), "1.50 KB");
}

#[test]
fn format_size_covers_every_unit() {
    assert_eq!(format_size(0), "0 B");
    assert_eq!(format_size(10), "10 B");
    assert_eq!(format_size(1023), "1023 B");
    assert_eq!(format_size(1024), "1.00 KB");
    assert_eq!(format_size(1536), "1.50 KB");
    assert_eq!(format_size(2047), "2.00 KB");
    assert_eq!(format_size(1024 * 1024), "1.00 MB");
    assert_eq!(format_size(1024 * 1024 + 512 * 1024), "1.50 MB");
    assert_eq!(format_size(3 * 1024 * 1024 * 1024), "3.00 GB");
    assert_eq!(format_size(4294967296), "4.00 GB");
}
