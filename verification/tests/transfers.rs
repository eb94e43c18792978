use shuk::transfer::{
    choose_upload_mode, MultipartUpload, ProgressTracker, UploadMode, MULTIPART_THRESHOLD,
    PART_SIZE,
};

/// Drives a multi-part transfer to completion and returns the byte count
/// of every part in upload order.
fn drive(size: u64) -> (MultipartUpload, Vec<u64>) {
    let mut upload = MultipartUpload::new(size);
    let mut lengths = Vec::new();
    while !upload.is_done() {
        let req = upload.next_part().expect("an unfinished upload has a next part");
        assert_eq!(req.part_number, lengths.len() as u64 + 1);
        assert_eq!(req.offset, lengths.iter().sum::<u64>());
        lengths.push(req.length);
        upload.record_part(format!("etag-{}", req.part_number));
    }
    (upload, lengths)
}

#[test]
fn file_of_exactly_the_threshold_stays_single_shot() {
    // The multi-part path starts strictly above 4 GiB.
    assert_eq!(choose_upload_mode(MULTIPART_THRESHOLD, false), UploadMode::SinglePut);
    assert_eq!(
        choose_upload_mode(MULTIPART_THRESHOLD + 1, false),
        UploadMode::Multipart
    );
}

#[test]
fn skip_decision_only_presigns() {
    assert_eq!(
        choose_upload_mode(MULTIPART_THRESHOLD + 1, true),
        UploadMode::PresignOnly
    );
    assert_eq!(choose_upload_mode(10, true), UploadMode::PresignOnly);
}

#[test]
fn part_count_is_size_over_part_size_rounded_up() {
    let size = 12 * 1024 * 1024; // 12 MiB -> 3 parts of 5, 5, 2 MiB
    let (upload, lengths) = drive(size);
    assert_eq!(lengths, vec![PART_SIZE, PART_SIZE, 2 * 1024 * 1024]);
    assert_eq!(lengths.iter().sum::<u64>(), size);
    let parts = upload.completed_parts();
    assert_eq!(parts.len(), 3);
    for (i, part) in parts.iter().enumerate() {
        assert_eq!(part.part_number, i as u64 + 1);
    }
    assert_eq!(parts[2].e_tag, "etag-3");
}

#[test]
fn exact_multiple_of_part_size_has_no_short_part() {
    let size = 2 * PART_SIZE;
    let (upload, lengths) = drive(size);
    assert_eq!(lengths, vec![PART_SIZE, PART_SIZE]);
    assert_eq!(upload.completed_parts().len(), 2);
}

#[test]
fn one_byte_file_uploads_one_tiny_part() {
    let (upload, lengths) = drive(1);
    assert_eq!(lengths, vec![1]);
    assert_eq!(upload.completed_parts().len(), 1);
}

#[test]
fn empty_file_uploads_no_parts() {
    let (upload, lengths) = drive(0);
    assert!(lengths.is_empty());
    assert!(upload.completed_parts().is_empty());
}

#[test]
fn progress_tracker_accounts_every_chunk() {
    let mut tracker = ProgressTracker::new(10);
    assert!(!tracker.is_complete());
    tracker.track(4);
    assert_eq!(tracker.bytes_written, 4);
    assert!(!tracker.is_complete());
    tracker.track(6);
    assert!(tracker.is_complete());
    assert_eq!(tracker.content_length, 10);
}
