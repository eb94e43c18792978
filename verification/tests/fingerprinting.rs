use shuk::hashing::{calculate_file_md5, calculate_partial_hash, sample_plan, SAMPLE_SIZE};

fn md5_hex_reference(bytes: &[u8]) -> String {
    format!("{:x}", md5::compute(bytes))
}

#[test]
fn md5_of_empty_input_is_a_fixed_digest() {
    let digest = calculate_file_md5(&[]);
    assert_eq!(digest, md5_hex_reference(&[]));
    assert_eq!(digest.len(), 32);
}

#[test]
fn md5_of_alphabet_is_the_known_digest() {
    assert_eq!(
        calculate_file_md5(b"abcdefghijklmnopqrstuvwxyz"),
        "c3fcd3d76192e4007dfb496cca67e13b"
    );
}

#[test]
fn md5_matches_the_crate_for_arbitrary_bytes() {
    let data: Vec<u8> = (0u16..1000).map(|i| (i % 251) as u8).collect();
    assert_eq!(calculate_file_md5(&data), md5_hex_reference(&data));
}

#[test]
fn small_file_duplicates_start_hash() {
    let content = b"0123456789";
    let fp = calculate_partial_hash(content, None, content.len() as u64);
    assert_eq!(fp.file_size, 10);
    assert_eq!(fp.start_hash, md5_hex_reference(content));
    assert_eq!(fp.end_hash, fp.start_hash);
}

#[test]
fn file_of_exactly_sample_size_takes_the_duplicate_branch() {
    let content = vec![7u8; SAMPLE_SIZE as usize];
    let plan = sample_plan(content.len() as u64);
    assert_eq!(plan.start_len, SAMPLE_SIZE);
    assert_eq!(plan.tail_offset, None);
    let fp = calculate_partial_hash(&content, None, content.len() as u64);
    assert_eq!(fp.end_hash, fp.start_hash);
}

#[test]
fn file_one_byte_over_sample_size_samples_the_tail() {
    let size = SAMPLE_SIZE + 1;
    let content: Vec<u8> = (0..size).map(|i| (i % 256) as u8).collect();
    let plan = sample_plan(size);
    assert_eq!(plan.start_len, SAMPLE_SIZE);
    assert_eq!(plan.tail_offset, Some(1));
    let start = &content[..SAMPLE_SIZE as usize];
    let tail = &content[1..];
    let fp = calculate_partial_hash(start, Some(tail), size);
    assert_eq!(fp.start_hash, md5_hex_reference(start));
    assert_eq!(fp.end_hash, md5_hex_reference(tail));
    assert_ne!(fp.end_hash, fp.start_hash);
}

#[test]
fn sample_plan_for_tiny_file_reads_only_what_exists() {
    let plan = sample_plan(10);
    assert_eq!(plan.start_len, 10);
    assert_eq!(plan.tail_offset, None);
}

#[test]
fn fingerprint_is_deterministic_for_unmodified_input() {
    let size = 3 * SAMPLE_SIZE;
    let content: Vec<u8> = (0..size).map(|i| (i * 31 % 256) as u8).collect();
    let start = &content[..SAMPLE_SIZE as usize];
    let tail = &content[(size - SAMPLE_SIZE) as usize..];
    let fp1 = calculate_partial_hash(start, Some(tail), size);
    let fp2 = calculate_partial_hash(start, Some(tail), size);
    assert_eq!(fp1.start_hash, fp2.start_hash);
    assert_eq!(fp1.end_hash, fp2.end_hash);
    assert_eq!(fp1.file_size, fp2.file_size);
}
