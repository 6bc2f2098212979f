use alloc_perf_test::conf::SubFull;
use alloc_perf_test::storage_util::{RecordKind, StoredRecord};
use alloc_perf_test::AllocPerfError;

fn sub_with_idx(idx: u8) -> SubFull {
    SubFull {
        idx,
        domain: String::from("https://example.com"),
        username: String::from("user"),
        password: String::from("pass"),
    }
}

#[test]
fn round_trip_small_record() {
    let rec = StoredRecord { id: 1, name: String::from("x") };
    let (rec, binz) = rec.with_binz().unwrap();
    let back = StoredRecord::from_binz(binz).unwrap();
    assert_eq!(back.id, rec.id);
    assert_eq!(back.name, rec.name);
}

#[test]
fn round_trip_empty_name() {
    let rec = StoredRecord { id: u64::MAX, name: String::new() };
    let (_, binz) = rec.with_binz().unwrap();
    let back = StoredRecord::from_binz(binz).unwrap();
    assert_eq!(back.id, u64::MAX);
    assert_eq!(back.name, "");
}

#[test]
fn round_trip_long_unicode_name() {
    let name: String = "caf\u{e9} \u{1F600} na\u{ef}ve ".repeat(100);
    let rec = StoredRecord { id: 424242, name: name.clone() };
    let (_, binz) = rec.with_binz().unwrap();
    let back = StoredRecord::from_binz(binz).unwrap();
    assert_eq!(back.id, 424242);
    assert_eq!(back.name, name);
}

#[test]
fn serialized_form_is_canonical() {
    let rec = StoredRecord { id: 0x0102030405060708, name: String::from("AB") };
    let bytes = rec.to_serialized_blocking().unwrap();
    let mut expected = vec![0x08, 0x07, 0x06, 0x05, 0x04, 0x03, 0x02, 0x01];
    expected.extend_from_slice(&[2, 0, 0, 0, 0, 0, 0, 0]);
    expected.extend_from_slice(b"AB");
    assert_eq!(bytes, expected);
}

#[test]
fn blob_carries_lz4_frame_magic() {
    // the lz4 frame format begins with the fixed magic number; a blob that
    // merely echoed its input would start with the record id instead
    let rec = StoredRecord { id: 7, name: String::from("abcabcabcabcabc") };
    let (_, binz) = rec.with_binz().unwrap();
    assert_eq!(&binz[0..4], &[0x04, 0x22, 0x4D, 0x18]);
}

#[test]
fn garbage_blob_reports_decompress_error() {
    let r = StoredRecord::from_binz(vec![1, 2, 3, 4, 5]);
    assert!(matches!(
        r,
        Err(AllocPerfError::StorageUtil(
            alloc_perf_test::storage_util::StorageUtilError::Decompress(_)
        ))
    ));
}

#[test]
fn short_serialized_bytes_are_rejected() {
    let r = StoredRecord::from_serialized_blocking(vec![0; 15]);
    assert!(matches!(
        r,
        Err(AllocPerfError::StorageUtil(
            alloc_perf_test::storage_util::StorageUtilError::SpeedyReadFailed(_)
        ))
    ));
}

#[test]
fn wrong_length_field_is_rejected() {
    let rec = StoredRecord { id: 3, name: String::from("xyz") };
    let mut bytes = rec.to_serialized_blocking().unwrap();
    bytes.push(0); // trailing byte no longer matches the length field
    assert!(StoredRecord::from_serialized_blocking(bytes).is_err());
}

#[test]
fn invalid_utf8_name_is_rejected() {
    let mut bytes = vec![0; 8];
    bytes.extend_from_slice(&[1, 0, 0, 0, 0, 0, 0, 0]);
    bytes.push(0xFF);
    assert!(StoredRecord::from_serialized_blocking(bytes).is_err());
}

#[test]
fn decoding_canonical_bytes_succeeds() {
    let mut bytes = vec![9, 0, 0, 0, 0, 0, 0, 0];
    bytes.extend_from_slice(&[3, 0, 0, 0, 0, 0, 0, 0]);
    bytes.extend_from_slice(b"abc");
    let rec = StoredRecord::from_serialized_blocking(bytes).unwrap();
    assert_eq!(rec.id, 9);
    assert_eq!(rec.name, "abc");
}

#[test]
fn record_kind_names() {
    assert_eq!(RecordKind::AllInfo.file_name(), "ALL");
    assert_eq!(RecordKind::BooiesCache.file_name(), "BOOIES_CACHE");
    assert_eq!(RecordKind::AllInfo.desc(), "all info");
    assert_eq!(RecordKind::BooiesCache.desc(), "booies details cache");
}

#[test]
fn record_paths_join_namespace_and_file_name() {
    assert_eq!(RecordKind::AllInfo.get_path(&sub_with_idx(5)), "5/ALL");
    assert_eq!(RecordKind::AllInfo.get_path(&sub_with_idx(42)), "42/ALL");
    assert_eq!(RecordKind::BooiesCache.get_path(&sub_with_idx(255)), "255/BOOIES_CACHE");
    assert_eq!(RecordKind::BooiesCache.get_path(&sub_with_idx(1)), "1/BOOIES_CACHE");
}
