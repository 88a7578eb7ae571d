use lance_rgw::error::ErrorKind;
use lance_rgw::ffi::{RGWListResult, RGWObjectEntry, RGWObjectMeta};
use lance_rgw::store::{
    get_outcome, list_outcome, list_prefix, nul_position, payload_bytes, put_outcome, rgw_read_window,
    rgw_returned_range, rgw_store_from_c, CreateStoreError, GetRange, RGWObjectStore,
    LIST_MAX_KEYS, STORE,
};
use lance_rgw::time::{modification_time, Timestamp};

#[test]
fn store_identity() {
    let store = RGWObjectStore::new("bucket".to_string(), 11, 0);
    assert_eq!(store.bucket_name(), "bucket");
    assert_eq!(store.driver(), 11);
    assert_eq!(store.dpp(), 0);
    assert_eq!(store.describe(), "RGWObjectStore(bucket)");
    assert_eq!(STORE, "RGW");
    assert_eq!(LIST_MAX_KEYS, 1000);
}

#[test]
fn read_windows() {
    assert_eq!(rgw_read_window(None), (0, 0));
    assert_eq!(rgw_read_window(Some(GetRange::Bounded { start: 10, end: 25 })), (10, 15));
    assert_eq!(rgw_read_window(Some(GetRange::Offset(7))), (7, 0));
    assert_eq!(rgw_read_window(Some(GetRange::Suffix(7))), (0, 0));
}

#[test]
fn returned_ranges() {
    assert_eq!(rgw_returned_range(None, 9), (0, 9));
    assert_eq!(rgw_returned_range(Some(GetRange::Bounded { start: 10, end: 25 }), 15), (10, 25));
    assert_eq!(rgw_returned_range(Some(GetRange::Bounded { start: 10, end: 25 }), 4), (10, 14));
    assert_eq!(rgw_returned_range(Some(GetRange::Offset(7)), 3), (0, 3));
    assert_eq!(rgw_returned_range(Some(GetRange::Suffix(7)), 3), (0, 3));
}

#[test]
fn payload_is_concatenated() {
    let chunks = vec![vec![1u8, 2], vec![], vec![3], vec![4, 5, 6]];
    assert_eq!(payload_bytes(&chunks), vec![1, 2, 3, 4, 5, 6]);
    assert!(payload_bytes(&vec![]).is_empty());
}

#[test]
fn put_outcomes() {
    let ok = put_outcome(0, Some(b"\"abc\"".to_vec()), "k").unwrap();
    assert_eq!(ok.e_tag.as_deref(), Some("\"abc\""));
    assert_eq!(ok.version, None);
    let no_tag = put_outcome(0, None, "k").unwrap();
    assert_eq!(no_tag.e_tag, None);
    let bad_tag = put_outcome(0, Some(vec![0xff]), "k").unwrap();
    assert_eq!(bad_tag.e_tag, None);
    let err = put_outcome(1, Some(b"t".to_vec()), "k").unwrap_err();
    assert_eq!(err.kind(), ErrorKind::IO);
    assert_eq!(err.text(), "RGW operation failed: k (errno 1)");
    let err = put_outcome(-13, None, "k").unwrap_err();
    assert_eq!(err.kind(), ErrorKind::IO);
    assert_eq!(err.text(), "Permission denied: k (errno -13)");
}

#[test]
fn get_outcomes() {
    let now = Timestamp { secs: 1, nanos: 2 };
    let meta = RGWObjectMeta { size: 3, mtime_sec: 1_700_000_000, mtime_nsec: 9, etag: Some(b"t".to_vec()) };
    let got = get_outcome(0, Some(vec![7, 8, 9]), 3, meta, "p/q", now).unwrap();
    assert_eq!(got.data, vec![7, 8, 9]);
    assert_eq!(got.meta.location, "p/q");
    assert_eq!(got.meta.size, 3);
    assert_eq!(got.meta.e_tag.as_deref(), Some("t"));
    assert_eq!(got.meta.last_modified, Timestamp { secs: 1_700_000_000, nanos: 9 });

    let meta = RGWObjectMeta { size: 0, mtime_sec: i64::MAX, mtime_nsec: 0, etag: None };
    let got = get_outcome(0, None, 0, meta, "p", now).unwrap();
    assert!(got.data.is_empty());
    assert_eq!(got.meta.last_modified, now);
    assert_eq!(got.meta.e_tag, None);

    let meta = RGWObjectMeta { size: 0, mtime_sec: 0, mtime_nsec: 0, etag: None };
    let err = get_outcome(3, Some(vec![1]), 1, meta, "odd", now).unwrap_err();
    assert_eq!(err.kind(), ErrorKind::IO);
    assert_eq!(err.text(), "RGW operation failed: odd (errno 3)");

    let meta = RGWObjectMeta { size: 0, mtime_sec: 0, mtime_nsec: 0, etag: None };
    let err = get_outcome(-2, None, 0, meta, "missing", now).unwrap_err();
    assert_eq!(err.kind(), ErrorKind::NotFound);
    assert_eq!(err.text(), "missing");
}

#[test]
fn list_outcomes() {
    let now = Timestamp { secs: 5, nanos: 0 };
    let result = RGWListResult {
        entries: Some(vec![RGWObjectEntry {
            key: Some(b"k1".to_vec()),
            etag: None,
            size: 4,
            mtime_sec: 100,
            mtime_nsec: 0,
        }]),
        num_objects: 1,
        common_prefixes: None,
        num_common_prefixes: 0,
        next_marker: None,
        is_truncated: 0,
    };
    let listed = list_outcome(0, result, now).unwrap();
    assert_eq!(listed.len(), 1);
    assert_eq!(listed[0].location, "k1");
    assert_eq!(listed[0].last_modified, Timestamp { secs: 100, nanos: 0 });

    let empty = RGWListResult {
        entries: None,
        num_objects: 0,
        common_prefixes: None,
        num_common_prefixes: 0,
        next_marker: None,
        is_truncated: 0,
    };
    let err = list_outcome(-5, empty, now).unwrap_err();
    assert_eq!(err.kind(), ErrorKind::IO);
    assert_eq!(err.text(), "list failed with errno -5");
}

#[test]
fn list_prefixes() {
    assert_eq!(list_prefix(None), "");
    assert_eq!(list_prefix(Some("a/b")), "a/b");
}

#[test]
fn stores_from_c() {
    assert_eq!(rgw_store_from_c(0, 1, Some(b"b".to_vec())).unwrap_err(), CreateStoreError::NullDriver);
    assert_eq!(rgw_store_from_c(0, 1, None).unwrap_err(), CreateStoreError::NullDriver);
    assert_eq!(rgw_store_from_c(3, 1, None).unwrap_err(), CreateStoreError::NullBucket);
    assert_eq!(
        rgw_store_from_c(3, 1, Some(vec![0xff])).unwrap_err(),
        CreateStoreError::InvalidBucketName
    );
    let store = rgw_store_from_c(3, 0, Some(b"my-bucket".to_vec())).unwrap();
    assert_eq!(store.bucket_name(), "my-bucket");
    assert_eq!(store.driver(), 3);
    assert_eq!(store.dpp(), 0);
}

#[test]
fn wrapping_gives_the_rgw_store() {
    let store = RGWObjectStore::new("b".to_string(), 4, 5);
    let wrapped = store.wrap("rgw$b");
    assert_eq!(wrapped.bucket_name(), "b");
    assert_eq!(wrapped.driver(), 4);
    assert_eq!(wrapped.dpp(), 5);
}

#[test]
fn nul_bytes_are_found() {
    assert_eq!(nul_position("bucket"), None);
    assert_eq!(nul_position(""), None);
    assert_eq!(nul_position("ab\0c\0"), Some(2));
    assert_eq!(nul_position("\0"), Some(0));
    assert_eq!(nul_position("ü\0"), Some(2));
}

#[test]
fn clock_reading_is_a_time() {
    let now = lance_rgw::time::utc_now();
    assert!(now.nanos < 1_000_000_000);
    assert!(now.secs > 1_600_000_000);
}

#[test]
fn modification_times_follow_the_calendar() {
    let now = Timestamp { secs: 1, nanos: 1 };
    let kept = |secs: i64, nanos: u32| modification_time(secs, nanos, now) == Timestamp { secs, nanos };
    // the calendar's first and last second
    assert!(kept(-8_334_601_228_800, 0));
    assert!(!kept(-8_334_601_228_801, 999_999_999));
    assert!(kept(8_210_266_876_799, 999_999_999));
    assert!(!kept(8_210_266_876_800, 0));
    assert!(!kept(i64::MAX, 0));
    assert!(!kept(i64::MIN, 0));
    // leap seconds only in the last second of a minute
    assert!(kept(59, 1_500_000_000));
    assert!(!kept(58, 1_500_000_000));
    assert!(kept(-1, 1_999_999_999));
    assert!(!kept(59, 2_000_000_000));
    assert!(kept(0, 999_999_999));
}
