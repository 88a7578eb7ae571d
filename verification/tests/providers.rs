use lance_rgw::error::ErrorKind;
use lance_rgw::location::ParsedUrl;
use lance_rgw::providers::{
    storage_option, trim_start_slashes, RGWStoreProvider, SalStoreProvider, StoreParams,
    DEFAULT_CLOUD_BLOCK_SIZE, DEFAULT_CLOUD_IO_PARALLELISM, DEFAULT_LOCAL_BLOCK_SIZE,
};
use object_store::path::Path;

fn path_text(s: &str) -> String {
    String::from(Path::from(s))
}

fn params(block_size: Option<usize>, ordered: Option<bool>, has_wrapper: bool) -> StoreParams {
    StoreParams {
        block_size,
        use_constant_size_upload_parts: true,
        list_is_lexically_ordered: ordered,
        has_wrapper,
        storage_options: vec![],
    }
}

#[test]
fn test_provider_creation() {
    let provider = RGWStoreProvider::new(1, 0);

    assert_eq!(provider.driver(), 1);
    assert_eq!(provider.dpp(), 0);
}

#[test]
fn test_extract_path() {
    let provider = RGWStoreProvider::new(1, 0);

    let url = ParsedUrl::parse("rgw://my-bucket/path/to/file.txt").unwrap();
    let path = provider.extract_path(&url).unwrap();

    assert_eq!(path, path_text("path/to/file.txt"));
}

#[test]
fn test_extract_path_root() {
    let provider = RGWStoreProvider::new(1, 0);

    let url = ParsedUrl::parse("rgw://my-bucket/").unwrap();
    let path = provider.extract_path(&url).unwrap();

    assert_eq!(path, path_text(""));
}

#[test]
fn test_calculate_prefix() {
    let provider = RGWStoreProvider::new(1, 0);

    let url = ParsedUrl::parse("rgw://my-bucket/path").unwrap();
    let prefix = provider.calculate_object_store_prefix(&url, None).unwrap();

    assert_eq!(prefix, "rgw$my-bucket");
}

#[test]
fn test_url_without_bucket() {
    let provider = RGWStoreProvider::new(1, 0);

    // URL without bucket should fail
    let url = ParsedUrl::parse("rgw:///path").unwrap();
    assert!(provider.extract_path(&url).is_ok()); // Path extraction works
    assert!(provider.calculate_object_store_prefix(&url, None).is_err()); // But prefix fails
}

#[test]
fn test_sal_store_path_extraction() {
    let provider = SalStoreProvider;

    let url = ParsedUrl::parse("sal://my-bucket/path/to/file").unwrap();
    let path = provider.extract_path(&url).unwrap();
    let expected_path = path_text("path/to/file");
    assert_eq!(path, expected_path);

    // Test root path
    let url = ParsedUrl::parse("sal://my-bucket/").unwrap();
    let path = provider.extract_path(&url).unwrap();
    let expected_path = path_text("");
    assert_eq!(path, expected_path);

    // Test nested path
    let url = ParsedUrl::parse("sal://my-bucket/deep/nested/path/file.lance").unwrap();
    let path = provider.extract_path(&url).unwrap();
    let expected_path = path_text("deep/nested/path/file.lance");
    assert_eq!(path, expected_path);
}

#[test]
fn test_calculate_object_store_prefix() {
    let provider = SalStoreProvider;

    let url = ParsedUrl::parse("sal://my-bucket/path").unwrap();
    assert_eq!(
        "sal$my-bucket",
        provider.calculate_object_store_prefix(&url, None).unwrap()
    );

    // Different bucket should have different prefix
    let url2 = ParsedUrl::parse("sal://another-bucket/path").unwrap();
    assert_eq!(
        "sal$another-bucket",
        provider.calculate_object_store_prefix(&url2, None).unwrap()
    );
}

#[test]
fn parsed_url_parts() {
    let url = ParsedUrl::parse("rgw://my-bucket/path/to/file.txt").unwrap();
    assert_eq!(url.scheme, "rgw");
    assert_eq!(url.host.as_deref(), Some("my-bucket"));
    assert_eq!(url.authority, "my-bucket");
    assert_eq!(url.path, "/path/to/file.txt");
    assert_eq!(url.serialization, "rgw://my-bucket/path/to/file.txt");
    assert!(ParsedUrl::parse("not a url").is_none());
}

#[test]
fn trim_start_slashes_drops_every_leading_slash() {
    assert_eq!(trim_start_slashes("///a/b/"), "a/b/");
    assert_eq!(trim_start_slashes("a//b"), "a//b");
    assert_eq!(trim_start_slashes("//"), "");
    assert_eq!(trim_start_slashes(""), "");
}

#[test]
fn rgw_extract_path_rejects_bad_paths() {
    let provider = RGWStoreProvider::new(1, 0);
    for (input, path) in [("rgw://b/a//c", "a//c"), ("rgw://b/a/b//", "a/b//"), ("rgw://b//x//y", "x//y")] {
        let url = ParsedUrl::parse(input).unwrap();
        let err = provider.extract_path(&url).unwrap_err();
        assert_eq!(err.kind(), ErrorKind::InvalidInput);
        assert_eq!(
            err.text(),
            format!(
                "Invalid path in RGW URL '{}': Path \"{}\" contained empty path segment",
                input, path
            )
        );
    }
}

fn url_with_path(path: &str) -> ParsedUrl {
    ParsedUrl {
        serialization: format!("rgw://b{}", path),
        scheme: "rgw".to_string(),
        host: Some("b".to_string()),
        authority: "b".to_string(),
        path: path.to_string(),
    }
}

#[test]
fn rgw_extract_path_names_the_bad_segment() {
    let provider = RGWStoreProvider::new(1, 0);
    let cases = [
        ("/a/../b", "a/../b", "..", ".."),
        ("/./b", "./b", ".", "."),
        ("/ok/x\u{1}y/z", "ok/x\u{1}y/z", "\u{1}", "x\u{1}y"),
        ("/ok/\u{7f}", "ok/\u{7f}", "\u{7f}", "\u{7f}"),
    ];
    for (path, parsed, illegal, segment) in cases {
        let url = url_with_path(path);
        let err = provider.extract_path(&url).unwrap_err();
        assert_eq!(err.kind(), ErrorKind::InvalidInput);
        assert_eq!(
            err.text(),
            format!(
                "Invalid path in RGW URL '{}': Error parsing Path \"{}\": Encountered illegal character sequence \"{}\" whilst parsing path segment \"{}\"",
                url.serialization, parsed, illegal, segment
            )
        );
    }
    // an empty segment before a bad one is reported first
    let url = url_with_path("/a//..");
    let err = provider.extract_path(&url).unwrap_err();
    assert_eq!(
        err.text(),
        "Invalid path in RGW URL 'rgw://b/a//..': Path \"a//..\" contained empty path segment"
    );
    // one trailing slash is dropped, two leave an empty segment
    assert_eq!(provider.extract_path(&url_with_path("/a/")).unwrap(), "a");
    assert!(provider.extract_path(&url_with_path("/a//")).is_err());
}

#[test]
fn extract_path_strips_one_trailing_slash_and_keeps_dots_inside_names() {
    let provider = RGWStoreProvider::new(1, 0);
    let url = ParsedUrl::parse("rgw://b//dir/file.v1.lance/").unwrap();
    assert_eq!(provider.extract_path(&url).unwrap(), "dir/file.v1.lance");
    let url = ParsedUrl::parse("rgw://b/.hidden/..x").unwrap();
    assert_eq!(provider.extract_path(&url).unwrap(), ".hidden/..x");
}

#[test]
fn sal_extract_path_error_names_the_path() {
    let provider = SalStoreProvider;
    let url = ParsedUrl::parse("sal://bucket/a//b").unwrap();
    let err = provider.extract_path(&url).unwrap_err();
    assert_eq!(err.kind(), ErrorKind::InvalidInput);
    assert_eq!(err.text(), "Invalid path in SAL URL: /a//b");
}

#[test]
fn rgw_prefix_error_names_the_url() {
    let provider = RGWStoreProvider::new(1, 0);
    let url = ParsedUrl::parse("rgw:///path").unwrap();
    let err = provider.calculate_object_store_prefix(&url, None).unwrap_err();
    assert_eq!(err.kind(), ErrorKind::InvalidInput);
    assert_eq!(err.text(), "RGW URL must contain bucket name: rgw:///path");
}

#[test]
fn different_buckets_get_different_prefixes() {
    let provider = RGWStoreProvider::new(1, 0);
    let a = ParsedUrl::parse("rgw://alpha/x").unwrap();
    let b = ParsedUrl::parse("rgw://beta/x").unwrap();
    let c = ParsedUrl::parse("rgw://alpha/other/path").unwrap();
    let pa = provider.calculate_object_store_prefix(&a, None).unwrap();
    let pb = provider.calculate_object_store_prefix(&b, None).unwrap();
    let pc = provider.calculate_object_store_prefix(&c, None).unwrap();
    assert_ne!(pa, pb);
    assert_eq!(pa, pc);
}

#[test]
fn sal_prefix_keeps_the_authority() {
    let provider = SalStoreProvider;
    let url = ParsedUrl::parse("sal://user@bucket:7480/x").unwrap();
    assert_eq!(
        provider.calculate_object_store_prefix(&url, None).unwrap(),
        "sal$user@bucket:7480"
    );
}

#[test]
fn rgw_new_store_defaults() {
    let provider = RGWStoreProvider::new(7, 9);
    let url = ParsedUrl::parse("rgw://my-bucket/data").unwrap();
    let plan = provider.new_store(&url, &params(None, None, false), 1024, 3).unwrap();
    assert_eq!(plan.store.bucket_name(), "my-bucket");
    assert_eq!(plan.store.driver(), 7);
    assert_eq!(plan.store.dpp(), 9);
    assert_eq!(plan.wrap_prefix, None);
    assert_eq!(plan.settings.scheme, "rgw");
    assert_eq!(plan.settings.block_size, DEFAULT_LOCAL_BLOCK_SIZE);
    assert_eq!(plan.settings.block_size, 4096);
    assert_eq!(plan.settings.max_iop_size, 1024);
    assert!(plan.settings.use_constant_size_upload_parts);
    assert!(plan.settings.list_is_lexically_ordered);
    assert_eq!(plan.settings.io_parallelism, DEFAULT_CLOUD_IO_PARALLELISM);
    assert_eq!(plan.settings.download_retry_count, 3);
    assert_eq!(plan.settings.store_prefix, "rgw$my-bucket");
}

#[test]
fn rgw_new_store_follows_params() {
    let provider = RGWStoreProvider::new(7, 0);
    let url = ParsedUrl::parse("rgw://b2/data").unwrap();
    let plan = provider.new_store(&url, &params(Some(8192), Some(false), true), 5, 1).unwrap();
    assert_eq!(plan.wrap_prefix.as_deref(), Some("rgw$b2"));
    assert_eq!(plan.settings.block_size, 8192);
    assert!(!plan.settings.list_is_lexically_ordered);
}

#[test]
fn rgw_new_store_needs_a_bucket() {
    let provider = RGWStoreProvider::new(7, 0);
    let url = ParsedUrl::parse("rgw:///data").unwrap();
    let err = provider.new_store(&url, &params(None, None, true), 5, 1).unwrap_err();
    assert_eq!(err.kind(), ErrorKind::InvalidInput);
    assert_eq!(err.text(), "RGW URL must contain bucket name: rgw:///data");
}

#[test]
fn sal_new_store_reads_ceph_options() {
    let provider = SalStoreProvider::default();
    let url = ParsedUrl::parse("sal://my-bucket/data").unwrap();
    let mut p = params(None, Some(false), false);
    p.storage_options = vec![
        ("cluster_name".to_string(), "ceph".to_string()),
        ("conf_file".to_string(), "/etc/ceph/ceph.conf".to_string()),
        ("other".to_string(), "x".to_string()),
    ];
    let plan = provider.new_store(&url, &p, 10, 180, 2048, 3).unwrap();
    assert_eq!(plan.bucket, "my-bucket");
    assert_eq!(plan.max_retries, 10);
    assert_eq!(plan.retry_timeout_secs, 180);
    assert_eq!(plan.cluster_name.as_deref(), Some("ceph"));
    assert_eq!(plan.user_name, None);
    assert_eq!(plan.conf_file.as_deref(), Some("/etc/ceph/ceph.conf"));
    assert_eq!(plan.settings.scheme, "sal");
    assert_eq!(plan.settings.block_size, DEFAULT_CLOUD_BLOCK_SIZE);
    assert_eq!(plan.settings.block_size, 65536);
    assert!(!plan.settings.use_constant_size_upload_parts);
    assert!(plan.settings.list_is_lexically_ordered);
    assert_eq!(plan.settings.io_parallelism, 64);
    assert_eq!(plan.settings.store_prefix, "sal$my-bucket");
}

#[test]
fn sal_new_store_needs_a_bucket() {
    let provider = SalStoreProvider;
    let url = ParsedUrl::parse("sal:///data").unwrap();
    let err = provider.new_store(&url, &params(None, None, false), 1, 1, 1, 1).unwrap_err();
    assert_eq!(err.kind(), ErrorKind::InvalidInput);
    assert_eq!(err.text(), "SAL URL must contain bucket name (sal://bucket/path)");
}

#[test]
fn storage_option_takes_the_first_match() {
    let options = vec![
        ("a".to_string(), "1".to_string()),
        ("b".to_string(), "2".to_string()),
        ("a".to_string(), "3".to_string()),
    ];
    assert_eq!(storage_option(&options, "a").as_deref(), Some("1"));
    assert_eq!(storage_option(&options, "b").as_deref(), Some("2"));
    assert_eq!(storage_option(&options, "c"), None);
}
