use lance_rgw::error::{check_errno, errno_to_error, ErrorKind, RgwError};
use lance_rgw::text::i32_to_decimal;

#[test]
fn decimal_text() {
    assert_eq!(i32_to_decimal(0), "0");
    assert_eq!(i32_to_decimal(7), "7");
    assert_eq!(i32_to_decimal(-22), "-22");
    assert_eq!(i32_to_decimal(1234567890), "1234567890");
    assert_eq!(i32_to_decimal(i32::MIN), "-2147483648");
    assert_eq!(i32_to_decimal(i32::MAX), "2147483647");
}

#[test]
fn errno_mapping() {
    let e = errno_to_error(-2, "a/b");
    assert_eq!(e.kind(), ErrorKind::NotFound);
    assert_eq!(e.text(), "a/b");

    let e = errno_to_error(-17, "a/b");
    assert_eq!(e.kind(), ErrorKind::IO);
    assert_eq!(e.text(), "File already exists: a/b (errno -17)");

    let e = errno_to_error(-22, "a/b");
    assert_eq!(e.kind(), ErrorKind::InvalidInput);
    assert_eq!(e.text(), "Invalid argument: a/b (errno -22)");

    let e = errno_to_error(-13, "a/b");
    assert_eq!(e.kind(), ErrorKind::IO);
    assert_eq!(e.text(), "Permission denied: a/b (errno -13)");

    let e = errno_to_error(-1, "a/b");
    assert_eq!(e.text(), "Permission denied: a/b (errno -1)");

    let e = errno_to_error(-12, "a/b");
    assert_eq!(e.kind(), ErrorKind::IO);
    assert_eq!(e.text(), "Out of memory (errno -12)");

    let e = errno_to_error(-5, "a/b");
    assert_eq!(e.text(), "I/O error: a/b (errno -5)");

    let e = errno_to_error(-38, "a/b");
    assert_eq!(e.kind(), ErrorKind::IO);
    assert_eq!(e.text(), "RGW operation failed: a/b (errno -38)");
}

#[test]
fn check_errno_passes_zero_only() {
    assert!(check_errno(0, "x").is_ok());
    let e = check_errno(5, "x").unwrap_err();
    assert_eq!(e.kind(), ErrorKind::IO);
    assert_eq!(e.text(), "RGW operation failed: x (errno 5)");
    let e = check_errno(-2, "x").unwrap_err();
    assert_eq!(e.kind(), ErrorKind::NotFound);
    assert_eq!(e.text(), "x");
}

#[test]
fn rgw_error_queries() {
    let e = RgwError::from_errno(-2);
    assert!(e.is_not_found());
    assert!(!e.is_already_exists());
    assert_eq!(e.errno(), Some(-2));

    let e = RgwError::from_errno(-17);
    assert!(!e.is_not_found());
    assert!(e.is_already_exists());
    assert_eq!(e.errno(), Some(-17));

    let e = RgwError::NullPointer;
    assert!(!e.is_not_found());
    assert!(!e.is_already_exists());
    assert_eq!(e.errno(), None);
}

#[test]
fn rgw_error_messages() {
    assert_eq!(RgwError::Errno(-5).message(), "RGW operation failed with errno -5");
    assert_eq!(RgwError::InvalidUtf8.message(), "Invalid UTF-8 in C string");
    assert_eq!(RgwError::NullPointer.message(), "Null pointer returned from RGW");
    assert_eq!(
        RgwError::MissingField("etag".to_string()).message(),
        "Required field is missing: etag"
    );
    assert_eq!(RgwError::NulError(3).message(), "String contains null byte");
    assert_eq!(RgwError::JoinError.message(), "Background task failed");
}

#[test]
fn rgw_error_into_store_error() {
    let e = RgwError::Errno(-2).into_store_error();
    assert_eq!(e.kind(), ErrorKind::NotFound);
    assert_eq!(e.text(), "");

    let e = RgwError::Errno(-22).into_store_error();
    assert_eq!(e.kind(), ErrorKind::InvalidInput);
    assert_eq!(e.text(), "Invalid argument:  (errno -22)");

    let e = RgwError::InvalidUtf8.into_store_error();
    assert_eq!(e.kind(), ErrorKind::IO);
    assert_eq!(e.text(), "Invalid UTF-8 in C string");
}
