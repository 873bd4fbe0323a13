use libnvme::error::{check_fd, check_ret, complete, non_null, Source};
use libnvme::Error;
use std::borrow::Cow;
use std::io;

fn enoent() -> Error {
    io::Error::from_raw_os_error(2).into()
}

#[test]
fn display_has_libnvme_prefix() {
    assert!(enoent().to_string().starts_with("libnvme: "));
}

#[test]
fn source_is_inner_io_error() {
    let err = enoent();
    let source = err.source().expect("source should exist");
    assert!(source.as_io_error().is_some());
}

#[test]
fn from_io_error_yields_os_variant() {
    assert!(matches!(enoent(), Error::Os(_)));
}

#[test]
fn not_available_has_no_source() {
    let err = Error::NotAvailable;
    assert!(err.source().is_none());
}

#[test]
#[allow(invalid_from_utf8)]
fn utf8_error_displays_with_prefix() {
    let bad = std::str::from_utf8(&[0xFFu8, 0xFE]).unwrap_err();
    let err: Error = bad.into();
    assert!(err.to_string().starts_with("libnvme: invalid UTF-8"));
}

#[test]
fn nvme_status_formats_as_hex() {
    let err = Error::Nvme(0x4081);
    assert_eq!(err.to_string(), "libnvme: NVMe status 0x4081");
}

#[test]
fn check_ret_zero_is_ok() {
    assert!(check_ret(0).is_ok());
}

#[test]
fn check_ret_negative_is_os_error() {
    let err = check_ret(-2).unwrap_err();
    match err {
        Error::Os(e) => assert_eq!(e.raw_os_error(), Some(2)),
        _ => panic!("expected Os variant"),
    }
}

#[test]
fn check_ret_positive_is_nvme_status() {
    let err = check_ret(0x281).unwrap_err();
    assert!(matches!(err, Error::Nvme(0x281)));
}

fn code(err: Error) -> Option<i32> {
    match err {
        Error::Os(e) => e.raw_os_error(),
        _ => panic!("expected Os variant"),
    }
}

#[test]
fn check_ret_minus_one_takes_errno() {
    let errno = io::Error::last_os_error().raw_os_error();
    assert!(errno.is_some());
    assert_eq!(code(check_ret(-1).unwrap_err()), errno);
    assert_eq!(code(complete(-1, 0u8).unwrap_err()), errno);
    assert_eq!(code(non_null::<u8>(None).unwrap_err()), errno);
    assert_eq!(code(check_fd(-1).unwrap_err()), errno);
}

#[test]
fn check_ret_takes_the_least_value() {
    assert_eq!(code(check_ret(i32::MIN).unwrap_err()), Some(i32::MIN));
}

#[test]
fn check_ret_takes_the_extremes() {
    assert!(matches!(check_ret(i32::MAX), Err(Error::Nvme(0x7fff_ffff))));
    match check_ret(i32::MIN + 1).unwrap_err() {
        Error::Os(e) => assert_eq!(e.raw_os_error(), Some(i32::MAX)),
        _ => panic!("expected Os variant"),
    }
}

#[test]
fn texts_are_exact() {
    assert_eq!(Error::NotAvailable.to_string(), "libnvme: value not available");
    assert_eq!(Error::Nvme(0x7).to_string(), "libnvme: NVMe status 0x0007");
    assert_eq!(Error::Nvme(0x1_2abc).to_string(), "libnvme: NVMe status 0x12abc");
    assert_eq!(
        Error::invalid_argument(Cow::Borrowed("too long")).to_string(),
        "libnvme: invalid argument: too long"
    );
    assert_eq!(
        Error::invalid_argument(Cow::Owned(String::from("owned"))).to_string(),
        "libnvme: invalid argument: owned"
    );
    assert_eq!(enoent().to_string(), format!("libnvme: {}", io::Error::from_raw_os_error(2)));
}

#[test]
fn utf8_error_is_its_source() {
    let bad = std::str::from_utf8(&[0x80u8]).unwrap_err();
    let err: Error = bad.into();
    match err.source() {
        Some(Source::Utf8(e)) => assert_eq!(e.valid_up_to(), 0),
        _ => panic!("expected the UTF-8 error"),
    }
    assert!(err.source().expect("source").as_io_error().is_none());
    assert!(Error::Nvme(1).source().is_none());
}

#[test]
fn complete_returns_the_value_on_success_only() {
    assert_eq!(complete(0, 17u32).expect("success"), 17);
    assert!(matches!(complete(5, 17u32), Err(Error::Nvme(5))));
    assert!(matches!(complete(-5, 17u32), Err(Error::Os(_))));
}

#[test]
fn null_handle_is_an_os_error() {
    assert_eq!(non_null(Some(3u8)).expect("handle"), 3);
    assert!(matches!(non_null::<u8>(None), Err(Error::Os(_))));
}

#[test]
fn negative_descriptor_is_an_os_error() {
    assert_eq!(check_fd(0).expect("descriptor"), 0);
    assert_eq!(check_fd(9).expect("descriptor"), 9);
    assert!(matches!(check_fd(-1), Err(Error::Os(_))));
}
