//! Errors, and how libnvme's return values map to them.

use crate::text;
use crate::text::push_hex_padded;
use std::borrow::Cow;
use vstd::prelude::*;
use vstd::string::StringExecFns;

verus! {

/// [`std::io::Error`], carried through as an opaque value.
#[verifier::external_type_specification]
#[verifier::external_body]
pub struct ExIoError(std::io::Error);

/// [`std::str::Utf8Error`], carried through as an opaque value.
#[verifier::external_type_specification]
#[verifier::external_body]
pub struct ExUtf8Error(std::str::Utf8Error);

/// The OS error code inside an I/O error: what
/// [`std::io::Error::raw_os_error`] reports.
pub uninterp spec fn os_code(e: std::io::Error) -> Option<i32>;

/// [`std::io::Error::from_raw_os_error`] makes an error that carries exactly
/// the given code.
pub assume_specification[ std::io::Error::from_raw_os_error ](code: i32) -> (e: std::io::Error)
    ensures
        os_code(e) == Some(code),
;

/// [`std::io::Error::last_os_error`] makes an error that carries an OS error
/// code. Which one depends on the thread's `errno` and is left open.
pub assume_specification[ std::io::Error::last_os_error ]() -> (e: std::io::Error)
    ensures
        os_code(e) is Some,
;

/// [`std::str::from_utf8`] accepts exactly the byte strings that are UTF-8, and
/// gives the text that they encode. What the error holds is left open.
pub assume_specification[ std::str::from_utf8 ](v: &[u8]) -> (r: std::result::Result<
    &str,
    std::str::Utf8Error,
>)
    ensures
        r is Ok <==> vstd::utf8::valid_utf8(v@),
        r matches Ok(s) ==> s@ == vstd::utf8::decode_utf8(v@),
;

/// Errors returned by this crate.
///
/// Marked `#[non_exhaustive]` so future variants can be added without a
/// breaking release.
#[non_exhaustive]
#[derive(Debug)]
pub enum Error {
    /// A libnvme call failed at the OS level. The wrapped error captures the
    /// platform's `errno`.
    Os(std::io::Error),
    /// The device returned a non-zero NVMe status code.
    ///
    /// Bits 0-7 hold the NVMe status code, bits 8-10 the status code type.
    Nvme(u32),
    /// libnvme returned NULL or a sentinel indicating the requested value is
    /// not set on this handle.
    NotAvailable,
    /// A C string returned by libnvme contained invalid UTF-8.
    Utf8(std::str::Utf8Error),
    /// Caller passed an argument that this crate rejected before forwarding it
    /// to libnvme (e.g. interior NUL byte in a string, NLB out of range,
    /// buffer length mismatch). The message says which input failed and why.
    InvalidArgument(Cow<'static, str>),
}

/// Result type alias for fallible operations in this crate.
pub type Result<T> = std::result::Result<T, Error>;

/// The underlying error that an [`Error`] wraps.
#[derive(Debug)]
pub enum Source<'e> {
    /// The OS-level error.
    Os(&'e std::io::Error),
    /// The UTF-8 decoding error.
    Utf8(&'e std::str::Utf8Error),
}

impl<'e> Source<'e> {
    /// The OS-level error, if that is what is wrapped.
    pub fn as_io_error(&self) -> (r: Option<&'e std::io::Error>)
        ensures
            r == (match *self {
                Source::Os(e) => Some(e),
                Source::Utf8(_) => None,
            }),
    {
        match self {
            Source::Os(e) => Some(*e),
            Source::Utf8(_) => None,
        }
    }
}

impl Error {
    /// Whether this is the rejection of an argument, with the given message.
    pub open spec fn rejects_with(self, msg: Seq<char>) -> bool {
        self matches Error::InvalidArgument(m) && m@ == msg
    }

    /// The text of this error, where `detail` is what the wrapped OS or UTF-8
    /// error says of itself.
    pub open spec fn text(self, detail: Seq<char>) -> Seq<char> {
        match self {
            Error::Os(_) => "libnvme: "@ + detail,
            Error::Nvme(status) => "libnvme: NVMe status 0x"@ + text::hex_padded(status as nat, 4),
            Error::NotAvailable => "libnvme: value not available"@,
            Error::Utf8(_) => "libnvme: invalid UTF-8: "@ + detail,
            Error::InvalidArgument(msg) => "libnvme: invalid argument: "@ + msg@,
        }
    }

    /// Whether `detail` is how the wrapped OS or UTF-8 error displays itself.
    pub open spec fn detail_is(self, detail: String) -> bool {
        match self {
            Error::Os(e) => vstd::string::to_string_from_display_ensures::<std::io::Error>(
                &e,
                detail,
            ),
            Error::Utf8(e) => vstd::string::to_string_from_display_ensures::<std::str::Utf8Error>(
                &e,
                detail,
            ),
            _ => true,
        }
    }

    /// Every error's text names the library first.
    pub proof fn every_text_has_the_prefix(self, detail: Seq<char>)
        ensures
            self.text(detail).len() >= 9,
            self.text(detail).take(9) == "libnvme: "@,
    {
        reveal_strlit("libnvme: ");
        reveal_strlit("libnvme: NVMe status 0x");
        reveal_strlit("libnvme: value not available");
        reveal_strlit("libnvme: invalid UTF-8: ");
        reveal_strlit("libnvme: invalid argument: ");
        assert(self.text(detail).take(9) =~= "libnvme: "@);
    }

    /// Construct an [`Error::InvalidArgument`] from a message.
    pub fn invalid_argument(msg: Cow<'static, str>) -> (e: Self)
        ensures
            e.rejects_with(msg@),
    {
        Error::InvalidArgument(msg)
    }

    /// The text of this error, given what the wrapped error says of itself.
    pub fn describe(&self, detail: &str) -> (r: String)
        ensures
            r@ == self.text(detail@),
    {
        match self {
            Error::Os(_) => String::from_str("libnvme: ").concat(detail),
            Error::Nvme(status) => {
                let mut out = String::from_str("libnvme: NVMe status 0x");
                push_hex_padded(&mut out, *status, 4);
                out
            },
            Error::NotAvailable => String::from_str("libnvme: value not available"),
            Error::Utf8(_) => String::from_str("libnvme: invalid UTF-8: ").concat(detail),
            Error::InvalidArgument(msg) => {
                let out = String::from_str("libnvme: invalid argument: ");
                match msg {
                    Cow::Borrowed(s) => out.concat(s),
                    Cow::Owned(s) => out.concat(s.as_str()),
                }
            },
        }
    }

    /// The text of this error.
    pub fn to_string(&self) -> (r: String)
        ensures
            exists|detail: String|
                #![trigger self.detail_is(detail)]
                self.detail_is(detail) && r@ == self.text(detail@),
            !(self is Os || self is Utf8) ==> r@ == self.text(Seq::empty()),
    {
        let detail: String = match self {
            Error::Os(e) => e.to_string(),
            Error::Utf8(e) => e.to_string(),
            _ => String::new(),
        };
        assert(self.detail_is(detail));
        self.describe(detail.as_str())
    }

    /// The error that this one wraps, if any.
    pub fn source(&self) -> (r: Option<Source<'_>>)
        ensures
            r == (match *self {
                Error::Os(e) => Some(Source::Os(&e)),
                Error::Utf8(e) => Some(Source::Utf8(&e)),
                _ => None,
            }),
    {
        match self {
            Error::Os(e) => Some(Source::Os(e)),
            Error::Utf8(e) => Some(Source::Utf8(e)),
            Error::Nvme(_) | Error::NotAvailable | Error::InvalidArgument(_) => None,
        }
    }
}

impl From<std::io::Error> for Error {
    fn from(e: std::io::Error) -> (r: Self) {
        Error::Os(e)
    }
}

impl vstd::std_specs::convert::FromSpecImpl<std::io::Error> for Error {
    open spec fn obeys_from_spec() -> bool {
        true
    }

    open spec fn from_spec(e: std::io::Error) -> Self {
        Error::Os(e)
    }
}

impl From<std::str::Utf8Error> for Error {
    fn from(e: std::str::Utf8Error) -> (r: Self) {
        Error::Utf8(e)
    }
}

impl vstd::std_specs::convert::FromSpecImpl<std::str::Utf8Error> for Error {
    open spec fn obeys_from_spec() -> bool {
        true
    }

    open spec fn from_spec(e: std::str::Utf8Error) -> Self {
        Error::Utf8(e)
    }
}

/// Whether `e` is the OS error that a call of [`std::io::Error::last_os_error`]
/// returned: the one in the thread's `errno`, which always carries a code.
pub open spec fn is_os_failure(e: Error) -> bool {
    e matches Error::Os(os) && call_ensures(std::io::Error::last_os_error, (), os) && os_code(
        os,
    ) is Some
}

/// The OS error code that a negative return value stands for: its negation, in
/// two's complement, so that the least value stands for itself.
pub open spec fn negated(ret: i32) -> i32 {
    if ret == i32::MIN {
        i32::MIN
    } else {
        (-ret) as i32
    }
}

/// Whether `e` is the error that the non-zero libnvme return value `ret` stands
/// for: a positive value is an NVMe status, `-1` the OS error in `errno`, any
/// other negative value a negated OS error code.
pub open spec fn ret_failure(ret: i32, e: Error) -> bool {
    if ret > 0 {
        e == Error::Nvme(ret as u32)
    } else if ret == -1 {
        is_os_failure(e)
    } else {
        e matches Error::Os(os) && os_code(os) == Some(negated(ret))
    }
}

/// The outcome of a libnvme call that returned `ret` and produced `value`.
pub open spec fn ret_outcome<T>(ret: i32, value: T, r: Result<T>) -> bool {
    if ret == 0 {
        r == Ok::<T, Error>(value)
    } else {
        r matches Err(e) && ret_failure(ret, e)
    }
}

/// The sign of the return value decides the outcome: zero and only zero is
/// success, a positive value and only that is an NVMe status, which is the value
/// itself, and a negative value and only that is an OS error.
pub proof fn return_value_decides_the_outcome<T>(ret: i32, value: T, r: Result<T>)
    requires
        ret_outcome(ret, value, r),
    ensures
        r is Ok <==> ret == 0,
        r matches Ok(v) ==> v == value,
        (r matches Err(Error::Nvme(_))) <==> ret > 0,
        r matches Err(Error::Nvme(status)) ==> status == ret,
        (r matches Err(Error::Os(_))) <==> ret < 0,
{
}

/// Map a libnvme return value into a `Result`.
///
/// libnvme convention:
/// - `0` - success
/// - negative - `-errno`, or `-1` with the platform errno set
/// - positive - NVMe status code from the device
pub fn check_ret(ret: i32) -> (r: Result<()>)
    ensures
        ret_outcome(ret, (), r),
{
    if ret == 0 {
        Ok(())
    } else if ret < 0 {
        let err = if ret == -1 {
            std::io::Error::last_os_error()
        } else if ret == i32::MIN {
            std::io::Error::from_raw_os_error(i32::MIN)
        } else {
            std::io::Error::from_raw_os_error(-ret)
        };
        Err(Error::from(err))
    } else {
        Err(Error::Nvme(ret as u32))
    }
}

/// Finish a command: its result value where libnvme returned success, and the
/// error that the return value stands for otherwise.
pub fn complete<T>(ret: i32, value: T) -> (r: Result<T>)
    ensures
        ret_outcome(ret, value, r),
{
    match check_ret(ret) {
        Ok(()) => Ok(value),
        Err(e) => Err(e),
    }
}

/// A handle that libnvme returned, where `None` stands for NULL: a failed
/// operation whose reason is in `errno`.
pub fn non_null<H>(raw: Option<H>) -> (r: Result<H>)
    ensures
        match raw {
            Some(h) => r == Ok::<H, Error>(h),
            None => r matches Err(e) && is_os_failure(e),
        },
{
    match raw {
        Some(h) => Ok(h),
        None => Err(Error::from(std::io::Error::last_os_error())),
    }
}

/// The file descriptor of an opened device. libnvme opens devices lazily and
/// returns a negative value on failure, with the reason in `errno`.
pub fn check_fd(fd: i32) -> (r: Result<i32>)
    ensures
        if fd >= 0 {
            r == Ok::<i32, Error>(fd)
        } else {
            r matches Err(e) && is_os_failure(e)
        },
{
    if fd < 0 {
        return Err(Error::from(std::io::Error::last_os_error()));
    }
    Ok(fd)
}

} // verus!
