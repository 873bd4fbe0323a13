//! What return values, handles and errors stand for.

use super::{is_errno, says};
use crate::error::{check_fd, check_ret, complete, non_null, os_code, Error, Result, Source};
use crate::text;
use std::borrow::Cow;
use vstd::prelude::*;

verus! {

/// Zero is success, a positive value is the NVMe status of that number, `-1` is
/// what `errno` held, and any other negative value is the OS error of the opposite
/// number.
pub proof fn return_values(ret: i32, r: Result<()>)
    requires
        call_ensures(check_ret, (ret,), r),
    ensures
        ret == 0 <==> r is Ok,
        ret > 0 <==> (r matches Err(Error::Nvme(_))),
        ret > 0 ==> r == Err::<(), Error>(Error::Nvme(ret as u32)),
        ret < 0 <==> (r matches Err(Error::Os(_))),
        ret == -1 ==> (r matches Err(e) && is_errno(e)),
        i32::MIN < ret < -1 ==> (r matches Err(Error::Os(os)) && (os_code(os) matches Some(code)
            && code + ret == 0)),
        ret == i32::MIN ==> (r matches Err(Error::Os(os)) && os_code(os) == Some(i32::MIN)),
{
}

/// A finished command gives its value exactly where the return value is zero, and
/// fails as the return value alone fails otherwise.
pub proof fn completion<T>(ret: i32, value: T, r: Result<T>)
    requires
        call_ensures(complete::<T>, (ret, value), r),
    ensures
        ret == 0 ==> r == Ok::<T, Error>(value),
        ret > 0 ==> r == Err::<T, Error>(Error::Nvme(ret as u32)),
        ret < 0 ==> (r matches Err(Error::Os(_))),
        ret == -1 ==> (r matches Err(e) && is_errno(e)),
        i32::MIN < ret < -1 ==> (r matches Err(Error::Os(os)) && (os_code(os) matches Some(code)
            && code + ret == 0)),
        ret == i32::MIN ==> (r matches Err(Error::Os(os)) && os_code(os) == Some(i32::MIN)),
{
}

/// A handle is handed on as it is, and NULL is what `errno` held.
pub proof fn handles<H>(raw: Option<H>, r: Result<H>)
    requires
        call_ensures(non_null::<H>, (raw,), r),
    ensures
        raw is Some ==> r == Ok::<H, Error>(raw->0),
        raw is None ==> (r matches Err(e) && is_errno(e)),
{
}

/// A descriptor from zero on is handed on as it is, and a negative one is what
/// `errno` held.
pub proof fn descriptors(fd: i32, r: Result<i32>)
    requires
        call_ensures(check_fd, (fd,), r),
    ensures
        fd >= 0 ==> r == Ok::<i32, Error>(fd),
        fd < 0 ==> (r matches Err(e) && is_errno(e)),
{
}

/// A rejected argument keeps its message.
pub proof fn rejections(msg: Cow<'static, str>, e: Error)
    requires
        call_ensures(Error::invalid_argument, (msg,), e),
    ensures
        says(e, msg@),
{
}

/// Every error says what library it comes from, what went wrong, and the detail:
/// the message, the status in at least four hexadecimal digits, or what the wrapped
/// error says.
pub proof fn descriptions(e: Error, detail: &str, r: String)
    requires
        call_ensures(Error::describe, (&e, detail), r),
    ensures
        e is Os ==> r@ == "libnvme: "@ + detail@,
        e is NotAvailable ==> r@ == "libnvme: value not available"@,
        e is Utf8 ==> r@ == "libnvme: invalid UTF-8: "@ + detail@,
        e matches Error::InvalidArgument(m) ==> r@ == "libnvme: invalid argument: "@ + m@,
        e matches Error::Nvme(status) ==> exists|digits: Seq<char>|
            #![trigger text::digits_value(digits, 16)]
            r@ == "libnvme: NVMe status 0x"@ + digits && text::digits_value(digits, 16) == status
                && digits.len() >= 4 && (digits.len() > 4 ==> digits[0] != '0'),
{
    if let Error::Nvme(status) = e {
        text::hex_reads_back(status as nat, 4);
        text::hex_is_shortest(status as nat, 4);
        let digits = text::hex_padded(status as nat, 4);
        assert(text::digits_value(digits, 16) == status);
    }
}

/// The text of an error that wraps no other is its description.
pub proof fn texts(e: Error, r: String, d: String)
    requires
        !(e is Os),
        !(e is Utf8),
        call_ensures(Error::to_string, (&e,), r),
        call_ensures(Error::describe, (&e, ""), d),
    ensures
        r@ == d@,
{
    reveal_strlit("");
    assert(""@ =~= Seq::<char>::empty());
}

/// The text of an error that wraps another ends in what the other says of itself.
pub proof fn wrapped_texts(e: Error, r: String)
    requires
        call_ensures(Error::to_string, (&e,), r),
    ensures
        e matches Error::Os(os) ==> exists|d: String| #[trigger]
            vstd::string::to_string_from_display_ensures::<std::io::Error>(&os, d) && r@
                == "libnvme: "@ + d@,
        e matches Error::Utf8(u) ==> exists|d: String| #[trigger]
            vstd::string::to_string_from_display_ensures::<std::str::Utf8Error>(&u, d) && r@
                == "libnvme: invalid UTF-8: "@ + d@,
{
    let d = choose|d: String| #[trigger] e.detail_is(d) && r@ == e.text(d@);
    assert(e.detail_is(d));
}

/// An error wraps what it was made from: the OS or UTF-8 error, and nothing in any
/// other case.
pub proof fn sources(e: Error, r: Option<Source<'_>>)
    requires
        call_ensures(Error::source, (&e,), r),
    ensures
        e matches Error::Os(os) ==> (r matches Some(Source::Os(s)) && *s == os),
        e matches Error::Utf8(u) ==> (r matches Some(Source::Utf8(s)) && *s == u),
        r is None <==> !(e is Os) && !(e is Utf8),
{
}

/// A wrapped OS error is given as such, and a wrapped UTF-8 error is not.
pub proof fn wrapped_io_errors(s: Source<'_>, r: Option<&std::io::Error>)
    requires
        call_ensures(Source::as_io_error, (&s,), r),
    ensures
        s matches Source::Os(e) ==> r == Some(e),
        s is Utf8 ==> r is None,
{
}

/// Converting wraps the error as it is.
pub proof fn conversions(
    io: std::io::Error,
    utf8: std::str::Utf8Error,
    a: Error,
    b: Error,
)
    requires
        call_ensures(<Error as From<std::io::Error>>::from, (io,), a),
        call_ensures(<Error as From<std::str::Utf8Error>>::from, (utf8,), b),
    ensures
        a == Error::Os(io),
        b == Error::Utf8(utf8),
{
}

} // verus!
