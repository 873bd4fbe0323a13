//! Laws of the library, stated over its calls.
//!
//! Each law takes what goes into one or more calls and what came out of them, and
//! says how the two relate: which request is accepted, what an option changes in
//! the command and that it changes nothing else, what an accessor reports of the
//! data that was handed in. The statements speak of arguments, results and public
//! fields, so they hold the functions to what they are for.

pub mod codes;
pub mod commands;
pub mod directives;
pub mod fabrics;
pub mod fields;
pub mod identify;
pub mod io;
pub mod namespace;
pub mod outcomes;
pub mod ranges;
pub mod reservations;
pub mod tree;
pub mod zns;

use crate::error::{Error, Result};
use vstd::prelude::*;

verus! {

/// The bits of a C `int`, counted as an unsigned number.
pub open spec fn unsigned(x: i32) -> int {
    if x >= 0 {
        x as int
    } else {
        x + 0x1_0000_0000
    }
}

/// What fits into a 32-bit length field of the length of a buffer.
pub open spec fn field_len(buf: Option<Seq<u8>>) -> int {
    match buf {
        Some(b) => b.len() as int % 0x1_0000_0000,
        None => 0,
    }
}

/// The bytes behind an optional shared buffer.
pub open spec fn shared(buf: Option<&[u8]>) -> Option<Seq<u8>> {
    match buf {
        Some(b) => Some(b@),
        None => None,
    }
}

/// The bytes behind an optional exclusive buffer.
pub open spec fn exclusive(buf: Option<&mut [u8]>) -> Option<Seq<u8>> {
    match buf {
        Some(b) => Some(b@),
        None => None,
    }
}

/// Whether `e` rejects an argument and says `text`.
pub open spec fn says(e: Error, text: Seq<char>) -> bool {
    e matches Error::InvalidArgument(m) && m@ == text
}

/// Whether two errors reject an argument and say the same.
pub open spec fn say_the_same(a: Error, b: Error) -> bool {
    &&& a matches Error::InvalidArgument(m)
    &&& b matches Error::InvalidArgument(n)
    &&& m@ == n@
}

/// Whether `e` is what `errno` held.
pub open spec fn is_errno(e: Error) -> bool {
    e matches Error::Os(os) && call_ensures(std::io::Error::last_os_error, (), os)
}

/// Whether reading `bytes` as text came out as `r`.
pub open spec fn reads(r: Result<&str>, bytes: Seq<u8>) -> bool {
    if vstd::utf8::valid_utf8(bytes) {
        r matches Ok(s) && s@ == vstd::utf8::decode_utf8(bytes)
    } else {
        r matches Err(Error::Utf8(e)) && not_text(e, bytes)
    }
}

/// Whether `e` is what std says of `bytes` that are not UTF-8.
pub open spec fn not_text(e: std::str::Utf8Error, bytes: Seq<u8>) -> bool {
    exists|v: &[u8]| #[trigger]
        call_ensures(std::str::from_utf8, (v,), Err::<&str, std::str::Utf8Error>(e)) && v@ == bytes
}

/// Whether reading a C string that may be NULL came out as `r`.
pub open spec fn reads_c(r: Result<&str>, raw: Option<&[u8]>) -> bool {
    match raw {
        Some(b) => reads(r, b@),
        None => r matches Err(Error::NotAvailable),
    }
}

/// Whether a byte is white space or NUL.
pub open spec fn blank(b: u8) -> bool {
    b == 0 || b == 9 || b == 10 || b == 11 || b == 12 || b == 13 || b == 32
}

/// Whether `s` from `i` to `j` is all of `s` but the blanks at its two ends.
pub open spec fn core_of(s: Seq<u8>, i: int, j: int) -> bool {
    &&& 0 <= i <= j <= s.len()
    &&& forall|k: int| 0 <= k < i || j <= k < s.len() ==> blank(#[trigger] s[k])
    &&& i < j ==> !blank(s[i]) && !blank(s[j - 1])
}

/// Whether reading `bytes` without the blanks at its ends came out as `r`.
pub open spec fn reads_core(r: Result<&str>, bytes: Seq<u8>) -> bool {
    exists|i: int, j: int| #[trigger] core_of(bytes, i, j) && reads(r, bytes.subrange(i, j))
}

/// Whether reading a C string that may be NULL, without the blanks at its ends,
/// came out as `r`.
pub open spec fn reads_c_core(r: Result<&str>, raw: Option<&[u8]>) -> bool {
    match raw {
        Some(b) => reads_core(r, b@),
        None => r matches Err(Error::NotAvailable),
    }
}

/// Whether `s` up to `n` is all of `s` before its first NUL.
pub open spec fn c_prefix(s: Seq<u8>, n: int) -> bool {
    &&& 0 <= n <= s.len()
    &&& forall|k: int| 0 <= k < n ==> #[trigger] s[k] != 0
    &&& n < s.len() ==> s[n] == 0
}

/// Whether reading a NUL-padded field came out as `r`.
pub open spec fn reads_padded(r: Result<&str>, field: Seq<u8>) -> bool {
    exists|n: int| #[trigger] c_prefix(field, n) && reads(r, field.take(n))
}

/// Whether the `width` bytes from `at` on hold `value`, low-order byte first.
pub open spec fn holds(bytes: Seq<u8>, at: int, width: int, value: int) -> bool {
    &&& 0 <= at
    &&& at + width <= bytes.len()
    &&& forall|k: int|
        0 <= k < width ==> #[trigger] bytes[at + k] == (value / vstd::arithmetic::power::pow(
            256,
            k as nat,
        )) % 256
}

} // verus!
