//! What texts, fields and numbers come out as.

use super::{
    blank, c_prefix, core_of, holds, is_errno, not_text, reads, reads_c, reads_c_core, reads_core,
    unsigned,
};
use crate::error::{Error, Result};
use crate::root::take_owned_cstr;
use crate::text;
use crate::util;
use crate::util::{
    c_field, cast_u32, cstr_to_str, decode_text, fixed_ascii_to_str, has_nul, len_u32,
    trim_padding, trimmed_cstr_to_str,
};
use crate::wire;
use crate::wire::{push_le, push_zeros, u128_from_le_bytes};
use vstd::arithmetic::power::pow;
use vstd::prelude::*;

verus! {

/// A C `int` keeps its bits.
pub proof fn casts(x: i32, r: u32)
    requires
        call_ensures(cast_u32, (x,), r),
    ensures
        r == unsigned(x),
{
}

/// A length field holds the length modulo 4 Gi.
pub proof fn length_fields(len: usize, r: u32)
    requires
        call_ensures(len_u32, (len,), r),
    ensures
        r == len as int % 0x1_0000_0000,
{
}

/// Exactly one part of a field is left when the blanks at its ends are gone.
pub proof fn core_is_unique(s: Seq<u8>, i: int, j: int, k: int, l: int)
    requires
        core_of(s, i, j),
        core_of(s, k, l),
    ensures
        s.subrange(i, j) == s.subrange(k, l),
{
    if i < j {
        assert(!blank(s[i]) && !blank(s[j - 1]));
        assert(k <= i && j <= l);
        assert(k < l);
        assert(!blank(s[k]) && !blank(s[l - 1]));
    } else if k < l {
        assert(!blank(s[k]));
    }
}

/// Exactly one part of a field precedes its first NUL.
pub proof fn prefix_is_unique(s: Seq<u8>, m: int, n: int)
    requires
        c_prefix(s, m),
        c_prefix(s, n),
    ensures
        m == n,
{
    if m < n {
        assert(s[m] == 0);
    } else if n < m {
        assert(s[n] == 0);
    }
}

/// What the library calls trimmed is the field without the blanks at its ends.
pub proof fn trimmed_is_the_core(s: Seq<u8>) -> (r: (int, int))
    ensures
        core_of(s, r.0, r.1),
        util::trimmed(s) == s.subrange(r.0, r.1),
{
    let r = util::trim_removes_exactly_the_padding(s);
    let t = util::trimmed(s);
    if r.0 < r.1 {
        assert(t[0] == s[r.0]);
        assert(t.last() == s[r.1 - 1]);
    }
    r
}

/// What precedes the first NUL is the longest prefix without one.
pub proof fn c_field_is_the_prefix(s: Seq<u8>)
    ensures
        c_prefix(s, util::before_nul(s).len() as int),
        util::before_nul(s) == s.take(util::before_nul(s).len() as int),
{
    util::before_nul_is_the_prefix(s);
    let p = util::before_nul(s);
    assert forall|k: int| 0 <= k < p.len() implies #[trigger] s[k] != 0 by {
        assert(p[k] == s[k]);
        assert(p.contains(p[k]));
    }
}

/// Trimming takes away the blanks at the two ends of a field and nothing else.
pub proof fn trimming(field: &[u8], r: &[u8])
    requires
        call_ensures(trim_padding, (field,), r),
    ensures
        exists|i: int, j: int| #[trigger] core_of(field@, i, j) && r@ == field@.subrange(i, j),
{
    let (i, j) = trimmed_is_the_core(field@);
    assert(core_of(field@, i, j));
}

/// A C field is all that precedes the first NUL.
pub proof fn c_fields(field: &[u8], r: &[u8])
    requires
        call_ensures(c_field, (field,), r),
    ensures
        c_prefix(field@, r@.len() as int),
        r@ == field@.take(r@.len() as int),
{
    c_field_is_the_prefix(field@);
}

/// Bytes are text exactly where they are UTF-8, and the text is what they decode
/// to.
pub proof fn decoding(bytes: &[u8], r: Result<&str>)
    requires
        call_ensures(decode_text, (bytes,), r),
    ensures
        reads(r, bytes@),
{
}

/// A C string is its text, and NULL is a value that is not available.
pub proof fn c_strings(raw: Option<&[u8]>, r: Result<&str>)
    requires
        call_ensures(cstr_to_str, (raw,), r),
    ensures
        reads_c(r, raw),
{
}

/// A trimmed C string is the text without the blanks at its ends, and NULL is a
/// value that is not available.
pub proof fn trimmed_c_strings(raw: Option<&[u8]>, r: Result<&str>)
    requires
        call_ensures(trimmed_cstr_to_str, (raw,), r),
    ensures
        reads_c_core(r, raw),
{
    if let Some(b) = raw {
        let (i, j) = trimmed_is_the_core(b@);
        assert(core_of(b@, i, j));
    }
}

/// A fixed-size ASCII field is the text without the blanks at its ends.
pub proof fn ascii_fields(field: &[u8], r: Result<&str>)
    requires
        call_ensures(fixed_ascii_to_str, (field,), r),
    ensures
        reads_core(r, field@),
{
    let (i, j) = trimmed_is_the_core(field@);
    assert(core_of(field@, i, j));
}

/// A text holds a NUL exactly where one of its characters is one.
pub proof fn nul_characters(s: &str, r: bool)
    requires
        call_ensures(has_nul, (s,), r),
    ensures
        r <==> exists|i: int| 0 <= i < s@.len() && #[trigger] s@[i] == '\0',
{
}

/// An owned C string is its text; NULL is what `errno` held.
pub proof fn owned_c_strings(raw: Option<Vec<u8>>, r: Result<String>)
    requires
        call_ensures(take_owned_cstr, (raw,), r),
    ensures
        match raw {
            None => r matches Err(e) && is_errno(e),
            Some(bytes) => if vstd::utf8::valid_utf8(bytes@) {
                r matches Ok(s) && s@ == vstd::utf8::decode_utf8(bytes@)
            } else {
                r matches Err(Error::Utf8(e)) && not_text(e, bytes@)
            },
        },
{
}

/// A number is appended as its low-order bytes, least significant first, and what
/// stood there before stays.
pub proof fn appended_numbers(out: &mut Vec<u8>, value: u64, n: usize)
    requires
        call_ensures(push_le, (out, value, n), ()),
    ensures
        final(out)@.len() == old(out)@.len() + n,
        final(out)@.take(old(out)@.len() as int) == old(out)@,
        holds(final(out)@, old(out)@.len() as int, n as int, value as int),
{
    let at = old(out)@.len() as int;
    wire::le_bytes_len(value as nat, n as nat);
    assert(final(out)@.take(at) =~= old(out)@);
    assert forall|k: int| 0 <= k < n implies #[trigger] final(out)@[at + k] == (value as int / pow(
        256,
        k as nat,
    )) % 256 by {
        wire::le_bytes_digit(value as nat, n as nat, k);
    }
}

/// Zero bytes are appended, as many as asked for, and what stood there before
/// stays.
pub proof fn appended_zeros(out: &mut Vec<u8>, n: usize)
    requires
        call_ensures(push_zeros, (out, n), ()),
    ensures
        final(out)@.len() == old(out)@.len() + n,
        final(out)@.take(old(out)@.len() as int) == old(out)@,
        forall|k: int| old(out)@.len() <= k < final(out)@.len() ==> #[trigger] final(out)@[k] == 0,
{
    assert(final(out)@.take(old(out)@.len() as int) =~= old(out)@);
}

/// A 128-bit number has the bytes that it was read from, least significant first.
pub proof fn wide_numbers(bytes: [u8; 16], r: u128)
    requires
        call_ensures(u128_from_le_bytes, (&bytes,), r),
    ensures
        holds(bytes@, 0, 16, r as int),
{
    wire::le_decode_encode(bytes@);
    assert forall|k: int| 0 <= k < 16 implies #[trigger] bytes@[0 + k] == (r as int / pow(
        256,
        k as nat,
    )) % 256 by {
        wire::le_bytes_digit(r as nat, 16, k);
    }
}

/// A number is appended in decimal: digits that stand for it, without a leading
/// zero, and what stood there before stays.
pub proof fn appended_decimals(out: &mut String, n: u64)
    requires
        call_ensures(text::push_decimal, (out, n), ()),
    ensures
        exists|d: Seq<char>| #[trigger]
            text::digits_value(d, 10) == n && final(out)@ == old(out)@ + d && d.len() >= 1 && (
            d.len() > 1 ==> d[0] != '0') && (forall|i: int|
                0 <= i < d.len() ==> '0' <= #[trigger] d[i] <= '9'),
{
    let d = text::decimal(n as nat);
    text::decimal_reads_back(n as nat);
    text::decimal_is_shortest(n as nat);
    assert(text::digits_value(d, 10) == n);
}

/// A number is appended in hexadecimal: digits that stand for it, at least as many
/// as asked for, without a leading zero beyond those, and what stood there before
/// stays.
pub proof fn appended_hex(out: &mut String, n: u32, width: u32)
    requires
        call_ensures(text::push_hex_padded, (out, n, width), ()),
    ensures
        exists|d: Seq<char>| #[trigger]
            text::digits_value(d, 16) == n && final(out)@ == old(out)@ + d && d.len() >= 1
                && d.len() >= width && (d.len() > width && d.len() > 1 ==> d[0] != '0') && (forall|
                i: int,
            |
                0 <= i < d.len() ==> '0' <= #[trigger] d[i] <= '9' || 'a' <= d[i] <= 'f'),
{
    let d = text::hex_padded(n as nat, width as nat);
    text::hex_reads_back(n as nat, width as nat);
    text::hex_is_shortest(n as nat, width as nat);
    assert(text::digits_value(d, 16) == n);
}

/// What digits stand for: nothing is zero, and a digit more multiplies by the base
/// and adds the digit.
pub proof fn digits_are_positional(s: Seq<char>, c: char, base: nat)
    ensures
        text::digits_value(Seq::<char>::empty(), base) == 0,
        text::digits_value(s.push(c), base) == base * text::digits_value(s, base)
            + text::digit_value(c),
        '0' <= c <= '9' ==> text::digit_value(c) == c as int - '0' as int,
        'a' <= c <= 'f' ==> text::digit_value(c) == c as int - 'a' as int + 10,
{
    assert(s.push(c).drop_last() =~= s);
}

} // verus!
