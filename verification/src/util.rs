//! Text fields: C strings, fixed-size ASCII fields, and integer casts.

use crate::error::{Error, Result};
use vstd::prelude::*;
use vstd::slice::slice_subrange;

verus! {

/// Whether a byte is padding in an NVMe ASCII field: ASCII white space or NUL.
pub open spec fn is_padding(b: u8) -> bool {
    b == 0 || b == 0x20 || 0x09 <= b <= 0x0d
}

/// `s` without its leading padding.
pub open spec fn trim_start(s: Seq<u8>) -> Seq<u8>
    decreases s.len(),
{
    if s.len() > 0 && is_padding(s[0]) {
        trim_start(s.drop_first())
    } else {
        s
    }
}

/// `s` without its trailing padding.
pub open spec fn trim_end(s: Seq<u8>) -> Seq<u8>
    decreases s.len(),
{
    if s.len() > 0 && is_padding(s.last()) {
        trim_end(s.drop_last())
    } else {
        s
    }
}

/// `s` without the padding at its two ends.
pub open spec fn trimmed(s: Seq<u8>) -> Seq<u8> {
    trim_end(trim_start(s))
}

/// The bytes of `s` that precede its first NUL (all of `s` if it has none).
pub open spec fn before_nul(s: Seq<u8>) -> Seq<u8>
    decreases s.len(),
{
    if s.len() == 0 || s[0] == 0 {
        Seq::empty()
    } else {
        seq![s[0]] + before_nul(s.drop_first())
    }
}

/// Trimming the front takes away the leading padding and nothing else.
proof fn trim_start_range(s: Seq<u8>) -> (i: int)
    ensures
        0 <= i <= s.len(),
        trim_start(s) == s.skip(i),
        forall|k: int| 0 <= k < i ==> is_padding(#[trigger] s[k]),
        i < s.len() ==> !is_padding(s[i]),
    decreases s.len(),
{
    if s.len() > 0 && is_padding(s[0]) {
        let rest = s.drop_first();
        let j = trim_start_range(rest);
        assert(rest.skip(j) =~= s.skip(j + 1));
        assert forall|k: int| 0 <= k < j + 1 implies is_padding(#[trigger] s[k]) by {
            if k > 0 {
                assert(rest[k - 1] == s[k]);
            }
        }
        assert(j < rest.len() ==> rest[j] == s[j + 1]);
        j + 1
    } else {
        assert(s.skip(0) =~= s);
        0
    }
}

/// Trimming the end takes away the trailing padding and nothing else.
proof fn trim_end_range(s: Seq<u8>) -> (j: int)
    ensures
        0 <= j <= s.len(),
        trim_end(s) == s.take(j),
        forall|k: int| j <= k < s.len() ==> is_padding(#[trigger] s[k]),
        j > 0 ==> !is_padding(s[j - 1]),
    decreases s.len(),
{
    if s.len() > 0 && is_padding(s.last()) {
        let rest = s.drop_last();
        let j = trim_end_range(rest);
        assert(rest.take(j) =~= s.take(j));
        assert forall|k: int| j <= k < s.len() implies is_padding(#[trigger] s[k]) by {
            if k < s.len() - 1 {
                assert(rest[k] == s[k]);
            }
        }
        j
    } else {
        assert(s.take(s.len() as int) =~= s);
        s.len() as int
    }
}

/// Trimming removes exactly the padding at the two ends: what is left is a
/// contiguous part of the field that neither starts nor ends with padding, and
/// everything around it is padding.
pub proof fn trim_removes_exactly_the_padding(s: Seq<u8>) -> (r: (int, int))
    ensures
        0 <= r.0 <= r.1 <= s.len(),
        trimmed(s) == s.subrange(r.0, r.1),
        forall|k: int| 0 <= k < r.0 || r.1 <= k < s.len() ==> is_padding(#[trigger] s[k]),
        trimmed(s).len() > 0 ==> !is_padding(trimmed(s)[0]) && !is_padding(trimmed(s).last()),
        trimmed(trimmed(s)) == trimmed(s),
{
    let i = trim_start_range(s);
    let rest = s.skip(i);
    let j = trim_end_range(rest);
    assert(rest.take(j) =~= s.subrange(i, i + j));
    assert forall|k: int| 0 <= k < i || i + j <= k < s.len() implies is_padding(
        #[trigger] s[k],
    ) by {
        if k >= i {
            assert(rest[k - i] == s[k]);
        }
    }
    let t = trimmed(s);
    if t.len() > 0 {
        assert(t[0] == s[i]);
        assert(t.last() == rest[j - 1]);
    }
    assert(trim_start(t) == t);
    assert(trim_end(t) == t);
    (i, i + j)
}

/// What precedes the first NUL is a prefix of the field without a NUL, and ends
/// at a NUL or at the end of the field.
pub proof fn before_nul_is_the_prefix(s: Seq<u8>)
    ensures
        before_nul(s).len() <= s.len(),
        before_nul(s) == s.take(before_nul(s).len() as int),
        !before_nul(s).contains(0),
        before_nul(s).len() < s.len() ==> s[before_nul(s).len() as int] == 0,
    decreases s.len(),
{
    if s.len() > 0 && s[0] != 0 {
        let rest = s.drop_first();
        before_nul_is_the_prefix(rest);
        let n = before_nul(rest).len() as int;
        assert(before_nul(s) =~= s.take(n + 1));
        assert forall|k: int| 0 <= k < before_nul(s).len() implies before_nul(s)[k] != 0 by {
            if k > 0 {
                assert(before_nul(s)[k] == before_nul(rest)[k - 1]);
                assert(before_nul(rest).contains(before_nul(rest)[k - 1]));
            }
        }
    } else {
        assert(before_nul(s) =~= s.take(0));
    }
}

/// The text that a byte string decodes to, if it is UTF-8.
pub open spec fn text_of(bytes: Seq<u8>) -> Option<Seq<char>> {
    if vstd::utf8::valid_utf8(bytes) {
        Some(vstd::utf8::decode_utf8(bytes))
    } else {
        None
    }
}

/// Whether `e` is the error that a call of [`std::str::from_utf8`] on `bytes`
/// returned.
pub open spec fn is_utf8_failure(e: std::str::Utf8Error, bytes: Seq<u8>) -> bool {
    exists|v: &[u8]| #[trigger]
        call_ensures(std::str::from_utf8, (v,), Err::<&str, std::str::Utf8Error>(e)) && v@ == bytes
}

/// The outcome of decoding `bytes`: the text, or the UTF-8 error that decoding
/// them gives.
pub open spec fn decodes_to(r: Result<&str>, bytes: Seq<u8>) -> bool {
    match text_of(bytes) {
        Some(text) => r matches Ok(s) && s@ == text,
        None => r matches Err(Error::Utf8(e)) && is_utf8_failure(e, bytes),
    }
}

/// The outcome of reading a C string that may be NULL.
pub open spec fn cstr_outcome(r: Result<&str>, raw: Option<Seq<u8>>) -> bool {
    match raw {
        Some(bytes) => decodes_to(r, bytes),
        None => r matches Err(Error::NotAvailable),
    }
}

/// The bytes decide the outcome of reading a C string: NULL and only NULL is a
/// value that is not available, bytes that are not UTF-8 and only those are a
/// UTF-8 error, and everything else is text.
pub proof fn cstr_outcome_is_decided(r: Result<&str>, raw: Option<Seq<u8>>)
    requires
        cstr_outcome(r, raw),
    ensures
        (r matches Err(Error::NotAvailable)) <==> raw is None,
        (r matches Err(Error::Utf8(_))) <==> (raw matches Some(b) && text_of(b) is None),
        r is Ok <==> (raw matches Some(b) && text_of(b) is Some),
{
}

/// The contents of an optional byte string.
pub open spec fn opt_bytes(raw: Option<&[u8]>) -> Option<Seq<u8>> {
    match raw {
        Some(b) => Some(b@),
        None => None,
    }
}

/// The contents of an optional byte string, without the padding at its ends.
pub open spec fn opt_trimmed(raw: Option<&[u8]>) -> Option<Seq<u8>> {
    match raw {
        Some(b) => Some(trimmed(b@)),
        None => None,
    }
}

/// The two's-complement bits of `x`, read as an unsigned number.
pub open spec fn as_unsigned(x: i32) -> u32 {
    if x >= 0 {
        x as u32
    } else {
        (x + 0x1_0000_0000) as u32
    }
}

/// The low 32 bits of a length.
pub open spec fn low32(len: nat) -> u32 {
    (len % 0x1_0000_0000) as u32
}

/// The contents of an optional buffer.
pub open spec fn mut_bytes(buf: Option<&mut [u8]>) -> Option<Seq<u8>> {
    match buf {
        Some(b) => Some(b@),
        None => None,
    }
}

/// The length field for a buffer: the low 32 bits of its length, `0` where there
/// is no buffer.
pub open spec fn buffer_len(buf: Option<Seq<u8>>) -> u32 {
    match buf {
        Some(b) => low32(b.len()),
        None => 0,
    }
}

/// The length field states the length of every buffer below 4 GiB, and is `0`
/// where there is no buffer.
pub proof fn buffer_len_is_exact(buf: Option<Seq<u8>>)
    ensures
        buf is None ==> buffer_len(buf) == 0,
        buf matches Some(b) ==> (b.len() < 0x1_0000_0000 ==> buffer_len(buf) == b.len()),
{
}

/// The two's-complement bits of `x`, read as an unsigned number.
pub fn cast_u32(x: i32) -> (r: u32)
    ensures
        r == as_unsigned(x),
{
    assert(x < 0 ==> x as u32 == x + 0x1_0000_0000) by (bit_vector);
    x as u32
}

/// The low 32 bits of a length, as command fields carry it.
pub fn len_u32(len: usize) -> (r: u32)
    ensures
        r == low32(len as nat),
{
    let wide: u64 = len as u64;
    assert(wide as u32 == wide % 0x1_0000_0000) by (bit_vector);
    wide as u32
}

/// Strip the padding at the two ends of a field.
pub fn trim_padding(field: &[u8]) -> (r: &[u8])
    ensures
        r@ == trimmed(field@),
{
    let n: usize = field.len();
    let mut i: usize = 0;
    assert(field@.skip(0) =~= field@);
    while i < n && (field[i] == 0 || field[i] == 0x20 || (0x09 <= field[i] && field[i] <= 0x0d))
        invariant
            i <= n,
            n == field@.len(),
            trim_start(field@) == trim_start(field@.skip(i as int)),
        decreases n - i,
    {
        assert(field@.skip(i as int).drop_first() =~= field@.skip(i + 1));
        i = i + 1;
    }
    let ghost start = field@.skip(i as int);
    assert(trim_start(start) == start);
    let mut j: usize = n;
    assert(field@.subrange(i as int, n as int) =~= start);
    while j > i && (field[j - 1] == 0 || field[j - 1] == 0x20 || (0x09 <= field[j - 1] && field[j
        - 1] <= 0x0d))
        invariant
            i <= j <= n,
            n == field@.len(),
            trim_end(start) == trim_end(field@.subrange(i as int, j as int)),
        decreases j,
    {
        assert(field@.subrange(i as int, j as int).drop_last() =~= field@.subrange(
            i as int,
            j - 1,
        ));
        j = j - 1;
    }
    slice_subrange(field, i, j)
}

/// The bytes of a NUL-padded field that precede its first NUL.
pub fn c_field(field: &[u8]) -> (r: &[u8])
    ensures
        r@ == before_nul(field@),
{
    let n: usize = field.len();
    let mut i: usize = 0;
    assert(field@.skip(0) =~= field@);
    assert(field@.take(0) + before_nul(field@.skip(0)) =~= before_nul(field@));
    while i < n && field[i] != 0
        invariant
            i <= n,
            n == field@.len(),
            before_nul(field@) == field@.take(i as int) + before_nul(field@.skip(i as int)),
        decreases n - i,
    {
        proof {
            let rest = field@.skip(i as int);
            assert(rest.drop_first() =~= field@.skip(i + 1));
            assert(field@.take(i as int) + (seq![rest[0]] + before_nul(rest.drop_first()))
                =~= field@.take(i + 1) + before_nul(field@.skip(i + 1)));
        }
        i = i + 1;
    }
    assert(before_nul(field@) =~= field@.take(i as int));
    assert(field@.take(i as int) =~= field@.subrange(0, i as int));
    slice_subrange(field, 0, i)
}

/// Decode a byte string as UTF-8.
pub fn decode_text(bytes: &[u8]) -> (r: Result<&str>)
    ensures
        decodes_to(r, bytes@),
{
    match std::str::from_utf8(bytes) {
        Ok(s) => Ok(s),
        Err(e) => Err(Error::Utf8(e)),
    }
}

/// Read a C string handed out by libnvme.
///
/// `None` stands for NULL and is reported as [`Error::NotAvailable`]; bytes
/// that are not UTF-8 are reported as [`Error::Utf8`].
pub fn cstr_to_str(raw: Option<&[u8]>) -> (r: Result<&str>)
    ensures
        cstr_outcome(r, opt_bytes(raw)),
{
    match raw {
        Some(bytes) => decode_text(bytes),
        None => Err(Error::NotAvailable),
    }
}

/// Read a C string handed out by libnvme, without the padding at its ends.
pub fn trimmed_cstr_to_str(raw: Option<&[u8]>) -> (r: Result<&str>)
    ensures
        cstr_outcome(r, opt_trimmed(raw)),
{
    match raw {
        Some(bytes) => decode_text(trim_padding(bytes)),
        None => Err(Error::NotAvailable),
    }
}

/// Decode a fixed-size ASCII field, without its padding.
pub fn fixed_ascii_to_str(field: &[u8]) -> (r: Result<&str>)
    ensures
        decodes_to(r, trimmed(field@)),
{
    decode_text(trim_padding(field))
}

/// Whether the text holds a NUL character.
pub fn has_nul(s: &str) -> (r: bool)
    ensures
        r == s@.contains('\0'),
{
    let mut found: bool = false;
    for c in it: s.chars()
        invariant
            it.seq() == s@,
            found <==> exists|k: int| 0 <= k < it.index() && #[trigger] s@[k] == '\0',
    {
        assert(c == s@[it.index()]);
        if c == '\0' {
            found = true;
        }
    }
    found
}

} // verus!
