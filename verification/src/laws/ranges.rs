//! What Dataset Management and Copy encode.

use super::{holds, say_the_same, says, unsigned};
use crate::error::Result;
use crate::io::{
    copy_payload, dsm_payload, CopyCommand, CopyRange, CopyRequest, Dsm, DsmAttr, DsmCommand,
    DsmRange, DsmRequest,
};
use crate::namespace::{Namespace, NamespaceAttrs};
use crate::{io, text, wire};
use vstd::arithmetic::power::pow;
use vstd::prelude::*;

verus! {

/// A number that stands at `off` in a part stands at `at + off` where the part
/// stands at `at`.
proof fn field_at(bytes: Seq<u8>, at: int, part: Seq<u8>, off: int, width: nat, value: nat)
    requires
        0 <= at,
        at + part.len() <= bytes.len(),
        bytes.subrange(at, at + part.len()) == part,
        0 <= off,
        off + width <= part.len(),
        part.subrange(off, off + width) == wire::le_bytes(value, width),
    ensures
        holds(bytes, at + off, width as int, value as int),
{
    assert forall|k: int| 0 <= k < width implies #[trigger] bytes[at + off + k] == (value as int
        / pow(256, k as nat)) % 256 by {
        wire::le_bytes_digit(value, width, k);
        assert(part.subrange(off, off + width)[k] == part[off + k]);
        assert(bytes.subrange(at, at + part.len())[off + k] == bytes[at + off + k]);
    }
}

/// Whether the sixteen bytes from `at` on are the DSM range: context attributes,
/// length and starting LBA.
pub open spec fn dsm_range_at(bytes: Seq<u8>, at: int, context: u32, length: u32, slba: u64) -> bool {
    &&& holds(bytes, at, 4, context as int)
    &&& holds(bytes, at + 4, 4, length as int)
    &&& holds(bytes, at + 8, 8, slba as int)
}

/// Whether the thirty-two bytes from `at` on are the source range: eight zero
/// bytes, the starting LBA, the block count less one, six zero bytes, the reference
/// tag, the application tag and its mask.
pub open spec fn copy_range_at(bytes: Seq<u8>, at: int, range: CopyRange) -> bool {
    &&& holds(bytes, at, 8, 0)
    &&& holds(bytes, at + 8, 8, range.slba as int)
    &&& holds(
        bytes,
        at + 16,
        2,
        if range.nlb == 0 {
            0
        } else {
            range.nlb - 1
        },
    )
    &&& holds(bytes, at + 18, 6, 0)
    &&& holds(bytes, at + 24, 4, range.eilbrt as int)
    &&& holds(bytes, at + 28, 2, range.elbat as int)
    &&& holds(bytes, at + 30, 2, range.elbatm as int)
}

/// Zero bytes hold the number zero.
proof fn zeros_hold_zero(bytes: Seq<u8>, at: int, width: int)
    requires
        0 <= at,
        0 <= width,
        at + width <= bytes.len(),
        forall|k: int| at <= k < at + width ==> #[trigger] bytes[k] == 0,
    ensures
        holds(bytes, at, width, 0),
{
    assert forall|k: int| 0 <= k < width implies #[trigger] bytes[at + k] == (0int / pow(
        256,
        k as nat,
    )) % 256 by {
        vstd::arithmetic::power::lemma_pow_positive(256, k as nat);
        vstd::arithmetic::div_mod::lemma_basic_div(0, pow(256, k as nat));
    }
}

/// Where the bytes of a DSM range stand, its fields stand.
proof fn dsm_bytes_at(bytes: Seq<u8>, at: int, e: io::DsmEntry)
    requires
        0 <= at,
        at + 16 <= bytes.len(),
        bytes.subrange(at, at + 16) == e.bytes(),
    ensures
        dsm_range_at(bytes, at, e.context, e.length, e.slba),
{
    e.wire_round_trip();
    let b = e.bytes();
    wire::le_bytes_len(e.context as nat, 4);
    wire::le_bytes_len(e.length as nat, 4);
    wire::le_bytes_len(e.slba as nat, 8);
    assert(b.subrange(0, 4) =~= wire::le_bytes(e.context as nat, 4));
    assert(b.subrange(4, 8) =~= wire::le_bytes(e.length as nat, 4));
    assert(b.subrange(8, 16) =~= wire::le_bytes(e.slba as nat, 8));
    field_at(bytes, at, b, 0, 4, e.context as nat);
    field_at(bytes, at, b, 4, 4, e.length as nat);
    field_at(bytes, at, b, 8, 8, e.slba as nat);
}

/// Where the bytes of a source range stand, its fields stand.
proof fn copy_bytes_at(bytes: Seq<u8>, at: int, e: CopyRange)
    requires
        0 <= at,
        at + 32 <= bytes.len(),
        bytes.subrange(at, at + 32) == e.bytes(),
    ensures
        copy_range_at(bytes, at, e),
{
    e.wire_round_trip();
    let b = e.bytes();
    wire::le_bytes_len(e.slba as nat, 8);
    wire::le_bytes_len(e.nlb_wire(), 2);
    wire::le_bytes_len(e.eilbrt as nat, 4);
    wire::le_bytes_len(e.elbat as nat, 2);
    wire::le_bytes_len(e.elbatm as nat, 2);
    assert(b.subrange(8, 16) =~= wire::le_bytes(e.slba as nat, 8));
    assert(b.subrange(16, 18) =~= wire::le_bytes(e.nlb_wire(), 2));
    assert(b.subrange(24, 28) =~= wire::le_bytes(e.eilbrt as nat, 4));
    assert(b.subrange(28, 30) =~= wire::le_bytes(e.elbat as nat, 2));
    assert(b.subrange(30, 32) =~= wire::le_bytes(e.elbatm as nat, 2));
    field_at(bytes, at, b, 8, 8, e.slba as nat);
    field_at(bytes, at, b, 16, 2, e.nlb_wire());
    field_at(bytes, at, b, 24, 4, e.eilbrt as nat);
    field_at(bytes, at, b, 28, 2, e.elbat as nat);
    field_at(bytes, at, b, 30, 2, e.elbatm as nat);
    assert forall|k: int| at <= k < at + 8 || at + 18 <= k < at + 24 implies #[trigger] bytes[k]
        == 0 by {
        assert(bytes.subrange(at, at + 32)[k - at] == bytes[k]);
        assert(b[k - at] == 0);
    }
    zeros_hold_zero(bytes, at, 8);
    zeros_hold_zero(bytes, at + 18, 6);
}

impl DsmRequest {
    /// A request is accepted exactly where it has 1 to 256 ranges.
    pub proof fn accepted_exactly_where_ranges_fit(self)
        ensures
            self.refusal() is None <==> 1 <= self.entries().len() <= 256,
            self.ranges matches Some(r) ==> self.entries() == r,
            self.ranges is None ==> self.entries().len() == 0,
    {
    }
}

impl CopyRequest {
    /// A request is accepted exactly where it has 1 to 128 source ranges.
    pub proof fn accepted_exactly_where_ranges_fit(self)
        ensures
            self.refusal() is None <==> 1 <= self.ranges.len() <= 128,
    {
    }
}

impl CopyCommand {
    /// A command that encodes a request forces unit access exactly where that was
    /// asked for, and limits retries exactly where that was asked for. Neither
    /// depends on the other.
    pub proof fn flags_are_those_asked_for(self, req: CopyRequest)
        requires
            self.encodes(req),
        ensures
            self.fua == 1 <==> req.fua,
            self.fua == 0 <==> !req.fua,
            self.lr == 1 <==> req.lr,
            self.lr == 0 <==> !req.lr,
    {
    }

    /// Two commands whose requests differ in the Force Unit Access flag alone agree
    /// on Limited Retry, and the other way round.
    pub proof fn flags_are_independent(self, other: Self, req: CopyRequest, fua: bool, lr: bool)
        requires
            self.encodes(req),
        ensures
            other.encodes(CopyRequest { fua, ..req }) ==> other.lr == self.lr,
            other.encodes(CopyRequest { lr, ..req }) ==> other.fua == self.fua,
    {
    }
}

/// The attribute bits.
pub proof fn attribute_bits(read: DsmAttr, write: DsmAttr, dealloc: DsmAttr, r: u32, w: u32, d: u32)
    requires
        call_ensures(DsmAttr::integral_read, (), read),
        call_ensures(DsmAttr::integral_write, (), write),
        call_ensures(DsmAttr::deallocate, (), dealloc),
        call_ensures(DsmAttr::bits, (read,), r),
        call_ensures(DsmAttr::bits, (write,), w),
        call_ensures(DsmAttr::bits, (dealloc,), d),
    ensures
        r == 1,
        w == 2,
        d == 4,
{
}

/// A mask is kept as it is.
pub proof fn masks(bits: u32, a: DsmAttr, r: u32)
    requires
        call_ensures(DsmAttr::from_bits, (bits,), a),
        call_ensures(DsmAttr::bits, (a,), r),
    ensures
        r == bits,
{
}

/// A union of attributes has the bits of both and no others.
pub proof fn unions(a: DsmAttr, b: DsmAttr, both: DsmAttr, x: u32, y: u32, z: u32)
    requires
        call_ensures(<DsmAttr as std::ops::BitOr>::bitor, (a, b), both),
        call_ensures(DsmAttr::bits, (a,), x),
        call_ensures(DsmAttr::bits, (b,), y),
        call_ensures(DsmAttr::bits, (both,), z),
    ensures
        z == x | y,
{
}

/// A new range starts where asked, has no context, and covers as many blocks as
/// asked, a count of zero standing for one. A context changes nothing else.
pub proof fn dsm_ranges(
    slba: u64,
    nlb: u32,
    context: u32,
    fresh: DsmRange,
    any: DsmRange,
    tuned: DsmRange,
)
    requires
        call_ensures(DsmRange::new, (slba, nlb), fresh),
        call_ensures(DsmRange::with_context, (any, context), tuned),
    ensures
        forall|x: u64| #[trigger] call_ensures(DsmRange::slba, (&fresh,), x) ==> x == slba,
        forall|x: u32| #[trigger] call_ensures(DsmRange::context, (&fresh,), x) ==> x == 0,
        forall|x: u32| #[trigger]
            call_ensures(DsmRange::length, (&fresh,), x) ==> if nlb == 0 {
                x == 0
            } else {
                x + 1 == nlb
            },
        forall|x: u32| #[trigger] call_ensures(DsmRange::context, (&tuned,), x) ==> x == context,
        forall|x: u64, y: u64| #[trigger]
            call_ensures(DsmRange::slba, (&any,), x) && #[trigger] call_ensures(
                DsmRange::slba,
                (&tuned,),
                y,
            ) ==> x == y,
        forall|x: u32, y: u32| #[trigger]
            call_ensures(DsmRange::length, (&any,), x) && #[trigger] call_ensures(
                DsmRange::length,
                (&tuned,),
                y,
            ) ==> x == y,
{
}

/// A DSM range is appended as sixteen bytes: what its accessors report, in order.
pub proof fn dsm_range_bytes(
    range: DsmRange,
    out: &mut Vec<u8>,
    context: u32,
    length: u32,
    slba: u64,
)
    requires
        call_ensures(DsmRange::encode, (&range, out), ()),
        call_ensures(DsmRange::context, (&range,), context),
        call_ensures(DsmRange::length, (&range,), length),
        call_ensures(DsmRange::slba, (&range,), slba),
    ensures
        final(out)@.len() == old(out)@.len() + 16,
        final(out)@.take(old(out)@.len() as int) == old(out)@,
        dsm_range_at(final(out)@, old(out)@.len() as int, context, length, slba),
{
    let at = old(out)@.len() as int;
    range@.wire_round_trip();
    assert(final(out)@.take(at) =~= old(out)@);
    assert(final(out)@.subrange(at, at + 16) =~= range@.bytes());
    dsm_bytes_at(final(out)@, at, range@);
}

/// Source ranges: no field is set by default, a new one has the start and the
/// count, and each setter sets its fields and nothing else.
pub proof fn copy_ranges(
    empty: CopyRange,
    slba: u64,
    nlb: u16,
    fresh: CopyRange,
    any: CopyRange,
    tag: u32,
    tagged: CopyRange,
    app: u16,
    mask: u16,
    masked: CopyRange,
)
    requires
        call_ensures(<CopyRange as Default>::default, (), empty),
        call_ensures(CopyRange::new, (slba, nlb), fresh),
        call_ensures(CopyRange::ref_tag, (any, tag), tagged),
        call_ensures(CopyRange::app_tag, (any, app, mask), masked),
    ensures
        empty.slba == 0 && empty.nlb == 0 && empty.eilbrt == 0 && empty.elbat == 0 && empty.elbatm
            == 0,
        fresh.slba == slba && fresh.nlb == nlb && fresh.eilbrt == 0 && fresh.elbat == 0
            && fresh.elbatm == 0,
        tagged.eilbrt == tag && tagged.slba == any.slba && tagged.nlb == any.nlb && tagged.elbat
            == any.elbat && tagged.elbatm == any.elbatm,
        masked.elbat == app && masked.elbatm == mask && masked.slba == any.slba && masked.nlb
            == any.nlb && masked.eilbrt == any.eilbrt,
{
}

/// A source range is appended as thirty-two bytes.
pub proof fn copy_range_bytes(range: CopyRange, out: &mut Vec<u8>)
    requires
        call_ensures(CopyRange::encode, (&range, out), ()),
    ensures
        final(out)@.len() == old(out)@.len() + 32,
        final(out)@.take(old(out)@.len() as int) == old(out)@,
        copy_range_at(final(out)@, old(out)@.len() as int, range),
{
    let at = old(out)@.len() as int;
    range.wire_round_trip();
    assert(final(out)@.take(at) =~= old(out)@);
    assert(final(out)@.subrange(at, at + 32) =~= range.bytes());
    copy_bytes_at(final(out)@, at, range);
}

/// A Dataset Management request without ranges is refused.
pub proof fn dsm_needs_ranges<'a, 'r>(
    attrs: NamespaceAttrs<'r>,
    ns: &'a Namespace<'r>,
    mask: DsmAttr,
    b: Dsm<'a, 'r>,
    n: &'a Namespace<'r>,
    r: Result<DsmCommand>,
)
    requires
        call_ensures(Namespace::from_raw, (attrs,), *ns),
        call_ensures(Namespace::dsm, (ns, mask), b),
        call_ensures(Dsm::namespace, (&b,), n),
        call_ensures(Dsm::execute, (b,), r),
    ensures
        *n == *ns,
        r matches Err(e) && says(e, "DSM requires at least one range"@),
{
}

/// A Dataset Management request with ranges is accepted exactly where there are 1
/// to 256 of them. It then carries the namespace, the attributes, the number of
/// ranges, and each range at sixteen times its position.
#[verifier::spinoff_prover]
pub proof fn dsm_encodes<'a, 'r>(
    attrs: NamespaceAttrs<'r>,
    ns: &'a Namespace<'r>,
    mask: DsmAttr,
    bits: u32,
    fresh: Dsm<'a, 'r>,
    ranges: &'a [DsmRange],
    b: Dsm<'a, 'r>,
    r: Result<DsmCommand>,
)
    requires
        call_ensures(Namespace::from_raw, (attrs,), *ns),
        call_ensures(DsmAttr::bits, (mask,), bits),
        call_ensures(Namespace::dsm, (ns, mask), fresh),
        call_ensures(Dsm::ranges, (fresh, ranges), b),
        call_ensures(Dsm::execute, (b,), r),
    ensures
        b.target() == *ns,
        r is Ok <==> 1 <= ranges@.len() <= 256,
        r matches Ok(c) ==> c.nsid == unsigned(attrs.nsid) && c.attrs == bits && c.timeout == 0
            && c.nr_ranges == ranges@.len() && c.ranges@.len() == 16 * ranges@.len(),
        r matches Ok(c) ==> forall|i: int, context: u32, length: u32, slba: u64|
            0 <= i < ranges@.len() && #[trigger] call_ensures(
                DsmRange::context,
                (&ranges@[i],),
                context,
            ) && #[trigger] call_ensures(DsmRange::length, (&ranges@[i],), length)
                && #[trigger] call_ensures(DsmRange::slba, (&ranges@[i],), slba) ==> dsm_range_at(
                c.ranges@,
                16 * i,
                context,
                length,
                slba,
            ),
        r matches Err(e) ==> if ranges@.len() == 0 {
            says(e, "DSM requires at least one range"@)
        } else {
            says(e, "DSM supports at most 256 ranges, got "@ + text::decimal(ranges@.len()))
        },
{
    if let Ok(c) = r {
        let s = ranges@;
        let parts = io::dsm_parts(s);
        io::dsm_payload_round_trip(s, 0);
        assert forall|i: int| 0 <= i < s.len() implies #[trigger] dsm_range_at(
            c.ranges@,
            16 * i,
            s[i]@.context,
            s[i]@.length,
            s[i]@.slba,
        ) by {
            assert forall|k: int| 0 <= k < parts.len() implies #[trigger] parts[k].len() == 16 by {
                s[k]@.wire_round_trip();
            }
            wire::joined_part(parts, 16, i);
            dsm_bytes_at(c.ranges@, 16 * i, s[i]@);
        }
    }
}

/// New ranges replace the old ones, a timeout sets the timeout, and neither changes
/// anything else.
#[verifier::spinoff_prover]
pub proof fn dsm_options<'a, 'r>(
    before: Dsm<'a, 'r>,
    plain: Result<DsmCommand>,
    ranges: &'a [DsmRange],
    ms: u32,
    late: Dsm<'a, 'r>,
    timed: Result<DsmCommand>,
    ranged: Dsm<'a, 'r>,
    q: Result<DsmCommand>,
)
    requires
        call_ensures(Dsm::execute, (before,), plain),
        call_ensures(Dsm::timeout_ms, (before, ms), late),
        call_ensures(Dsm::execute, (late,), timed),
        call_ensures(Dsm::ranges, (before, ranges), ranged),
        call_ensures(Dsm::execute, (ranged,), q),
    ensures
        late.target() == before.target(),
        ranged.target() == before.target(),
        match (plain, timed) {
            (Ok(c), Ok(d)) => d.timeout == ms && d.nsid == c.nsid && d.attrs == c.attrs
                && d.nr_ranges == c.nr_ranges && d.ranges@ == c.ranges@,
            (Err(x), Err(y)) => say_the_same(x, y),
            _ => false,
        },
        q is Ok <==> 1 <= ranges@.len() <= 256,
        q matches Ok(d) ==> d.nr_ranges == ranges@.len() && d.ranges@ == dsm_payload(ranges@),
        plain matches Ok(c) ==> (q matches Ok(d) ==> d.nsid == c.nsid && d.attrs == c.attrs
            && d.timeout == c.timeout),
{
}

/// The fields of a Copy command.
#[verifier::ext_equal]
pub struct CopyFields {
    /// Destination starting LBA.
    pub sdlba: u64,
    /// The source-range list.
    pub copy: Seq<u8>,
    /// Timeout in milliseconds.
    pub timeout: u32,
    /// Namespace identifier.
    pub nsid: u32,
    /// Destination reference tag (32-bit).
    pub ilbrt: u32,
    /// Limited Retry.
    pub lr: i32,
    /// Force Unit Access.
    pub fua: i32,
    /// Number of source ranges, 0's-based.
    pub nr: u16,
    /// Directive Specific value.
    pub dspec: u16,
    /// Destination application tag mask.
    pub lbatm: u16,
    /// Destination application tag.
    pub lbat: u16,
    /// PI field for reads.
    pub prinfor: u8,
    /// PI field for writes.
    pub prinfow: u8,
    /// Directive type.
    pub dtype: u8,
    /// Descriptor format.
    pub format: u8,
    /// Destination reference tag (64-bit).
    pub ilbrt_u64: u64,
}

/// The fields of `c`.
pub open spec fn copy_fields(c: CopyCommand) -> CopyFields {
    CopyFields {
        sdlba: c.sdlba,
        copy: c.copy@,
        timeout: c.timeout,
        nsid: c.nsid,
        ilbrt: c.ilbrt,
        lr: c.lr,
        fua: c.fua,
        nr: c.nr,
        dspec: c.dspec,
        lbatm: c.lbatm,
        lbat: c.lbat,
        prinfor: c.prinfor,
        prinfow: c.prinfow,
        dtype: c.dtype,
        format: c.format,
        ilbrt_u64: c.ilbrt_u64,
    }
}

/// Whether two Copy commands differ by `f` and in nothing else.
pub open spec fn copy_differs(
    p: Result<CopyCommand>,
    q: Result<CopyCommand>,
    f: spec_fn(CopyFields) -> CopyFields,
) -> bool {
    match (p, q) {
        (Ok(c), Ok(d)) => copy_fields(d) == f(copy_fields(c)),
        (Err(x), Err(y)) => say_the_same(x, y),
        _ => false,
    }
}

/// A Copy is accepted exactly where there are 1 to 128 source ranges. It then
/// carries the namespace, the destination, the number of ranges less one, each range
/// at thirty-two times its position, and no option.
#[verifier::spinoff_prover]
pub proof fn copy_encodes<'a, 'r>(
    attrs: NamespaceAttrs<'r>,
    ns: &'a Namespace<'r>,
    sdlba: u64,
    ranges: &'a [CopyRange],
    b: io::Copy<'a, 'r>,
    n: &'a Namespace<'r>,
    r: Result<CopyCommand>,
)
    requires
        call_ensures(Namespace::from_raw, (attrs,), *ns),
        call_ensures(Namespace::copy, (ns, sdlba, ranges), b),
        call_ensures(io::Copy::namespace, (&b,), n),
        call_ensures(io::Copy::execute, (b,), r),
    ensures
        *n == *ns,
        r is Ok <==> 1 <= ranges@.len() <= 128,
        r matches Ok(c) ==> c.nsid == unsigned(attrs.nsid) && c.sdlba == sdlba && c.nr + 1
            == ranges@.len() && c.copy@.len() == 32 * ranges@.len() && c.timeout == 0 && c.ilbrt
            == 0 && c.ilbrt_u64 == 0 && c.lr == 0 && c.fua == 0 && c.dspec == 0 && c.lbatm == 0
            && c.lbat == 0 && c.prinfor == 0 && c.prinfow == 0 && c.dtype == 0 && c.format == 0,
        r matches Ok(c) ==> forall|i: int|
            0 <= i < ranges@.len() ==> copy_range_at(c.copy@, 32 * i, #[trigger] ranges@[i]),
        r matches Err(e) ==> if ranges@.len() == 0 {
            says(e, "Copy requires at least one source range"@)
        } else {
            says(e, "Copy supports at most 128 ranges, got "@ + text::decimal(ranges@.len()))
        },
{
    if let Ok(c) = r {
        let s = ranges@;
        io::copy_payload_round_trip(s, 0);
        assert(c.copy@ == copy_payload(s));
        assert forall|i: int| 0 <= i < s.len() implies copy_range_at(
            c.copy@,
            32 * i,
            #[trigger] s[i],
        ) by {
            io::copy_payload_round_trip(s, i);
            copy_bytes_at(c.copy@, 32 * i, s[i]);
        }
    }
}

/// Each option of a Copy changes its own fields of the command and nothing else,
/// and no option decides whether the request is refused or which namespace it is
/// for. Force Unit Access and Limited Retry are one where they were asked for.
#[verifier::spinoff_prover]
pub proof fn copy_options<'a, 'r>(before: io::Copy<'a, 'r>, plain: Result<CopyCommand>)
    requires
        call_ensures(io::Copy::execute, (before,), plain),
    ensures
        forall|after: io::Copy<'a, 'r>, r: Result<CopyCommand>|
            #[trigger] call_ensures(io::Copy::fua, (before,), after)
                && #[trigger] call_ensures(io::Copy::execute, (after,), r)
                ==> after.target() == before.target()
                && copy_differs(plain, r, |a: CopyFields| (CopyFields { fua: 1, ..a })),
        forall|after: io::Copy<'a, 'r>, r: Result<CopyCommand>|
            #[trigger] call_ensures(io::Copy::limited_retry, (before,), after)
                && #[trigger] call_ensures(io::Copy::execute, (after,), r)
                ==> after.target() == before.target()
                && copy_differs(plain, r, |a: CopyFields| (CopyFields { lr: 1, ..a })),
        forall|after: io::Copy<'a, 'r>, r: Result<CopyCommand>, tag: u32|
            #[trigger] call_ensures(io::Copy::dest_ref_tag, (before, tag), after)
                && #[trigger] call_ensures(io::Copy::execute, (after,), r)
                ==> after.target() == before.target()
                && copy_differs(plain, r, |a: CopyFields| (CopyFields { ilbrt: tag, ..a })),
        forall|after: io::Copy<'a, 'r>, r: Result<CopyCommand>, tag: u64|
            #[trigger] call_ensures(io::Copy::dest_ref_tag_u64, (before, tag), after)
                && #[trigger] call_ensures(io::Copy::execute, (after,), r)
                ==> after.target() == before.target()
                && copy_differs(plain, r, |a: CopyFields| (CopyFields { ilbrt_u64: tag, ..a })),
        forall|after: io::Copy<'a, 'r>, r: Result<CopyCommand>, tag: u16, mask: u16|
            #[trigger] call_ensures(io::Copy::dest_app_tag, (before, tag, mask), after)
                && #[trigger] call_ensures(io::Copy::execute, (after,), r)
                ==> after.target() == before.target()
                && copy_differs(plain, r, |a: CopyFields| (CopyFields { lbat: tag, lbatm: mask, ..a })),
        forall|after: io::Copy<'a, 'r>, r: Result<CopyCommand>, prinfo: u8|
            #[trigger] call_ensures(io::Copy::prinfo_read, (before, prinfo), after)
                && #[trigger] call_ensures(io::Copy::execute, (after,), r)
                ==> after.target() == before.target()
                && copy_differs(plain, r, |a: CopyFields| (CopyFields { prinfor: prinfo, ..a })),
        forall|after: io::Copy<'a, 'r>, r: Result<CopyCommand>, prinfo: u8|
            #[trigger] call_ensures(io::Copy::prinfo_write, (before, prinfo), after)
                && #[trigger] call_ensures(io::Copy::execute, (after,), r)
                ==> after.target() == before.target()
                && copy_differs(plain, r, |a: CopyFields| (CopyFields { prinfow: prinfo, ..a })),
        forall|after: io::Copy<'a, 'r>, r: Result<CopyCommand>, format: u8|
            #[trigger] call_ensures(io::Copy::descriptor_format, (before, format), after)
                && #[trigger] call_ensures(io::Copy::execute, (after,), r)
                ==> after.target() == before.target()
                && copy_differs(plain, r, |a: CopyFields| (CopyFields { format, ..a })),
        forall|after: io::Copy<'a, 'r>, r: Result<CopyCommand>, dtype: u8, dspec: u16|
            #[trigger] call_ensures(io::Copy::directive, (before, dtype, dspec), after)
                && #[trigger] call_ensures(io::Copy::execute, (after,), r)
                ==> after.target() == before.target()
                && copy_differs(plain, r, |a: CopyFields| (CopyFields { dtype, dspec, ..a })),
        forall|after: io::Copy<'a, 'r>, r: Result<CopyCommand>, ms: u32|
            #[trigger] call_ensures(io::Copy::timeout_ms, (before, ms), after)
                && #[trigger] call_ensures(io::Copy::execute, (after,), r)
                ==> after.target() == before.target()
                && copy_differs(plain, r, |a: CopyFields| (CopyFields { timeout: ms, ..a })),
{
}

/// Each setter changes its own part of what is asked for and nothing else, whether
/// or not the request could be accepted before.
#[verifier::spinoff_prover]
pub proof fn dsm_requests<'a, 'r>(before: Dsm<'a, 'r>)
    ensures
        forall|after: Dsm<'a, 'r>, ranges: &'a [DsmRange]|
            #[trigger] call_ensures(Dsm::ranges, (before, ranges), after)
                ==> after@ == (DsmRequest { ranges: Some(ranges@), ..before@ }),
        forall|after: Dsm<'a, 'r>, ms: u32|
            #[trigger] call_ensures(Dsm::timeout_ms, (before, ms), after)
                ==> after@ == (DsmRequest { timeout_ms: ms, ..before@ }),
{
}

/// A Dataset Management request is accepted exactly where 1 to 256 ranges are asked
/// for, and then carries what is asked for.
pub proof fn dsm_carries<'a, 'r>(b: Dsm<'a, 'r>, r: Result<DsmCommand>)
    requires
        call_ensures(Dsm::execute, (b,), r),
    ensures
        r is Ok <==> (b@.ranges matches Some(s) && 1 <= s.len() <= 256),
        r matches Ok(c) ==> c.nsid == b@.nsid && c.attrs == b@.attrs && c.timeout == b@.timeout_ms
            && c.nr_ranges == b@.ranges->0.len() && c.ranges@ == dsm_payload(b@.ranges->0),
{
}

} // verus!
