//! What the Zoned Namespaces commands encode.

use super::{field_len, say_the_same, says, shared, unsigned};
use crate::error::Result;
use crate::namespace::{Namespace, NamespaceAttrs};
use crate::text;
use crate::zns::{
    ZnsAppend, ZnsAppendCommand, ZnsAppendRequest, ZnsMgmtRecv, ZnsMgmtRecvCommand,
    ZnsMgmtRecvRequest, ZnsMgmtSend, ZnsMgmtSendCommand, ZnsMgmtSendRequest, ZoneReportFilter,
    ZoneSendAction,
};
use vstd::prelude::*;

verus! {

/// The fields of a Zone Management Send command.
#[verifier::ext_equal]
pub struct SendFields {
    /// Starting LBA.
    pub slba: u64,
    /// Timeout in milliseconds.
    pub timeout: u32,
    /// Namespace identifier.
    pub nsid: u32,
    /// Zone send action.
    pub zsa: u32,
    /// Length of the payload.
    pub data_len: u32,
    /// Apply to all zones.
    pub select_all: bool,
    /// Zone Send Action Specific Option.
    pub zsaso: u8,
    /// The payload.
    pub data: Option<Seq<u8>>,
}

/// The fields of `c`.
pub open spec fn send_fields(c: ZnsMgmtSendCommand<'_>) -> SendFields {
    SendFields {
        slba: c.slba,
        timeout: c.timeout,
        nsid: c.nsid,
        zsa: c.zsa,
        data_len: c.data_len,
        select_all: c.select_all,
        zsaso: c.zsaso,
        data: shared(c.data),
    }
}

/// The fields of a Zone Management Receive command.
#[verifier::ext_equal]
pub struct RecvFields {
    /// Starting LBA.
    pub slba: u64,
    /// Timeout in milliseconds.
    pub timeout: u32,
    /// Namespace identifier.
    pub nsid: u32,
    /// Zone receive action.
    pub zra: u32,
    /// Length of the buffer.
    pub data_len: u32,
    /// Report filter.
    pub zrasf: u16,
    /// Partial report.
    pub zras_feat: bool,
    /// Contents of the buffer.
    pub data: Seq<u8>,
}

/// The fields of `c`.
pub open spec fn recv_fields(c: ZnsMgmtRecvCommand<'_>) -> RecvFields {
    RecvFields {
        slba: c.slba,
        timeout: c.timeout,
        nsid: c.nsid,
        zra: c.zra,
        data_len: c.data_len,
        zrasf: c.zrasf,
        zras_feat: c.zras_feat,
        data: c.data@,
    }
}

/// The fields of a Zone Append command.
#[verifier::ext_equal]
pub struct AppendFields {
    /// Starting LBA of the zone.
    pub zslba: u64,
    /// Timeout in milliseconds.
    pub timeout: u32,
    /// Namespace identifier.
    pub nsid: u32,
    /// Reference tag (32-bit).
    pub ilbrt: u32,
    /// Length of the data buffer.
    pub data_len: u32,
    /// Length of the metadata buffer.
    pub metadata_len: u32,
    /// Number of logical blocks, 0's-based.
    pub nlb: u16,
    /// Control flags.
    pub control: u16,
    /// Application tag.
    pub lbat: u16,
    /// Application tag mask.
    pub lbatm: u16,
    /// Reference tag (64-bit).
    pub ilbrt_u64: u64,
    /// The data.
    pub data: Seq<u8>,
    /// The metadata.
    pub metadata: Option<Seq<u8>>,
}

/// The fields of `c`.
pub open spec fn append_fields(c: ZnsAppendCommand<'_>) -> AppendFields {
    AppendFields {
        zslba: c.zslba,
        timeout: c.timeout,
        nsid: c.nsid,
        ilbrt: c.ilbrt,
        data_len: c.data_len,
        metadata_len: c.metadata_len,
        nlb: c.nlb,
        control: c.control,
        lbat: c.lbat,
        lbatm: c.lbatm,
        ilbrt_u64: c.ilbrt_u64,
        data: c.data@,
        metadata: shared(c.metadata),
    }
}

/// Whether two Zone Management Receive commands differ by `f` and in nothing else.
pub open spec fn recv_differs(
    p: Result<ZnsMgmtRecvCommand<'_>>,
    q: Result<ZnsMgmtRecvCommand<'_>>,
    f: spec_fn(RecvFields) -> RecvFields,
) -> bool {
    match (p, q) {
        (Ok(c), Ok(d)) => recv_fields(d) == f(recv_fields(c)),
        (Err(x), Err(y)) => say_the_same(x, y),
        _ => false,
    }
}

/// Whether two Zone Append commands differ by `f` and in nothing else.
pub open spec fn append_differs(
    p: Result<ZnsAppendCommand<'_>>,
    q: Result<ZnsAppendCommand<'_>>,
    f: spec_fn(AppendFields) -> AppendFields,
) -> bool {
    match (p, q) {
        (Ok(c), Ok(d)) => append_fields(d) == f(append_fields(c)),
        (Err(x), Err(y)) => say_the_same(x, y),
        _ => false,
    }
}

impl<'a> ZnsMgmtSendCommand<'a> {
    /// A command that encodes a request applies to all zones exactly where that was
    /// asked for, and carries everything else as it was asked for.
    pub proof fn request_is_carried(self, req: ZnsMgmtSendRequest)
        requires
            self.encodes(req),
        ensures
            self.select_all <==> req.select_all,
            self.slba == req.slba,
            self.timeout == req.timeout_ms,
            self.nsid == req.nsid,
            self.zsa == req.zsa,
            self.zsaso == req.zsaso,
            shared(self.data) == req.data,
            self.data_len == field_len(req.data),
    {
    }
}

impl<'a> ZnsMgmtRecvCommand<'a> {
    /// A command that encodes a request asks for a partial report exactly where that
    /// was asked for, and carries everything else as it was asked for.
    pub proof fn request_is_carried(self, req: ZnsMgmtRecvRequest)
        requires
            self.encodes(req),
        ensures
            self.zras_feat <==> req.partial,
            self.slba == req.slba,
            self.timeout == req.timeout_ms,
            self.nsid == req.nsid,
            self.zra == req.zra,
            self.zrasf == req.zrasf,
            req.data == Some(old(self.data)@),
            self.data_len == field_len(req.data),
    {
    }
}

impl<'a> ZnsAppendCommand<'a> {
    /// A command that encodes a request carries everything as it was asked for, and
    /// the block count less one.
    pub proof fn request_is_carried(self, req: ZnsAppendRequest)
        requires
            self.encodes(req),
        ensures
            self.zslba == req.zslba,
            self.timeout == req.timeout_ms,
            self.nsid == req.nsid,
            self.ilbrt == req.ilbrt,
            self.ilbrt_u64 == req.ilbrt_u64,
            self.lbat == req.lbat,
            self.lbatm == req.lbatm,
            self.control == req.control,
            self.nlb + 1 == req.nlb,
            self.data@ == req.data,
            self.data_len == field_len(Some(req.data)),
            shared(self.metadata) == req.metadata,
            self.metadata_len == field_len(req.metadata),
    {
    }
}

impl ZnsMgmtRecvRequest {
    /// A request is accepted exactly where it has a buffer.
    pub proof fn accepted_exactly_with_a_buffer(self)
        ensures
            self.refusal() is None <==> self.data is Some,
    {
    }
}

impl ZnsAppendRequest {
    /// A request is accepted exactly where it names 1 to 65536 blocks and its data
    /// buffer holds exactly as many.
    pub proof fn accepted_exactly_where_it_fits(self)
        ensures
            self.refusal() is None <==> 1 <= self.nlb <= 65_536 && self.data.len() == self.nlb
                * self.lba_size,
    {
    }
}

/// A new Zone Management Send carries the namespace, the zone and the action, does
/// not apply to all zones, and has no payload and no option.
#[verifier::spinoff_prover]
pub proof fn mgmt_send_encodes<'a, 'r>(
    attrs: NamespaceAttrs<'r>,
    ns: &'a Namespace<'r>,
    slba: u64,
    action: ZoneSendAction,
    code: u32,
    b: ZnsMgmtSend<'a, 'r>,
    n: &'a Namespace<'r>,
    c: ZnsMgmtSendCommand<'a>,
)
    requires
        call_ensures(Namespace::from_raw, (attrs,), *ns),
        call_ensures(ZoneSendAction::as_raw, (action,), code),
        call_ensures(Namespace::zns_mgmt_send, (ns, slba, action), b),
        call_ensures(ZnsMgmtSend::namespace, (&b,), n),
        call_ensures(ZnsMgmtSend::execute, (b,), c),
    ensures
        *n == *ns,
        c.slba == slba,
        c.nsid == unsigned(attrs.nsid),
        c.zsa == code,
        !c.select_all,
        c.zsaso == 0,
        c.timeout == 0,
        c.data is None,
        c.data_len == 0,
{
}

/// Each option of a Zone Management Send changes its own fields of the command and
/// nothing else. The command applies to all zones once that was asked for, and no
/// other option touches it.
#[verifier::spinoff_prover]
pub proof fn mgmt_send_options<'a, 'r>(before: ZnsMgmtSend<'a, 'r>, plain: ZnsMgmtSendCommand<'a>)
    requires
        call_ensures(ZnsMgmtSend::execute, (before,), plain),
    ensures
        forall|after: ZnsMgmtSend<'a, 'r>, r: ZnsMgmtSendCommand<'a>, data: &'a [u8]|
            #[trigger] call_ensures(ZnsMgmtSend::data, (before, data), after)
                && #[trigger] call_ensures(ZnsMgmtSend::execute, (after,), r)
                ==> after.target() == before.target()
                && send_fields(r) == (SendFields { data: Some(data@), data_len: (data@.len() as int % 0x1_0000_0000) as u32, ..send_fields(plain) }),
        forall|after: ZnsMgmtSend<'a, 'r>, r: ZnsMgmtSendCommand<'a>|
            #[trigger] call_ensures(ZnsMgmtSend::select_all, (before,), after)
                && #[trigger] call_ensures(ZnsMgmtSend::execute, (after,), r)
                ==> after.target() == before.target()
                && send_fields(r) == (SendFields { select_all: true, ..send_fields(plain) }),
        forall|after: ZnsMgmtSend<'a, 'r>, r: ZnsMgmtSendCommand<'a>, zsaso: u8|
            #[trigger] call_ensures(ZnsMgmtSend::zsaso, (before, zsaso), after)
                && #[trigger] call_ensures(ZnsMgmtSend::execute, (after,), r)
                ==> after.target() == before.target()
                && send_fields(r) == (SendFields { zsaso, ..send_fields(plain) }),
        forall|after: ZnsMgmtSend<'a, 'r>, r: ZnsMgmtSendCommand<'a>, ms: u32|
            #[trigger] call_ensures(ZnsMgmtSend::timeout_ms, (before, ms), after)
                && #[trigger] call_ensures(ZnsMgmtSend::execute, (after,), r)
                ==> after.target() == before.target()
                && send_fields(r) == (SendFields { timeout: ms, ..send_fields(plain) }),
{
}

/// A Zone Management Receive without a buffer is refused.
#[verifier::spinoff_prover]
pub proof fn mgmt_recv_needs_a_buffer<'a, 'r>(
    ns: &'a Namespace<'r>,
    slba: u64,
    b: ZnsMgmtRecv<'a, 'r>,
    n: &'a Namespace<'r>,
    r: Result<ZnsMgmtRecvCommand<'a>>,
)
    requires
        call_ensures(Namespace::zns_mgmt_recv, (ns, slba), b),
        call_ensures(ZnsMgmtRecv::namespace, (&b,), n),
        call_ensures(ZnsMgmtRecv::execute, (b,), r),
    ensures
        *n == *ns,
        r matches Err(e) && says(e, "zns_mgmt_recv requires a buffer via .buffer()"@),
{
}

/// A Zone Management Receive with a buffer is accepted. It carries the namespace,
/// the zone and the buffer, reports all zones in full, and what the device writes
/// stands in the buffer.
#[verifier::spinoff_prover]
pub proof fn mgmt_recv_encodes<'a, 'r>(
    attrs: NamespaceAttrs<'r>,
    ns: &'a Namespace<'r>,
    slba: u64,
    fresh: ZnsMgmtRecv<'a, 'r>,
    buf: &'a mut [u8],
    b: ZnsMgmtRecv<'a, 'r>,
    r: Result<ZnsMgmtRecvCommand<'a>>,
)
    requires
        call_ensures(Namespace::from_raw, (attrs,), *ns),
        call_ensures(Namespace::zns_mgmt_recv, (ns, slba), fresh),
        call_ensures(ZnsMgmtRecv::buffer, (fresh, buf), b),
        call_ensures(ZnsMgmtRecv::execute, (b,), r),
    ensures
        b.target() == *ns,
        r is Ok,
        r matches Ok(c) ==> c.slba == slba && c.nsid == unsigned(attrs.nsid) && c.zra == 0
            && c.zrasf == 0 && !c.zras_feat && c.timeout == 0 && c.data@ == old(buf)@
            && c.data_len == field_len(Some(old(buf)@)) && final(c.data)@ == final(buf)@,
{
}

/// A buffer given to a Zone Management Receive takes the place of the one before,
/// which stays as it was, and changes nothing else.
#[verifier::spinoff_prover]
pub proof fn mgmt_recv_buffer<'a, 'r>(
    before: ZnsMgmtRecv<'a, 'r>,
    plain: Result<ZnsMgmtRecvCommand<'a>>,
    buf: &'a mut [u8],
    after: ZnsMgmtRecv<'a, 'r>,
    r: Result<ZnsMgmtRecvCommand<'a>>,
)
    requires
        call_ensures(ZnsMgmtRecv::execute, (before,), plain),
        call_ensures(ZnsMgmtRecv::buffer, (before, buf), after),
        call_ensures(ZnsMgmtRecv::execute, (after,), r),
    ensures
        after.target() == before.target(),
        before.slot() matches Some(b) ==> final(b)@ == b@,
        r matches Ok(d) && d.data@ == old(buf)@ && final(d.data)@ == final(buf)@ && d.data_len
            == field_len(Some(old(buf)@)),
        plain matches Ok(c) ==> (r matches Ok(d) && d.slba == c.slba && d.timeout == c.timeout
            && d.nsid == c.nsid && d.zra == c.zra && d.zrasf == c.zrasf && d.zras_feat
            == c.zras_feat),
{
}

/// Each option of a Zone Management Receive changes its own field of the command and
/// nothing else.
#[verifier::spinoff_prover]
pub proof fn mgmt_recv_options<'a, 'r>(
    before: ZnsMgmtRecv<'a, 'r>,
    plain: Result<ZnsMgmtRecvCommand<'a>>,
)
    requires
        call_ensures(ZnsMgmtRecv::execute, (before,), plain),
    ensures
        forall|after: ZnsMgmtRecv<'a, 'r>, r: Result<ZnsMgmtRecvCommand<'a>>|
            #[trigger] call_ensures(ZnsMgmtRecv::extended_report, (before,), after)
                && #[trigger] call_ensures(ZnsMgmtRecv::execute, (after,), r)
                ==> after.target() == before.target() && after.slot() == before.slot()
                && recv_differs(plain, r, |a: RecvFields| (RecvFields { zra: 1, ..a })),
        forall|after: ZnsMgmtRecv<'a, 'r>, r: Result<ZnsMgmtRecvCommand<'a>>, filter: ZoneReportFilter, code: u16|
            #[trigger] call_ensures(ZoneReportFilter::as_raw, (filter,), code)
                && #[trigger] call_ensures(ZnsMgmtRecv::filter, (before, filter), after)
                && #[trigger] call_ensures(ZnsMgmtRecv::execute, (after,), r)
                ==> after.target() == before.target() && after.slot() == before.slot()
                && recv_differs(plain, r, |a: RecvFields| (RecvFields { zrasf: code, ..a })),
        forall|after: ZnsMgmtRecv<'a, 'r>, r: Result<ZnsMgmtRecvCommand<'a>>|
            #[trigger] call_ensures(ZnsMgmtRecv::partial, (before,), after)
                && #[trigger] call_ensures(ZnsMgmtRecv::execute, (after,), r)
                ==> after.target() == before.target() && after.slot() == before.slot()
                && recv_differs(plain, r, |a: RecvFields| (RecvFields { zras_feat: true, ..a })),
        forall|after: ZnsMgmtRecv<'a, 'r>, r: Result<ZnsMgmtRecvCommand<'a>>, ms: u32|
            #[trigger] call_ensures(ZnsMgmtRecv::timeout_ms, (before, ms), after)
                && #[trigger] call_ensures(ZnsMgmtRecv::execute, (after,), r)
                ==> after.target() == before.target() && after.slot() == before.slot()
                && recv_differs(plain, r, |a: RecvFields| (RecvFields { timeout: ms, ..a })),
{
}

/// A Zone Append is accepted exactly where the blocks fit the buffer, and then
/// carries the namespace, the zone, the block count less one and the buffer, with no
/// option. A block count that cannot be named is named first.
#[verifier::spinoff_prover]
pub proof fn append_encodes<'a, 'r>(
    attrs: NamespaceAttrs<'r>,
    ns: &'a Namespace<'r>,
    zslba: u64,
    nlb: u32,
    data: &'a [u8],
    b: ZnsAppend<'a, 'r>,
    n: &'a Namespace<'r>,
    r: Result<ZnsAppendCommand<'a>>,
)
    requires
        call_ensures(Namespace::from_raw, (attrs,), *ns),
        call_ensures(Namespace::zns_append, (ns, zslba, nlb, data), b),
        call_ensures(ZnsAppend::namespace, (&b,), n),
        call_ensures(ZnsAppend::execute, (b,), r),
    ensures
        *n == *ns,
        r is Ok <==> 1 <= nlb <= 65_536 && data@.len() == nlb * unsigned(attrs.lba_size),
        r matches Ok(c) ==> c.zslba == zslba && c.nsid == unsigned(attrs.nsid) && c.nlb + 1 == nlb
            && c.data@ == data@ && c.data_len == field_len(Some(data@)) && c.metadata is None
            && c.metadata_len == 0 && c.control == 0 && c.lbat == 0 && c.lbatm == 0 && c.ilbrt == 0
            && c.ilbrt_u64 == 0 && c.timeout == 0,
        r matches Err(e) ==> if nlb == 0 || nlb > 65_536 {
            says(e, "nlb must be 1..=65536, got "@ + text::decimal(nlb as nat))
        } else {
            says(
                e,
                "buffer length "@ + text::decimal(data@.len())
                    + " doesn't match nlb * lba_size = "@ + text::decimal(
                    (nlb * unsigned(attrs.lba_size)) as nat,
                ),
            )
        },
{
}

/// Each option of a Zone Append changes its own fields of the command and nothing
/// else: a flag adds its bit to the control flags, and every other option sets its
/// fields. No option decides whether the request is refused.
#[verifier::spinoff_prover]
pub proof fn append_options<'a, 'r>(
    before: ZnsAppend<'a, 'r>,
    plain: Result<ZnsAppendCommand<'a>>,
)
    requires
        call_ensures(ZnsAppend::execute, (before,), plain),
    ensures
        forall|after: ZnsAppend<'a, 'r>, r: Result<ZnsAppendCommand<'a>>, md: &'a [u8]|
            #[trigger] call_ensures(ZnsAppend::metadata, (before, md), after)
                && #[trigger] call_ensures(ZnsAppend::execute, (after,), r)
                ==> after.target() == before.target()
                && append_differs(plain, r, |a: AppendFields| (AppendFields { metadata: Some(md@), metadata_len: (md@.len() as int % 0x1_0000_0000) as u32, ..a })),
        forall|after: ZnsAppend<'a, 'r>, r: Result<ZnsAppendCommand<'a>>|
            #[trigger] call_ensures(ZnsAppend::fua, (before,), after)
                && #[trigger] call_ensures(ZnsAppend::execute, (after,), r)
                ==> after.target() == before.target()
                && append_differs(plain, r, |a: AppendFields| (AppendFields { control: a.control | 0x4000u16, ..a })),
        forall|after: ZnsAppend<'a, 'r>, r: Result<ZnsAppendCommand<'a>>|
            #[trigger] call_ensures(ZnsAppend::limited_retry, (before,), after)
                && #[trigger] call_ensures(ZnsAppend::execute, (after,), r)
                ==> after.target() == before.target()
                && append_differs(plain, r, |a: AppendFields| (AppendFields { control: a.control | 0x8000u16, ..a })),
        forall|after: ZnsAppend<'a, 'r>, r: Result<ZnsAppendCommand<'a>>|
            #[trigger] call_ensures(ZnsAppend::protection_action, (before,), after)
                && #[trigger] call_ensures(ZnsAppend::execute, (after,), r)
                ==> after.target() == before.target()
                && append_differs(plain, r, |a: AppendFields| (AppendFields { control: a.control | 0x2000u16, ..a })),
        forall|after: ZnsAppend<'a, 'r>, r: Result<ZnsAppendCommand<'a>>|
            #[trigger] call_ensures(ZnsAppend::check_guard, (before,), after)
                && #[trigger] call_ensures(ZnsAppend::execute, (after,), r)
                ==> after.target() == before.target()
                && append_differs(plain, r, |a: AppendFields| (AppendFields { control: a.control | 0x1000u16, ..a })),
        forall|after: ZnsAppend<'a, 'r>, r: Result<ZnsAppendCommand<'a>>|
            #[trigger] call_ensures(ZnsAppend::check_apptag, (before,), after)
                && #[trigger] call_ensures(ZnsAppend::execute, (after,), r)
                ==> after.target() == before.target()
                && append_differs(plain, r, |a: AppendFields| (AppendFields { control: a.control | 0x0800u16, ..a })),
        forall|after: ZnsAppend<'a, 'r>, r: Result<ZnsAppendCommand<'a>>|
            #[trigger] call_ensures(ZnsAppend::check_reftag, (before,), after)
                && #[trigger] call_ensures(ZnsAppend::execute, (after,), r)
                ==> after.target() == before.target()
                && append_differs(plain, r, |a: AppendFields| (AppendFields { control: a.control | 0x0400u16, ..a })),
        forall|after: ZnsAppend<'a, 'r>, r: Result<ZnsAppendCommand<'a>>, tag: u32|
            #[trigger] call_ensures(ZnsAppend::ref_tag, (before, tag), after)
                && #[trigger] call_ensures(ZnsAppend::execute, (after,), r)
                ==> after.target() == before.target()
                && append_differs(plain, r, |a: AppendFields| (AppendFields { ilbrt: tag, ..a })),
        forall|after: ZnsAppend<'a, 'r>, r: Result<ZnsAppendCommand<'a>>, tag: u64|
            #[trigger] call_ensures(ZnsAppend::ref_tag_u64, (before, tag), after)
                && #[trigger] call_ensures(ZnsAppend::execute, (after,), r)
                ==> after.target() == before.target()
                && append_differs(plain, r, |a: AppendFields| (AppendFields { ilbrt_u64: tag, ..a })),
        forall|after: ZnsAppend<'a, 'r>, r: Result<ZnsAppendCommand<'a>>, tag: u16, mask: u16|
            #[trigger] call_ensures(ZnsAppend::app_tag, (before, tag, mask), after)
                && #[trigger] call_ensures(ZnsAppend::execute, (after,), r)
                ==> after.target() == before.target()
                && append_differs(plain, r, |a: AppendFields| (AppendFields { lbat: tag, lbatm: mask, ..a })),
        forall|after: ZnsAppend<'a, 'r>, r: Result<ZnsAppendCommand<'a>>, ms: u32|
            #[trigger] call_ensures(ZnsAppend::timeout_ms, (before, ms), after)
                && #[trigger] call_ensures(ZnsAppend::execute, (after,), r)
                ==> after.target() == before.target()
                && append_differs(plain, r, |a: AppendFields| (AppendFields { timeout: ms, ..a })),
{
}

/// Each setter changes its own part of what is asked for and nothing else, whether
/// or not the request could be accepted before.
#[verifier::spinoff_prover]
pub proof fn mgmt_recv_requests<'a, 'r>(before: ZnsMgmtRecv<'a, 'r>)
    ensures
        forall|after: ZnsMgmtRecv<'a, 'r>|
            #[trigger] call_ensures(ZnsMgmtRecv::extended_report, (before,), after)
                ==> after@ == (ZnsMgmtRecvRequest { zra: 1, ..before@ }),
        forall|after: ZnsMgmtRecv<'a, 'r>, filter: ZoneReportFilter, code: u16|
            #[trigger] call_ensures(ZoneReportFilter::as_raw, (filter,), code)
                && #[trigger] call_ensures(ZnsMgmtRecv::filter, (before, filter), after)
                ==> after@ == (ZnsMgmtRecvRequest { zrasf: code, ..before@ }),
        forall|after: ZnsMgmtRecv<'a, 'r>|
            #[trigger] call_ensures(ZnsMgmtRecv::partial, (before,), after)
                ==> after@ == (ZnsMgmtRecvRequest { partial: true, ..before@ }),
        forall|after: ZnsMgmtRecv<'a, 'r>, ms: u32|
            #[trigger] call_ensures(ZnsMgmtRecv::timeout_ms, (before, ms), after)
                ==> after@ == (ZnsMgmtRecvRequest { timeout_ms: ms, ..before@ }),
{
}

/// A buffer takes the place of the one before and changes nothing else of what is
/// asked for, whether or not there was one before.
pub proof fn mgmt_recv_buffer_request<'a, 'r>(
    before: ZnsMgmtRecv<'a, 'r>,
    buf: &'a mut [u8],
    after: ZnsMgmtRecv<'a, 'r>,
)
    requires
        call_ensures(ZnsMgmtRecv::buffer, (before, buf), after),
    ensures
        after@ == (ZnsMgmtRecvRequest { data: Some(old(buf)@), ..before@ }),
{
}

/// A Zone Management Receive is accepted exactly where a buffer is asked for, and
/// then carries what is asked for field by field.
pub proof fn mgmt_recv_carries<'a, 'r>(
    b: ZnsMgmtRecv<'a, 'r>,
    r: Result<ZnsMgmtRecvCommand<'a>>,
)
    requires
        call_ensures(ZnsMgmtRecv::execute, (b,), r),
    ensures
        r is Ok <==> b@.data is Some,
        r matches Ok(c) ==> c.slba == b@.slba && c.nsid == b@.nsid && c.zra == b@.zra && c.zrasf
            == b@.zrasf && c.zras_feat == b@.partial && c.timeout == b@.timeout_ms && Some(c.data@)
            == b@.data && c.data_len == field_len(b@.data),
{
}

} // verus!
