//! NVMe Zoned Namespaces (ZNS) command set.
//!
//! ZNS exposes a namespace as a set of "zones" - append-only regions
//! that must be written sequentially. Hosts must explicitly open zones
//! before writing, finish them when done, and reset them to reclaim
//! space. Three commands:
//!
//! - **Zone Management Send** ([`Namespace::zns_mgmt_send`]) - Open,
//!   Close, Finish, Reset, Offline, Set Descriptor Extension, ZRWA
//!   Flush.
//! - **Zone Management Receive** ([`Namespace::zns_mgmt_recv`]) - Report
//!   Zones / Extended Report Zones.
//! - **Zone Append** ([`Namespace::zns_append`]) - write to a zone
//!   without specifying an LBA (the controller picks the next).
//!
//! Each is a builder whose `.execute()` returns the command to hand to libnvme.

use crate::error::{Error, Result};
use crate::namespace::Namespace;
use crate::text::push_decimal;
use crate::util::len_u32;
use crate::{io, text, util};
use std::borrow::Cow;
use vstd::prelude::*;
use vstd::string::StringExecFns;

verus! {

/// Zone Send Action (zsa).
#[derive(Debug, Clone, Copy, PartialEq, Eq, Structural)]
#[non_exhaustive]
pub enum ZoneSendAction {
    /// Close an open zone.
    Close,
    /// Finish a zone - transition to Full.
    Finish,
    /// Explicitly open a zone.
    Open,
    /// Reset a zone - transition to Empty.
    Reset,
    /// Offline a zone - Read Only zones become Offline.
    Offline,
    /// Set Zone Descriptor Extension data.
    SetDescriptorExtension,
    /// ZRWA Flush - flush a Zone Random-Write Area.
    ZrwaFlush,
}

impl ZoneSendAction {
    /// The value that encodes this variant in its command field.
    pub open spec fn code(self) -> u32 {
        match self {
            ZoneSendAction::Close => 0x1,
            ZoneSendAction::Finish => 0x2,
            ZoneSendAction::Open => 0x3,
            ZoneSendAction::Reset => 0x4,
            ZoneSendAction::Offline => 0x5,
            ZoneSendAction::SetDescriptorExtension => 0x10,
            ZoneSendAction::ZrwaFlush => 0x11,
        }
    }

    /// The value that encodes this variant in its command field.
    pub fn as_raw(self) -> (r: u32)
        ensures
            r == self.code(),
    {
        match self {
            ZoneSendAction::Close => 0x1,
            ZoneSendAction::Finish => 0x2,
            ZoneSendAction::Open => 0x3,
            ZoneSendAction::Reset => 0x4,
            ZoneSendAction::Offline => 0x5,
            ZoneSendAction::SetDescriptorExtension => 0x10,
            ZoneSendAction::ZrwaFlush => 0x11,
        }
    }

    /// No two variants share an encoding.
    pub proof fn codes_are_distinct(a: Self, b: Self)
        ensures
            a.code() == b.code() ==> a == b,
    {
    }
}

/// Zone Receive Action (zra).
#[derive(Debug, Clone, Copy, PartialEq, Eq, Structural)]
#[non_exhaustive]
pub enum ZoneRecvAction {
    /// Report Zones - standard report.
    Report,
    /// Extended Report Zones - with descriptor-extension data.
    ExtendedReport,
}

impl Default for ZoneRecvAction {
    fn default() -> (r: Self)
        ensures
            r == ZoneRecvAction::Report,
    {
        ZoneRecvAction::Report
    }
}

impl ZoneRecvAction {
    /// The value that encodes this variant in its command field.
    pub open spec fn code(self) -> u32 {
        match self {
            ZoneRecvAction::Report => 0x0,
            ZoneRecvAction::ExtendedReport => 0x1,
        }
    }

    /// The value that encodes this variant in its command field.
    pub fn as_raw(self) -> (r: u32)
        ensures
            r == self.code(),
    {
        match self {
            ZoneRecvAction::Report => 0x0,
            ZoneRecvAction::ExtendedReport => 0x1,
        }
    }

    /// No two variants share an encoding.
    pub proof fn codes_are_distinct(a: Self, b: Self)
        ensures
            a.code() == b.code() ==> a == b,
    {
    }
}

/// Report-zones filter (ZRASF, zone-receive action-specific field).
#[derive(Debug, Clone, Copy, PartialEq, Eq, Structural)]
#[non_exhaustive]
pub enum ZoneReportFilter {
    /// All zones, regardless of state.
    All,
    /// Empty zones only.
    Empty,
    /// Implicitly opened zones.
    ImplicitlyOpened,
    /// Explicitly opened zones.
    ExplicitlyOpened,
    /// Closed zones.
    Closed,
    /// Full zones.
    Full,
    /// Read-only zones.
    ReadOnly,
    /// Offline zones.
    Offline,
}

impl Default for ZoneReportFilter {
    fn default() -> (r: Self)
        ensures
            r == ZoneReportFilter::All,
    {
        ZoneReportFilter::All
    }
}

impl ZoneReportFilter {
    /// The value that encodes this variant in its command field.
    pub open spec fn code(self) -> u16 {
        match self {
            ZoneReportFilter::All => 0x0,
            ZoneReportFilter::Empty => 0x1,
            ZoneReportFilter::ImplicitlyOpened => 0x2,
            ZoneReportFilter::ExplicitlyOpened => 0x3,
            ZoneReportFilter::Closed => 0x4,
            ZoneReportFilter::Full => 0x5,
            ZoneReportFilter::ReadOnly => 0x6,
            ZoneReportFilter::Offline => 0x7,
        }
    }

    /// The value that encodes this variant in its command field.
    pub fn as_raw(self) -> (r: u16)
        ensures
            r == self.code(),
    {
        match self {
            ZoneReportFilter::All => 0x0,
            ZoneReportFilter::Empty => 0x1,
            ZoneReportFilter::ImplicitlyOpened => 0x2,
            ZoneReportFilter::ExplicitlyOpened => 0x3,
            ZoneReportFilter::Closed => 0x4,
            ZoneReportFilter::Full => 0x5,
            ZoneReportFilter::ReadOnly => 0x6,
            ZoneReportFilter::Offline => 0x7,
        }
    }

    /// No two variants share an encoding.
    pub proof fn codes_are_distinct(a: Self, b: Self)
        ensures
            a.code() == b.code() ==> a == b,
    {
    }
}

/// What a [`ZnsMgmtSend`] builder asks for.
#[verifier::ext_equal]
pub struct ZnsMgmtSendRequest {
    /// Namespace identifier.
    pub nsid: u32,
    /// Starting LBA.
    pub slba: u64,
    /// Zone send action.
    pub zsa: u32,
    /// Contents of the payload, where one is attached.
    pub data: Option<Seq<u8>>,
    /// Apply to all zones.
    pub select_all: bool,
    /// Zone Send Action Specific Option.
    pub zsaso: u8,
    /// Timeout in milliseconds.
    pub timeout_ms: u32,
}

/// A Zone Management Send command, ready to be issued.
#[derive(Debug)]
pub struct ZnsMgmtSendCommand<'a> {
    /// Starting LBA.
    pub slba: u64,
    /// Timeout in milliseconds.
    pub timeout: u32,
    /// Namespace identifier.
    pub nsid: u32,
    /// Zone send action.
    pub zsa: u32,
    /// Length of the payload in bytes, `0` where there is none.
    pub data_len: u32,
    /// Apply to all zones.
    pub select_all: bool,
    /// Zone Send Action Specific Option.
    pub zsaso: u8,
    /// The payload that the device reads.
    pub data: Option<&'a [u8]>,
}

impl<'a> ZnsMgmtSendCommand<'a> {
    /// Whether this command is what `req` asks for.
    pub open spec fn encodes(self, req: ZnsMgmtSendRequest) -> bool {
        &&& self.slba == req.slba
        &&& self.timeout == req.timeout_ms
        &&& self.nsid == req.nsid
        &&& self.zsa == req.zsa
        &&& self.select_all == req.select_all
        &&& self.zsaso == req.zsaso
        &&& util::opt_bytes(self.data) == req.data
        &&& self.data_len == util::buffer_len(req.data)
    }
}

/// Builder returned by [`Namespace::zns_mgmt_send`].
#[must_use]
pub struct ZnsMgmtSend<'a, 'r> {
    ns: &'a Namespace<'r>,
    slba: u64,
    action: ZoneSendAction,
    data: Option<&'a [u8]>,
    select_all: bool,
    zsaso: u8,
    timeout_ms: u32,
}

impl<'a, 'r> View for ZnsMgmtSend<'a, 'r> {
    type V = ZnsMgmtSendRequest;

    closed spec fn view(&self) -> ZnsMgmtSendRequest {
        ZnsMgmtSendRequest {
            nsid: self.ns.id(),
            slba: self.slba,
            zsa: self.action.code(),
            data: util::opt_bytes(self.data),
            select_all: self.select_all,
            zsaso: self.zsaso,
            timeout_ms: self.timeout_ms,
        }
    }
}

impl<'a, 'r> ZnsMgmtSend<'a, 'r> {
    /// The namespace that the command is for.
    pub closed spec fn target(self) -> Namespace<'r> {
        *self.ns
    }

    /// A zone action on the zone at `slba`, with no option set.
    pub(crate) fn new(ns: &'a Namespace<'r>, slba: u64, action: ZoneSendAction) -> (b: Self)
        ensures
            b@ == (ZnsMgmtSendRequest {
                nsid: ns.id(),
                slba,
                zsa: action.code(),
                data: None,
                select_all: false,
                zsaso: 0,
                timeout_ms: 0,
            }),
            b.target() == *ns,
    {
        ZnsMgmtSend {
            ns,
            slba,
            action,
            data: None,
            select_all: false,
            zsaso: 0,
            timeout_ms: 0,
        }
    }

    /// Data payload (only meaningful for `SetDescriptorExtension`).
    pub fn data(self, data: &'a [u8]) -> (r: Self)
        ensures
            r@ == (ZnsMgmtSendRequest { data: Some(data@), ..self@ }),
            r.target() == self.target(),
    {
        ZnsMgmtSend { data: Some(data), ..self }
    }

    /// Apply this action to **all** zones, ignoring `slba`.
    pub fn select_all(self) -> (r: Self)
        ensures
            r@ == (ZnsMgmtSendRequest { select_all: true, ..self@ }),
            r.target() == self.target(),
    {
        ZnsMgmtSend { select_all: true, ..self }
    }

    /// Zone Send Action Specific Option (operation-dependent).
    pub fn zsaso(self, zsaso: u8) -> (r: Self)
        ensures
            r@ == (ZnsMgmtSendRequest { zsaso, ..self@ }),
            r.target() == self.target(),
    {
        ZnsMgmtSend { zsaso, ..self }
    }

    /// Per-command timeout in milliseconds. `0` uses libnvme's default.
    pub fn timeout_ms(self, ms: u32) -> (r: Self)
        ensures
            r@ == (ZnsMgmtSendRequest { timeout_ms: ms, ..self@ }),
            r.target() == self.target(),
    {
        ZnsMgmtSend { timeout_ms: ms, ..self }
    }

    /// The namespace that the command is for.
    pub fn namespace(&self) -> (ns: &'a Namespace<'r>)
        ensures
            *ns == self.target(),
    {
        self.ns
    }

    /// The Zone Management Send command, ready to be issued.
    pub fn execute(self) -> (c: ZnsMgmtSendCommand<'a>)
        ensures
            c.encodes(self@),
    {
        let data_len: u32 = match self.data {
            Some(buf) => len_u32(buf.len()),
            None => 0,
        };
        ZnsMgmtSendCommand {
            slba: self.slba,
            timeout: self.timeout_ms,
            nsid: self.ns.nsid(),
            zsa: self.action.as_raw(),
            data_len,
            select_all: self.select_all,
            zsaso: self.zsaso,
            data: self.data,
        }
    }
}

/// What a [`ZnsMgmtRecv`] builder asks for.
#[verifier::ext_equal]
pub struct ZnsMgmtRecvRequest {
    /// Namespace identifier.
    pub nsid: u32,
    /// Starting LBA.
    pub slba: u64,
    /// Zone receive action.
    pub zra: u32,
    /// Report filter.
    pub zrasf: u16,
    /// Partial report.
    pub partial: bool,
    /// Contents of the buffer, once one is given.
    pub data: Option<Seq<u8>>,
    /// Timeout in milliseconds.
    pub timeout_ms: u32,
}

impl ZnsMgmtRecvRequest {
    /// Why the request is refused, if it is: it needs a buffer.
    pub open spec fn refusal(self) -> Option<Seq<char>> {
        if self.data is None {
            Some("zns_mgmt_recv requires a buffer via .buffer()"@)
        } else {
            None
        }
    }
}

/// A Zone Management Receive command, ready to be issued.
#[derive(Debug)]
pub struct ZnsMgmtRecvCommand<'a> {
    /// Starting LBA.
    pub slba: u64,
    /// Timeout in milliseconds.
    pub timeout: u32,
    /// Namespace identifier.
    pub nsid: u32,
    /// Zone receive action.
    pub zra: u32,
    /// Length of the buffer in bytes.
    pub data_len: u32,
    /// Report filter.
    pub zrasf: u16,
    /// Partial report.
    pub zras_feat: bool,
    /// The buffer that the device fills.
    pub data: &'a mut [u8],
}

impl<'a> ZnsMgmtRecvCommand<'a> {
    /// Whether this command is what `req` asks for.
    pub open spec fn encodes(self, req: ZnsMgmtRecvRequest) -> bool {
        &&& self.slba == req.slba
        &&& self.timeout == req.timeout_ms
        &&& self.nsid == req.nsid
        &&& self.zra == req.zra
        &&& self.zrasf == req.zrasf
        &&& self.zras_feat == req.partial
        &&& req.data == Some(self.data@)
        &&& self.data_len == util::buffer_len(req.data)
    }
}

/// Builder returned by [`Namespace::zns_mgmt_recv`].
#[must_use]
pub struct ZnsMgmtRecv<'a, 'r> {
    ns: &'a Namespace<'r>,
    slba: u64,
    action: ZoneRecvAction,
    filter: ZoneReportFilter,
    partial: bool,
    data: Option<&'a mut [u8]>,
    timeout_ms: u32,
}

impl<'a, 'r> View for ZnsMgmtRecv<'a, 'r> {
    type V = ZnsMgmtRecvRequest;

    closed spec fn view(&self) -> ZnsMgmtRecvRequest {
        ZnsMgmtRecvRequest {
            nsid: self.ns.id(),
            slba: self.slba,
            zra: self.action.code(),
            zrasf: self.filter.code(),
            partial: self.partial,
            data: util::mut_bytes(self.data),
            timeout_ms: self.timeout_ms,
        }
    }
}

impl<'a, 'r> ZnsMgmtRecv<'a, 'r> {
    /// The namespace that the command is for.
    pub closed spec fn target(self) -> Namespace<'r> {
        *self.ns
    }

    /// The buffer to read the report into, once one is given.
    pub closed spec fn slot(self) -> Option<&'a mut [u8]> {
        self.data
    }

    /// A report of all zones from `slba` on, without a buffer yet.
    pub(crate) fn new(ns: &'a Namespace<'r>, slba: u64) -> (b: Self)
        ensures
            b@ == (ZnsMgmtRecvRequest {
                nsid: ns.id(),
                slba,
                zra: ZoneRecvAction::Report.code(),
                zrasf: ZoneReportFilter::All.code(),
                partial: false,
                data: None,
                timeout_ms: 0,
            }),
            b.slot() is None,
            b.target() == *ns,
    {
        ZnsMgmtRecv {
            ns,
            slba,
            action: ZoneRecvAction::default(),
            filter: ZoneReportFilter::default(),
            partial: false,
            data: None,
            timeout_ms: 0,
        }
    }

    /// Use Extended Report Zones (default is Report Zones).
    pub fn extended_report(self) -> (r: Self)
        ensures
            r@ == (ZnsMgmtRecvRequest { zra: ZoneRecvAction::ExtendedReport.code(), ..self@ }),
            r.slot() == self.slot(),
            r.target() == self.target(),
    {
        ZnsMgmtRecv { action: ZoneRecvAction::ExtendedReport, ..self }
    }

    /// Filter zones by state (default: All).
    pub fn filter(self, filter: ZoneReportFilter) -> (r: Self)
        ensures
            r@ == (ZnsMgmtRecvRequest { zrasf: filter.code(), ..self@ }),
            r.slot() == self.slot(),
            r.target() == self.target(),
    {
        ZnsMgmtRecv { filter, ..self }
    }

    /// Partial-report bit - return whatever fits in the buffer instead
    /// of reporting the full zone count.
    pub fn partial(self) -> (r: Self)
        ensures
            r@ == (ZnsMgmtRecvRequest { partial: true, ..self@ }),
            r.slot() == self.slot(),
            r.target() == self.target(),
    {
        ZnsMgmtRecv { partial: true, ..self }
    }

    /// Read the report into this buffer (must be at least 8 bytes for
    /// the header). Required before [`Self::execute`].
    pub fn buffer(self, buf: &'a mut [u8]) -> (r: Self)
        ensures
            r@ == (ZnsMgmtRecvRequest { data: Some(old(buf)@), ..self@ }),
            r.slot() matches Some(b) && b@ == old(buf)@ && final(b)@ == final(buf)@,
            self.slot() matches Some(b) ==> final(b)@ == b@,
            r.target() == self.target(),
    {
        ZnsMgmtRecv { data: Some(buf), ..self }
    }

    /// Per-command timeout in milliseconds. `0` uses libnvme's default.
    pub fn timeout_ms(self, ms: u32) -> (r: Self)
        ensures
            r@ == (ZnsMgmtRecvRequest { timeout_ms: ms, ..self@ }),
            r.slot() == self.slot(),
            r.target() == self.target(),
    {
        ZnsMgmtRecv { timeout_ms: ms, ..self }
    }

    /// The namespace that the command is for.
    pub fn namespace(&self) -> (ns: &'a Namespace<'r>)
        ensures
            *ns == self.target(),
    {
        self.ns
    }

    /// Check the request and encode the Zone Management Receive command, ready
    /// to be issued. What is written through it stands in the buffer that was
    /// given.
    pub fn execute(self) -> (r: Result<ZnsMgmtRecvCommand<'a>>)
        ensures
            match self@.refusal() {
                Some(msg) => r matches Err(e) && e.rejects_with(msg),
                None => r matches Ok(c) && c.encodes(self@),
            },
            match self.slot() {
                Some(b) => r matches Ok(c) && final(c.data)@ == final(b)@,
                None => r is Err,
            },
    {
        let buf: &'a mut [u8] = match self.data {
            Some(buf) => buf,
            None => return Err(
                Error::invalid_argument(
                    Cow::Borrowed("zns_mgmt_recv requires a buffer via .buffer()"),
                ),
            ),
        };
        let data_len: u32 = len_u32(buf.len());
        Ok(
            ZnsMgmtRecvCommand {
                slba: self.slba,
                timeout: self.timeout_ms,
                nsid: self.ns.nsid(),
                zra: self.action.as_raw(),
                data_len,
                zrasf: self.filter.as_raw(),
                zras_feat: self.partial,
                data: buf,
            },
        )
    }
}

/// Force Unit Access.
pub const ZNS_CTRL_FUA: u16 = 0x4000;

/// Limited Retry.
pub const ZNS_CTRL_LR: u16 = 0x8000;

/// Protection Information Action.
pub const ZNS_CTRL_PRINFO_PRACT: u16 = 0x2000;

/// Check the guard.
pub const ZNS_CTRL_PRINFO_PRCHK_GUARD: u16 = 0x1000;

/// Check the application tag.
pub const ZNS_CTRL_PRINFO_PRCHK_APP: u16 = 0x0800;

/// Check the reference tag.
pub const ZNS_CTRL_PRINFO_PRCHK_REF: u16 = 0x0400;

/// Zone Append uses the control bits of the other I/O commands.
pub proof fn control_bits_agree()
    ensures
        ZNS_CTRL_FUA == io::IoControl::FUA,
        ZNS_CTRL_LR == io::IoControl::LR,
        ZNS_CTRL_PRINFO_PRACT == io::IoControl::PRINFO_PRACT,
        ZNS_CTRL_PRINFO_PRCHK_GUARD == io::IoControl::PRINFO_PRCHK_GUARD,
        ZNS_CTRL_PRINFO_PRCHK_APP == io::IoControl::PRINFO_PRCHK_APP,
        ZNS_CTRL_PRINFO_PRCHK_REF == io::IoControl::PRINFO_PRCHK_REF,
{
}

/// What a [`ZnsAppend`] builder asks for.
#[verifier::ext_equal]
pub struct ZnsAppendRequest {
    /// Namespace identifier.
    pub nsid: u32,
    /// Size of a logical block in bytes.
    pub lba_size: u32,
    /// Starting LBA of the zone.
    pub zslba: u64,
    /// Number of logical blocks, 1-based.
    pub nlb: u32,
    /// Contents of the data buffer.
    pub data: Seq<u8>,
    /// Contents of the metadata buffer, where one is attached.
    pub metadata: Option<Seq<u8>>,
    /// Reference tag (32-bit).
    pub ilbrt: u32,
    /// Reference tag (64-bit).
    pub ilbrt_u64: u64,
    /// Application tag.
    pub lbat: u16,
    /// Application tag mask.
    pub lbatm: u16,
    /// Control flags.
    pub control: u16,
    /// Timeout in milliseconds.
    pub timeout_ms: u32,
}

/// What is said of a data buffer whose length is not that of the blocks.
pub open spec fn append_len_message(len: nat, want: nat) -> Seq<char> {
    "buffer length "@ + text::decimal(len) + " doesn't match nlb * lba_size = "@ + text::decimal(
        want,
    )
}

impl ZnsAppendRequest {
    /// This request with a control flag added.
    pub open spec fn with_flag(self, bit: u16) -> Self {
        ZnsAppendRequest { control: self.control | bit, ..self }
    }

    /// Why the request is refused, if it is: the block count must have an `NLB`
    /// field, and the data buffer must hold exactly the blocks.
    pub open spec fn refusal(self) -> Option<Seq<char>> {
        if io::nlb_field(self.nlb) is None {
            Some(io::nlb_message(self.nlb))
        } else if self.data.len() != self.nlb * self.lba_size {
            Some(append_len_message(self.data.len(), (self.nlb * self.lba_size) as nat))
        } else {
            None
        }
    }

    /// Append accepts exactly the block counts and buffers that Write accepts.
    pub proof fn accepts_as_write(self, write: io::IoRequest)
        requires
            write.nlb == self.nlb,
            write.lba_size == self.lba_size,
            write.data == Some(self.data),
        ensures
            self.refusal() is None <==> write.refusal() is None,
    {
    }

    /// An accepted request names at least one block, and its data buffer holds
    /// exactly the blocks.
    pub proof fn accepted_request_is_exact(self)
        requires
            self.refusal() is None,
        ensures
            1 <= self.nlb <= 65_536,
            io::nlb_field(self.nlb) matches Some(f) && f + 1 == self.nlb,
            self.data.len() == self.nlb * self.lba_size,
    {
    }

    /// Setting a control flag never turns acceptance into refusal, sets all of
    /// the flag's bits, and leaves every bit outside it as it was.
    pub proof fn flag_changes_only_itself(self, bit: u16, other: u16)
        ensures
            self.with_flag(bit).refusal() == self.refusal(),
            self.with_flag(bit).control & bit == bit,
            bit & other == 0 ==> self.with_flag(bit).control & other == self.control & other,
    {
        let c = self.control;
        assert((c | bit) & bit == bit) by (bit_vector);
        assert(bit & other == 0 ==> (c | bit) & other == c & other) by (bit_vector);
    }
}

/// A Zone Append command, ready to be issued.
#[derive(Debug)]
pub struct ZnsAppendCommand<'a> {
    /// Starting LBA of the zone.
    pub zslba: u64,
    /// Timeout in milliseconds.
    pub timeout: u32,
    /// Namespace identifier.
    pub nsid: u32,
    /// Reference tag (32-bit).
    pub ilbrt: u32,
    /// Length of the data buffer in bytes.
    pub data_len: u32,
    /// Length of the metadata buffer in bytes, `0` where there is none.
    pub metadata_len: u32,
    /// Number of logical blocks, 0's-based.
    pub nlb: u16,
    /// Control flags.
    pub control: u16,
    /// Application tag.
    pub lbat: u16,
    /// Application tag mask.
    pub lbatm: u16,
    /// Reference tag (64-bit).
    pub ilbrt_u64: u64,
    /// The bytes that the device reads.
    pub data: &'a [u8],
    /// The metadata that the device reads.
    pub metadata: Option<&'a [u8]>,
}

impl<'a> ZnsAppendCommand<'a> {
    /// Whether this command is what `req` asks for.
    pub open spec fn encodes(self, req: ZnsAppendRequest) -> bool {
        &&& self.zslba == req.zslba
        &&& self.timeout == req.timeout_ms
        &&& self.nsid == req.nsid
        &&& self.ilbrt == req.ilbrt
        &&& self.data_len == util::low32(req.data.len())
        &&& self.metadata_len == util::buffer_len(req.metadata)
        &&& io::nlb_field(req.nlb) == Some(self.nlb)
        &&& self.control == req.control
        &&& self.lbat == req.lbat
        &&& self.lbatm == req.lbatm
        &&& self.ilbrt_u64 == req.ilbrt_u64
        &&& self.data@ == req.data
        &&& util::opt_bytes(self.metadata) == req.metadata
    }
}

/// Builder returned by [`Namespace::zns_append`].
///
/// Writes `data` into the zone that contains `zslba`. Unlike a normal
/// write, the controller picks the destination LBA (always the zone's
/// write pointer) and returns it in the result-dword. Block count is
/// 1-based; one is subtracted for the 0-based NLB encoding.
#[must_use]
pub struct ZnsAppend<'a, 'r> {
    ns: &'a Namespace<'r>,
    zslba: u64,
    nlb: u32,
    data: &'a [u8],
    metadata: Option<&'a [u8]>,
    ilbrt: u32,
    ilbrt_u64: u64,
    lbat: u16,
    lbatm: u16,
    control: u16,
    timeout_ms: u32,
}

impl<'a, 'r> View for ZnsAppend<'a, 'r> {
    type V = ZnsAppendRequest;

    closed spec fn view(&self) -> ZnsAppendRequest {
        ZnsAppendRequest {
            nsid: self.ns.id(),
            lba_size: self.ns.block_size(),
            zslba: self.zslba,
            nlb: self.nlb,
            data: self.data@,
            metadata: util::opt_bytes(self.metadata),
            ilbrt: self.ilbrt,
            ilbrt_u64: self.ilbrt_u64,
            lbat: self.lbat,
            lbatm: self.lbatm,
            control: self.control,
            timeout_ms: self.timeout_ms,
        }
    }
}

impl<'a, 'r> ZnsAppend<'a, 'r> {
    /// The namespace that the command is for.
    pub closed spec fn target(self) -> Namespace<'r> {
        *self.ns
    }

    /// An append of `nlb` blocks to the zone at `zslba`, with no option set.
    pub(crate) fn new(ns: &'a Namespace<'r>, zslba: u64, nlb: u32, data: &'a [u8]) -> (b: Self)
        ensures
            b@ == (ZnsAppendRequest {
                nsid: ns.id(),
                lba_size: ns.block_size(),
                zslba,
                nlb,
                data: data@,
                metadata: None,
                ilbrt: 0,
                ilbrt_u64: 0,
                lbat: 0,
                lbatm: 0,
                control: 0,
                timeout_ms: 0,
            }),
            b.target() == *ns,
    {
        ZnsAppend {
            ns,
            zslba,
            nlb,
            data,
            metadata: None,
            ilbrt: 0,
            ilbrt_u64: 0,
            lbat: 0,
            lbatm: 0,
            control: 0,
            timeout_ms: 0,
        }
    }

    /// Attach a metadata buffer (separate from data).
    pub fn metadata(self, md: &'a [u8]) -> (r: Self)
        ensures
            r@ == (ZnsAppendRequest { metadata: Some(md@), ..self@ }),
            r.target() == self.target(),
    {
        ZnsAppend { metadata: Some(md), ..self }
    }

    /// Force Unit Access.
    pub fn fua(self) -> (r: Self)
        ensures
            r@ == self@.with_flag(ZNS_CTRL_FUA),
            r.target() == self.target(),
    {
        ZnsAppend { control: self.control | ZNS_CTRL_FUA, ..self }
    }

    /// Limited Retry.
    pub fn limited_retry(self) -> (r: Self)
        ensures
            r@ == self@.with_flag(ZNS_CTRL_LR),
            r.target() == self.target(),
    {
        ZnsAppend { control: self.control | ZNS_CTRL_LR, ..self }
    }

    /// PI Action (PRACT).
    pub fn protection_action(self) -> (r: Self)
        ensures
            r@ == self@.with_flag(ZNS_CTRL_PRINFO_PRACT),
            r.target() == self.target(),
    {
        ZnsAppend { control: self.control | ZNS_CTRL_PRINFO_PRACT, ..self }
    }

    /// Check Guard (PRCHK.GUARD) - enable PI CRC check.
    pub fn check_guard(self) -> (r: Self)
        ensures
            r@ == self@.with_flag(ZNS_CTRL_PRINFO_PRCHK_GUARD),
            r.target() == self.target(),
    {
        ZnsAppend { control: self.control | ZNS_CTRL_PRINFO_PRCHK_GUARD, ..self }
    }

    /// Check Application Tag (PRCHK.APP).
    pub fn check_apptag(self) -> (r: Self)
        ensures
            r@ == self@.with_flag(ZNS_CTRL_PRINFO_PRCHK_APP),
            r.target() == self.target(),
    {
        ZnsAppend { control: self.control | ZNS_CTRL_PRINFO_PRCHK_APP, ..self }
    }

    /// Check Reference Tag (PRCHK.REF) - enable PI ref-tag check.
    pub fn check_reftag(self) -> (r: Self)
        ensures
            r@ == self@.with_flag(ZNS_CTRL_PRINFO_PRCHK_REF),
            r.target() == self.target(),
    {
        ZnsAppend { control: self.control | ZNS_CTRL_PRINFO_PRCHK_REF, ..self }
    }

    /// Initial Logical Block Reference Tag (32-bit).
    pub fn ref_tag(self, ilbrt: u32) -> (r: Self)
        ensures
            r@ == (ZnsAppendRequest { ilbrt, ..self@ }),
            r.target() == self.target(),
    {
        ZnsAppend { ilbrt, ..self }
    }

    /// Initial Logical Block Reference Tag (64-bit, enhanced PI).
    pub fn ref_tag_u64(self, ilbrt: u64) -> (r: Self)
        ensures
            r@ == (ZnsAppendRequest { ilbrt_u64: ilbrt, ..self@ }),
            r.target() == self.target(),
    {
        ZnsAppend { ilbrt_u64: ilbrt, ..self }
    }

    /// Logical Block Application Tag + mask.
    pub fn app_tag(self, tag: u16, mask: u16) -> (r: Self)
        ensures
            r@ == (ZnsAppendRequest { lbat: tag, lbatm: mask, ..self@ }),
            r.target() == self.target(),
    {
        ZnsAppend { lbat: tag, lbatm: mask, ..self }
    }

    /// Per-command timeout in milliseconds. `0` uses libnvme's default.
    pub fn timeout_ms(self, ms: u32) -> (r: Self)
        ensures
            r@ == (ZnsAppendRequest { timeout_ms: ms, ..self@ }),
            r.target() == self.target(),
    {
        ZnsAppend { timeout_ms: ms, ..self }
    }

    /// The namespace that the command is for.
    pub fn namespace(&self) -> (ns: &'a Namespace<'r>)
        ensures
            *ns == self.target(),
    {
        self.ns
    }

    /// Check the request and encode the Zone Append command, ready to be issued.
    pub fn execute(self) -> (r: Result<ZnsAppendCommand<'a>>)
        ensures
            match self@.refusal() {
                Some(msg) => r matches Err(e) && e.rejects_with(msg),
                None => r matches Ok(c) && c.encodes(self@),
            },
    {
        if self.nlb == 0 || self.nlb > 65_536 {
            let mut msg = String::from_str("nlb must be 1..=65536, got ");
            push_decimal(&mut msg, self.nlb as u64);
            return Err(Error::invalid_argument(Cow::Owned(msg)));
        }
        let nlb: u32 = self.nlb;
        let nlb_enc: u16 = (nlb - 1) as u16;
        let lba_size: u32 = self.ns.lba_size();
        assert(0 <= nlb * lba_size <= 65_536 * 0xffff_ffff) by (nonlinear_arith)
            requires
                0 <= nlb <= 65_536,
                0 <= lba_size <= 0xffff_ffff,
        ;
        let want: u64 = nlb as u64 * lba_size as u64;
        if self.data.len() as u64 != want {
            let mut msg = String::from_str("buffer length ");
            push_decimal(&mut msg, self.data.len() as u64);
            msg.append(" doesn't match nlb * lba_size = ");
            push_decimal(&mut msg, want);
            return Err(Error::invalid_argument(Cow::Owned(msg)));
        }
        let metadata_len: u32 = match self.metadata {
            Some(md) => len_u32(md.len()),
            None => 0,
        };
        Ok(
            ZnsAppendCommand {
                zslba: self.zslba,
                timeout: self.timeout_ms,
                nsid: self.ns.nsid(),
                ilbrt: self.ilbrt,
                data_len: len_u32(self.data.len()),
                metadata_len,
                nlb: nlb_enc,
                control: self.control,
                lbat: self.lbat,
                lbatm: self.lbatm,
                ilbrt_u64: self.ilbrt_u64,
                data: self.data,
                metadata: self.metadata,
            },
        )
    }
}

} // verus!
