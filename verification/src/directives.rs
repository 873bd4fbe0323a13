//! NVMe Directives (Send / Receive).
//!
//! Directives carry workload hints from the host to the controller. Two
//! Directive Types are defined:
//!
//! - **Identify** (`DirectiveType::Identify`) - query/configure which
//!   directives the controller supports.
//! - **Streams** (`DirectiveType::Streams`) - host hints about which
//!   logical "stream" each write belongs to, so the controller can
//!   place related data together on media.
//!
//! Vendor-specific directive types live above `0x80`; pass the raw value
//! to [`DirectiveType::Raw`].
//!
//! All directives are namespace-scoped. Build via the methods on
//! [`Namespace`] (`directive_send`, `directive_recv`) and call `.execute()`,
//! which returns the command to hand to libnvme.

use crate::namespace::Namespace;
use crate::util;
use crate::util::len_u32;
use vstd::prelude::*;

verus! {

/// Directive Type (dtype).
#[derive(Debug, Clone, Copy, PartialEq, Eq, Structural)]
pub enum DirectiveType {
    /// Identify Directive - controller capability queries.
    Identify,
    /// Streams Directive - write-placement hints.
    Streams,
    /// Vendor-specific directive (0x80 and above).
    Raw(u8),
}

impl DirectiveType {
    /// The value that encodes this variant in its command field.
    pub open spec fn code(self) -> u32 {
        match self {
            DirectiveType::Identify => 0,
            DirectiveType::Streams => 1,
            DirectiveType::Raw(v) => v as u32,
        }
    }

    /// The value that encodes this variant in its command field.
    pub fn as_raw(self) -> (r: u32)
        ensures
            r == self.code(),
    {
        match self {
            DirectiveType::Identify => 0,
            DirectiveType::Streams => 1,
            DirectiveType::Raw(v) => v as u32,
        }
    }

    /// Every encoding fits the one-byte field, and a raw value stands for itself.
    pub proof fn code_is_a_byte(self, v: u8)
        ensures
            self.code() < 256,
            DirectiveType::Raw(v).code() == v,
    {
    }
}

/// Directive Send Operation (doper).
#[derive(Debug, Clone, Copy, PartialEq, Eq, Structural)]
pub enum DirectiveSendOp {
    /// Identify Directive - Enable Directive.
    IdentifyEnable,
    /// Streams - Release Identifier.
    StreamsReleaseIdentifier,
    /// Streams - Release Resource.
    StreamsReleaseResource,
    /// Raw operation code for vendor-specific directives.
    Raw(u8),
}

impl DirectiveSendOp {
    /// The value that encodes this variant in its command field.
    pub open spec fn code(self) -> u32 {
        match self {
            DirectiveSendOp::IdentifyEnable => 0x01,
            DirectiveSendOp::StreamsReleaseIdentifier => 0x01,
            DirectiveSendOp::StreamsReleaseResource => 0x02,
            DirectiveSendOp::Raw(v) => v as u32,
        }
    }

    /// The value that encodes this variant in its command field.
    pub fn as_raw(self) -> (r: u32)
        ensures
            r == self.code(),
    {
        match self {
            DirectiveSendOp::IdentifyEnable => 0x01,
            DirectiveSendOp::StreamsReleaseIdentifier => 0x01,
            DirectiveSendOp::StreamsReleaseResource => 0x02,
            DirectiveSendOp::Raw(v) => v as u32,
        }
    }

    /// Every encoding fits the one-byte field, and a raw value stands for itself.
    pub proof fn code_is_a_byte(self, v: u8)
        ensures
            self.code() < 256,
            DirectiveSendOp::Raw(v).code() == v,
    {
    }
}

/// Directive Receive Operation (doper).
#[derive(Debug, Clone, Copy, PartialEq, Eq, Structural)]
pub enum DirectiveRecvOp {
    /// Identify - Return Parameters.
    IdentifyReturnParameters,
    /// Streams - Return Parameters.
    StreamsReturnParameters,
    /// Streams - Get Status.
    StreamsGetStatus,
    /// Streams - Allocate Resources.
    StreamsAllocateResources,
    /// Raw operation code for vendor-specific directives.
    Raw(u8),
}

impl DirectiveRecvOp {
    /// The value that encodes this variant in its command field.
    pub open spec fn code(self) -> u32 {
        match self {
            DirectiveRecvOp::IdentifyReturnParameters => 0x01,
            DirectiveRecvOp::StreamsReturnParameters => 0x01,
            DirectiveRecvOp::StreamsGetStatus => 0x02,
            DirectiveRecvOp::StreamsAllocateResources => 0x03,
            DirectiveRecvOp::Raw(v) => v as u32,
        }
    }

    /// The value that encodes this variant in its command field.
    pub fn as_raw(self) -> (r: u32)
        ensures
            r == self.code(),
    {
        match self {
            DirectiveRecvOp::IdentifyReturnParameters => 0x01,
            DirectiveRecvOp::StreamsReturnParameters => 0x01,
            DirectiveRecvOp::StreamsGetStatus => 0x02,
            DirectiveRecvOp::StreamsAllocateResources => 0x03,
            DirectiveRecvOp::Raw(v) => v as u32,
        }
    }

    /// Every encoding fits the one-byte field, and a raw value stands for itself.
    pub proof fn code_is_a_byte(self, v: u8)
        ensures
            self.code() < 256,
            DirectiveRecvOp::Raw(v).code() == v,
    {
    }
}

/// What a directive builder asks for.
#[verifier::ext_equal]
pub struct DirectiveRequest {
    /// Namespace identifier.
    pub nsid: u32,
    /// Directive type.
    pub dtype: u32,
    /// Directive operation.
    pub doper: u32,
    /// Contents of the buffer, where one is attached.
    pub data: Option<Seq<u8>>,
    /// Directive-Specific field.
    pub dspec: u16,
    /// Command Dword 12.
    pub cdw12: u32,
    /// Timeout in milliseconds.
    pub timeout_ms: u32,
}

impl DirectiveRequest {
    /// A request on which no option is set.
    pub open spec fn new(nsid: u32, dtype: u32, doper: u32) -> Self {
        DirectiveRequest { nsid, dtype, doper, data: None, dspec: 0, cdw12: 0, timeout_ms: 0 }
    }
}

/// A Directive Send command, ready to be issued.
#[derive(Debug)]
pub struct DirectiveSendCommand<'a> {
    /// Timeout in milliseconds.
    pub timeout: u32,
    /// Namespace identifier.
    pub nsid: u32,
    /// Directive operation.
    pub doper: u32,
    /// Directive type.
    pub dtype: u32,
    /// Command Dword 12.
    pub cdw12: u32,
    /// Length of the buffer in bytes, `0` where there is none.
    pub data_len: u32,
    /// Directive-Specific field.
    pub dspec: u16,
    /// The bytes that the device reads.
    pub data: Option<&'a [u8]>,
}

impl<'a> DirectiveSendCommand<'a> {
    /// Whether this command is what `req` asks for.
    pub open spec fn encodes(self, req: DirectiveRequest) -> bool {
        &&& self.timeout == req.timeout_ms
        &&& self.nsid == req.nsid
        &&& self.doper == req.doper
        &&& self.dtype == req.dtype
        &&& self.cdw12 == req.cdw12
        &&& self.dspec == req.dspec
        &&& util::opt_bytes(self.data) == req.data
        &&& self.data_len == util::buffer_len(req.data)
    }
}

/// Builder returned by [`Namespace::directive_send`].
#[must_use]
pub struct DirectiveSend<'a, 'r> {
    ns: &'a Namespace<'r>,
    dtype: DirectiveType,
    doper: DirectiveSendOp,
    data: Option<&'a [u8]>,
    dspec: u16,
    cdw12: u32,
    timeout_ms: u32,
}

impl<'a, 'r> View for DirectiveSend<'a, 'r> {
    type V = DirectiveRequest;

    closed spec fn view(&self) -> DirectiveRequest {
        DirectiveRequest {
            nsid: self.ns.id(),
            dtype: self.dtype.code(),
            doper: self.doper.code(),
            data: util::opt_bytes(self.data),
            dspec: self.dspec,
            cdw12: self.cdw12,
            timeout_ms: self.timeout_ms,
        }
    }
}

impl<'a, 'r> DirectiveSend<'a, 'r> {
    /// The namespace that the command is for.
    pub closed spec fn target(self) -> Namespace<'r> {
        *self.ns
    }

    /// A Directive Send command with no option set.
    pub(crate) fn new(ns: &'a Namespace<'r>, dtype: DirectiveType, doper: DirectiveSendOp) -> (b:
        Self)
        ensures
            b@ == DirectiveRequest::new(ns.id(), dtype.code(), doper.code()),
            b.target() == *ns,
    {
        DirectiveSend { ns, dtype, doper, data: None, dspec: 0, cdw12: 0, timeout_ms: 0 }
    }

    /// Data payload (interpretation depends on the operation).
    pub fn data(self, data: &'a [u8]) -> (r: Self)
        ensures
            r@ == (DirectiveRequest { data: Some(data@), ..self@ }),
            r.target() == self.target(),
    {
        DirectiveSend { data: Some(data), ..self }
    }

    /// Directive-Specific field (DSPEC, 16-bit).
    pub fn dspec(self, dspec: u16) -> (r: Self)
        ensures
            r@ == (DirectiveRequest { dspec, ..self@ }),
            r.target() == self.target(),
    {
        DirectiveSend { dspec, ..self }
    }

    /// Directive-specific CDW12 (operation-dependent).
    pub fn cdw12(self, cdw12: u32) -> (r: Self)
        ensures
            r@ == (DirectiveRequest { cdw12, ..self@ }),
            r.target() == self.target(),
    {
        DirectiveSend { cdw12, ..self }
    }

    /// Per-command timeout in milliseconds. `0` uses libnvme's default.
    pub fn timeout_ms(self, ms: u32) -> (r: Self)
        ensures
            r@ == (DirectiveRequest { timeout_ms: ms, ..self@ }),
            r.target() == self.target(),
    {
        DirectiveSend { timeout_ms: ms, ..self }
    }

    /// The namespace that the command is for.
    pub fn namespace(&self) -> (ns: &'a Namespace<'r>)
        ensures
            *ns == self.target(),
    {
        self.ns
    }

    /// The Directive Send command, ready to be issued.
    pub fn execute(self) -> (c: DirectiveSendCommand<'a>)
        ensures
            c.encodes(self@),
    {
        let data_len: u32 = match &self.data {
            Some(buf) => len_u32(buf.len()),
            None => 0,
        };
        DirectiveSendCommand {
            timeout: self.timeout_ms,
            nsid: self.ns.nsid(),
            doper: self.doper.as_raw(),
            dtype: self.dtype.as_raw(),
            cdw12: self.cdw12,
            data_len,
            dspec: self.dspec,
            data: self.data,
        }
    }
}

/// A Directive Receive command, ready to be issued.
#[derive(Debug)]
pub struct DirectiveRecvCommand<'a> {
    /// Timeout in milliseconds.
    pub timeout: u32,
    /// Namespace identifier.
    pub nsid: u32,
    /// Directive operation.
    pub doper: u32,
    /// Directive type.
    pub dtype: u32,
    /// Command Dword 12.
    pub cdw12: u32,
    /// Length of the buffer in bytes, `0` where there is none.
    pub data_len: u32,
    /// Directive-Specific field.
    pub dspec: u16,
    /// The buffer that the device fills.
    pub data: Option<&'a mut [u8]>,
}

impl<'a> DirectiveRecvCommand<'a> {
    /// Whether this command is what `req` asks for.
    pub open spec fn encodes(self, req: DirectiveRequest) -> bool {
        &&& self.timeout == req.timeout_ms
        &&& self.nsid == req.nsid
        &&& self.doper == req.doper
        &&& self.dtype == req.dtype
        &&& self.cdw12 == req.cdw12
        &&& self.dspec == req.dspec
        &&& util::mut_bytes(self.data) == req.data
        &&& self.data_len == util::buffer_len(req.data)
    }
}

/// Builder returned by [`Namespace::directive_recv`].
#[must_use]
pub struct DirectiveRecv<'a, 'r> {
    ns: &'a Namespace<'r>,
    dtype: DirectiveType,
    doper: DirectiveRecvOp,
    data: Option<&'a mut [u8]>,
    dspec: u16,
    cdw12: u32,
    timeout_ms: u32,
}

impl<'a, 'r> View for DirectiveRecv<'a, 'r> {
    type V = DirectiveRequest;

    closed spec fn view(&self) -> DirectiveRequest {
        DirectiveRequest {
            nsid: self.ns.id(),
            dtype: self.dtype.code(),
            doper: self.doper.code(),
            data: util::mut_bytes(self.data),
            dspec: self.dspec,
            cdw12: self.cdw12,
            timeout_ms: self.timeout_ms,
        }
    }
}

impl<'a, 'r> DirectiveRecv<'a, 'r> {
    /// The namespace that the command is for.
    pub closed spec fn target(self) -> Namespace<'r> {
        *self.ns
    }

    /// The buffer to receive into, once one is given.
    pub closed spec fn slot(self) -> Option<&'a mut [u8]> {
        self.data
    }

    /// A Directive Receive command with no option set.
    pub(crate) fn new(ns: &'a Namespace<'r>, dtype: DirectiveType, doper: DirectiveRecvOp) -> (b:
        Self)
        ensures
            b@ == DirectiveRequest::new(ns.id(), dtype.code(), doper.code()),
            b.slot() is None,
            b.target() == *ns,
    {
        DirectiveRecv { ns, dtype, doper, data: None, dspec: 0, cdw12: 0, timeout_ms: 0 }
    }

    /// Buffer to receive the directive's response payload.
    pub fn buffer(self, data: &'a mut [u8]) -> (r: Self)
        ensures
            r@ == (DirectiveRequest { data: Some(old(data)@), ..self@ }),
            r.slot() matches Some(b) && b@ == old(data)@ && final(b)@ == final(data)@,
            self.slot() matches Some(b) ==> final(b)@ == b@,
            r.target() == self.target(),
    {
        DirectiveRecv { data: Some(data), ..self }
    }

    /// Directive-Specific field (DSPEC, 16-bit).
    pub fn dspec(self, dspec: u16) -> (r: Self)
        ensures
            r@ == (DirectiveRequest { dspec, ..self@ }),
            r.slot() == self.slot(),
            r.target() == self.target(),
    {
        DirectiveRecv { dspec, ..self }
    }

    /// Directive-specific CDW12 (operation-dependent).
    pub fn cdw12(self, cdw12: u32) -> (r: Self)
        ensures
            r@ == (DirectiveRequest { cdw12, ..self@ }),
            r.slot() == self.slot(),
            r.target() == self.target(),
    {
        DirectiveRecv { cdw12, ..self }
    }

    /// Per-command timeout in milliseconds. `0` uses libnvme's default.
    pub fn timeout_ms(self, ms: u32) -> (r: Self)
        ensures
            r@ == (DirectiveRequest { timeout_ms: ms, ..self@ }),
            r.slot() == self.slot(),
            r.target() == self.target(),
    {
        DirectiveRecv { timeout_ms: ms, ..self }
    }

    /// The namespace that the command is for.
    pub fn namespace(&self) -> (ns: &'a Namespace<'r>)
        ensures
            *ns == self.target(),
    {
        self.ns
    }

    /// The Directive Receive command, ready to be issued. What is written
    /// through it stands in the buffer that was given.
    pub fn execute(self) -> (c: DirectiveRecvCommand<'a>)
        ensures
            c.encodes(self@),
            match self.slot() {
                Some(b) => c.data matches Some(d) && final(d)@ == final(b)@,
                None => c.data is None,
            },
    {
        let data_len: u32 = match &self.data {
            Some(buf) => len_u32(buf.len()),
            None => 0,
        };
        DirectiveRecvCommand {
            timeout: self.timeout_ms,
            nsid: self.ns.nsid(),
            doper: self.doper.as_raw(),
            dtype: self.dtype.as_raw(),
            cdw12: self.cdw12,
            data_len,
            dspec: self.dspec,
            data: self.data,
        }
    }
}

} // verus!
