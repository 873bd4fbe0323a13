//! What the directive commands encode.

use super::{exclusive, shared, unsigned};
use crate::directives::{
    DirectiveRecv, DirectiveRecvCommand, DirectiveRecvOp, DirectiveSend, DirectiveSendCommand,
    DirectiveSendOp, DirectiveType,
};
use crate::namespace::{Namespace, NamespaceAttrs};
use vstd::prelude::*;

verus! {

/// The fields of a directive command.
#[verifier::ext_equal]
pub struct DirectiveFields {
    /// Timeout in milliseconds.
    pub timeout: u32,
    /// Namespace identifier.
    pub nsid: u32,
    /// Directive operation.
    pub doper: u32,
    /// Directive type.
    pub dtype: u32,
    /// Command Dword 12.
    pub cdw12: u32,
    /// Length of the buffer.
    pub data_len: u32,
    /// Directive-Specific field.
    pub dspec: u16,
    /// Contents of the buffer.
    pub data: Option<Seq<u8>>,
}

/// The fields of `c`.
pub open spec fn send_fields(c: DirectiveSendCommand<'_>) -> DirectiveFields {
    DirectiveFields {
        timeout: c.timeout,
        nsid: c.nsid,
        doper: c.doper,
        dtype: c.dtype,
        cdw12: c.cdw12,
        data_len: c.data_len,
        dspec: c.dspec,
        data: shared(c.data),
    }
}

/// The fields of `c`.
pub open spec fn recv_fields(c: DirectiveRecvCommand<'_>) -> DirectiveFields {
    DirectiveFields {
        timeout: c.timeout,
        nsid: c.nsid,
        doper: c.doper,
        dtype: c.dtype,
        cdw12: c.cdw12,
        data_len: c.data_len,
        dspec: c.dspec,
        data: exclusive(c.data),
    }
}

/// A new Directive Send carries the namespace, the type and the operation, and no
/// buffer and no option.
#[verifier::spinoff_prover]
pub proof fn directive_send_encodes<'a, 'r>(
    attrs: NamespaceAttrs<'r>,
    ns: &'a Namespace<'r>,
    dtype: DirectiveType,
    dtype_code: u32,
    doper: DirectiveSendOp,
    doper_code: u32,
    b: DirectiveSend<'a, 'r>,
    n: &'a Namespace<'r>,
    c: DirectiveSendCommand<'a>,
)
    requires
        call_ensures(Namespace::from_raw, (attrs,), *ns),
        call_ensures(DirectiveType::as_raw, (dtype,), dtype_code),
        call_ensures(DirectiveSendOp::as_raw, (doper,), doper_code),
        call_ensures(Namespace::directive_send, (ns, dtype, doper), b),
        call_ensures(DirectiveSend::namespace, (&b,), n),
        call_ensures(DirectiveSend::execute, (b,), c),
    ensures
        *n == *ns,
        c.nsid == unsigned(attrs.nsid),
        c.dtype == dtype_code,
        c.doper == doper_code,
        c.cdw12 == 0,
        c.dspec == 0,
        c.timeout == 0,
        c.data is None,
        c.data_len == 0,
{
}

/// Each option of a Directive Send changes its own fields of the command and
/// nothing else.
#[verifier::spinoff_prover]
pub proof fn directive_send_options<'a, 'r>(before: DirectiveSend<'a, 'r>, plain: DirectiveSendCommand<'a>)
    requires
        call_ensures(DirectiveSend::execute, (before,), plain),
    ensures
        forall|after: DirectiveSend<'a, 'r>, r: DirectiveSendCommand<'a>, data: &'a [u8]|
            #[trigger] call_ensures(DirectiveSend::data, (before, data), after)
                && #[trigger] call_ensures(DirectiveSend::execute, (after,), r)
                ==> after.target() == before.target()
                && send_fields(r) == (DirectiveFields { data: Some(data@), data_len: (data@.len() as int % 0x1_0000_0000) as u32, ..send_fields(plain) }),
        forall|after: DirectiveSend<'a, 'r>, r: DirectiveSendCommand<'a>, dspec: u16|
            #[trigger] call_ensures(DirectiveSend::dspec, (before, dspec), after)
                && #[trigger] call_ensures(DirectiveSend::execute, (after,), r)
                ==> after.target() == before.target()
                && send_fields(r) == (DirectiveFields { dspec, ..send_fields(plain) }),
        forall|after: DirectiveSend<'a, 'r>, r: DirectiveSendCommand<'a>, cdw12: u32|
            #[trigger] call_ensures(DirectiveSend::cdw12, (before, cdw12), after)
                && #[trigger] call_ensures(DirectiveSend::execute, (after,), r)
                ==> after.target() == before.target()
                && send_fields(r) == (DirectiveFields { cdw12, ..send_fields(plain) }),
        forall|after: DirectiveSend<'a, 'r>, r: DirectiveSendCommand<'a>, ms: u32|
            #[trigger] call_ensures(DirectiveSend::timeout_ms, (before, ms), after)
                && #[trigger] call_ensures(DirectiveSend::execute, (after,), r)
                ==> after.target() == before.target()
                && send_fields(r) == (DirectiveFields { timeout: ms, ..send_fields(plain) }),
{
}

/// A new Directive Receive carries the namespace, the type and the operation, and
/// no buffer and no option.
#[verifier::spinoff_prover]
pub proof fn directive_recv_encodes<'a, 'r>(
    attrs: NamespaceAttrs<'r>,
    ns: &'a Namespace<'r>,
    dtype: DirectiveType,
    dtype_code: u32,
    doper: DirectiveRecvOp,
    doper_code: u32,
    b: DirectiveRecv<'a, 'r>,
    n: &'a Namespace<'r>,
    c: DirectiveRecvCommand<'a>,
)
    requires
        call_ensures(Namespace::from_raw, (attrs,), *ns),
        call_ensures(DirectiveType::as_raw, (dtype,), dtype_code),
        call_ensures(DirectiveRecvOp::as_raw, (doper,), doper_code),
        call_ensures(Namespace::directive_recv, (ns, dtype, doper), b),
        call_ensures(DirectiveRecv::namespace, (&b,), n),
        call_ensures(DirectiveRecv::execute, (b,), c),
    ensures
        *n == *ns,
        c.nsid == unsigned(attrs.nsid),
        c.dtype == dtype_code,
        c.doper == doper_code,
        c.cdw12 == 0,
        c.dspec == 0,
        c.timeout == 0,
        c.data is None,
        c.data_len == 0,
{
}

/// Each option of a Directive Receive changes its own fields of the command and
/// nothing else.
#[verifier::spinoff_prover]
pub proof fn directive_recv_options<'a, 'r>(before: DirectiveRecv<'a, 'r>, plain: DirectiveRecvCommand<'a>)
    requires
        call_ensures(DirectiveRecv::execute, (before,), plain),
    ensures
        forall|after: DirectiveRecv<'a, 'r>, r: DirectiveRecvCommand<'a>, dspec: u16|
            #[trigger] call_ensures(DirectiveRecv::dspec, (before, dspec), after)
                && #[trigger] call_ensures(DirectiveRecv::execute, (after,), r)
                ==> after.target() == before.target() && after.slot() == before.slot()
                && recv_fields(r) == (DirectiveFields { dspec, ..recv_fields(plain) }),
        forall|after: DirectiveRecv<'a, 'r>, r: DirectiveRecvCommand<'a>, cdw12: u32|
            #[trigger] call_ensures(DirectiveRecv::cdw12, (before, cdw12), after)
                && #[trigger] call_ensures(DirectiveRecv::execute, (after,), r)
                ==> after.target() == before.target() && after.slot() == before.slot()
                && recv_fields(r) == (DirectiveFields { cdw12, ..recv_fields(plain) }),
        forall|after: DirectiveRecv<'a, 'r>, r: DirectiveRecvCommand<'a>, ms: u32|
            #[trigger] call_ensures(DirectiveRecv::timeout_ms, (before, ms), after)
                && #[trigger] call_ensures(DirectiveRecv::execute, (after,), r)
                ==> after.target() == before.target() && after.slot() == before.slot()
                && recv_fields(r) == (DirectiveFields { timeout: ms, ..recv_fields(plain) }),
{
}

/// A buffer given to a Directive Receive stands in the command with its length, and
/// nothing else changes. What the device writes stands in the buffer, and a buffer
/// that was given before stays as it was.
#[verifier::spinoff_prover]
pub proof fn directive_recv_buffer<'a, 'r>(
    before: DirectiveRecv<'a, 'r>,
    plain: DirectiveRecvCommand<'a>,
    buf: &'a mut [u8],
    after: DirectiveRecv<'a, 'r>,
    d: DirectiveRecvCommand<'a>,
)
    requires
        call_ensures(DirectiveRecv::execute, (before,), plain),
        call_ensures(DirectiveRecv::buffer, (before, buf), after),
        call_ensures(DirectiveRecv::execute, (after,), d),
    ensures
        after.target() == before.target(),
        before.slot() matches Some(b) ==> final(b)@ == b@,
        recv_fields(d) == (DirectiveFields {
            data: Some(old(buf)@),
            data_len: (old(buf)@.len() as int % 0x1_0000_0000) as u32,
            ..recv_fields(plain)
        }),
        d.data matches Some(b) && final(b)@ == final(buf)@,
{
}

} // verus!
