//! What the controller commands encode.

use super::{exclusive, field_len};
use crate::admin::{SanitizeAction, SelfTestAction};
use crate::commands::{
    CommandSet, Controller, GetLbaStatusArgs, GetLbaStatusCommand, GetPropertyCommand,
    LockdownArgs, LockdownCommand, PassthruArgs, PassthruCommand, Sanitize, SanitizeCommand,
    SecurityReceiveCommand, SecuritySendCommand, SelfTestCommand, SetPropertyCommand,
};
use vstd::prelude::*;

verus! {

/// A controller keeps its handle.
pub proof fn handles<H>(inner: H, c: Controller<H>, h: &H)
    requires
        call_ensures(Controller::<H>::from_raw, (inner,), c),
        call_ensures(Controller::<H>::raw_handle, (&c,), h),
    ensures
        *h == inner,
{
}

/// A new Sanitize goes to its controller and asks for a block erase with no option.
pub proof fn sanitize_encodes<'a, H>(
    ctrl: &'a Controller<H>,
    b: Sanitize<'a, H>,
    r: (&'a Controller<H>, SanitizeCommand),
)
    requires
        call_ensures(Controller::<H>::sanitize, (ctrl,), b),
        call_ensures(Sanitize::<H>::execute, (b,), r),
    ensures
        *r.0 == *ctrl,
        r.1.sanact == 2,
        r.1.ovrpat == 0,
        !r.1.ause,
        r.1.owpass == 0,
        !r.1.oipbp,
        !r.1.nodas,
        !r.1.emvs,
        r.1.timeout == 0,
{
}

/// Each option of a Sanitize changes its own field of the command and nothing else.
#[verifier::spinoff_prover]
pub proof fn sanitize_options<'a, H>(
    before: Sanitize<'a, H>,
    plain: (&'a Controller<H>, SanitizeCommand),
)
    requires
        call_ensures(Sanitize::<H>::execute, (before,), plain),
    ensures
        forall|after: Sanitize<'a, H>, r: (&'a Controller<H>, SanitizeCommand), action: SanitizeAction, code: u32|
            #[trigger] call_ensures(SanitizeAction::as_raw, (action,), code)
                && #[trigger] call_ensures(Sanitize::<H>::action, (before, action), after)
                && #[trigger] call_ensures(Sanitize::<H>::execute, (after,), r)
                ==> *r.0 == *plain.0 && r.1 == (SanitizeCommand { sanact: code, ..plain.1 }),
        forall|after: Sanitize<'a, H>, r: (&'a Controller<H>, SanitizeCommand), on: bool|
            #[trigger] call_ensures(Sanitize::<H>::ause, (before, on), after)
                && #[trigger] call_ensures(Sanitize::<H>::execute, (after,), r)
                ==> *r.0 == *plain.0 && r.1 == (SanitizeCommand { ause: on, ..plain.1 }),
        forall|after: Sanitize<'a, H>, r: (&'a Controller<H>, SanitizeCommand), n: u8|
            #[trigger] call_ensures(Sanitize::<H>::overwrite_pass_count, (before, n), after)
                && #[trigger] call_ensures(Sanitize::<H>::execute, (after,), r)
                ==> *r.0 == *plain.0 && r.1 == (SanitizeCommand { owpass: n, ..plain.1 }),
        forall|after: Sanitize<'a, H>, r: (&'a Controller<H>, SanitizeCommand), on: bool|
            #[trigger] call_ensures(Sanitize::<H>::overwrite_invert, (before, on), after)
                && #[trigger] call_ensures(Sanitize::<H>::execute, (after,), r)
                ==> *r.0 == *plain.0 && r.1 == (SanitizeCommand { oipbp: on, ..plain.1 }),
        forall|after: Sanitize<'a, H>, r: (&'a Controller<H>, SanitizeCommand), on: bool|
            #[trigger] call_ensures(Sanitize::<H>::no_deallocate_after, (before, on), after)
                && #[trigger] call_ensures(Sanitize::<H>::execute, (after,), r)
                ==> *r.0 == *plain.0 && r.1 == (SanitizeCommand { nodas: on, ..plain.1 }),
        forall|after: Sanitize<'a, H>, r: (&'a Controller<H>, SanitizeCommand), on: bool|
            #[trigger] call_ensures(Sanitize::<H>::emulated_media_verify, (before, on), after)
                && #[trigger] call_ensures(Sanitize::<H>::execute, (after,), r)
                ==> *r.0 == *plain.0 && r.1 == (SanitizeCommand { emvs: on, ..plain.1 }),
        forall|after: Sanitize<'a, H>, r: (&'a Controller<H>, SanitizeCommand), pattern: u32|
            #[trigger] call_ensures(Sanitize::<H>::overwrite_pattern, (before, pattern), after)
                && #[trigger] call_ensures(Sanitize::<H>::execute, (after,), r)
                ==> *r.0 == *plain.0 && r.1 == (SanitizeCommand { ovrpat: pattern, ..plain.1 }),
        forall|after: Sanitize<'a, H>, r: (&'a Controller<H>, SanitizeCommand), ms: u32|
            #[trigger] call_ensures(Sanitize::<H>::timeout_ms, (before, ms), after)
                && #[trigger] call_ensures(Sanitize::<H>::execute, (after,), r)
                ==> *r.0 == *plain.0 && r.1 == (SanitizeCommand { timeout: ms, ..plain.1 }),
{
}

/// A Device Self-Test carries the namespace and the action, and no timeout.
pub proof fn self_tests<H>(
    ctrl: Controller<H>,
    nsid: u32,
    action: SelfTestAction,
    code: u32,
    c: SelfTestCommand,
)
    requires
        call_ensures(SelfTestAction::as_raw, (action,), code),
        call_ensures(Controller::<H>::self_test, (&ctrl, nsid, action), c),
    ensures
        c.nsid == nsid,
        c.stc == code,
        c.timeout == 0,
{
}

/// A Lockdown carries each argument in its field.
pub proof fn lockdowns<H>(ctrl: Controller<H>, args: LockdownArgs, c: LockdownCommand)
    requires
        call_ensures(Controller::<H>::lockdown, (&ctrl, args), c),
    ensures
        c.scp == args.scope,
        c.prhbt == args.prohibit,
        c.ifc == args.interface,
        c.ofi == args.opcode_or_fid,
        c.uuidx == args.uuid_index,
        c.timeout == args.timeout_ms,
{
}

/// A Security Send carries each argument in its field, and its buffer with its
/// length.
pub proof fn security_sends<'a, H>(
    ctrl: Controller<H>,
    nsid: u32,
    secp: u8,
    spsp0: u8,
    spsp1: u8,
    nssf: u8,
    tl: u32,
    data: &'a mut [u8],
    c: SecuritySendCommand<'a>,
)
    requires
        call_ensures(
            Controller::<H>::security_send,
            (&ctrl, nsid, secp, spsp0, spsp1, nssf, tl, data),
            c,
        ),
    ensures
        c.nsid == nsid,
        c.secp == secp,
        c.spsp0 == spsp0,
        c.spsp1 == spsp1,
        c.nssf == nssf,
        c.tl == tl,
        c.timeout == 0,
        old(c.data)@ == old(data)@,
        c.data_len == field_len(Some(old(data)@)),
        final(c.data)@ == final(data)@,
{
}

/// A Security Receive carries each argument in its field, and its buffer with its
/// length.
pub proof fn security_receives<'a, H>(
    ctrl: Controller<H>,
    nsid: u32,
    secp: u8,
    spsp0: u8,
    spsp1: u8,
    nssf: u8,
    al: u32,
    data: &'a mut [u8],
    c: SecurityReceiveCommand<'a>,
)
    requires
        call_ensures(
            Controller::<H>::security_receive,
            (&ctrl, nsid, secp, spsp0, spsp1, nssf, al, data),
            c,
        ),
    ensures
        c.nsid == nsid,
        c.secp == secp,
        c.spsp0 == spsp0,
        c.spsp1 == spsp1,
        c.nssf == nssf,
        c.al == al,
        c.timeout == 0,
        old(c.data)@ == old(data)@,
        c.data_len == field_len(Some(old(data)@)),
        final(c.data)@ == final(data)@,
{
}

/// A Get LBA Status carries its arguments and its buffer as they are.
pub proof fn lba_statuses<'a, H>(
    ctrl: Controller<H>,
    args: GetLbaStatusArgs,
    buf: &'a mut [u8],
    c: GetLbaStatusCommand<'a>,
)
    requires
        args.mndw * 4 <= old(buf)@.len(),
        call_ensures(Controller::<H>::get_lba_status, (&ctrl, args, buf), c),
    ensures
        c.args.nsid == args.nsid,
        c.args.slba == args.slba,
        c.args.mndw == args.mndw,
        c.args.atype == args.atype,
        c.args.rl == args.rl,
        c.args.timeout_ms == args.timeout_ms,
        old(c.lbas)@ == old(buf)@,
        final(c.lbas)@ == final(buf)@,
{
}

/// Properties are set and read at the offset that was asked for.
pub proof fn properties<H>(
    ctrl: Controller<H>,
    offset: i32,
    value: u64,
    s: SetPropertyCommand,
    g: GetPropertyCommand,
)
    requires
        call_ensures(Controller::<H>::set_property, (&ctrl, offset, value), s),
        call_ensures(Controller::<H>::get_property, (&ctrl, offset), g),
    ensures
        s.offset == offset,
        s.value == value,
        s.timeout == 0,
        g.offset == offset,
        g.timeout == 0,
{
}

/// No argument is set by default.
pub proof fn defaults(l: LockdownArgs, g: GetLbaStatusArgs, p: PassthruArgs<'static>)
    requires
        call_ensures(<LockdownArgs as Default>::default, (), l),
        call_ensures(<GetLbaStatusArgs as Default>::default, (), g),
        call_ensures(<PassthruArgs<'static> as Default>::default, (), p),
    ensures
        l.scope == 0 && l.prohibit == 0 && l.interface == 0 && l.opcode_or_fid == 0 && l.uuid_index
            == 0 && l.timeout_ms == 0,
        g.nsid == 0 && g.slba == 0 && g.mndw == 0 && g.atype == 0 && g.rl == 0 && g.timeout_ms == 0,
        p.opcode == 0 && p.flags == 0 && p.rsvd == 0 && p.nsid == 0,
        p.cdw2 == 0 && p.cdw3 == 0 && p.cdw10 == 0 && p.cdw11 == 0 && p.cdw12 == 0 && p.cdw13 == 0
            && p.cdw14 == 0 && p.cdw15 == 0,
        p.data is None && p.metadata is None && p.timeout_ms == 0,
{
}

/// Whether `c` carries `args` field by field, with the lengths of the buffers.
pub open spec fn passes<'a>(c: PassthruCommand<'a>, args: PassthruArgs<'a>) -> bool {
    &&& c.opcode == args.opcode
    &&& c.flags == args.flags
    &&& c.rsvd == args.rsvd
    &&& c.nsid == args.nsid
    &&& c.cdw2 == args.cdw2
    &&& c.cdw3 == args.cdw3
    &&& c.cdw10 == args.cdw10
    &&& c.cdw11 == args.cdw11
    &&& c.cdw12 == args.cdw12
    &&& c.cdw13 == args.cdw13
    &&& c.cdw14 == args.cdw14
    &&& c.cdw15 == args.cdw15
    &&& c.timeout == args.timeout_ms
    &&& exclusive(c.data) == exclusive(args.data)
    &&& c.data_len == field_len(exclusive(args.data))
    &&& exclusive(c.metadata) == exclusive(args.metadata)
    &&& c.metadata_len == field_len(exclusive(args.metadata))
}

/// A passthrough command carries its arguments field by field, goes to the command
/// set that was asked for, and what the device writes stands in the buffers that were
/// given.
pub proof fn passthrus<'a, H>(
    ctrl: Controller<H>,
    set: CommandSet,
    args: PassthruArgs<'a>,
    any: PassthruCommand<'a>,
    admin: PassthruCommand<'a>,
    io: PassthruCommand<'a>,
)
    requires
        call_ensures(PassthruCommand::new, (set, args), any),
        call_ensures(Controller::<H>::admin_passthru, (&ctrl, args), admin),
        call_ensures(Controller::<H>::io_passthru, (&ctrl, args), io),
    ensures
        any.set == set && passes(any, args),
        admin.set == CommandSet::Admin && passes(admin, args),
        io.set == CommandSet::Io && passes(io, args),
        args.data matches Some(b) ==> (any.data matches Some(d) && final(d)@ == final(b)@),
        args.data matches Some(b) ==> (admin.data matches Some(d) && final(d)@ == final(b)@),
        args.data matches Some(b) ==> (io.data matches Some(d) && final(d)@ == final(b)@),
        args.metadata matches Some(b) ==> (any.metadata matches Some(d) && final(d)@ == final(b)@),
        args.metadata matches Some(b) ==> (admin.metadata matches Some(d) && final(d)@
            == final(b)@),
        args.metadata matches Some(b) ==> (io.metadata matches Some(d) && final(d)@ == final(b)@),
{
}

} // verus!
