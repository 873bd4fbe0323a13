//! What the reservation commands encode.

use super::{field_len, say_the_same, says, unsigned};
use crate::error::Result;
use crate::namespace::{Namespace, NamespaceAttrs};
use crate::reservations::{
    PtplChange, ReservationAcquire, ReservationAcquireAction, ReservationAcquireCommand,
    ReservationRegister, ReservationRegisterAction, ReservationRegisterCommand, ReservationRelease,
    ReservationReleaseAction, ReservationReleaseCommand, ReservationReport,
    ReservationReportCommand, ReservationReportRequest, ReservationType,
};
use vstd::prelude::*;

verus! {

/// A new Reservation Acquire carries the namespace, and for everything else the
/// value that stands for nothing asked for.
#[verifier::spinoff_prover]
pub proof fn reservation_acquire_encodes<'a, 'r>(
    attrs: NamespaceAttrs<'r>,
    ns: &'a Namespace<'r>,
    b: ReservationAcquire<'a, 'r>,
    n: &'a Namespace<'r>,
    c: ReservationAcquireCommand,
)
    requires
        call_ensures(Namespace::from_raw, (attrs,), *ns),
        call_ensures(Namespace::reservation_acquire, (ns,), b),
        call_ensures(ReservationAcquire::namespace, (&b,), n),
        call_ensures(ReservationAcquire::execute, (b,), c),
    ensures
        *n == *ns,
        c.nsid == unsigned(attrs.nsid),
        c.crkey == 0,
        c.nrkey == 0,
        c.rtype == 1,
        c.racqa == 0,
        !c.iekey,
        c.timeout == 0,
{
}

/// Each option of a Reservation Acquire changes its own field of the command and
/// nothing else.
#[verifier::spinoff_prover]
pub proof fn reservation_acquire_options<'a, 'r>(before: ReservationAcquire<'a, 'r>, plain: ReservationAcquireCommand)
    requires
        call_ensures(ReservationAcquire::execute, (before,), plain),
    ensures
        forall|after: ReservationAcquire<'a, 'r>, r: ReservationAcquireCommand, key: u64|
            #[trigger] call_ensures(ReservationAcquire::key, (before, key), after)
                && #[trigger] call_ensures(ReservationAcquire::execute, (after,), r)
                ==> after.target() == before.target()
                && r == (ReservationAcquireCommand { crkey: key, ..plain }),
        forall|after: ReservationAcquire<'a, 'r>, r: ReservationAcquireCommand, key: u64|
            #[trigger] call_ensures(ReservationAcquire::new_key, (before, key), after)
                && #[trigger] call_ensures(ReservationAcquire::execute, (after,), r)
                ==> after.target() == before.target()
                && r == (ReservationAcquireCommand { nrkey: key, ..plain }),
        forall|after: ReservationAcquire<'a, 'r>, r: ReservationAcquireCommand, rtype: ReservationType, code: u32|
            #[trigger] call_ensures(ReservationType::as_raw, (rtype,), code)
                && #[trigger] call_ensures(ReservationAcquire::rtype, (before, rtype), after)
                && #[trigger] call_ensures(ReservationAcquire::execute, (after,), r)
                ==> after.target() == before.target()
                && r == (ReservationAcquireCommand { rtype: code, ..plain }),
        forall|after: ReservationAcquire<'a, 'r>, r: ReservationAcquireCommand, action: ReservationAcquireAction, code: u32|
            #[trigger] call_ensures(ReservationAcquireAction::as_raw, (action,), code)
                && #[trigger] call_ensures(ReservationAcquire::action, (before, action), after)
                && #[trigger] call_ensures(ReservationAcquire::execute, (after,), r)
                ==> after.target() == before.target()
                && r == (ReservationAcquireCommand { racqa: code, ..plain }),
        forall|after: ReservationAcquire<'a, 'r>, r: ReservationAcquireCommand|
            #[trigger] call_ensures(ReservationAcquire::ignore_existing_key, (before,), after)
                && #[trigger] call_ensures(ReservationAcquire::execute, (after,), r)
                ==> after.target() == before.target()
                && r == (ReservationAcquireCommand { iekey: true, ..plain }),
        forall|after: ReservationAcquire<'a, 'r>, r: ReservationAcquireCommand, ms: u32|
            #[trigger] call_ensures(ReservationAcquire::timeout_ms, (before, ms), after)
                && #[trigger] call_ensures(ReservationAcquire::execute, (after,), r)
                ==> after.target() == before.target()
                && r == (ReservationAcquireCommand { timeout: ms, ..plain }),
{
}

/// A new Reservation Register carries the namespace, and for everything else the
/// value that stands for nothing asked for.
#[verifier::spinoff_prover]
pub proof fn reservation_register_encodes<'a, 'r>(
    attrs: NamespaceAttrs<'r>,
    ns: &'a Namespace<'r>,
    b: ReservationRegister<'a, 'r>,
    n: &'a Namespace<'r>,
    c: ReservationRegisterCommand,
)
    requires
        call_ensures(Namespace::from_raw, (attrs,), *ns),
        call_ensures(Namespace::reservation_register, (ns,), b),
        call_ensures(ReservationRegister::namespace, (&b,), n),
        call_ensures(ReservationRegister::execute, (b,), c),
    ensures
        *n == *ns,
        c.nsid == unsigned(attrs.nsid),
        c.crkey == 0,
        c.nrkey == 0,
        c.rrega == 0,
        c.cptpl == 0,
        !c.iekey,
        c.timeout == 0,
{
}

/// Each option of a Reservation Register changes its own field of the command and
/// nothing else.
#[verifier::spinoff_prover]
pub proof fn reservation_register_options<'a, 'r>(before: ReservationRegister<'a, 'r>, plain: ReservationRegisterCommand)
    requires
        call_ensures(ReservationRegister::execute, (before,), plain),
    ensures
        forall|after: ReservationRegister<'a, 'r>, r: ReservationRegisterCommand, key: u64|
            #[trigger] call_ensures(ReservationRegister::key, (before, key), after)
                && #[trigger] call_ensures(ReservationRegister::execute, (after,), r)
                ==> after.target() == before.target()
                && r == (ReservationRegisterCommand { crkey: key, ..plain }),
        forall|after: ReservationRegister<'a, 'r>, r: ReservationRegisterCommand, key: u64|
            #[trigger] call_ensures(ReservationRegister::new_key, (before, key), after)
                && #[trigger] call_ensures(ReservationRegister::execute, (after,), r)
                ==> after.target() == before.target()
                && r == (ReservationRegisterCommand { nrkey: key, ..plain }),
        forall|after: ReservationRegister<'a, 'r>, r: ReservationRegisterCommand, action: ReservationRegisterAction, code: u32|
            #[trigger] call_ensures(ReservationRegisterAction::as_raw, (action,), code)
                && #[trigger] call_ensures(ReservationRegister::action, (before, action), after)
                && #[trigger] call_ensures(ReservationRegister::execute, (after,), r)
                ==> after.target() == before.target()
                && r == (ReservationRegisterCommand { rrega: code, ..plain }),
        forall|after: ReservationRegister<'a, 'r>, r: ReservationRegisterCommand, change: PtplChange, code: u32|
            #[trigger] call_ensures(PtplChange::as_raw, (change,), code)
                && #[trigger] call_ensures(ReservationRegister::ptpl, (before, change), after)
                && #[trigger] call_ensures(ReservationRegister::execute, (after,), r)
                ==> after.target() == before.target()
                && r == (ReservationRegisterCommand { cptpl: code, ..plain }),
        forall|after: ReservationRegister<'a, 'r>, r: ReservationRegisterCommand|
            #[trigger] call_ensures(ReservationRegister::ignore_existing_key, (before,), after)
                && #[trigger] call_ensures(ReservationRegister::execute, (after,), r)
                ==> after.target() == before.target()
                && r == (ReservationRegisterCommand { iekey: true, ..plain }),
        forall|after: ReservationRegister<'a, 'r>, r: ReservationRegisterCommand, ms: u32|
            #[trigger] call_ensures(ReservationRegister::timeout_ms, (before, ms), after)
                && #[trigger] call_ensures(ReservationRegister::execute, (after,), r)
                ==> after.target() == before.target()
                && r == (ReservationRegisterCommand { timeout: ms, ..plain }),
{
}

/// A new Reservation Release carries the namespace, and for everything else the
/// value that stands for nothing asked for.
#[verifier::spinoff_prover]
pub proof fn reservation_release_encodes<'a, 'r>(
    attrs: NamespaceAttrs<'r>,
    ns: &'a Namespace<'r>,
    b: ReservationRelease<'a, 'r>,
    n: &'a Namespace<'r>,
    c: ReservationReleaseCommand,
)
    requires
        call_ensures(Namespace::from_raw, (attrs,), *ns),
        call_ensures(Namespace::reservation_release, (ns,), b),
        call_ensures(ReservationRelease::namespace, (&b,), n),
        call_ensures(ReservationRelease::execute, (b,), c),
    ensures
        *n == *ns,
        c.nsid == unsigned(attrs.nsid),
        c.crkey == 0,
        c.rtype == 1,
        c.rrela == 0,
        !c.iekey,
        c.timeout == 0,
{
}

/// Each option of a Reservation Release changes its own field of the command and
/// nothing else.
#[verifier::spinoff_prover]
pub proof fn reservation_release_options<'a, 'r>(before: ReservationRelease<'a, 'r>, plain: ReservationReleaseCommand)
    requires
        call_ensures(ReservationRelease::execute, (before,), plain),
    ensures
        forall|after: ReservationRelease<'a, 'r>, r: ReservationReleaseCommand, key: u64|
            #[trigger] call_ensures(ReservationRelease::key, (before, key), after)
                && #[trigger] call_ensures(ReservationRelease::execute, (after,), r)
                ==> after.target() == before.target()
                && r == (ReservationReleaseCommand { crkey: key, ..plain }),
        forall|after: ReservationRelease<'a, 'r>, r: ReservationReleaseCommand, rtype: ReservationType, code: u32|
            #[trigger] call_ensures(ReservationType::as_raw, (rtype,), code)
                && #[trigger] call_ensures(ReservationRelease::rtype, (before, rtype), after)
                && #[trigger] call_ensures(ReservationRelease::execute, (after,), r)
                ==> after.target() == before.target()
                && r == (ReservationReleaseCommand { rtype: code, ..plain }),
        forall|after: ReservationRelease<'a, 'r>, r: ReservationReleaseCommand, action: ReservationReleaseAction, code: u32|
            #[trigger] call_ensures(ReservationReleaseAction::as_raw, (action,), code)
                && #[trigger] call_ensures(ReservationRelease::action, (before, action), after)
                && #[trigger] call_ensures(ReservationRelease::execute, (after,), r)
                ==> after.target() == before.target()
                && r == (ReservationReleaseCommand { rrela: code, ..plain }),
        forall|after: ReservationRelease<'a, 'r>, r: ReservationReleaseCommand|
            #[trigger] call_ensures(ReservationRelease::ignore_existing_key, (before,), after)
                && #[trigger] call_ensures(ReservationRelease::execute, (after,), r)
                ==> after.target() == before.target()
                && r == (ReservationReleaseCommand { iekey: true, ..plain }),
        forall|after: ReservationRelease<'a, 'r>, r: ReservationReleaseCommand, ms: u32|
            #[trigger] call_ensures(ReservationRelease::timeout_ms, (before, ms), after)
                && #[trigger] call_ensures(ReservationRelease::execute, (after,), r)
                ==> after.target() == before.target()
                && r == (ReservationReleaseCommand { timeout: ms, ..plain }),
{
}

impl ReservationReportRequest {
    /// A request is accepted exactly where it has a buffer that holds the header.
    pub proof fn accepted_exactly_where_header_fits(self, header_len: nat)
        ensures
            self.refusal(header_len) is None <==> (self.buf matches Some(b) && b.len()
                >= header_len),
    {
    }
}

/// A Reservation Report without a buffer is refused.
#[verifier::spinoff_prover]
pub proof fn reservation_report_needs_a_buffer<'a, 'r>(
    ns: &'a Namespace<'r>,
    b: ReservationReport<'a, 'r>,
    n: &'a Namespace<'r>,
    header_len: usize,
    r: Result<ReservationReportCommand<'a>>,
)
    requires
        call_ensures(Namespace::reservation_report, (ns,), b),
        call_ensures(ReservationReport::namespace, (&b,), n),
        call_ensures(ReservationReport::execute, (b, header_len), r),
    ensures
        *n == *ns,
        r matches Err(e) && says(e, "ReservationReport requires a buffer via .buffer()"@),
{
}

/// A Reservation Report with a buffer is accepted exactly where the buffer holds the
/// header. It then carries the namespace and the buffer, is not extended, and what
/// the device writes stands in the buffer; a refused one leaves the buffer as it was.
#[verifier::spinoff_prover]
pub proof fn reservation_report_encodes<'a, 'r>(
    attrs: NamespaceAttrs<'r>,
    ns: &'a Namespace<'r>,
    fresh: ReservationReport<'a, 'r>,
    buf: &'a mut [u8],
    b: ReservationReport<'a, 'r>,
    header_len: usize,
    r: Result<ReservationReportCommand<'a>>,
)
    requires
        call_ensures(Namespace::from_raw, (attrs,), *ns),
        call_ensures(Namespace::reservation_report, (ns,), fresh),
        call_ensures(ReservationReport::buffer, (fresh, buf), b),
        call_ensures(ReservationReport::execute, (b, header_len), r),
    ensures
        b.target() == *ns,
        r is Ok <==> old(buf)@.len() >= header_len,
        r matches Ok(c) ==> c.nsid == unsigned(attrs.nsid) && !c.eds && c.timeout == 0 && c.report@
            == old(buf)@ && c.len == field_len(Some(old(buf)@)) && final(c.report)@ == final(buf)@,
        r matches Err(e) ==> final(buf)@ == old(buf)@ && says(
            e,
            "ReservationReport buffer smaller than nvme_resv_status header"@,
        ),
{
}

/// A buffer given to a Reservation Report takes the place of the one before, which
/// stays as it was, and changes nothing else.
#[verifier::spinoff_prover]
pub proof fn reservation_report_buffer<'a, 'r>(
    before: ReservationReport<'a, 'r>,
    header_len: usize,
    plain: Result<ReservationReportCommand<'a>>,
    buf: &'a mut [u8],
    after: ReservationReport<'a, 'r>,
    r: Result<ReservationReportCommand<'a>>,
)
    requires
        call_ensures(ReservationReport::execute, (before, header_len), plain),
        call_ensures(ReservationReport::buffer, (before, buf), after),
        call_ensures(ReservationReport::execute, (after, header_len), r),
    ensures
        after.target() == before.target(),
        before.slot() matches Some(b) ==> final(b)@ == b@,
        r is Ok <==> old(buf)@.len() >= header_len,
        r matches Ok(d) ==> d.report@ == old(buf)@ && final(d.report)@ == final(buf)@ && d.len
            == field_len(Some(old(buf)@)),
        plain matches Ok(c) ==> (r matches Ok(d) ==> d.nsid == c.nsid && d.eds == c.eds
            && d.timeout == c.timeout),
{
}

/// Whether two Reservation Report commands have the same buffer, and the second has
/// the given options.
pub open spec fn report_differs(
    p: Result<ReservationReportCommand<'_>>,
    q: Result<ReservationReportCommand<'_>>,
    eds: Option<bool>,
    timeout: Option<u32>,
) -> bool {
    match (p, q) {
        (Ok(c), Ok(d)) => d.nsid == c.nsid && d.len == c.len && d.report@ == c.report@ && d.eds
            == (match eds {
            Some(v) => v,
            None => c.eds,
        }) && d.timeout == (match timeout {
            Some(v) => v,
            None => c.timeout,
        }),
        (Err(x), Err(y)) => say_the_same(x, y),
        _ => false,
    }
}

/// Each option of a Reservation Report changes its own field of the command and
/// nothing else.
#[verifier::spinoff_prover]
pub proof fn reservation_report_options<'a, 'r>(
    before: ReservationReport<'a, 'r>,
    header_len: usize,
    plain: Result<ReservationReportCommand<'a>>,
)
    requires
        call_ensures(ReservationReport::execute, (before, header_len), plain),
    ensures
        forall|after: ReservationReport<'a, 'r>, r: Result<ReservationReportCommand<'a>>|
            #[trigger] call_ensures(ReservationReport::extended, (before,), after)
                && #[trigger] call_ensures(ReservationReport::execute, (after, header_len), r)
                ==> after.target() == before.target() && after.slot() == before.slot()
                && report_differs(plain, r, Some(true), None),
        forall|after: ReservationReport<'a, 'r>, r: Result<ReservationReportCommand<'a>>, ms: u32|
            #[trigger] call_ensures(ReservationReport::timeout_ms, (before, ms), after)
                && #[trigger] call_ensures(ReservationReport::execute, (after, header_len), r)
                ==> after.target() == before.target() && after.slot() == before.slot()
                && report_differs(plain, r, None, Some(ms)),
{
}

/// A Reservation Report into a fresh buffer is accepted exactly where 4096 bytes
/// hold the header. It reads into the buffer, which is all zero, with the options of
/// the builder; a buffer that the builder had stays as it was.
#[verifier::spinoff_prover]
pub proof fn reservation_report_to_vec<'a, 'b, 'r>(
    before: ReservationReport<'a, 'r>,
    header_len: usize,
    plain: Result<ReservationReportCommand<'a>>,
    buf: &'b mut Vec<u8>,
    r: Result<ReservationReportCommand<'b>>,
)
    requires
        call_ensures(ReservationReport::execute, (before, header_len), plain),
        call_ensures(ReservationReport::execute_to_vec, (before, buf, header_len), r),
    ensures
        r is Ok <==> header_len <= 4096,
        r matches Ok(d) ==> d.len == 4096 && d.report@.len() == 4096 && (forall|i: int|
            0 <= i < 4096 ==> #[trigger] d.report@[i] == 0) && final(d.report)@ == final(buf)@,
        r matches Err(e) ==> says(
            e,
            "ReservationReport buffer smaller than nvme_resv_status header"@,
        ),
        before.slot() matches Some(b) ==> final(b)@ == b@,
        plain matches Ok(c) ==> (r matches Ok(d) ==> d.nsid == c.nsid && d.eds == c.eds
            && d.timeout == c.timeout),
{
}

/// A new Reservation Report into a fresh buffer carries the namespace, is not
/// extended, and has no timeout; the options reach it as they reach a report into a
/// buffer of the caller's.
#[verifier::spinoff_prover]
pub proof fn fresh_reservation_report_to_vec<'a, 'b, 'r>(
    attrs: NamespaceAttrs<'r>,
    ns: &'a Namespace<'r>,
    fresh: ReservationReport<'a, 'r>,
    extended: ReservationReport<'a, 'r>,
    ms: u32,
    late: ReservationReport<'a, 'r>,
    buf: &'b mut Vec<u8>,
    header_len: usize,
)
    requires
        call_ensures(Namespace::from_raw, (attrs,), *ns),
        call_ensures(Namespace::reservation_report, (ns,), fresh),
        call_ensures(ReservationReport::extended, (fresh,), extended),
        call_ensures(ReservationReport::timeout_ms, (fresh, ms), late),
    ensures
        forall|r: Result<ReservationReportCommand<'b>>| #[trigger]
            call_ensures(ReservationReport::execute_to_vec, (fresh, buf, header_len), r) ==> (
            r matches Ok(c) ==> c.nsid == unsigned(attrs.nsid) && !c.eds && c.timeout == 0),
        forall|r: Result<ReservationReportCommand<'b>>| #[trigger]
            call_ensures(ReservationReport::execute_to_vec, (extended, buf, header_len), r) ==> (
            r matches Ok(c) ==> c.nsid == unsigned(attrs.nsid) && c.eds && c.timeout == 0),
        forall|r: Result<ReservationReportCommand<'b>>| #[trigger]
            call_ensures(ReservationReport::execute_to_vec, (late, buf, header_len), r) ==> (
            r matches Ok(c) ==> c.nsid == unsigned(attrs.nsid) && !c.eds && c.timeout == ms),
{
}

/// Each setter changes its own part of what is asked for and nothing else, whether
/// or not the request could be accepted before.
#[verifier::spinoff_prover]
pub proof fn reservation_report_requests<'a, 'r>(before: ReservationReport<'a, 'r>)
    ensures
        forall|after: ReservationReport<'a, 'r>|
            #[trigger] call_ensures(ReservationReport::extended, (before,), after)
                ==> after@ == (ReservationReportRequest { eds: true, ..before@ }),
        forall|after: ReservationReport<'a, 'r>, ms: u32|
            #[trigger] call_ensures(ReservationReport::timeout_ms, (before, ms), after)
                ==> after@ == (ReservationReportRequest { timeout_ms: ms, ..before@ }),
{
}

/// A buffer takes the place of the one before and changes nothing else of what is
/// asked for, whether or not there was one before.
pub proof fn reservation_report_buffer_request<'a, 'r>(
    before: ReservationReport<'a, 'r>,
    buf: &'a mut [u8],
    after: ReservationReport<'a, 'r>,
)
    requires
        call_ensures(ReservationReport::buffer, (before, buf), after),
    ensures
        after@ == (ReservationReportRequest { buf: Some(old(buf)@), ..before@ }),
{
}

/// A Reservation Report is accepted exactly where a buffer is asked for that holds the
/// header, and then carries what is asked for field by field.
pub proof fn reservation_report_carries<'a, 'r>(
    b: ReservationReport<'a, 'r>,
    header_len: usize,
    r: Result<ReservationReportCommand<'a>>,
)
    requires
        call_ensures(ReservationReport::execute, (b, header_len), r),
    ensures
        r is Ok <==> (b@.buf matches Some(s) && s.len() >= header_len),
        r matches Ok(c) ==> c.nsid == b@.nsid && c.eds == b@.eds && c.timeout == b@.timeout_ms
            && Some(c.report@) == b@.buf && c.len == field_len(b@.buf),
{
}

/// A Reservation Report into a fresh buffer carries what is asked for field by field,
/// whether or not the builder has a buffer.
pub proof fn reservation_report_to_vec_carries<'a, 'b, 'r>(
    b: ReservationReport<'a, 'r>,
    buf: &'b mut Vec<u8>,
    header_len: usize,
    r: Result<ReservationReportCommand<'b>>,
)
    requires
        call_ensures(ReservationReport::execute_to_vec, (b, buf, header_len), r),
    ensures
        r is Ok <==> header_len <= 4096,
        r matches Ok(c) ==> c.nsid == b@.nsid && c.eds == b@.eds && c.timeout == b@.timeout_ms
            && c.len == 4096 && c.report@.len() == 4096,
        r is Err ==> final(buf)@.len() == 4096 && (forall|i: int|
            0 <= i < 4096 ==> #[trigger] final(buf)@[i] == 0),
{
}

} // verus!
