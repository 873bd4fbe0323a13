//! NVMe Reservation commands (Acquire / Register / Release / Report).
//!
//! Reservations let multiple host controllers coordinate access to a shared
//! namespace - the NVMe analogue of SCSI Persistent Reservations. Typical
//! use is multi-host NVMe-oF clustering where two or more hosts back the
//! same namespace and need to negotiate which one has write access.
//!
//! All four commands are namespace-scoped. Build them via the methods on
//! [`Namespace`] (`reservation_acquire`, `reservation_register`,
//! `reservation_release`, `reservation_report`) and call `.execute()`, which
//! returns the command to hand to libnvme.

use crate::error::{Error, Result};
use crate::namespace::Namespace;
use crate::util::len_u32;
use crate::wire::push_zeros;
use crate::{util, wire};
use std::borrow::Cow;
use vstd::prelude::*;

verus! {

/// Reservation type (rtype) - sets the access semantics for the reservation
/// holder vs. registered hosts vs. non-registered hosts.
#[derive(Debug, Clone, Copy, PartialEq, Eq, Structural)]
#[non_exhaustive]
pub enum ReservationType {
    /// Write Exclusive - only the holder can write; all hosts can read.
    WriteExclusive,
    /// Exclusive Access - only the holder can read or write.
    ExclusiveAccess,
    /// Write Exclusive, Registrants Only.
    WriteExclusiveRegistrantsOnly,
    /// Exclusive Access, Registrants Only.
    ExclusiveAccessRegistrantsOnly,
    /// Write Exclusive, All Registrants.
    WriteExclusiveAllRegistrants,
    /// Exclusive Access, All Registrants.
    ExclusiveAccessAllRegistrants,
}

impl ReservationType {
    /// The value that encodes this variant in its command field.
    pub open spec fn code(self) -> u32 {
        match self {
            ReservationType::WriteExclusive => 1,
            ReservationType::ExclusiveAccess => 2,
            ReservationType::WriteExclusiveRegistrantsOnly => 3,
            ReservationType::ExclusiveAccessRegistrantsOnly => 4,
            ReservationType::WriteExclusiveAllRegistrants => 5,
            ReservationType::ExclusiveAccessAllRegistrants => 6,
        }
    }

    /// The value that encodes this variant in its command field.
    pub fn as_raw(self) -> (r: u32)
        ensures
            r == self.code(),
    {
        match self {
            ReservationType::WriteExclusive => 1,
            ReservationType::ExclusiveAccess => 2,
            ReservationType::WriteExclusiveRegistrantsOnly => 3,
            ReservationType::ExclusiveAccessRegistrantsOnly => 4,
            ReservationType::WriteExclusiveAllRegistrants => 5,
            ReservationType::ExclusiveAccessAllRegistrants => 6,
        }
    }

    /// No two variants share an encoding.
    pub proof fn codes_are_distinct(a: Self, b: Self)
        ensures
            a.code() == b.code() ==> a == b,
    {
    }
}

/// Reservation Acquire action (racqa).
#[derive(Debug, Clone, Copy, PartialEq, Eq, Structural)]
#[non_exhaustive]
pub enum ReservationAcquireAction {
    /// Acquire the reservation.
    Acquire,
    /// Preempt the current holder.
    Preempt,
    /// Preempt and abort outstanding commands from the current holder.
    PreemptAndAbort,
}

impl Default for ReservationAcquireAction {
    fn default() -> (r: Self)
        ensures
            r == ReservationAcquireAction::Acquire,
    {
        ReservationAcquireAction::Acquire
    }
}

impl ReservationAcquireAction {
    /// The value that encodes this variant in its command field.
    pub open spec fn code(self) -> u32 {
        match self {
            ReservationAcquireAction::Acquire => 0,
            ReservationAcquireAction::Preempt => 1,
            ReservationAcquireAction::PreemptAndAbort => 2,
        }
    }

    /// The value that encodes this variant in its command field.
    pub fn as_raw(self) -> (r: u32)
        ensures
            r == self.code(),
    {
        match self {
            ReservationAcquireAction::Acquire => 0,
            ReservationAcquireAction::Preempt => 1,
            ReservationAcquireAction::PreemptAndAbort => 2,
        }
    }

    /// No two variants share an encoding.
    pub proof fn codes_are_distinct(a: Self, b: Self)
        ensures
            a.code() == b.code() ==> a == b,
    {
    }
}

/// Reservation Register action (rrega).
#[derive(Debug, Clone, Copy, PartialEq, Eq, Structural)]
#[non_exhaustive]
pub enum ReservationRegisterAction {
    /// Register a new reservation key.
    Register,
    /// Unregister this host's reservation key.
    Unregister,
    /// Replace the existing reservation key.
    Replace,
}

impl Default for ReservationRegisterAction {
    fn default() -> (r: Self)
        ensures
            r == ReservationRegisterAction::Register,
    {
        ReservationRegisterAction::Register
    }
}

impl ReservationRegisterAction {
    /// The value that encodes this variant in its command field.
    pub open spec fn code(self) -> u32 {
        match self {
            ReservationRegisterAction::Register => 0,
            ReservationRegisterAction::Unregister => 1,
            ReservationRegisterAction::Replace => 2,
        }
    }

    /// The value that encodes this variant in its command field.
    pub fn as_raw(self) -> (r: u32)
        ensures
            r == self.code(),
    {
        match self {
            ReservationRegisterAction::Register => 0,
            ReservationRegisterAction::Unregister => 1,
            ReservationRegisterAction::Replace => 2,
        }
    }

    /// No two variants share an encoding.
    pub proof fn codes_are_distinct(a: Self, b: Self)
        ensures
            a.code() == b.code() ==> a == b,
    {
    }
}

/// Reservation Release action (rrela).
#[derive(Debug, Clone, Copy, PartialEq, Eq, Structural)]
#[non_exhaustive]
pub enum ReservationReleaseAction {
    /// Release the reservation.
    Release,
    /// Clear all reservations and registrations.
    Clear,
}

impl Default for ReservationReleaseAction {
    fn default() -> (r: Self)
        ensures
            r == ReservationReleaseAction::Release,
    {
        ReservationReleaseAction::Release
    }
}

impl ReservationReleaseAction {
    /// The value that encodes this variant in its command field.
    pub open spec fn code(self) -> u32 {
        match self {
            ReservationReleaseAction::Release => 0,
            ReservationReleaseAction::Clear => 1,
        }
    }

    /// The value that encodes this variant in its command field.
    pub fn as_raw(self) -> (r: u32)
        ensures
            r == self.code(),
    {
        match self {
            ReservationReleaseAction::Release => 0,
            ReservationReleaseAction::Clear => 1,
        }
    }

    /// No two variants share an encoding.
    pub proof fn codes_are_distinct(a: Self, b: Self)
        ensures
            a.code() == b.code() ==> a == b,
    {
    }
}

/// Change-Persist-Through-Power-Loss (cptpl) for Reservation Register.
#[derive(Debug, Clone, Copy, PartialEq, Eq, Structural)]
#[non_exhaustive]
pub enum PtplChange {
    /// No change to PTPL state.
    NoChange,
    /// Reservations and registrations are released on power-on.
    Clear,
    /// Reservations and registrations persist across power loss.
    Persist,
}

impl Default for PtplChange {
    fn default() -> (r: Self)
        ensures
            r == PtplChange::NoChange,
    {
        PtplChange::NoChange
    }
}

impl PtplChange {
    /// The value that encodes this variant in its command field.
    pub open spec fn code(self) -> u32 {
        match self {
            PtplChange::NoChange => 0,
            PtplChange::Clear => 2,
            PtplChange::Persist => 3,
        }
    }

    /// The value that encodes this variant in its command field.
    pub fn as_raw(self) -> (r: u32)
        ensures
            r == self.code(),
    {
        match self {
            PtplChange::NoChange => 0,
            PtplChange::Clear => 2,
            PtplChange::Persist => 3,
        }
    }

    /// No two variants share an encoding.
    pub proof fn codes_are_distinct(a: Self, b: Self)
        ensures
            a.code() == b.code() ==> a == b,
    {
    }
}

/// A Reservation Acquire command, ready to be issued: also the view of [`ReservationAcquire`].
#[derive(Debug, Clone, Copy, PartialEq, Eq, Structural)]
pub struct ReservationAcquireCommand {
    /// Current Reservation Key.
    pub crkey: u64,
    /// New Reservation Key.
    pub nrkey: u64,
    /// Timeout in milliseconds.
    pub timeout: u32,
    /// Namespace identifier.
    pub nsid: u32,
    /// Reservation type.
    pub rtype: u32,
    /// Acquire action.
    pub racqa: u32,
    /// Ignore Existing Key.
    pub iekey: bool,
}

impl ReservationAcquireCommand {
    /// The Reservation Acquire command on which nothing was set.
    pub open spec fn initial(nsid: u32) -> Self {
        ReservationAcquireCommand {
            crkey: 0,
            nrkey: 0,
            timeout: 0,
            nsid: nsid,
            rtype: ReservationType::WriteExclusive.code(),
            racqa: ReservationAcquireAction::Acquire.code(),
            iekey: false,
        }
    }
}

/// Builder returned by [`Namespace::reservation_acquire`].
#[must_use]
pub struct ReservationAcquire<'a, 'r> {
    ns: &'a Namespace<'r>,
    crkey: u64,
    nrkey: u64,
    rtype: ReservationType,
    action: ReservationAcquireAction,
    iekey: bool,
    timeout_ms: u32,
}

impl<'a, 'r> View for ReservationAcquire<'a, 'r> {
    type V = ReservationAcquireCommand;

    closed spec fn view(&self) -> ReservationAcquireCommand {
        ReservationAcquireCommand {
            crkey: self.crkey,
            nrkey: self.nrkey,
            timeout: self.timeout_ms,
            nsid: self.ns.id(),
            rtype: self.rtype.code(),
            racqa: self.action.code(),
            iekey: self.iekey,
        }
    }
}

impl<'a, 'r> ReservationAcquire<'a, 'r> {
    /// The namespace that the command is for.
    pub closed spec fn target(self) -> Namespace<'r> {
        *self.ns
    }

    /// A Reservation Acquire command on `ns` on which nothing is set.
    pub(crate) fn new(ns: &'a Namespace<'r>) -> (b: Self)
        ensures
            b@ == ReservationAcquireCommand::initial(ns.id()),
            b.target() == *ns,
    {
        ReservationAcquire {
            ns,
            crkey: 0,
            nrkey: 0,
            rtype: ReservationType::WriteExclusive,
            action: ReservationAcquireAction::default(),
            iekey: false,
            timeout_ms: 0,
        }
    }

    /// Current Reservation Key associated with this host.
    pub fn key(self, crkey: u64) -> (r: Self)
        ensures
            r@ == (ReservationAcquireCommand { crkey, ..self@ }),
            r.target() == self.target(),
    {
        ReservationAcquire { crkey, ..self }
    }

    /// New Reservation Key - used only when `action` is
    /// [`ReservationAcquireAction::Preempt`] or `PreemptAndAbort`.
    pub fn new_key(self, nrkey: u64) -> (r: Self)
        ensures
            r@ == (ReservationAcquireCommand { nrkey, ..self@ }),
            r.target() == self.target(),
    {
        ReservationAcquire { nrkey, ..self }
    }

    /// Reservation type to acquire.
    pub fn rtype(self, rtype: ReservationType) -> (r: Self)
        ensures
            r@ == (ReservationAcquireCommand { rtype: rtype.code(), ..self@ }),
            r.target() == self.target(),
    {
        ReservationAcquire { rtype, ..self }
    }

    /// Which acquire action to perform.
    pub fn action(self, action: ReservationAcquireAction) -> (r: Self)
        ensures
            r@ == (ReservationAcquireCommand { racqa: action.code(), ..self@ }),
            r.target() == self.target(),
    {
        ReservationAcquire { action, ..self }
    }

    /// Ignore Existing Key - bypass the host-registered key check.
    pub fn ignore_existing_key(self) -> (r: Self)
        ensures
            r@ == (ReservationAcquireCommand { iekey: true, ..self@ }),
            r.target() == self.target(),
    {
        ReservationAcquire { iekey: true, ..self }
    }

    /// Per-command timeout in milliseconds.
    pub fn timeout_ms(self, ms: u32) -> (r: Self)
        ensures
            r@ == (ReservationAcquireCommand { timeout: ms, ..self@ }),
            r.target() == self.target(),
    {
        ReservationAcquire { timeout_ms: ms, ..self }
    }

    /// The namespace that the command is for.
    pub fn namespace(&self) -> (ns: &'a Namespace<'r>)
        ensures
            *ns == self.target(),
    {
        self.ns
    }

    /// The Reservation Acquire command, ready to be issued.
    pub fn execute(self) -> (c: ReservationAcquireCommand)
        ensures
            c == self@,
    {
        ReservationAcquireCommand {
            crkey: self.crkey,
            nrkey: self.nrkey,
            timeout: self.timeout_ms,
            nsid: self.ns.nsid(),
            rtype: self.rtype.as_raw(),
            racqa: self.action.as_raw(),
            iekey: self.iekey,
        }
    }
}

/// A Reservation Register command, ready to be issued: also the view of [`ReservationRegister`].
#[derive(Debug, Clone, Copy, PartialEq, Eq, Structural)]
pub struct ReservationRegisterCommand {
    /// Current Reservation Key.
    pub crkey: u64,
    /// New Reservation Key.
    pub nrkey: u64,
    /// Timeout in milliseconds.
    pub timeout: u32,
    /// Namespace identifier.
    pub nsid: u32,
    /// Register action.
    pub rrega: u32,
    /// Change-Persist-Through-Power-Loss.
    pub cptpl: u32,
    /// Ignore Existing Key.
    pub iekey: bool,
}

impl ReservationRegisterCommand {
    /// The Reservation Register command on which nothing was set.
    pub open spec fn initial(nsid: u32) -> Self {
        ReservationRegisterCommand {
            crkey: 0,
            nrkey: 0,
            timeout: 0,
            nsid: nsid,
            rrega: ReservationRegisterAction::Register.code(),
            cptpl: PtplChange::NoChange.code(),
            iekey: false,
        }
    }
}

/// Builder returned by [`Namespace::reservation_register`].
#[must_use]
pub struct ReservationRegister<'a, 'r> {
    ns: &'a Namespace<'r>,
    crkey: u64,
    nrkey: u64,
    action: ReservationRegisterAction,
    cptpl: PtplChange,
    iekey: bool,
    timeout_ms: u32,
}

impl<'a, 'r> View for ReservationRegister<'a, 'r> {
    type V = ReservationRegisterCommand;

    closed spec fn view(&self) -> ReservationRegisterCommand {
        ReservationRegisterCommand {
            crkey: self.crkey,
            nrkey: self.nrkey,
            timeout: self.timeout_ms,
            nsid: self.ns.id(),
            rrega: self.action.code(),
            cptpl: self.cptpl.code(),
            iekey: self.iekey,
        }
    }
}

impl<'a, 'r> ReservationRegister<'a, 'r> {
    /// The namespace that the command is for.
    pub closed spec fn target(self) -> Namespace<'r> {
        *self.ns
    }

    /// A Reservation Register command on `ns` on which nothing is set.
    pub(crate) fn new(ns: &'a Namespace<'r>) -> (b: Self)
        ensures
            b@ == ReservationRegisterCommand::initial(ns.id()),
            b.target() == *ns,
    {
        ReservationRegister {
            ns,
            crkey: 0,
            nrkey: 0,
            action: ReservationRegisterAction::default(),
            cptpl: PtplChange::default(),
            iekey: false,
            timeout_ms: 0,
        }
    }

    /// Current Reservation Key - only required when replacing or
    /// unregistering an existing key.
    pub fn key(self, crkey: u64) -> (r: Self)
        ensures
            r@ == (ReservationRegisterCommand { crkey, ..self@ }),
            r.target() == self.target(),
    {
        ReservationRegister { crkey, ..self }
    }

    /// New Reservation Key to register (or replace with).
    pub fn new_key(self, nrkey: u64) -> (r: Self)
        ensures
            r@ == (ReservationRegisterCommand { nrkey, ..self@ }),
            r.target() == self.target(),
    {
        ReservationRegister { nrkey, ..self }
    }

    /// Which register action to perform.
    pub fn action(self, action: ReservationRegisterAction) -> (r: Self)
        ensures
            r@ == (ReservationRegisterCommand { rrega: action.code(), ..self@ }),
            r.target() == self.target(),
    {
        ReservationRegister { action, ..self }
    }

    /// Change Persist-Through-Power-Loss state.
    pub fn ptpl(self, cptpl: PtplChange) -> (r: Self)
        ensures
            r@ == (ReservationRegisterCommand { cptpl: cptpl.code(), ..self@ }),
            r.target() == self.target(),
    {
        ReservationRegister { cptpl, ..self }
    }

    /// Ignore Existing Key - bypass the host-registered key check.
    pub fn ignore_existing_key(self) -> (r: Self)
        ensures
            r@ == (ReservationRegisterCommand { iekey: true, ..self@ }),
            r.target() == self.target(),
    {
        ReservationRegister { iekey: true, ..self }
    }

    /// Per-command timeout in milliseconds. `0` uses libnvme's default.
    pub fn timeout_ms(self, ms: u32) -> (r: Self)
        ensures
            r@ == (ReservationRegisterCommand { timeout: ms, ..self@ }),
            r.target() == self.target(),
    {
        ReservationRegister { timeout_ms: ms, ..self }
    }

    /// The namespace that the command is for.
    pub fn namespace(&self) -> (ns: &'a Namespace<'r>)
        ensures
            *ns == self.target(),
    {
        self.ns
    }

    /// The Reservation Register command, ready to be issued.
    pub fn execute(self) -> (c: ReservationRegisterCommand)
        ensures
            c == self@,
    {
        ReservationRegisterCommand {
            crkey: self.crkey,
            nrkey: self.nrkey,
            timeout: self.timeout_ms,
            nsid: self.ns.nsid(),
            rrega: self.action.as_raw(),
            cptpl: self.cptpl.as_raw(),
            iekey: self.iekey,
        }
    }
}

/// A Reservation Release command, ready to be issued: also the view of [`ReservationRelease`].
#[derive(Debug, Clone, Copy, PartialEq, Eq, Structural)]
pub struct ReservationReleaseCommand {
    /// Current Reservation Key.
    pub crkey: u64,
    /// Timeout in milliseconds.
    pub timeout: u32,
    /// Namespace identifier.
    pub nsid: u32,
    /// Reservation type.
    pub rtype: u32,
    /// Release action.
    pub rrela: u32,
    /// Ignore Existing Key.
    pub iekey: bool,
}

impl ReservationReleaseCommand {
    /// The Reservation Release command on which nothing was set.
    pub open spec fn initial(nsid: u32) -> Self {
        ReservationReleaseCommand {
            crkey: 0,
            timeout: 0,
            nsid: nsid,
            rtype: ReservationType::WriteExclusive.code(),
            rrela: ReservationReleaseAction::Release.code(),
            iekey: false,
        }
    }
}

/// Builder returned by [`Namespace::reservation_release`].
#[must_use]
pub struct ReservationRelease<'a, 'r> {
    ns: &'a Namespace<'r>,
    crkey: u64,
    rtype: ReservationType,
    action: ReservationReleaseAction,
    iekey: bool,
    timeout_ms: u32,
}

impl<'a, 'r> View for ReservationRelease<'a, 'r> {
    type V = ReservationReleaseCommand;

    closed spec fn view(&self) -> ReservationReleaseCommand {
        ReservationReleaseCommand {
            crkey: self.crkey,
            timeout: self.timeout_ms,
            nsid: self.ns.id(),
            rtype: self.rtype.code(),
            rrela: self.action.code(),
            iekey: self.iekey,
        }
    }
}

impl<'a, 'r> ReservationRelease<'a, 'r> {
    /// The namespace that the command is for.
    pub closed spec fn target(self) -> Namespace<'r> {
        *self.ns
    }

    /// A Reservation Release command on `ns` on which nothing is set.
    pub(crate) fn new(ns: &'a Namespace<'r>) -> (b: Self)
        ensures
            b@ == ReservationReleaseCommand::initial(ns.id()),
            b.target() == *ns,
    {
        ReservationRelease {
            ns,
            crkey: 0,
            rtype: ReservationType::WriteExclusive,
            action: ReservationReleaseAction::default(),
            iekey: false,
            timeout_ms: 0,
        }
    }

    /// Current Reservation Key being released.
    pub fn key(self, crkey: u64) -> (r: Self)
        ensures
            r@ == (ReservationReleaseCommand { crkey, ..self@ }),
            r.target() == self.target(),
    {
        ReservationRelease { crkey, ..self }
    }

    /// Reservation type being released (must match the held type).
    pub fn rtype(self, rtype: ReservationType) -> (r: Self)
        ensures
            r@ == (ReservationReleaseCommand { rtype: rtype.code(), ..self@ }),
            r.target() == self.target(),
    {
        ReservationRelease { rtype, ..self }
    }

    /// Release action.
    pub fn action(self, action: ReservationReleaseAction) -> (r: Self)
        ensures
            r@ == (ReservationReleaseCommand { rrela: action.code(), ..self@ }),
            r.target() == self.target(),
    {
        ReservationRelease { action, ..self }
    }

    /// Ignore Existing Key.
    pub fn ignore_existing_key(self) -> (r: Self)
        ensures
            r@ == (ReservationReleaseCommand { iekey: true, ..self@ }),
            r.target() == self.target(),
    {
        ReservationRelease { iekey: true, ..self }
    }

    /// Per-command timeout in milliseconds. `0` uses libnvme's default.
    pub fn timeout_ms(self, ms: u32) -> (r: Self)
        ensures
            r@ == (ReservationReleaseCommand { timeout: ms, ..self@ }),
            r.target() == self.target(),
    {
        ReservationRelease { timeout_ms: ms, ..self }
    }

    /// The namespace that the command is for.
    pub fn namespace(&self) -> (ns: &'a Namespace<'r>)
        ensures
            *ns == self.target(),
    {
        self.ns
    }

    /// The Reservation Release command, ready to be issued.
    pub fn execute(self) -> (c: ReservationReleaseCommand)
        ensures
            c == self@,
    {
        ReservationReleaseCommand {
            crkey: self.crkey,
            timeout: self.timeout_ms,
            nsid: self.ns.nsid(),
            rtype: self.rtype.as_raw(),
            rrela: self.action.as_raw(),
            iekey: self.iekey,
        }
    }
}

/// What a [`ReservationReport`] builder asks for.
#[verifier::ext_equal]
pub struct ReservationReportRequest {
    /// Namespace identifier.
    pub nsid: u32,
    /// Contents of the buffer, once one is given.
    pub buf: Option<Seq<u8>>,
    /// Extended Data Structure.
    pub eds: bool,
    /// Timeout in milliseconds.
    pub timeout_ms: u32,
}

impl ReservationReportRequest {
    /// Why the request is refused, if it is: it needs a buffer that holds at
    /// least the `header_len` bytes of the report's header.
    pub open spec fn refusal(self, header_len: nat) -> Option<Seq<char>> {
        match self.buf {
            None => Some("ReservationReport requires a buffer via .buffer()"@),
            Some(buf) => if buf.len() < header_len {
                Some("ReservationReport buffer smaller than nvme_resv_status header"@)
            } else {
                None
            },
        }
    }
}

/// A Reservation Report command, ready to be issued.
#[derive(Debug)]
pub struct ReservationReportCommand<'a> {
    /// Timeout in milliseconds.
    pub timeout: u32,
    /// Namespace identifier.
    pub nsid: u32,
    /// Length of the buffer in bytes.
    pub len: u32,
    /// Extended Data Structure.
    pub eds: bool,
    /// The buffer that the device fills.
    pub report: &'a mut [u8],
}

impl<'a> ReservationReportCommand<'a> {
    /// Whether this command is what `req` asks for.
    pub open spec fn encodes(self, req: ReservationReportRequest) -> bool {
        &&& self.timeout == req.timeout_ms
        &&& self.nsid == req.nsid
        &&& self.eds == req.eds
        &&& req.buf == Some(self.report@)
        &&& self.len == util::buffer_len(req.buf)
    }
}

/// Check a report into `buf` and encode it. The command holds the very buffer:
/// what is written through it stands in `buf`.
fn report_command<'a>(
    ns: &Namespace<'_>,
    buf: &'a mut [u8],
    eds: bool,
    timeout_ms: u32,
    header_len: usize,
) -> (r: Result<ReservationReportCommand<'a>>)
    ensures
        ({
            let req = ReservationReportRequest {
                nsid: ns.id(),
                buf: Some(old(buf)@),
                eds,
                timeout_ms,
            };
            match req.refusal(header_len as nat) {
                Some(msg) => r matches Err(e) && e.rejects_with(msg) && final(buf)@ == old(buf)@,
                None => r matches Ok(c) && c.encodes(req) && final(c.report)@ == final(buf)@,
            }
        }),
{
    if buf.len() < header_len {
        return Err(
            Error::invalid_argument(
                Cow::Borrowed("ReservationReport buffer smaller than nvme_resv_status header"),
            ),
        );
    }
    let len: u32 = len_u32(buf.len());
    Ok(
        ReservationReportCommand { timeout: timeout_ms, nsid: ns.nsid(), len, eds, report: buf },
    )
}

/// The size of the buffer that [`ReservationReport::execute_to_vec`] makes.
pub const REPORT_LEN: usize = 4096;

/// Builder returned by [`Namespace::reservation_report`].
///
/// Reads into a caller-supplied buffer. The buffer holds an
/// `nvme_resv_status` header followed by a variable number of registered
/// controller entries; use the convenience
/// [`ReservationReport::execute_to_vec`] for a default-sized allocation.
#[must_use]
pub struct ReservationReport<'a, 'r> {
    ns: &'a Namespace<'r>,
    buf: Option<&'a mut [u8]>,
    eds: bool,
    timeout_ms: u32,
}

impl<'a, 'r> View for ReservationReport<'a, 'r> {
    type V = ReservationReportRequest;

    closed spec fn view(&self) -> ReservationReportRequest {
        ReservationReportRequest {
            nsid: self.ns.id(),
            buf: util::mut_bytes(self.buf),
            eds: self.eds,
            timeout_ms: self.timeout_ms,
        }
    }
}

impl<'a, 'r> ReservationReport<'a, 'r> {
    /// The namespace that the command is for.
    pub closed spec fn target(self) -> Namespace<'r> {
        *self.ns
    }

    /// The buffer to read the report into, once one is given.
    pub closed spec fn slot(self) -> Option<&'a mut [u8]> {
        self.buf
    }

    /// A Reservation Report on `ns` without a buffer.
    pub(crate) fn new(ns: &'a Namespace<'r>) -> (b: Self)
        ensures
            b@ == (ReservationReportRequest {
                nsid: ns.id(),
                buf: None,
                eds: false,
                timeout_ms: 0,
            }),
            b.slot() is None,
            b.target() == *ns,
    {
        ReservationReport { ns, buf: None, eds: false, timeout_ms: 0 }
    }

    /// Read the report into this buffer. Must be at least
    /// `size_of::<nvme_resv_status>()` bytes; bigger buffers will read
    /// the variable controller-entry tail too. Required before
    /// [`Self::execute`].
    pub fn buffer(self, buf: &'a mut [u8]) -> (r: Self)
        ensures
            r@ == (ReservationReportRequest { buf: Some(old(buf)@), ..self@ }),
            r.slot() matches Some(b) && b@ == old(buf)@ && final(b)@ == final(buf)@,
            self.slot() matches Some(b) ==> final(b)@ == b@,
            r.target() == self.target(),
    {
        ReservationReport { buf: Some(buf), ..self }
    }

    /// Request the Extended Data Structure (64-bit reservation keys
    /// instead of the legacy 16-bit registrant IDs).
    pub fn extended(self) -> (r: Self)
        ensures
            r@ == (ReservationReportRequest { eds: true, ..self@ }),
            r.slot() == self.slot(),
            r.target() == self.target(),
    {
        ReservationReport { eds: true, ..self }
    }

    /// Per-command timeout in milliseconds. `0` uses libnvme's default.
    pub fn timeout_ms(self, ms: u32) -> (r: Self)
        ensures
            r@ == (ReservationReportRequest { timeout_ms: ms, ..self@ }),
            r.slot() == self.slot(),
            r.target() == self.target(),
    {
        ReservationReport { timeout_ms: ms, ..self }
    }

    /// The namespace that the command is for.
    pub fn namespace(&self) -> (ns: &'a Namespace<'r>)
        ensures
            *ns == self.target(),
    {
        self.ns
    }

    /// Check the request and encode the command against the user-provided
    /// buffer, where `header_len` is the size of the `nvme_resv_status` header. What
    /// is written through the command stands in that buffer; a refused request
    /// leaves it as it was.
    pub fn execute(self, header_len: usize) -> (r: Result<ReservationReportCommand<'a>>)
        ensures
            match self@.refusal(header_len as nat) {
                Some(msg) => r matches Err(e) && e.rejects_with(msg),
                None => r matches Ok(c) && c.encodes(self@),
            },
            match self.slot() {
                Some(b) => match r {
                    Ok(c) => final(c.report)@ == final(b)@,
                    Err(_) => final(b)@ == b@,
                },
                None => r is Err,
            },
    {
        let buf: &'a mut [u8] = match self.buf {
            Some(buf) => buf,
            None => return Err(
                Error::invalid_argument(
                    Cow::Borrowed("ReservationReport requires a buffer via .buffer()"),
                ),
            ),
        };
        report_command(self.ns, buf, self.eds, self.timeout_ms, header_len)
    }

    /// Convenience: make `buf` a zeroed 4 KiB buffer and encode the command
    /// against it. What the device fills in stands in `buf`; a buffer given before
    /// is left as it was.
    pub fn execute_to_vec<'b>(self, buf: &'b mut Vec<u8>, header_len: usize) -> (r: Result<
        ReservationReportCommand<'b>,
    >)
        ensures
            ({
                let req = ReservationReportRequest {
                    buf: Some(wire::zeros(REPORT_LEN as nat)),
                    ..self@
                };
                match req.refusal(header_len as nat) {
                    Some(msg) => r matches Err(e) && e.rejects_with(msg),
                    None => r matches Ok(c) && c.encodes(req) && final(c.report)@ == final(buf)@,
                }
            }),
            r is Err ==> final(buf)@ == wire::zeros(REPORT_LEN as nat),
            self.slot() matches Some(b) ==> final(b)@ == b@,
    {
        buf.clear();
        push_zeros(buf, REPORT_LEN);
        assert(buf@ =~= wire::zeros(REPORT_LEN as nat));
        report_command(self.ns, buf.as_mut_slice(), self.eds, self.timeout_ms, header_len)
    }
}

/// A report with a default-sized buffer is refused only where the header is
/// larger than that buffer.
pub proof fn default_report_is_accepted(req: ReservationReportRequest, header_len: nat)
    requires
        req.buf == Some(wire::zeros(REPORT_LEN as nat)),
    ensures
        req.refusal(header_len) is None <==> header_len <= REPORT_LEN,
{
}

} // verus!
