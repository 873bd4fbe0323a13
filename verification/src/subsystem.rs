//! Subsystems.

use crate::error::Result;
use crate::tree::Walk;
use crate::util;
use crate::util::{cstr_to_str, decode_text};
use vstd::prelude::*;

verus! {

/// What libnvme reports of a subsystem: the bytes of C strings, where `None`
/// stands for a NULL pointer.
#[derive(Debug, Clone, Copy)]
pub struct SubsystemAttrs<'r> {
    /// Kernel-assigned name.
    pub name: Option<&'r [u8]>,
    /// NVMe Qualified Name.
    pub nqn: Option<&'r [u8]>,
    /// Subsystem type.
    pub subsystem_type: Option<&'r [u8]>,
    /// Serial number.
    pub serial: Option<&'r [u8]>,
    /// Model.
    pub model: Option<&'r [u8]>,
    /// Firmware revision.
    pub firmware: Option<&'r [u8]>,
    /// I/O policy.
    pub iopolicy: Option<&'r [u8]>,
    /// Application tag.
    pub application: Option<&'r [u8]>,
}

/// An NVMe subsystem.
///
/// A subsystem groups one or more controllers that share a common identity
/// (NQN, serial, model). For typical single-controller PCIe SSDs the subsystem
/// has exactly one controller; Fabrics and multipath setups can have several.
pub struct Subsystem<'r> {
    attrs: SubsystemAttrs<'r>,
}

impl<'r> View for Subsystem<'r> {
    type V = SubsystemAttrs<'r>;

    closed spec fn view(&self) -> SubsystemAttrs<'r> {
        self.attrs
    }
}

impl<'r> Subsystem<'r> {
    /// A subsystem with the attributes that libnvme reports.
    pub fn from_raw(attrs: SubsystemAttrs<'r>) -> (s: Self)
        ensures
            s@ == attrs,
    {
        Subsystem { attrs }
    }

    /// The kernel-assigned subsystem name, e.g. `nvme-subsys0`.
    pub fn name(&self) -> (r: Result<&'r str>)
        ensures
            util::cstr_outcome(r, util::opt_bytes(self@.name)),
    {
        cstr_to_str(self.attrs.name)
    }

    /// The subsystem NVMe Qualified Name (NQN).
    pub fn nqn(&self) -> (r: Result<&'r str>)
        ensures
            util::cstr_outcome(r, util::opt_bytes(self@.nqn)),
    {
        cstr_to_str(self.attrs.nqn)
    }

    /// The subsystem type (e.g. `nvm`, `discovery`).
    pub fn subsystem_type(&self) -> (r: Result<&'r str>)
        ensures
            util::cstr_outcome(r, util::opt_bytes(self@.subsystem_type)),
    {
        cstr_to_str(self.attrs.subsystem_type)
    }

    /// The subsystem-level serial number, when reported.
    pub fn serial(&self) -> (r: Result<&'r str>)
        ensures
            util::cstr_outcome(r, util::opt_bytes(self@.serial)),
    {
        cstr_to_str(self.attrs.serial)
    }

    /// The subsystem-level model string, when reported.
    pub fn model(&self) -> (r: Result<&'r str>)
        ensures
            util::cstr_outcome(r, util::opt_bytes(self@.model)),
    {
        cstr_to_str(self.attrs.model)
    }

    /// The subsystem-level firmware revision, when reported.
    pub fn firmware(&self) -> (r: Result<&'r str>)
        ensures
            util::cstr_outcome(r, util::opt_bytes(self@.firmware)),
    {
        cstr_to_str(self.attrs.firmware)
    }

    /// ANA / multipath I/O policy for this subsystem, e.g. `numa`,
    /// `round-robin`.
    pub fn iopolicy(&self) -> (r: Result<&'r str>)
        ensures
            util::cstr_outcome(r, util::opt_bytes(self@.iopolicy)),
    {
        cstr_to_str(self.attrs.iopolicy)
    }

    /// Application-set tag for this subsystem (used by tools like `nvme-cli`
    /// for grouping). Empty when unset.
    pub fn application(&self) -> (r: Result<&'r str>)
        ensures
            match util::opt_bytes(self@.application) {
                Some(bytes) => util::decodes_to(r, bytes),
                None => r matches Ok(s) && s@ == Seq::<char>::empty(),
            },
    {
        match self.attrs.application {
            Some(bytes) => decode_text(bytes),
            None => {
                proof {
                    reveal_strlit("");
                }
                Ok("")
            },
        }
    }
}

/// Walk over the subsystems of a host.
pub type Subsystems<P, H> = Walk<P, H>;

} // verus!
