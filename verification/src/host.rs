//! Hosts.

use crate::error::Result;
use crate::fabrics;
use crate::fabrics::{Connect, Transport};
use crate::tree::Walk;
use crate::util;
use crate::util::cstr_to_str;
use vstd::prelude::*;

verus! {

/// What libnvme reports of a host: the bytes of C strings, where `None` stands
/// for a NULL pointer.
#[derive(Debug, Clone, Copy)]
pub struct HostAttrs<'r> {
    /// Host NVMe Qualified Name.
    pub hostnqn: Option<&'r [u8]>,
    /// Host identifier.
    pub hostid: Option<&'r [u8]>,
}

/// A host entry in the libnvme tree.
///
/// In the libnvme model, a "host" represents a local or fabrics identity
/// (NVMe Qualified Name and ID) under which subsystems are attached. Most
/// systems have exactly one.
pub struct Host<'r> {
    attrs: HostAttrs<'r>,
}

impl<'r> View for Host<'r> {
    type V = HostAttrs<'r>;

    closed spec fn view(&self) -> HostAttrs<'r> {
        self.attrs
    }
}

impl<'r> Host<'r> {
    /// A host with the attributes that libnvme reports.
    pub fn from_raw(attrs: HostAttrs<'r>) -> (h: Self)
        ensures
            h@ == attrs,
    {
        Host { attrs }
    }

    /// The Host NVMe Qualified Name (HostNQN), e.g.
    /// `nqn.2014-08.org.nvmexpress:uuid:...`.
    pub fn hostnqn(&self) -> (r: Result<&'r str>)
        ensures
            util::cstr_outcome(r, util::opt_bytes(self@.hostnqn)),
    {
        cstr_to_str(self.attrs.hostnqn)
    }

    /// The host identifier (HostID) as a UUID-formatted string.
    pub fn hostid(&self) -> (r: Result<&'r str>)
        ensures
            util::cstr_outcome(r, util::opt_bytes(self@.hostid)),
    {
        cstr_to_str(self.attrs.hostid)
    }

    /// Build a fabrics Connect operation for this host.
    ///
    /// `transport` and `subsysnqn` are required; everything else (traddr,
    /// trsvcid, host_traddr, queue sizes, digests, TLS, etc.) is set via
    /// chained methods on the returned [`Connect`].
    pub fn connect<'a>(&'a self, transport: Transport<'_>, subsysnqn: &str) -> (b: Connect<'a, 'r>)
        ensures
            b@ == fabrics::ConnectRequest::new(transport.text(), subsysnqn@),
            b.target() == *self,
    {
        Connect::new(self, transport, subsysnqn)
    }
}

/// Walk over the hosts of a root.
pub type Hosts<P, H> = Walk<P, H>;

} // verus!
