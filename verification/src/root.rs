//! The root of the libnvme tree.

use crate::error;
use crate::error::{non_null, Error, Result};
use crate::host::Hosts;
use crate::tree::Walk;
use crate::util;
use crate::util::{decode_text, has_nul};
use std::borrow::Cow;
use vstd::prelude::*;
use vstd::string::StringExecFns;

verus! {

/// The owning handle to the libnvme tree, known by a handle of type `H`.
///
/// A scan enumerates hosts, subsystems, controllers, and namespaces on the
/// system.
pub struct Root<H> {
    inner: H,
}

impl<H> View for Root<H> {
    type V = H;

    closed spec fn view(&self) -> H {
        self.inner
    }
}

/// The checked parameters of a host lookup: both can be C strings.
#[derive(Debug, Clone, Copy)]
pub struct HostLookup<'a> {
    /// Host NVMe Qualified Name.
    pub hostnqn: &'a str,
    /// Host identifier, if one is asked for.
    pub hostid: Option<&'a str>,
}

/// Why a host lookup is refused, if it is: its strings must not hold a NUL.
pub open spec fn lookup_refusal(hostnqn: Seq<char>, hostid: Option<&str>) -> Option<Seq<char>> {
    if hostnqn.contains('\0') {
        Some("interior NUL byte in hostnqn"@)
    } else if hostid is Some && hostid->0@.contains('\0') {
        Some("interior NUL byte in hostid"@)
    } else {
        None
    }
}

impl<H> Root<H> {
    /// The tree that a scan returned, where `None` stands for NULL: a failed scan
    /// whose reason is in `errno`.
    pub fn scan(raw: Option<H>) -> (r: Result<Self>)
        ensures
            match raw {
                Some(h) => r matches Ok(root) && root@ == h,
                None => r matches Err(e) && error::is_os_failure(e),
            },
    {
        match non_null(raw) {
            Ok(inner) => Ok(Root { inner }),
            Err(e) => Err(e),
        }
    }

    /// The handle of this root.
    pub fn raw_handle(&self) -> (h: &H)
        ensures
            *h == self@,
    {
        &self.inner
    }

    /// Walk over the hosts in this tree, of which `first` is the first.
    ///
    /// libnvme typically reports a single host (the local machine) unless
    /// the caller has configured Fabrics with multiple hostnqn entries.
    pub fn hosts<N>(&self, first: Option<N>) -> (w: Hosts<&H, N>)
        ensures
            w@ == first,
            *w.parent_node() == self@,
    {
        Walk::new(&self.inner, first)
    }

    /// The default host for this root, as libnvme returned it; NULL is a failed
    /// operation.
    pub fn default_host<N>(&self, raw: Option<N>) -> (r: Result<N>)
        ensures
            match raw {
                Some(h) => r == Ok::<N, Error>(h),
                None => r matches Err(e) && error::is_os_failure(e),
            },
    {
        non_null(raw)
    }

    /// Check the parameters of a lookup for a host with the given NQN and
    /// (optional) HostID.
    ///
    /// Use this when you need a non-default host identity - for instance, a
    /// fabrics client that wants to present a specific HostNQN to a target.
    pub fn lookup_host<'a>(&self, hostnqn: &'a str, hostid: Option<&'a str>) -> (r: Result<
        HostLookup<'a>,
    >)
        ensures
            match lookup_refusal(hostnqn@, hostid) {
                Some(msg) => r matches Err(e) && e.rejects_with(msg),
                None => r matches Ok(l) && l.hostnqn == hostnqn && l.hostid == hostid,
            },
    {
        if has_nul(hostnqn) {
            return Err(Error::invalid_argument(Cow::Borrowed("interior NUL byte in hostnqn")));
        }
        if let Some(id) = hostid {
            if has_nul(id) {
                return Err(Error::invalid_argument(Cow::Borrowed("interior NUL byte in hostid")));
            }
        }
        Ok(HostLookup { hostnqn, hostid })
    }
}

impl<'a> HostLookup<'a> {
    /// The host that libnvme found or created; NULL is a failed operation.
    pub fn found<N>(&self, raw: Option<N>) -> (r: Result<N>)
        ensures
            match raw {
                Some(h) => r == Ok::<N, Error>(h),
                None => r matches Err(e) && error::is_os_failure(e),
            },
    {
        non_null(raw)
    }
}

/// The text of a C string that libnvme allocated, as an owned string.
///
/// A NULL return is treated as a failed *operation* and mapped to [`Error::Os`]
/// (capturing `errno` - e.g. `ENOENT` for a missing `/etc/nvme/hostnqn`, `ENOMEM`
/// on allocation failure). [`Error::NotAvailable`] is reserved for handle
/// accessors where a property is genuinely unset.
pub fn take_owned_cstr(raw: Option<Vec<u8>>) -> (r: Result<String>)
    ensures
        match raw {
            None => r matches Err(e) && error::is_os_failure(e),
            Some(bytes) => match util::text_of(bytes@) {
                Some(text) => r matches Ok(s) && s@ == text,
                None => r matches Err(Error::Utf8(e)) && util::is_utf8_failure(e, bytes@),
            },
        },
{
    match non_null(raw) {
        Err(e) => Err(e),
        Ok(bytes) => match decode_text(bytes.as_slice()) {
            Ok(s) => Ok(String::from_str(s)),
            Err(e) => Err(e),
        },
    }
}

} // verus!
