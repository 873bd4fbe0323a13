//! What the handles of the tree report, and how it is walked.

use super::{is_errno, reads, reads_c, says};
use crate::error::{Error, Result};
use crate::host::{Host, HostAttrs};
use crate::path::{Path, PathAttrs, PathParent};
use crate::root::{HostLookup, Root};
use crate::subsystem::{Subsystem, SubsystemAttrs};
use crate::tree::Walk;
use vstd::prelude::*;

verus! {

/// A host reports the texts that libnvme gave.
pub proof fn hosts<'r>(attrs: HostAttrs<'r>, x: Host<'r>)
    requires
        call_ensures(Host::from_raw, (attrs,), x),
    ensures
        forall|r: Result<&'r str>|
            #[trigger] call_ensures(Host::hostnqn, (&x,), r) ==> reads_c(r, attrs.hostnqn),
        forall|r: Result<&'r str>|
            #[trigger] call_ensures(Host::hostid, (&x,), r) ==> reads_c(r, attrs.hostid),
{
}

/// A subsystem reports the texts that libnvme gave, and an application tag that is
/// not set as the empty text.
pub proof fn subsystems<'r>(attrs: SubsystemAttrs<'r>, x: Subsystem<'r>)
    requires
        call_ensures(Subsystem::from_raw, (attrs,), x),
    ensures
        forall|r: Result<&'r str>|
            #[trigger] call_ensures(Subsystem::name, (&x,), r) ==> reads_c(r, attrs.name),
        forall|r: Result<&'r str>|
            #[trigger] call_ensures(Subsystem::nqn, (&x,), r) ==> reads_c(r, attrs.nqn),
        forall|r: Result<&'r str>|
            #[trigger] call_ensures(Subsystem::subsystem_type, (&x,), r)
                ==> reads_c(r, attrs.subsystem_type),
        forall|r: Result<&'r str>|
            #[trigger] call_ensures(Subsystem::serial, (&x,), r) ==> reads_c(r, attrs.serial),
        forall|r: Result<&'r str>|
            #[trigger] call_ensures(Subsystem::model, (&x,), r) ==> reads_c(r, attrs.model),
        forall|r: Result<&'r str>|
            #[trigger] call_ensures(Subsystem::firmware, (&x,), r) ==> reads_c(r, attrs.firmware),
        forall|r: Result<&'r str>|
            #[trigger] call_ensures(Subsystem::iopolicy, (&x,), r) ==> reads_c(r, attrs.iopolicy),
        forall|r: Result<&'r str>|
            #[trigger] call_ensures(Subsystem::application, (&x,), r)
                ==> (match attrs.application { Some(b) => reads(r, b@), None => r matches Ok(s) && s@.len() == 0 }),
{
}

/// A path reports the texts and the queue depth that libnvme gave.
pub proof fn paths<'r>(attrs: PathAttrs<'r>, x: Path<'r>)
    requires
        call_ensures(Path::from_raw, (attrs,), x),
    ensures
        forall|r: Result<&'r str>|
            #[trigger] call_ensures(Path::name, (&x,), r) ==> reads_c(r, attrs.name),
        forall|r: Result<&'r str>|
            #[trigger] call_ensures(Path::ana_state, (&x,), r) ==> reads_c(r, attrs.ana_state),
        forall|r: Result<&'r str>|
            #[trigger] call_ensures(Path::numa_nodes, (&x,), r) ==> reads_c(r, attrs.numa_nodes),
        forall|r: i32|
            #[trigger] call_ensures(Path::queue_depth, (&x,), r) ==> r == attrs.queue_depth,
{
}

/// A new walk knows its parent. Its first step returns the first child.
pub proof fn walks<P, H>(
    parent: P,
    first: Option<H>,
    w: Walk<P, H>,
    p: &P,
)
    requires
        call_ensures(Walk::<P, H>::new, (parent, first), w),
        call_ensures(Walk::<P, H>::parent, (&w,), p),
    ensures
        *p == parent,
        w@ == first,
{
}

/// The walks over the paths of a controller and of a namespace know whose paths they
/// walk, and start at the first.
pub proof fn path_walks<C, N, H>(
    ctrl: C,
    ns: N,
    first: Option<H>,
    c: Walk<PathParent<C, N>, H>,
    n: Walk<PathParent<C, N>, H>,
    p: &PathParent<C, N>,
    q: &PathParent<C, N>,
)
    requires
        call_ensures(Walk::<PathParent<C, N>, H>::from_controller, (ctrl, first), c),
        call_ensures(Walk::<PathParent<C, N>, H>::from_namespace, (ns, first), n),
        call_ensures(Walk::<PathParent<C, N>, H>::parent, (&c,), p),
        call_ensures(Walk::<PathParent<C, N>, H>::parent, (&n,), q),
    ensures
        *p == PathParent::<C, N>::Controller(ctrl),
        *q == PathParent::<C, N>::Namespace(ns),
        c@ == first,
        n@ == first,
{
}

/// Two steps of a walk that starts at `first`: the first returns `first`, the second
/// what follows it. Nothing follows the end, and the parent stays the same.
pub proof fn steps<P, H: std::marker::Copy, F: Fn(H) -> Option<H>>(
    parent: P,
    first: Option<H>,
    fresh: Walk<P, H>,
    w: &mut Walk<P, H>,
    f: F,
    a: Option<H>,
    v: &mut Walk<P, H>,
    b: Option<H>,
)
    requires
        forall|h: H| call_requires(f, (h,)),
        call_ensures(Walk::<P, H>::new, (parent, first), fresh),
        *old(w) == fresh,
        call_ensures(Walk::<P, H>::next::<F>, (w, f), a),
        *old(v) == *final(w),
        call_ensures(Walk::<P, H>::next::<F>, (v, f), b),
    ensures
        a == first,
        match first {
            Some(h) => call_ensures(f, (h,), b),
            None => b is None,
        },
        b matches Some(h) ==> call_ensures(f, (h,), final(v)@),
        b is None ==> final(v)@ is None,
        forall|p: &P| #[trigger]
            call_ensures(Walk::<P, H>::parent, (final(v),), p) ==> *p == parent,
{
}

/// A scan gives the root of the handle, and NULL is what `errno` held.
pub proof fn scans<H>(raw: Option<H>, r: Result<Root<H>>)
    requires
        call_ensures(Root::<H>::scan, (raw,), r),
    ensures
        r is Ok <==> raw is Some,
        r matches Ok(root) ==> forall|h: &H| #[trigger]
            call_ensures(Root::<H>::raw_handle, (&root,), h) ==> Some(*h) == raw,
        r matches Err(e) ==> is_errno(e),
{
}

/// The hosts of a root are walked from the first on, as its children. A default host
/// is handed on as it is, and NULL is what `errno` held.
pub proof fn roots<H, N>(root: Root<H>, first: Option<N>, handle: &H)
    requires
        call_ensures(Root::<H>::raw_handle, (&root,), handle),
    ensures
        forall|w: Walk<&H, N>| #[trigger]
            call_ensures(Root::<H>::hosts::<N>, (&root, first), w) ==> w@ == first
                && *w.parent_node() == *handle,
        forall|r: Result<N>| #[trigger]
            call_ensures(Root::<H>::default_host::<N>, (&root, first), r) ==> (match first {
                Some(h) => r == Ok::<N, Error>(h),
                None => r matches Err(e) && is_errno(e),
            }),
{
}

/// A host lookup is accepted exactly where neither text holds a NUL, keeps both, and
/// names the text that is refused, the NQN first.
pub proof fn lookups<'a, H>(
    root: Root<H>,
    hostnqn: &'a str,
    hostid: Option<&'a str>,
    r: Result<HostLookup<'a>>,
)
    requires
        call_ensures(Root::<H>::lookup_host, (&root, hostnqn, hostid), r),
    ensures
        r is Ok <==> (forall|i: int| 0 <= i < hostnqn@.len() ==> #[trigger] hostnqn@[i] != '\0')
            && (hostid matches Some(id) ==> forall|i: int|
            0 <= i < id@.len() ==> #[trigger] id@[i] != '\0'),
        r matches Ok(l) ==> l.hostnqn@ == hostnqn@ && l.hostid == hostid,
        r matches Err(e) ==> if exists|i: int|
            0 <= i < hostnqn@.len() && #[trigger] hostnqn@[i] == '\0' {
            says(e, "interior NUL byte in hostnqn"@)
        } else {
            says(e, "interior NUL byte in hostid"@)
        },
{
}

/// A host that was found is handed on as it is, and NULL is what `errno` held.
pub proof fn found_hosts<'a, N>(l: HostLookup<'a>, raw: Option<N>, r: Result<N>)
    requires
        call_ensures(HostLookup::<'a>::found::<N>, (&l, raw), r),
    ensures
        match raw {
            Some(h) => r == Ok::<N, Error>(h),
            None => r matches Err(e) && is_errno(e),
        },
{
}

} // verus!
