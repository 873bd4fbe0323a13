//! Multipath / ANA paths.
//!
//! In multipath configurations (ANA, NVMe-oF), a single namespace can be
//! reachable through multiple controller "paths".

use crate::error::Result;
use crate::tree::Walk;
use crate::util;
use crate::util::cstr_to_str;
use vstd::prelude::*;

verus! {

/// What libnvme reports of a path: the bytes of C strings, where `None` stands
/// for a NULL pointer, and the queue depth.
#[derive(Debug, Clone, Copy)]
pub struct PathAttrs<'r> {
    /// Kernel-assigned name.
    pub name: Option<&'r [u8]>,
    /// ANA state.
    pub ana_state: Option<&'r [u8]>,
    /// NUMA nodes.
    pub numa_nodes: Option<&'r [u8]>,
    /// Queue depth.
    pub queue_depth: i32,
}

/// A single multipath route to a namespace.
pub struct Path<'r> {
    attrs: PathAttrs<'r>,
}

impl<'r> View for Path<'r> {
    type V = PathAttrs<'r>;

    closed spec fn view(&self) -> PathAttrs<'r> {
        self.attrs
    }
}

impl<'r> Path<'r> {
    /// A path with the attributes that libnvme reports.
    pub fn from_raw(attrs: PathAttrs<'r>) -> (p: Self)
        ensures
            p@ == attrs,
    {
        Path { attrs }
    }

    /// Kernel-assigned path name.
    pub fn name(&self) -> (r: Result<&'r str>)
        ensures
            util::cstr_outcome(r, util::opt_bytes(self@.name)),
    {
        cstr_to_str(self.attrs.name)
    }

    /// Asymmetric Namespace Access (ANA) state for this path: `optimized`,
    /// `non-optimized`, `inaccessible`, `persistent-loss`, or `change`.
    pub fn ana_state(&self) -> (r: Result<&'r str>)
        ensures
            util::cstr_outcome(r, util::opt_bytes(self@.ana_state)),
    {
        cstr_to_str(self.attrs.ana_state)
    }

    /// Comma-separated list of NUMA nodes reachable through this path.
    pub fn numa_nodes(&self) -> (r: Result<&'r str>)
        ensures
            util::cstr_outcome(r, util::opt_bytes(self@.numa_nodes)),
    {
        cstr_to_str(self.attrs.numa_nodes)
    }

    /// Queue depth on this path.
    pub fn queue_depth(&self) -> (r: i32)
        ensures
            r == self@.queue_depth,
    {
        self.attrs.queue_depth
    }
}

/// Whose paths are walked: a controller's or a namespace's.
#[derive(Debug)]
pub enum PathParent<C, N> {
    /// The paths of a controller.
    Controller(C),
    /// The paths of a namespace.
    Namespace(N),
}

/// Walk over the paths reachable through a controller or a namespace.
pub type Paths<C, N, H> = Walk<PathParent<C, N>, H>;

impl<C, N, H> Walk<PathParent<C, N>, H> {
    /// The paths of a controller, of which `first` is the first.
    pub fn from_controller(ctrl: C, first: Option<H>) -> (w: Self)
        ensures
            w@ == first,
            w.parent_node() == PathParent::<C, N>::Controller(ctrl),
    {
        Walk::new(PathParent::Controller(ctrl), first)
    }

    /// The paths of a namespace, of which `first` is the first.
    pub fn from_namespace(ns: N, first: Option<H>) -> (w: Self)
        ensures
            w@ == first,
            w.parent_node() == PathParent::<C, N>::Namespace(ns),
    {
        Walk::new(PathParent::Namespace(ns), first)
    }
}

} // verus!
