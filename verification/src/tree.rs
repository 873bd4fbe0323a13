//! Walking the libnvme handle tree.
//!
//! libnvme hands out the children of a node as a linked list: one call gives the
//! first child, another the one that follows a given child, and NULL marks the
//! end. A [`Walk`] holds the place in such a list.

use vstd::prelude::*;

verus! {

/// A place in the list of the children of `parent`, known by handles of type `H`.
#[must_use]
#[derive(Debug)]
pub struct Walk<P, H> {
    parent: P,
    cursor: Option<H>,
}

impl<P, H> View for Walk<P, H> {
    type V = Option<H>;

    closed spec fn view(&self) -> Option<H> {
        self.cursor
    }
}

/// Element `i` of a list, if there is one.
pub open spec fn nth<H>(list: Seq<H>, i: int) -> Option<H> {
    if 0 <= i < list.len() {
        Some(list[i])
    } else {
        None
    }
}

/// Whether `list` is what `next` links together, from its first element on.
pub open spec fn linked<H>(list: Seq<H>, next: spec_fn(H) -> Option<H>) -> bool {
    forall|i: int| 0 <= i < list.len() ==> next(#[trigger] list[i]) == nth(list, i + 1)
}

/// Where a walk stands after `n` steps from `cursor`, following `next`.
pub open spec fn after<H>(cursor: Option<H>, next: spec_fn(H) -> Option<H>, n: nat) -> Option<H>
    decreases n,
{
    if n == 0 {
        cursor
    } else {
        match after(cursor, next, (n - 1) as nat) {
            Some(h) => next(h),
            None => None,
        }
    }
}

/// A walk from the head of a linked list is at element `n` after `n` steps: it
/// visits every element once, in order, and stays at the end once it is there.
pub proof fn walk_visits_the_list<H>(list: Seq<H>, next: spec_fn(H) -> Option<H>, n: nat)
    requires
        linked(list, next),
    ensures
        after(nth(list, 0), next, n) == nth(list, n as int),
    decreases n,
{
    if n > 0 {
        walk_visits_the_list(list, next, (n - 1) as nat);
    }
}

impl<P, H> Walk<P, H> {
    /// The node whose children are walked.
    pub closed spec fn parent_node(self) -> P {
        self.parent
    }

    /// A walk that stands at the first child of `parent`; `None` stands for NULL.
    pub fn new(parent: P, first: Option<H>) -> (w: Self)
        ensures
            w@ == first,
            w.parent_node() == parent,
    {
        Walk { parent, cursor: first }
    }

    /// The node whose children are walked.
    pub fn parent(&self) -> (p: &P)
        ensures
            *p == self.parent_node(),
    {
        &self.parent
    }
}

impl<P, H: std::marker::Copy> Walk<P, H> {
    /// Return the current child and move on to the one that follows it, which
    /// `successor_of` gives. At the end nothing is returned, `successor_of` is not
    /// asked, and the walk stays there.
    pub fn next<F: Fn(H) -> Option<H>>(&mut self, successor_of: F) -> (r: Option<H>)
        requires
            old(self)@ matches Some(h) ==> call_requires(successor_of, (h,)),
        ensures
            r == old(self)@,
            match old(self)@ {
                Some(h) => call_ensures(successor_of, (h,), final(self)@),
                None => final(self)@ is None,
            },
            final(self).parent_node() == old(self).parent_node(),
    {
        match self.cursor {
            None => None,
            Some(current) => {
                self.cursor = successor_of(current);
                Some(current)
            },
        }
    }
}

} // verus!
