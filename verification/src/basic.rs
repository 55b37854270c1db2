//! A stack of `i32` values over an exclusively-owned singly-linked chain.
//!
//! The list owns its head node, each node owns the node behind it, and the
//! chain ends in an explicit [`Link::Empty`] terminator. Every mutation
//! extracts the head link by swapping an empty placeholder into place first,
//! so the single-owner invariant is visible at each step. Teardown walks the
//! chain in a loop, detaching one node per step, so destroying a list of any
//! length needs only constant auxiliary stack.

use vstd::prelude::*;

verus! {

/// A last-in, first-out stack of `i32` values.
///
/// Its view is the sequence of held values, head (most recently pushed)
/// first.
pub struct List {
    head: Link,
}

enum Link {
    Empty,
    More(Box<Node>),
}

struct Node {
    elem: i32,
    next: Link,
}

/// The values reachable from `link`, nearest first.
spec fn link_seq(link: Link) -> Seq<i32>
    decreases link,
{
    match link {
        Link::Empty => Seq::empty(),
        Link::More(node) => seq![node.elem] + link_seq(node.next),
    }
}

impl View for List {
    type V = Seq<i32>;

    closed spec fn view(&self) -> Seq<i32> {
        link_seq(self.head)
    }
}

impl List {
    /// Returns the empty list.
    pub fn new() -> (l: Self)
        ensures
            l@ == Seq::<i32>::empty(),
    {
        List { head: Link::Empty }
    }

    /// Places `elem` on top of the stack; every value already held moves one
    /// position back.
    pub fn push(&mut self, elem: i32)
        ensures
            final(self)@ == seq![elem] + old(self)@,
    {
        let mut taken = Link::Empty;
        core::mem::swap(&mut taken, &mut self.head);
        self.head = Link::More(Box::new(Node { elem, next: taken }));
    }

    /// Removes and returns the top value, or returns no value when the list
    /// is empty. Popping never fails in any other way.
    pub fn pop(&mut self) -> (r: Option<i32>)
        ensures
            old(self)@.len() == 0 ==> r is None && final(self)@ == old(self)@,
            old(self)@.len() > 0 ==> r == Some(old(self)@[0]) && final(self)@ == old(self)@.drop_first(),
    {
        let mut taken = Link::Empty;
        core::mem::swap(&mut taken, &mut self.head);
        match taken {
            Link::Empty => None,
            Link::More(node) => {
                let node = *node;
                self.head = node.next;
                Some(node.elem)
            },
        }
    }
}

impl Drop for List {
    /// Detaches and destroys one node per loop step, so the chain is torn
    /// down with constant auxiliary stack instead of one destructor frame
    /// per node.
    fn drop(&mut self)
        opens_invariants none
        no_unwind
    {
        let mut cur = Link::Empty;
        core::mem::swap(&mut cur, &mut self.head);
        loop
            decreases link_seq(cur).len(),
        {
            match cur {
                Link::Empty => {
                    break;
                },
                Link::More(node) => {
                    let node = *node;
                    cur = node.next;
                },
            }
        }
    }
}

} // verus!
