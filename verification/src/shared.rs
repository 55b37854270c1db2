//! A persistent singly-linked list whose tails are shared through reference
//! counting.
//!
//! Prepending builds a new head node in front of the existing chain without
//! touching it, so any number of lists may share overlapping tails. Nodes
//! are never mutated after construction; a node is freed only when its last
//! owner goes away.

use std::rc::Rc;
use vstd::prelude::*;

verus! {

/// Relies on std's `Rc::clone`: the returned handle shares the same
/// allocation as `v`, so it carries the same value.
#[verifier::external_body]
fn clone_rc<T>(v: &Rc<T>) -> (r: Rc<T>)
    ensures
        r == *v,
{
    Rc::clone(v)
}

/// Relies on std's `Rc::into_inner`: it returns the inner value when `rc`
/// was the last handle on its allocation, returns no value otherwise, and
/// never panics.
#[verifier::external_body]
fn rc_into_inner<T>(rc: Rc<T>) -> (r: Option<T>)
    ensures
        r matches Some(t) ==> t == *rc,
    opens_invariants none
    no_unwind
{
    Rc::into_inner(rc)
}

/// A persistent list of `T` values.
///
/// Its view is the sequence of held values, head first.
pub struct List<T> {
    head: Option<Rc<Node<T>>>,
}

/// One list element together with a shared handle on the rest of the chain.
pub struct Node<T> {
    elem: T,
    next: Option<Rc<Node<T>>>,
}

/// The values reachable from `link`, nearest first.
spec fn link_seq<T>(link: Option<Rc<Node<T>>>) -> Seq<T>
    decreases link,
{
    match link {
        None => Seq::empty(),
        Some(node) => seq![node.elem] + link_seq(node.next),
    }
}

impl<T> View for List<T> {
    type V = Seq<T>;

    closed spec fn view(&self) -> Seq<T> {
        link_seq(self.head)
    }
}

impl<T> List<T> {
    /// Returns the empty list.
    pub fn new() -> (l: Self)
        ensures
            l@ == Seq::<T>::empty(),
    {
        List { head: None }
    }

    /// Returns a new list holding `elem` in front of everything this list
    /// holds. The new head node shares this list's chain; this list itself
    /// is not changed, and no node is copied.
    pub fn prepending(&self, elem: T) -> (r: List<T>)
        ensures
            r@ == seq![elem] + self@,
    {
        let next = match &self.head {
            None => None,
            Some(rc) => Some(clone_rc(rc)),
        };
        List { head: Some(Rc::new(Node { elem, next })) }
    }

    /// Returns a reference to the first value, or no value when the list is
    /// empty. The list is not changed.
    pub fn peek(&self) -> (r: Option<&T>)
        ensures
            self@.len() == 0 ==> r is None,
            self@.len() > 0 ==> (r matches Some(p) && *p == self@[0]),
    {
        match &self.head {
            None => None,
            Some(node) => Some(&node.elem),
        }
    }

    /// Detaches and destroys the nodes this list owns alone, one per loop
    /// step, so a long exclusively-owned chain is torn down with constant
    /// auxiliary stack. A node still shared with another list keeps its
    /// whole tail alive and stops the walk.
    fn clear(&mut self)
        opens_invariants none
        no_unwind
    {
        let mut cur: Option<Rc<Node<T>>> = None;
        core::mem::swap(&mut cur, &mut self.head);
        loop
            decreases link_seq(cur).len(),
        {
            match cur {
                None => {
                    break;
                },
                Some(rc) => {
                    match rc_into_inner(rc) {
                        None => {
                            break;
                        },
                        Some(node) => {
                            cur = node.next;
                        },
                    }
                },
            }
        }
    }
}

impl<T> Drop for List<T> {
    /// Tears the chain down iteratively instead of leaving it to one
    /// recursive destructor frame per node.
    fn drop(&mut self)
        opens_invariants none
        no_unwind
    {
        self.clear();
    }
}

} // verus!
