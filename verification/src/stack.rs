//! A generic stack over an exclusively-owned singly-linked chain, with three
//! traversal cursors: consuming, read-only, and mutable.

use vstd::prelude::*;

verus! {

/// A last-in, first-out stack of `T` values.
///
/// Its view is the sequence of held values, head (most recently pushed)
/// first.
pub struct List<T> {
    head: Link<T>,
}

type Link<T> = Option<Box<Node<T>>>;

/// One list element together with ownership of the chain behind it.
///
/// The type is exposed only so that the mutable cursor's contract can speak
/// of the node it still holds a path to; its fields stay private.
pub struct Node<T> {
    elem: T,
    next: Link<T>,
}

impl<T> Node<T> {
    /// The values this node and the chain it owns hold, nearest first.
    pub closed spec fn elems(self) -> Seq<T> {
        seq![self.elem] + link_seq(self.next)
    }
}

/// The values reachable from `link`, nearest first.
spec fn link_seq<T>(link: Link<T>) -> Seq<T>
    decreases link,
{
    match link {
        None => Seq::empty(),
        Some(node) => seq![node.elem] + link_seq(node.next),
    }
}

impl<T> View for List<T> {
    type V = Seq<T>;

    closed spec fn view(&self) -> Seq<T> {
        link_seq(self.head)
    }
}

impl<T> List<T> {
    /// Returns the empty list.
    pub fn new() -> (l: Self)
        ensures
            l@ == Seq::<T>::empty(),
    {
        List { head: None }
    }

    /// Places `elem` on top of the stack; every value already held moves one
    /// position back.
    pub fn push(&mut self, elem: T)
        ensures
            final(self)@ == seq![elem] + old(self)@,
    {
        let taken = self.head.take();
        self.head = Some(Box::new(Node { elem, next: taken }));
    }

    /// Removes and returns the top value, or returns no value when the list
    /// is empty. Popping never fails in any other way.
    pub fn pop(&mut self) -> (r: Option<T>)
        ensures
            old(self)@.len() == 0 ==> r is None && final(self)@ == old(self)@,
            old(self)@.len() > 0 ==> (r matches Some(e) && e == old(self)@[0])
                && final(self)@ == old(self)@.drop_first(),
    {
        match self.head.take() {
            None => None,
            Some(node) => {
                let node = *node;
                self.head = node.next;
                Some(node.elem)
            },
        }
    }

    /// Returns a reference to the top value, or no value when the list is
    /// empty. The list is not changed.
    pub fn peek(&self) -> (r: Option<&T>)
        ensures
            self@.len() == 0 ==> r is None,
            self@.len() > 0 ==> (r matches Some(p) && *p == self@[0]),
    {
        match &self.head {
            None => None,
            Some(node) => Some(&node.elem),
        }
    }

    /// Returns an exclusive reference to the top value, or no value when the
    /// list is empty. Whatever the caller writes through the reference
    /// becomes the new top value; the rest of the list is unchanged.
    pub fn peek_mut(&mut self) -> (r: Option<&mut T>)
        ensures
            old(self)@.len() == 0 ==> r is None && final(self)@ == old(self)@,
            old(self)@.len() > 0 ==> r.is_some() && *r.unwrap() == old(self)@[0]
                && final(self)@ == old(self)@.update(0, *final(r.unwrap())),
    {
        match &mut self.head {
            None => None,
            Some(node) => Some(&mut node.elem),
        }
    }
}

/// A consuming cursor: owns the remaining list and pops one value per step.
pub struct IntoIter<T>(List<T>);

/// A read-only cursor: borrows the next node to visit, if any.
pub struct Iter<'a, T> {
    next: Option<&'a Node<T>>,
}

impl<T> List<T> {
    /// Turns the list into a consuming cursor over its values, top first.
    pub fn into_iter(self) -> (it: IntoIter<T>)
        ensures
            it.elems() == self@,
    {
        IntoIter(self)
    }

    /// Returns a read-only cursor over the list's values, top first. The
    /// list is not changed.
    pub fn iter(&self) -> (it: Iter<'_, T>)
        ensures
            it.elems() == self@,
    {
        Iter {
            next: match &self.head {
                None => None,
                Some(node) => Some(&**node),
            },
        }
    }
}

impl<T> IntoIter<T> {
    /// The values this cursor has yet to yield, in order.
    pub closed spec fn elems(&self) -> Seq<T> {
        self.0@
    }

    /// Yields the next value, or no value once the cursor is exhausted; an
    /// exhausted cursor stays exhausted.
    pub fn next(&mut self) -> (r: Option<T>)
        ensures
            old(self).elems().len() == 0 ==> r is None && final(self).elems() == old(self).elems(),
            old(self).elems().len() > 0 ==> (r matches Some(e) && e == old(self).elems()[0])
                && final(self).elems() == old(self).elems().drop_first(),
    {
        self.0.pop()
    }
}

impl<'a, T> Iter<'a, T> {
    /// The values this cursor has yet to yield, in order.
    pub closed spec fn elems(&self) -> Seq<T> {
        match self.next {
            None => Seq::empty(),
            Some(node) => seq![node.elem] + link_seq(node.next),
        }
    }

    /// Yields a reference to the next value, or no value once the cursor is
    /// exhausted; an exhausted cursor stays exhausted.
    pub fn next(&mut self) -> (r: Option<&'a T>)
        ensures
            old(self).elems().len() == 0 ==> r is None && final(self).elems() == old(self).elems(),
            old(self).elems().len() > 0 ==> (r matches Some(p) && *p == old(self).elems()[0])
                && final(self).elems() == old(self).elems().drop_first(),
    {
        match self.next {
            None => None,
            Some(node) => {
                self.next = match &node.next {
                    None => None,
                    Some(b) => Some(&**b),
                };
                Some(&node.elem)
            },
        }
    }
}

/// A mutable cursor: holds the only exclusive path into the rest of the
/// chain. Each step takes that path, hands out an exclusive reference to one
/// value, and keeps an exclusive path to the chain behind it, so no two live
/// exclusive references into the chain ever coexist.
pub struct IterMut<'a, T> {
    next: Option<&'a mut Node<T>>,
}

impl<T> List<T> {
    /// Returns a mutable cursor over the list's values, top first. Once the
    /// caller is done with the cursor and with every reference it yielded,
    /// the list holds exactly the values written through them, in place:
    /// the list's final contents are the final contents of the node the
    /// cursor holds a path to.
    pub fn iter_mut(&mut self) -> (it: IterMut<'_, T>)
        ensures
            it.elems() == old(self)@,
            (it.path() is Some) == (old(self)@.len() > 0),
            it.path() is None ==> final(self)@ == Seq::<T>::empty(),
            it.path() is Some ==> final(self)@ == final(it.path().unwrap()).elems(),
    {
        IterMut {
            next: match &mut self.head {
                None => None,
                Some(node) => Some(&mut **node),
            },
        }
    }
}

impl<'a, T> IterMut<'a, T> {
    /// The values this cursor has yet to yield, in order, as they stand now.
    pub closed spec fn elems(&self) -> Seq<T> {
        match self.next {
            None => Seq::empty(),
            Some(node) => node.elems(),
        }
    }

    /// The exclusive path this cursor still holds into the chain, if any.
    pub closed spec fn path(&self) -> Option<&'a mut Node<T>> {
        self.next
    }

    /// Yields an exclusive reference to the next value, or no value once the
    /// cursor is exhausted; an exhausted cursor stays exhausted.
    ///
    /// The value the visited position ends up holding is whatever the caller
    /// last writes through the yielded reference: the final contents of the
    /// node that was visited are that final written value followed by the
    /// final contents of the node the advanced cursor holds.
    pub fn next(&mut self) -> (r: Option<&'a mut T>)
        ensures
            old(self).elems().len() == 0 ==> r is None && *final(self) == *old(self),
            old(self).elems().len() > 0 ==> r is Some
                && *r.unwrap() == old(self).elems()[0]
                && final(self).elems() == old(self).elems().drop_first()
                && (final(self).path() is Some) == (old(self).elems().len() > 1)
                && final(old(self).path().unwrap()).elems() == seq![*final(r.unwrap())] + (
                match final(self).path() {
                    None => Seq::<T>::empty(),
                    Some(node) => final(node).elems(),
                }),
    {
        match self.next.take() {
            None => None,
            Some(node) => {
                let Node { elem, next } = node;
                self.next = match next {
                    None => None,
                    Some(b) => Some(&mut **b),
                };
                Some(elem)
            },
        }
    }
}

/// Pushing `a`, then `b`, then `c` onto a list holding `s` and then popping
/// three times yields `c`, `b` and `a`, in that order, and leaves the list
/// holding `s` again; when `s` is empty, a further pop therefore yields no
/// value.
pub proof fn lemma_pop_reverses_pushes<T>(s: Seq<T>, a: T, b: T, c: T)
    ensures
        (seq![c] + (seq![b] + (seq![a] + s)))[0] == c,
        (seq![c] + (seq![b] + (seq![a] + s))).drop_first() == seq![b] + (seq![a] + s),
        (seq![b] + (seq![a] + s))[0] == b,
        (seq![b] + (seq![a] + s)).drop_first() == seq![a] + s,
        (seq![a] + s)[0] == a,
        (seq![a] + s).drop_first() == s,
{
    assert((seq![c] + (seq![b] + (seq![a] + s))).drop_first() =~= seq![b] + (seq![a] + s));
    assert((seq![b] + (seq![a] + s)).drop_first() =~= seq![a] + s);
    assert((seq![a] + s).drop_first() =~= s);
}

/// Overwriting the top value of a non-empty list in place puts the written
/// value at the head and leaves everything behind it untouched, so a later
/// pop returns exactly the written value.
pub proof fn lemma_overwritten_top_is_popped<T>(s: Seq<T>, v: T)
    requires
        s.len() > 0,
    ensures
        s.update(0, v)[0] == v,
        s.update(0, v).drop_first() == s.drop_first(),
{
    assert(s.update(0, v).drop_first() =~= s.drop_first());
}

impl<T> Drop for List<T> {
    /// Detaches and destroys one node per loop step, so the chain is torn
    /// down with constant auxiliary stack instead of one destructor frame
    /// per node.
    fn drop(&mut self)
        opens_invariants none
        no_unwind
    {
        let mut cur: Link<T> = None;
        core::mem::swap(&mut cur, &mut self.head);
        loop
            decreases link_seq(cur).len(),
        {
            match cur {
                None => {
                    break;
                },
                Some(node) => {
                    let node = *node;
                    cur = node.next;
                },
            }
        }
    }
}

} // verus!
