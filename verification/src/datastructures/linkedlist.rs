//! A singly linked stack of `i32`.
//!
//! Each node owns the rest of the list through a `Box`, so the list is a
//! chain of heap cells with the most recently pushed element at the head.

use vstd::prelude::*;

verus! {

/// A stack of integers. Its view is the sequence of its elements, the head
/// first.
#[derive(Debug)]
pub struct List {
    head: Link,
}

#[derive(Debug)]
enum Link {
    Empty,
    More(Box<Node>),
}

#[derive(Debug)]
struct Node {
    elem: i32,
    next: Link,
}

impl Link {
    /// The elements reachable from this link, nearest first.
    spec fn elems(self) -> Seq<i32>
        decreases self,
    {
        match self {
            Link::Empty => Seq::empty(),
            Link::More(node) => seq![node.elem] + node.next.elems(),
        }
    }
}

impl View for List {
    type V = Seq<i32>;

    closed spec fn view(&self) -> Seq<i32> {
        self.head.elems()
    }
}

impl List {
    /// The empty list.
    pub fn new() -> (list: Self)
        ensures
            list@ == Seq::<i32>::empty(),
    {
        List { head: Link::Empty }
    }

    /// Puts `elem` in front of the elements already held.
    pub fn push(&mut self, elem: i32)
        ensures
            final(self)@ == seq![elem] + old(self)@,
    {
        let mut rest = Link::Empty;
        core::mem::swap(&mut self.head, &mut rest);
        let new_node = Box::new(Node { elem: elem, next: rest });
        self.head = Link::More(new_node);
    }

    /// Takes the head off the list and returns it; `None` on the empty list,
    /// which stays empty.
    pub fn pop(&mut self) -> (popped: Option<i32>)
        ensures
            old(self)@.len() == 0 ==> popped.is_none(),
            old(self)@.len() == 0 ==> final(self)@ == old(self)@,
            old(self)@.len() > 0 ==> popped == Some(old(self)@.first()),
            old(self)@.len() > 0 ==> final(self)@ == old(self)@.drop_first(),
    {
        let mut head = Link::Empty;
        core::mem::swap(&mut self.head, &mut head);
        match head {
            Link::Empty => None,
            Link::More(node) => {
                let node = *node;
                self.head = node.next;
                assert(final(self)@ =~= old(self)@.drop_first());
                Some(node.elem)
            },
        }
    }
}

/// A list that holds the single element 3.
pub fn declare_linked_list() -> (list: List)
    ensures
        list@ == seq![3i32],
{
    let mut list = List::new();
    list.push(3);
    assert(list@ =~= seq![3i32]);
    list
}

} // verus!
