//! An owned, singly linked LIFO list of `i32`.
//!
//! The list owns its whole chain of nodes. Every change of ownership moves
//! a link out of its slot and leaves `None` in its place (`Option::take`, or
//! `mem::swap` with an empty link), so a node never has two owners. Dropping a list detaches the nodes
//! one at a time in a loop, so that teardown does not recurse once per node.

use vstd::prelude::*;

verus! {

/// Either nothing (the end of the chain) or the next node, owned.
type Link = Option<Box<Node>>;

struct Node {
    elem: i32,
    next: Link,
}

/// The elements of the chain that starts at `link`, from the deepest node
/// up to `link` itself, which comes last.
spec fn link_view(link: Link) -> Seq<i32>
    decreases link,
{
    match link {
        None => Seq::empty(),
        Some(node) => link_view(node.next).push(node.elem),
    }
}

/// A stack of `i32` held as a chain of owned nodes.
pub struct List {
    head: Link,
}

impl View for List {
    type V = Seq<i32>;

    /// The elements in the order they were pushed: the head of the chain,
    /// the element that `pop` returns next, is the last one.
    closed spec fn view(&self) -> Seq<i32> {
        link_view(self.head)
    }
}

/// What a list holding `s` holds once `elem` is pushed.
pub open spec fn pushed(s: Seq<i32>, elem: i32) -> Seq<i32> {
    s.push(elem)
}

/// What `pop` returns on a list holding `s`.
pub open spec fn popped_value(s: Seq<i32>) -> Option<i32> {
    if s.len() == 0 {
        None
    } else {
        Some(s.last())
    }
}

/// What a list holding `s` holds after one `pop`.
pub open spec fn popped_rest(s: Seq<i32>) -> Seq<i32> {
    if s.len() == 0 {
        s
    } else {
        s.drop_last()
    }
}

impl List {
    /// An empty list.
    pub fn new() -> (list: Self)
        ensures
            list@ == Seq::<i32>::empty(),
    {
        List { head: None }
    }

    /// Puts `elem` in front of the chain; it becomes the next one popped.
    pub fn push(&mut self, elem: i32)
        ensures
            final(self)@ == pushed(old(self)@, elem),
    {
        let new_node = Box::new(Node { elem, next: self.head.take() });
        self.head = Some(new_node);
    }

    /// Takes the element most recently pushed, or `None` when the list is
    /// empty, in which case the list stays as it is.
    pub fn pop(&mut self) -> (r: Option<i32>)
        ensures
            r == popped_value(old(self)@),
            final(self)@ == popped_rest(old(self)@),
    {
        match self.head.take() {
            None => None,
            Some(node) => {
                self.head = node.next;
                Some(node.elem)
            },
        }
    }
}

/// Releases the chain that starts at `link` one node per turn of a loop:
/// each node's `next` link is detached before the node itself is released,
/// so releasing it does not reach further down, and the stack stays the
/// same height whatever the length of the chain. Returns how many nodes
/// were detached: one for each element of the chain.
fn release_chain(link: Link) -> (detached: Ghost<nat>)
    ensures
        detached@ == link_view(link).len(),
    opens_invariants none
    no_unwind
{
    let mut cur_link = link;
    let ghost mut count: nat = 0;
    loop
        invariant_except_break
            count + link_view(cur_link).len() == link_view(link).len(),
        ensures
            count == link_view(link).len(),
        decreases link_view(cur_link).len(),
    {
        match cur_link {
            None => break,
            Some(mut boxed_node) => {
                // `mem::swap` rather than `take`: this runs inside `drop`,
                // which may only call what can neither unwind nor open an
                // invariant, and `swap` is known for both.
                let mut next: Link = None;
                core::mem::swap(&mut boxed_node.next, &mut next);
                cur_link = next;
                proof {
                    count = count + 1;
                }
            },
        }
    }
    Ghost(count)
}

impl Drop for List {
    /// Takes the whole chain out of the list, leaving it empty, and releases
    /// it node by node.
    fn drop(&mut self)
        ensures
            final(self)@ == Seq::<i32>::empty(),
        opens_invariants none
        no_unwind
    {
        let mut chain: Link = None;
        core::mem::swap(&mut self.head, &mut chain);
        release_chain(chain);
    }
}

/// What a list holding `s` holds once each of `vs` is pushed, first to last.
pub open spec fn after_pushes(s: Seq<i32>, vs: Seq<i32>) -> Seq<i32>
    decreases vs.len(),
{
    if vs.len() == 0 {
        s
    } else {
        after_pushes(pushed(s, vs[0]), vs.drop_first())
    }
}

/// What `n` pops in a row return on a list holding `s`, in the order returned.
pub open spec fn pop_values(s: Seq<i32>, n: nat) -> Seq<Option<i32>>
    decreases n,
{
    if n == 0 {
        Seq::empty()
    } else {
        seq![popped_value(s)] + pop_values(popped_rest(s), (n - 1) as nat)
    }
}

/// What a list holding `s` holds after `n` pops in a row.
pub open spec fn after_pops(s: Seq<i32>, n: nat) -> Seq<i32>
    decreases n,
{
    if n == 0 {
        s
    } else {
        after_pops(popped_rest(s), (n - 1) as nat)
    }
}

proof fn lemma_after_pushes_appends(s: Seq<i32>, vs: Seq<i32>)
    ensures
        after_pushes(s, vs) == s + vs,
    decreases vs.len(),
{
    if vs.len() > 0 {
        lemma_after_pushes_appends(s.push(vs[0]), vs.drop_first());
        assert(s.push(vs[0]) + vs.drop_first() =~= s + vs);
    }
}

proof fn lemma_pops_take_suffix_back(s: Seq<i32>, vs: Seq<i32>)
    ensures
        pop_values(s + vs, vs.len()).len() == vs.len(),
        forall|i: int|
            0 <= i < vs.len() ==> #[trigger] pop_values(s + vs, vs.len())[i] == Some(
                vs[vs.len() - 1 - i],
            ),
        after_pops(s + vs, vs.len()) == s,
    decreases vs.len(),
{
    if vs.len() == 0 {
        assert(s + vs =~= s);
    } else {
        let n = vs.len();
        let rest = vs.drop_last();
        assert((s + vs).drop_last() =~= s + rest);
        lemma_pops_take_suffix_back(s, rest);
        let tail = pop_values(s + rest, rest.len());
        assert(pop_values(s + vs, n) == seq![Some(vs.last())] + tail);
        assert forall|i: int| 0 <= i < n implies #[trigger] pop_values(s + vs, n)[i] == Some(
            vs[n - 1 - i],
        ) by {
            if i > 0 {
                assert(tail[i - 1] == Some(rest[rest.len() - 1 - (i - 1)]));
            }
        }
    }
}

/// Pushing `vs` and then popping as many times returns the values of `vs`
/// last to first, and leaves the list as it was before the pushes.
pub proof fn lemma_pushes_then_pops_reverse(s: Seq<i32>, vs: Seq<i32>)
    ensures
        pop_values(after_pushes(s, vs), vs.len()).len() == vs.len(),
        forall|i: int|
            0 <= i < vs.len() ==> #[trigger] pop_values(after_pushes(s, vs), vs.len())[i] == Some(
                vs[vs.len() - 1 - i],
            ),
        after_pops(after_pushes(s, vs), vs.len()) == s,
{
    lemma_after_pushes_appends(s, vs);
    lemma_pops_take_suffix_back(s, vs);
}

/// Popping an empty list returns nothing and leaves it empty, however many
/// times it is done.
pub proof fn lemma_pop_empty_stays_empty(n: nat)
    ensures
        popped_value(Seq::empty()) == None::<i32>,
        popped_rest(Seq::empty()) == Seq::<i32>::empty(),
        pop_values(Seq::empty(), n).len() == n,
        forall|i: int| 0 <= i < n ==> #[trigger] pop_values(Seq::empty(), n)[i] == None::<i32>,
        after_pops(Seq::empty(), n) == Seq::<i32>::empty(),
    decreases n,
{
    if n > 0 {
        lemma_pop_empty_stays_empty((n - 1) as nat);
        let tail = pop_values(Seq::empty(), (n - 1) as nat);
        assert forall|i: int| 0 <= i < n implies #[trigger] pop_values(Seq::empty(), n)[i]
            == None::<i32> by {
            if i > 0 {
                assert(tail[i - 1] == None::<i32>);
            }
        }
    }
}

/// Starting empty, as many pops as pushes leave the list empty, and the
/// next pop returns nothing.
pub proof fn lemma_pushes_then_pops_drain(vs: Seq<i32>)
    ensures
        after_pops(after_pushes(Seq::empty(), vs), vs.len()) == Seq::<i32>::empty(),
        popped_value(after_pops(after_pushes(Seq::empty(), vs), vs.len())) == None::<i32>,
{
    lemma_pushes_then_pops_reverse(Seq::empty(), vs);
}

/// A pop right after a push returns the value pushed and restores the list.
pub proof fn lemma_push_then_pop_round_trip(s: Seq<i32>, v: i32)
    ensures
        popped_value(pushed(s, v)) == Some(v),
        popped_rest(pushed(s, v)) == s,
{
    assert(s.push(v).drop_last() =~= s);
}

} // verus!
