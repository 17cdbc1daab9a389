//! Ordered traversal of an owned sequence with a mutating callback.
use vstd::prelude::*;

use crate::callback::VisitMut;

verus! {

/// `states` is a run of `n = before.len()` invocations: the `i`-th one, on
/// element `i`, turns `states[i]` into `states[i + 1]` and `before[i]` into `after[i]`.
pub open spec fn update_run<T, V: VisitMut<T>>(states: Seq<V>, before: Seq<T>, after: Seq<T>) -> bool {
    &&& states.len() == before.len() + 1
    &&& after.len() == before.len()
    &&& forall|i: int| 0 <= i < before.len() ==> #[trigger] states[i].updates(before[i], states[i + 1], after[i])
}

/// `op` went from `first` to `last` by visiting each element of `before` once,
/// in ascending index order, leaving `after`.
pub open spec fn traversed<T, V: VisitMut<T>>(first: V, last: V, before: Seq<T>, after: Seq<T>) -> bool {
    exists|states: Seq<V>|
        #[trigger] update_run(states, before, after) && states[0] == first && states.last() == last
}

/// Invokes `op` once on every element of `items`, in ascending index order.
pub fn traverse<T, V: VisitMut<T>>(items: &mut Vec<T>, op: &mut V)
    ensures
        final(items)@.len() == old(items)@.len(),
        traversed(*old(op), *final(op), old(items)@, final(items)@),
{
    let ghost before = items@;
    let ghost mut states: Seq<V> = seq![*op];
    let n = items.len();
    let mut i: usize = 0;
    while i < n
        invariant
            n == before.len(),
            i <= n,
            items@.len() == n,
            states.len() == i + 1,
            states[0] == *old(op),
            states.last() == *op,
            forall|j: int| i <= j < n ==> items@[j] == before[j],
            forall|j: int| 0 <= j < i ==> #[trigger] states[j].updates(before[j], states[j + 1], items@[j]),
        decreases n - i,
    {
        let ghost prev = items@;
        op.visit_mut(&mut items[i]);
        proof {
            states = states.push(*op);
        }
        assert(states[i as int].updates(before[i as int], states[i + 1], items@[i as int]));
        assert(items@ == prev.update(i as int, items@[i as int]));
        i = i + 1;
    }
    assert(update_run(states, before, items@));
}

/// Overwrites each element it is handed with the number of elements handed
/// to it before, counting from `next`.
pub struct Numbering {
    pub next: u64,
}

impl Numbering {
    pub fn new(start: u64) -> (r: Self)
        ensures
            r.next == start,
    {
        Numbering { next: start }
    }
}

impl VisitMut<u64> for Numbering {
    open spec fn updates(&self, before: u64, next: Self, after: u64) -> bool {
        &&& after == self.next
        &&& next.next == if self.next == u64::MAX {
            self.next
        } else {
            (self.next + 1) as u64
        }
    }

    fn visit_mut(&mut self, item: &mut u64) {
        *item = self.next;
        if self.next < u64::MAX {
            self.next = self.next + 1;
        }
    }
}

} // verus!
