//! In-place filtering of an owned sequence with a mutating predicate.
use vstd::prelude::*;

use crate::callback::Keep;

verus! {

/// The elements of `s` whose verdict in `kept` is `true`, in their order in `s`.
pub open spec fn select<T>(s: Seq<T>, kept: Seq<bool>) -> Seq<T>
    decreases s.len(),
{
    if s.len() == 0 {
        seq![]
    } else {
        let rest = select(s.drop_last(), kept.drop_last());
        if kept[s.len() - 1] {
            rest.push(s.last())
        } else {
            rest
        }
    }
}

/// How many verdicts in `kept` are `false`.
pub open spec fn rejections(kept: Seq<bool>) -> nat
    decreases kept.len(),
{
    if kept.len() == 0 {
        0
    } else {
        rejections(kept.drop_last()) + if kept.last() { 0nat } else { 1nat }
    }
}

/// `states` is a run of `n = items.len()` invocations: the `i`-th one, on
/// element `i`, turns `states[i]` into `states[i + 1]` and answers `kept[i]`.
pub open spec fn decision_run<T, K: Keep<T>>(states: Seq<K>, items: Seq<T>, kept: Seq<bool>) -> bool {
    &&& states.len() == items.len() + 1
    &&& kept.len() == items.len()
    &&& forall|i: int| 0 <= i < items.len() ==> #[trigger] states[i].decides(items[i], states[i + 1], kept[i])
}

/// `pred` went from `first` to `last` by deciding on each element of
/// `before` once, in ascending index order, and `after` holds exactly the
/// elements on which it answered `true`, in their original order.
pub open spec fn retained<T, K: Keep<T>>(first: K, last: K, before: Seq<T>, after: Seq<T>) -> bool {
    exists|states: Seq<K>, kept: Seq<bool>|
        #[trigger] decision_run(states, before, kept) && states[0] == first && states.last() == last
            && after == select(before, kept)
}

/// Exchanges the elements at `lo` and `hi`.
fn swap_items<T>(v: &mut Vec<T>, lo: usize, hi: usize)
    requires
        lo < hi < old(v).len(),
    ensures
        final(v)@ == old(v)@.update(lo as int, old(v)@[hi as int]).update(hi as int, old(v)@[lo as int]),
{
    let s = v.as_mut_slice();
    let (front, back) = s.split_at_mut(hi);
    let (head, _) = front.split_at_mut(lo + 1);
    let a = head.last_mut().unwrap();
    let b = back.first_mut().unwrap();
    core::mem::swap(a, b);
}

/// Keeps the elements of `items` on which `pred` answers `true`, in order,
/// asking `pred` once about each element, in ascending index order.
pub fn retain<T, K: Keep<T>>(items: &mut Vec<T>, pred: &mut K)
    ensures
        retained(*old(pred), *final(pred), old(items)@, final(items)@),
{
    let ghost before = items@;
    let ghost mut states: Seq<K> = seq![*pred];
    let ghost mut kept: Seq<bool> = seq![];
    let n = items.len();
    let mut w: usize = 0;
    let mut i: usize = 0;
    while i < n
        invariant
            n == before.len(),
            w <= i <= n,
            items@.len() == n,
            states.len() == i + 1,
            kept.len() == i,
            states[0] == *old(pred),
            states.last() == *pred,
            forall|j: int| i <= j < n ==> items@[j] == before[j],
            forall|j: int| 0 <= j < i ==> #[trigger] states[j].decides(before[j], states[j + 1], kept[j]),
            items@.take(w as int) == select(before.take(i as int), kept),
        decreases n - i,
    {
        let k = pred.keep(&items[i]);
        let ghost prev_kept = kept;
        proof {
            states = states.push(*pred);
            kept = kept.push(k);
            assert(before.take(i + 1).drop_last() =~= before.take(i as int));
            assert(kept.drop_last() =~= prev_kept);
            assert(before.take(i + 1).last() == before[i as int]);
        }
        if k {
            let ghost prev = items@;
            if w < i {
                swap_items(items, w, i);
            }
            assert(items@.take(w + 1) =~= prev.take(w as int).push(before[i as int]));
            w = w + 1;
        }
        i = i + 1;
    }
    items.truncate(w);
    assert(before.take(n as int) == before);
    assert(decision_run(states, before, kept));
}

/// Filtering partitions: each element is either kept or rejected, never
/// both and never neither, so the kept elements and the rejections add up
/// to the original length.
pub proof fn select_partitions<T>(s: Seq<T>, kept: Seq<bool>)
    requires
        kept.len() == s.len(),
    ensures
        select(s, kept).len() + rejections(kept) == s.len(),
    decreases s.len(),
{
    if s.len() > 0 {
        select_partitions(s.drop_last(), kept.drop_last());
    }
}

/// After `retain`, the length of the output plus the number of times the
/// predicate answered `false` is the length of the input, and the output is
/// the subsequence on which it answered `true`.
pub proof fn retain_partitions<T, K: Keep<T>>(first: K, last: K, before: Seq<T>, after: Seq<T>)
    requires
        retained(first, last, before, after),
    ensures
        exists|states: Seq<K>, kept: Seq<bool>|
            #[trigger] decision_run(states, before, kept) && states[0] == first && states.last() == last
                && after == select(before, kept) && after.len() + rejections(kept) == before.len(),
{
    let (states, kept) = choose|states: Seq<K>, kept: Seq<bool>|
        #[trigger] decision_run(states, before, kept) && states[0] == first && states.last() == last
            && after == select(before, kept);
    select_partitions(before, kept);
    assert(decision_run(states, before, kept));
}

/// A read-only predicate used where a mutating one is expected: it holds
/// no state that an invocation could change.
pub struct Predicate<T, F: Fn(&T) -> bool> {
    f: F,
    item: core::marker::PhantomData<T>,
}

impl<T, F: Fn(&T) -> bool> Predicate<T, F> {
    #[verifier::type_invariant]
    spec fn callable(self) -> bool {
        forall|x: T| call_requires(self.f, (&x,))
    }

    /// The behaviour this predicate runs.
    pub closed spec fn behaviour(self) -> F {
        self.f
    }

    pub fn new(f: F) -> (r: Self)
        requires
            forall|x: T| call_requires(f, (&x,)),
        ensures
            r.behaviour() == f,
    {
        Predicate { f, item: core::marker::PhantomData }
    }
}

impl<T, F: Fn(&T) -> bool> Keep<T> for Predicate<T, F> {
    open spec fn decides(&self, item: T, next: Self, kept: bool) -> bool {
        &&& call_ensures(self.behaviour(), (&item,), kept)
        &&& next == *self
    }

    fn keep(&mut self, item: &T) -> (kept: bool) {
        proof {
            use_type_invariant(&*self);
        }
        (self.f)(item)
    }
}

/// Keeps the odd numbers and counts the rejected even ones.
pub struct KeepOdd {
    pub rejected: u64,
}

impl KeepOdd {
    pub fn new() -> (r: Self)
        ensures
            r.rejected == 0,
    {
        KeepOdd { rejected: 0 }
    }
}

impl Keep<i64> for KeepOdd {
    open spec fn decides(&self, item: i64, next: Self, kept: bool) -> bool {
        &&& kept == (item % 2 != 0)
        &&& next.rejected == if kept || self.rejected == u64::MAX {
            self.rejected
        } else {
            (self.rejected + 1) as u64
        }
    }

    fn keep(&mut self, item: &i64) -> (kept: bool) {
        let kept = *item % 2 != 0;
        if !kept && self.rejected < u64::MAX {
            self.rejected = self.rejected + 1;
        }
        kept
    }
}

/// Keeps every character but `target`, and appends each occurrence of
/// `target` to the sink `diverted` before rejecting it.
pub struct DivertChar {
    pub target: char,
    pub diverted: Vec<char>,
}

impl DivertChar {
    pub fn new(target: char) -> (r: Self)
        ensures
            r.target == target,
            r.diverted@ == Seq::<char>::empty(),
    {
        DivertChar { target, diverted: Vec::new() }
    }
}

impl Keep<char> for DivertChar {
    open spec fn decides(&self, item: char, next: Self, kept: bool) -> bool {
        &&& kept == (item != self.target)
        &&& next.target == self.target
        &&& next.diverted@ == if kept {
            self.diverted@
        } else {
            self.diverted@.push(item)
        }
    }

    fn keep(&mut self, item: &char) -> (kept: bool) {
        if *item != self.target {
            true
        } else {
            self.diverted.push(*item);
            false
        }
    }
}

} // verus!
