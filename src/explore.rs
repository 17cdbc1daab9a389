//! Read-only exploration of a borrowed list of locations with a mutating callback.
use vstd::prelude::*;

use crate::callback::Visit;

verus! {

/// A named place holding some treasure.
pub struct Location {
    pub name: String,
    pub treasure: i32,
}

/// A borrowed view of a list of locations.
pub struct TreasureMap<'a> {
    pub location: &'a [Location],
}

/// `states` is a run of `n = items.len()` invocations: the `i`-th one, on
/// element `i`, turns `states[i]` into `states[i + 1]`.
pub open spec fn visit_run<T, V: Visit<T>>(states: Seq<V>, items: Seq<T>) -> bool {
    &&& states.len() == items.len() + 1
    &&& forall|i: int| 0 <= i < items.len() ==> #[trigger] states[i].visits(items[i], states[i + 1])
}

/// `action` went from `first` to `last` by visiting each element of `items`
/// once, in ascending index order.
pub open spec fn visited_all<T, V: Visit<T>>(first: V, last: V, items: Seq<T>) -> bool {
    exists|states: Seq<V>| #[trigger] visit_run(states, items) && states[0] == first && states.last() == last
}

impl<'a> TreasureMap<'a> {
    /// Shows `action` every location once, in order; an empty map is
    /// explored without any invocation.
    pub fn explore<V: Visit<Location>>(&self, action: &mut V)
        ensures
            visited_all(*old(action), *final(action), self.location@),
    {
        let ghost mut states: Seq<V> = seq![*action];
        let n = self.location.len();
        let mut current_index: usize = 0;
        while current_index < n
            invariant
                n == self.location@.len(),
                current_index <= n,
                states.len() == current_index + 1,
                states[0] == *old(action),
                states.last() == *action,
                forall|j: int| 0 <= j < current_index ==> #[trigger] states[j].visits(self.location@[j], states[j + 1]),
            decreases n - current_index,
        {
            action.visit(&self.location[current_index]);
            proof {
                states = states.push(*action);
            }
            current_index = current_index + 1;
        }
        assert(visit_run(states, self.location@));
    }
}

/// Collects the name of every location it is shown, in order.
pub struct CityNames {
    pub names: Vec<String>,
}

impl CityNames {
    pub fn new() -> (r: Self)
        ensures
            r.names@ == Seq::<String>::empty(),
    {
        CityNames { names: Vec::new() }
    }
}

impl Visit<Location> for CityNames {
    open spec fn visits(&self, item: Location, next: Self) -> bool {
        &&& next.names@.len() == self.names@.len() + 1
        &&& next.names@.drop_last() == self.names@
        &&& next.names@.last()@ == item.name@
    }

    fn visit(&mut self, item: &Location) {
        let ghost prev = self.names@;
        self.names.push(item.name.clone());
        assert(self.names@.drop_last() =~= prev);
    }
}

} // verus!
