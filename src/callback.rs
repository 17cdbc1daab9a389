//! The three capability tiers of an injected behaviour.
//!
//! Read-only behaviours are Rust's `Fn` and consuming ones `FnOnce`: their
//! contracts are stated with `call_requires` / `call_ensures`. A mutating
//! behaviour carries its captured state in the handle itself and describes
//! each invocation as a transition from the handle before the call to the
//! handle after it, so that a caller can state how often, and in which
//! order, it was invoked.
use vstd::prelude::*;

verus! {

/// A mutating behaviour handed a mutable view of one element.
pub trait VisitMut<T>: Sized {
    /// One invocation may turn `self` into `next` and the element `before` into `after`.
    spec fn updates(&self, before: T, next: Self, after: T) -> bool;

    fn visit_mut(&mut self, item: &mut T)
        ensures
            old(self).updates(*old(item), *final(self), *final(item)),
    ;
}

/// A mutating behaviour handed a shared view of one element.
pub trait Visit<T>: Sized {
    /// One invocation on `item` may turn `self` into `next`.
    spec fn visits(&self, item: T, next: Self) -> bool;

    fn visit(&mut self, item: &T)
        ensures
            old(self).visits(*item, *final(self)),
    ;
}

/// A mutating predicate: decides whether an element is kept.
pub trait Keep<T>: Sized {
    /// One invocation on `item` may answer `kept` and turn `self` into `next`.
    spec fn decides(&self, item: T, next: Self, kept: bool) -> bool;

    fn keep(&mut self, item: &T) -> (kept: bool)
        ensures
            old(self).decides(*item, *final(self), kept),
    ;
}

/// A mutating behaviour that takes no argument.
pub trait Action: Sized {
    /// One invocation may turn `self` into `next`.
    spec fn acts(&self, next: Self) -> bool;

    fn act(&mut self)
        ensures
            old(self).acts(*final(self)),
    ;
}

/// Each state of `states` is reached from the one before it by one invocation.
pub open spec fn action_run<A: Action>(states: Seq<A>) -> bool {
    forall|i: int| 0 <= i < states.len() - 1 ==> #[trigger] states[i].acts(states[i + 1])
}

/// `action` can go from `first` to `last` in exactly `n` invocations.
pub open spec fn acted<A: Action>(first: A, last: A, n: nat) -> bool {
    exists|states: Seq<A>|
        #[trigger] action_run(states) && states.len() == n + 1 && states[0] == first && states.last() == last
}

/// Invokes `action` three times in a row.
fn act_three_times<A: Action>(action: &mut A)
    ensures
        acted(*old(action), *final(action), 3),
{
    let ghost s0 = *action;
    action.act();
    let ghost s1 = *action;
    action.act();
    let ghost s2 = *action;
    action.act();
    let ghost states = seq![s0, s1, s2, *action];
    assert(states[0].acts(states[1]));
    assert(states[1].acts(states[2]));
    assert(states[2].acts(states[3]));
    assert(action_run(states));
}

/// Records a working day: invokes `duration` three times.
pub fn working_time<A: Action>(duration: &mut A)
    ensures
        acted(*old(duration), *final(duration), 3),
{
    act_three_times(duration)
}

/// Serves fruit three times: invokes `fruit_type` three times.
pub fn fruits<A: Action>(fruit_type: &mut A)
    ensures
        acted(*old(fruit_type), *final(fruit_type), 3),
{
    act_three_times(fruit_type)
}

/// Appends the same number of hours to a log on every invocation.
pub struct HourLog {
    pub hours: u64,
    pub log: Vec<u64>,
}

impl HourLog {
    pub fn new(hours: u64) -> (r: Self)
        ensures
            r.hours == hours,
            r.log@ == Seq::<u64>::empty(),
    {
        HourLog { hours, log: Vec::new() }
    }
}

impl Action for HourLog {
    open spec fn acts(&self, next: Self) -> bool {
        &&& next.hours == self.hours
        &&& next.log@ == self.log@.push(self.hours)
    }

    fn act(&mut self) {
        self.log.push(self.hours);
    }
}

/// Invokes the consuming behaviour `f` once and hands back its result.
pub fn call_once<F: FnOnce() -> i32>(f: F) -> (r: i32)
    requires
        call_requires(f, ()),
    ensures
        call_ensures(f, (), r),
{
    f()
}

/// Invokes the consuming behaviour `closure` once.
pub fn execute_once<F: FnOnce()>(closure: F)
    requires
        call_requires(closure, ()),
    ensures
        call_ensures(closure, (), ()),
{
    closure()
}

/// Invokes the consuming behaviour `f` once and hands back the string it produced.
pub fn run_once<F: FnOnce() -> String>(f: F) -> (r: String)
    requires
        call_requires(f, ()),
    ensures
        call_ensures(f, (), r),
{
    f()
}

/// Why invoking a handle failed.
#[derive(Debug, PartialEq, Eq, Structural)]
pub enum CallbackError {
    /// The handle had already been invoked once.
    ReuseOfConsumedCallback,
}

/// A consuming behaviour with a run-time "spent" flag: it can be invoked
/// through `&mut`, yet runs at most once.
pub enum OnceHandle<F> {
    Unused(F),
    Spent,
}

/// What `invoke` may do: `before` ends up spent; an unused handle runs its
/// behaviour and yields what it produced, a spent one yields the error.
pub open spec fn invoked<R, F: FnOnce() -> R>(before: OnceHandle<F>, after: OnceHandle<F>, r: Result<R, CallbackError>) -> bool {
    &&& after is Spent
    &&& match before {
        OnceHandle::Unused(f) => r is Ok && call_ensures(f, (), r->Ok_0),
        OnceHandle::Spent => r == Err::<R, CallbackError>(CallbackError::ReuseOfConsumedCallback),
    }
}

impl<F> OnceHandle<F> {
    pub fn new(f: F) -> (r: Self)
        ensures
            r == OnceHandle::Unused(f),
    {
        OnceHandle::Unused(f)
    }

    pub fn is_spent(&self) -> (r: bool)
        ensures
            r == self is Spent,
    {
        match self {
            OnceHandle::Unused(_) => false,
            OnceHandle::Spent => true,
        }
    }

    /// Runs the behaviour if it has not run yet; refuses otherwise.
    pub fn invoke<R>(&mut self) -> (r: Result<R, CallbackError>)
        where
            F: FnOnce() -> R,
        requires
            *old(self) matches OnceHandle::Unused(f) ==> call_requires(f, ()),
        ensures
            invoked(*old(self), *final(self), r),
    {
        let mut state = OnceHandle::Spent;
        core::mem::swap(self, &mut state);
        match state {
            OnceHandle::Unused(f) => Ok(f()),
            OnceHandle::Spent => Err(CallbackError::ReuseOfConsumedCallback),
        }
    }
}

/// A consuming handle runs at most once: whatever its first invocation did,
/// a second invocation is refused with `ReuseOfConsumedCallback`, and the
/// handle stays spent.
pub proof fn second_invocation_refused<R, F: FnOnce() -> R>(
    h0: OnceHandle<F>,
    h1: OnceHandle<F>,
    h2: OnceHandle<F>,
    r1: Result<R, CallbackError>,
    r2: Result<R, CallbackError>,
)
    requires
        invoked(h0, h1, r1),
        invoked(h1, h2, r2),
    ensures
        r2 == Err::<R, CallbackError>(CallbackError::ReuseOfConsumedCallback),
        h2 is Spent,
{
}

} // verus!
