//! Lazy fallback: a substitute value computed only when the primary one is absent.
use vstd::prelude::*;

verus! {

/// The contents of `value` when present; otherwise what `fallback`, invoked
/// exactly once, produces. `fallback` is never invoked on a present value.
pub fn resolve_option<T, F: FnOnce() -> T>(value: Option<T>, fallback: F) -> (r: T)
    requires
        value is None ==> call_requires(fallback, ()),
    ensures
        match value {
            Some(x) => r == x,
            None => call_ensures(fallback, (), r),
        },
{
    match value {
        Some(x) => x,
        None => fallback(),
    }
}

/// The success payload of `value`; on failure, what `fallback` produces when
/// handed the error, invoked exactly once. `fallback` is never invoked on success.
pub fn resolve_result<T, E, F: FnOnce(E) -> T>(value: Result<T, E>, fallback: F) -> (r: T)
    requires
        value matches Err(e) ==> call_requires(fallback, (e,)),
    ensures
        match value {
            Ok(x) => r == x,
            Err(e) => call_ensures(fallback, (e,), r),
        },
{
    match value {
        Ok(x) => x,
        Err(e) => fallback(e),
    }
}

} // verus!
