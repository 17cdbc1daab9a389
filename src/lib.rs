//! Callback capability contracts: ordered traversal, in-place filtering,
//! lazy fallback and single-use gated consumption, each with the number,
//! order and effect of the callback's invocations stated and proved.
pub mod callback;
pub mod traverse;
pub mod retain;
pub mod explore;
pub mod fallback;
pub mod vault;
