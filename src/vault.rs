//! Gated consumption: a single, destructive attempt to trade a secret for a payload.
use vstd::prelude::*;

verus! {

/// A payload (`treasure`) protected by a secret (`password`).
pub struct Vault {
    pub password: String,
    pub treasure: String,
}

impl Vault {
    /// What an attempt with `candidate` yields: the treasure when it equals
    /// the password, nothing otherwise.
    pub open spec fn outcome(self, candidate: Seq<char>) -> Option<String> {
        if candidate == self.password@ {
            Some(self.treasure)
        } else {
            None
        }
    }

    /// Consumes the vault with the credential `candidate`: moves the
    /// treasure out when it matches the password, discards it otherwise.
    pub fn open_with(self, candidate: String) -> (r: Option<String>)
        ensures
            r == self.outcome(candidate@),
    {
        if candidate == self.password {
            Some(self.treasure)
        } else {
            None
        }
    }

    /// Consumes the vault: invokes `procedure` exactly once for a credential
    /// and yields the treasure if and only if it equals the password.
    pub fn unlock<F: FnOnce() -> String>(self, procedure: F) -> (r: Option<String>)
        requires
            call_requires(procedure, ()),
        ensures
            exists|candidate: String| #[trigger] call_ensures(procedure, (), candidate) && r == self.outcome(candidate@),
    {
        let user_password = procedure();
        self.open_with(user_password)
    }
}

} // verus!
