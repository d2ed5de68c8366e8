use vstd::prelude::*;
use vstd::string::StringExecFns;

verus! {

/// The fatal conditions of the binding layer. A recoverable condition
/// (missing or mis-typed argument, no matching node) never surfaces as an
/// error: it yields the empty-object result instead.
#[derive(Debug, Clone, Copy, PartialEq, Eq, Structural)]
pub enum HostError {
    /// The selector string does not parse; aborts the script evaluation.
    InvalidSelector,
    /// The document guard was poisoned by a failure under exclusive access;
    /// never retried.
    Poisoned,
    /// The script runtime rejected a global or property registration;
    /// fatal to context construction.
    Registration,
}

impl HostError {
    /// A human-readable message; the only structure an escaping error carries.
    pub fn message(&self) -> (r: String)
        ensures
            (match self {
                HostError::InvalidSelector => r@ == "invalid selector"@,
                HostError::Poisoned => r@ == "document guard poisoned"@,
                HostError::Registration => r@ == "global registration failed"@,
            }),
    {
        match self {
            HostError::InvalidSelector => String::from_str("invalid selector"),
            HostError::Poisoned => String::from_str("document guard poisoned"),
            HostError::Registration => String::from_str("global registration failed"),
        }
    }
}


} // verus!
