use vstd::prelude::*;

verus! {

/// Error taxonomy of the engine.
///
/// `PreconditionFailed` reports an illegal state transition, a campaign
/// without a template, or an empty working set; `NotFound` a missing
/// campaign, template, recipient or tracking row; `InternalError` a failing
/// collaborator on a critical path. A malformed tracking token is never an
/// error: the tracking entry points degrade to a no-op instead.
#[derive(Clone, Copy, Debug, PartialEq, Eq, Structural)]
pub enum EngineError {
    PreconditionFailed,
    NotFound,
    InternalError,
}

impl EngineError {
    /// A short description, usable where a `Display` impl would be.
    pub fn message(&self) -> (r: &'static str)
        ensures
            self is PreconditionFailed ==> r@ == "precondition failed"@,
            self is NotFound ==> r@ == "not found"@,
            self is InternalError ==> r@ == "internal error"@,
    {
        match self {
            EngineError::PreconditionFailed => "precondition failed",
            EngineError::NotFound => "not found",
            EngineError::InternalError => "internal error",
        }
    }
}

} // verus!
