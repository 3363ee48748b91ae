//! The failure surface of the four transitions. Every error is terminal: a
//! rejected transition leaves no observable state change, and resubmission is
//! the caller's business.

use vstd::prelude::*;

verus! {

/// The rule-level error kinds that the transition logic itself raises.
#[derive(Clone, Copy, Debug, PartialEq, Eq, Structural)]
pub enum ForensicError {
    /// A transition requiring an `Open` case was attempted on a non-open one.
    CaseClosed,
    /// The caller identity does not match the required authority.
    Unauthorized,
    /// Reserved for malformed evidence-type input; no current transition
    /// raises it.
    InvalidEvidenceType,
}

/// Everything a transition can be rejected with: a rule violation raised by
/// the handler itself, or a host-level rejection of the requested allocation
/// or of an over-budget field.
#[derive(Clone, Copy, Debug, PartialEq, Eq, Structural)]
pub enum TransitionError {
    /// A precondition of the transition rules failed.
    Rule(ForensicError),
    /// The derived address for a record to be created is already occupied.
    RecordExists,
    /// No record lives at the addressed location.
    RecordMissing,
    /// A field exceeds its fixed byte budget.
    OverLength,
    /// The evidence counter cannot be incremented without wrapping.
    CounterOverflow,
}

} // verus!
