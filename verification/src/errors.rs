use vstd::prelude::*;

verus! {

/// The failure classes of a run. Every class is fatal to the run; activation
/// reporting is the one place where a failure is surfaced without stopping
/// the other activations.
#[derive(Clone, Copy, Debug, PartialEq, Eq, Structural)]
pub enum PimError {
    /// An identity service answered with a non-success response, or transport failed.
    ExternalCallFailure,
    /// A response or cache payload did not match the expected shape.
    DeserializationFailure,
    /// The credential helper failed, returned unparsable output, or required claims were absent.
    TokenIssuerFailure,
    /// The operator's selection was non-numeric or out of the catalog's range.
    UserInputFailure,
}

} // verus!
