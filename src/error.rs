use vstd::prelude::*;

verus! {

/// Why one arbitrage attempt was abandoned.
#[derive(Clone, Copy, Debug, PartialEq, Eq, Structural)]
pub enum ArbError {
    /// The buy leg does not start from the native asset.
    UnsupportedDirection,
    /// The quoting service failed to answer.
    QuoteUnavailable,
    /// Account resolution or message compilation failed.
    CompilationFailed,
    /// The payer could not sign.
    SigningFailed,
    /// The relay rejected the bundle.
    SubmissionFailed,
    /// No landed status was seen before the deadline; the bundle may still land.
    ConfirmationTimeout,
}

} // verus!
