use vstd::prelude::*;

verus! {

/// Rejection kinds for curve operations. Every rejection is total: the
/// operation leaves the curve state untouched and no settlement is produced.
#[derive(Clone, Copy, Debug, PartialEq, Eq, Structural)]
pub enum ClawdVaultError {
    /// A checked arithmetic step on the 64-bit reserve fields would overflow,
    /// or a divisor would be zero.
    MathOverflow,
    /// The computed output violates the caller's stated minimum.
    SlippageExceeded,
    /// Buy or sell attempted after the curve permanently left active trading.
    AlreadyGraduated,
    /// A real-reserve decrement would underflow (defensive invariant check).
    InsufficientFunds,
    /// Create attempted for an asset that already has a curve.
    DuplicateCurve,
}

} // verus!
