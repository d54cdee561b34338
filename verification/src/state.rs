use vstd::prelude::*;

verus! {

/// Real base-currency level (in base units) at which a curve graduates.
pub const GRADUATION_THRESHOLD: u64 = 69_000_000_000;

/// Fee in basis points taken from the traded base-currency amount.
pub const FEE_BPS: u64 = 100;

/// Synthetic base-currency reserve a fresh curve starts with.
pub const INITIAL_VIRTUAL_SOL: u64 = 30_000_000_000;

/// Synthetic token reserve a fresh curve starts with; also the fixed total
/// supply the curve represents.
pub const INITIAL_VIRTUAL_TOKENS: u64 = 1_073_000_000_000_000;

/// The persistent record of one bonding curve: reserves and status.
///
/// `creator` and `mint` are opaque identity handles assigned by the
/// surrounding account layer; the core only stores and compares them.
#[derive(Clone, Copy, Debug, PartialEq, Eq, Structural)]
pub struct BondingCurve {
    /// Account that initialized the curve.
    pub creator: u64,
    /// The fungible token this curve prices.
    pub mint: u64,
    /// Synthetic base-currency reserve used for pricing, never withdrawable.
    pub virtual_sol_reserves: u64,
    /// Synthetic token reserve used for pricing.
    pub virtual_token_reserves: u64,
    /// Actual base currency collected, net of fees, backing redemptions.
    pub real_sol_reserves: u64,
    /// Actual token units still held by the curve.
    pub real_token_reserves: u64,
    /// Fixed total token units represented at creation.
    pub token_total_supply: u64,
    /// True once the curve has permanently left active trading.
    pub graduated: bool,
}

impl BondingCurve {
    /// The virtual token reserve mirrors the real token reserve. This holds
    /// at creation and is preserved by every accepted buy and sell, and it
    /// makes the defensive `InsufficientFunds` check in `buy` unreachable.
    pub open spec fn reserves_in_sync(self) -> bool {
        self.virtual_token_reserves == self.real_token_reserves
    }
}

/// The state a fresh curve starts in.
pub open spec fn initial_curve(creator: u64, mint: u64) -> BondingCurve {
    BondingCurve {
        creator: creator,
        mint: mint,
        virtual_sol_reserves: INITIAL_VIRTUAL_SOL,
        virtual_token_reserves: INITIAL_VIRTUAL_TOKENS,
        real_sol_reserves: 0,
        real_token_reserves: INITIAL_VIRTUAL_TOKENS,
        token_total_supply: INITIAL_VIRTUAL_TOKENS,
        graduated: false,
    }
}

/// Initialize a curve for a new token: virtual reserves at their launch
/// values, no real base collected yet, the whole supply held by the curve,
/// active trading enabled.
pub fn create_token(creator: u64, mint: u64) -> (curve: BondingCurve)
    ensures
        curve == initial_curve(creator, mint),
        curve.reserves_in_sync(),
        !curve.graduated,
{
    BondingCurve {
        creator: creator,
        mint: mint,
        virtual_sol_reserves: INITIAL_VIRTUAL_SOL,
        virtual_token_reserves: INITIAL_VIRTUAL_TOKENS,
        real_sol_reserves: 0,
        real_token_reserves: INITIAL_VIRTUAL_TOKENS,
        token_total_supply: INITIAL_VIRTUAL_TOKENS,
        graduated: false,
    }
}

} // verus!
