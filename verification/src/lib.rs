//! Bonding-curve market maker: constant-product pricing of a freshly issued
//! token against a base currency, with fee extraction, slippage bounds, and a
//! one-way graduation once enough real base currency has accumulated.
//!
//! The library is the pure core: `create_token`, `buy` and `sell` compute the
//! effect of one request on a [`state::BondingCurve`] record and return either
//! the settlement amounts or a typed rejection, with no partial update. The
//! surrounding settlement layer persists the state and moves the funds.

pub mod engine;
pub mod errors;
pub mod laws;
pub mod math;
pub mod registry;
pub mod state;

pub use engine::{buy, sell, BuySettlement, SellSettlement};
pub use errors::ClawdVaultError;
pub use registry::CurveRegistry;
pub use state::{create_token, BondingCurve};
pub use state::{FEE_BPS, GRADUATION_THRESHOLD, INITIAL_VIRTUAL_SOL, INITIAL_VIRTUAL_TOKENS};
