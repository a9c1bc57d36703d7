//! A binary prediction market: stakes priced by a simple pool quote, outcomes
//! settled by bonded proposals that can be challenged, and payouts computed from
//! the pools once the outcome is final.
//!
//! Every operation takes the records it reads and writes, checks its
//! preconditions, and either changes them all or changes nothing. Moving value
//! into or out of a market's vault is left to the caller: each operation that
//! moves value returns the amount to move.
pub mod address;
pub mod error;
pub mod laws;
pub mod pricing;
pub mod registry;
pub mod resolution;
pub mod settlement;
pub mod state;

pub use address::Address;
pub use error::{ErrorKind, MarketError};
pub use pricing::{net_payout, payout_ratio, swap_output};
pub use registry::{cancel_market, create_market, place_bet, CancelMarket, CreateMarket, PlaceBet};
pub use resolution::{finalize_resolution, resolve_market, FinalizeResolution, ResolveMarket};
pub use settlement::{claim_winnings, ClaimWinnings};
pub use state::{Bet, Market, MarketStatus, UserStats};
