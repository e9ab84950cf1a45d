pub mod address;
pub mod amm;
pub mod asset;
pub mod custody;
pub mod escrow;
pub mod lifecycle;

pub use address::Address;
pub use asset::{Asset, Effect, Endpoint, Holding, Leg};
pub use escrow::{Escrow, EscrowError, Outcome, Swap, Vault};
