//! Accounting and lifecycle engine for a time-locked staking ledger.
//!
//! Participants lock fungible tokens or collectibles into pools; each stake
//! becomes a position that can be claimed back, with a fixed-rate yield, once
//! its lock expires. Every operation is a pure transition on the records it
//! touches: it either returns the updated records or an error and leaves them
//! as they were. Moving the assets themselves, reading the clock and storing
//! the records are left to the caller.

pub mod admin;
pub mod claim;
pub mod error;
pub mod instructions;
pub mod laws;
pub mod math;
pub mod setup;
pub mod stake;
pub mod state;

pub use error::StakingError;
