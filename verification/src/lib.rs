//! An escrow-based wagering settlement engine.
//!
//! Two principal contestants each deposit a fixed stake into a per-match
//! vault; spectators may back either side before a deadline; an authorized
//! arbiter declares the winning side once the deadline has passed; the
//! winning principal withdraws both stakes and winning spectators claim a
//! proportional share of the pooled side-bets.
//!
//! The host ledger's collaborators (account allocation, signature checks,
//! the raw value transfer, the clock) stay outside: every operation here
//! takes the caller's proven identity and the current instant as plain
//! values and mutates the match record, whose own balance is the vault.

pub mod book;
pub mod errors;
pub mod laws;
pub mod lifecycle;
pub mod payout;
pub mod state;
