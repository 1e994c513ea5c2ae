//! Proportional staking rewards with strictly sequential epoch claims.
//!
//! A stake position carries a decaying voting weight. Once an accounting
//! period (an epoch) has closed, the position may claim its share of that
//! epoch's reward pool, one epoch at a time and each epoch at most once.
//! This crate holds the verified core: the share calculation, the
//! back-projection of a position's weight to the epoch boundary, the
//! proportional allocation, and the claim-sequencing state machine. The
//! surrounding runtime performs the actual token transfer and reports its
//! outcome back as an event.

pub mod allocator;
pub mod epoch;
pub mod laws;
pub mod model;
pub mod sequencer;
pub mod share;
