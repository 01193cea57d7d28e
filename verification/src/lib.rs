//! A token-weighted governance engine.
//!
//! Holders of a reference stake asset propose a fund transfer, vote on it
//! within a bounded window, and execute the transfer once quorum and a strict
//! majority are reached.  The engine owns all proposal, tally and vote-record
//! state; the clock, the caller identity and the stake-asset figures are
//! supplied by the hosting runtime as plain arguments, so every decision the
//! engine takes is verified.

pub mod engine;
pub mod laws;
pub mod registry;
pub mod tally;
pub mod types;
