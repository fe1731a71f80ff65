//! A compliance-gated fungible-token core.
//!
//! Transfers are authorized by an external risk oracle before any balance
//! moves: the registry maps risk categories to accepted thresholds, the
//! authorization gate decides from the oracle's classification whether a
//! transfer may proceed, the executor moves the balances, and the resolver
//! reconciles notify-variant transfers from the receiver's declared used
//! amount, refunding or burning the remainder. Everything that decides or
//! mutates is verified; the host that carries the oracle call and delivers
//! its answer stands outside and hands plain values in.

pub mod aml;
pub mod category;
pub mod contract;
pub mod gate;
pub mod error;
pub mod kv;
pub mod owner;
pub mod registry;
pub mod token;

use vstd::prelude::*;

verus! {

/// The name of an account, as the host runtime identifies parties.
pub type AccountId = String;

} // verus!
