//! A cross-ledger asset bridge: depositors lock funds in escrow, solvers post
//! a bond to win the exclusive right to deliver the funds on a destination
//! ledger, and a trusted relayer settles the request once delivery is attested.
//!
//! The crate models the bridge's request lifecycle as a state machine over
//! plain values.  Custody (escrow and bond-vault balances), the fee policy,
//! claim exclusivity, expiry slashing and exactly-once settlement are stated
//! in contracts and proved.  Moving real funds, reading the clock and talking
//! to the confidential-computation service are left to the caller, who feeds
//! observed values in and carries the returned transfer amounts out.

pub mod codec;
pub mod config;
pub mod errors;
pub mod events;
pub mod fee;
pub mod gateway;
pub mod ids;
pub mod ledger;
pub mod lifecycle;
pub mod request;
