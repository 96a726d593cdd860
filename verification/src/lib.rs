//! Escrow protocol state machine and the protocol's error-code registry.

pub mod admin;
pub mod amend;
pub mod approvals;
pub mod bounty;
pub mod bpsms;
pub mod cancel;
pub mod codes;
pub mod common;
pub mod create;
pub mod dispute;
pub mod errors;
pub mod host;
pub mod inspect;
pub mod laws;
pub mod milestones;
pub mod model;
pub mod multibuyer;
pub mod release;
pub mod schedule;
pub mod sellers;
pub mod recipients;
pub mod renew;
pub mod state;
pub mod templates;
pub mod topup;

use vstd::prelude::*;

verus! {

} // verus!
