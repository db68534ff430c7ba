//! Policy layer for running side-effecting tool calls: approval caching,
//! sandbox attempts with a single escalation retry, and command building.
use vstd::prelude::*;

pub mod policy;
pub mod request;
pub mod error;
pub mod command;
pub mod approval;
pub mod runtime;
pub mod controller;
pub mod executor;

verus! {

} // verus!
