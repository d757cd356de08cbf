//! runx: verified policy, validation and projection logic for governed
//! skill runs.
use vstd::prelude::*;

pub mod json;
pub mod json_text;
pub mod text;
pub mod reference;
pub mod payment;
pub mod receipt;
pub mod post_merge;
pub mod contracts;
pub mod skill;
pub mod target_runner;
pub mod mcp;
pub mod registry;
pub mod adapter;
pub mod external_adapter;
pub mod step_payment;
pub mod http;
pub mod sandbox_summary;
pub mod step_output;
pub mod timestamp;

verus! {

} // verus!
