//! Wire contracts shared between the runtime, its adapters and the
//! credential broker.
pub mod credential_delivery;
pub mod external_adapter;
pub mod maturity;
pub mod signal;
pub mod verification;
