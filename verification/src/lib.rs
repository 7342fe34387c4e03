//! Privacy-preserving crowdfunding contracts for an MPC-capable blockchain,
//! together with the small token and escrow contracts they collaborate with.
//!
//! The host chain delivers actions, callbacks and the secret-variable store to
//! a contract and carries out the interactions the contract returns.  Every
//! module here models that boundary with plain data (addresses, secret
//! variables, event groups, state-change requests) and verifies the contract
//! logic itself: which caller may do what in which state, what the next state
//! is, and exactly which bytes are sent to the token ledger.

pub mod campaign;
pub mod escrow;
pub mod events;
pub mod factory;
pub mod host;
pub mod refund_campaign;
pub mod token;
pub mod token_interface;
pub mod zk_compute;
