//! Verified models of the SmartDrop Soroban contracts: the farming pool
//! (staking with boosted credit accrual and time-locked positions), the
//! linear vesting wallet with cliff and revocation, and the pool factory
//! registry.
//!
//! Each contract is modelled as a plain state value together with
//! operations from (state, call arguments, current ledger) to
//! (next state, effects). Effects are the token transfers, events and
//! deployments that the host environment carries out on the contract's
//! behalf.

pub mod account;
pub mod arith;
pub mod farming_math;
pub mod farming_pool;
pub mod farming_laws;
pub mod vesting;
pub mod vesting_laws;
pub mod factory;
pub mod factory_laws;
