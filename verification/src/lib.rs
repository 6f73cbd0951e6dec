//! Treasury-funded token release schedules.
//!
//! A treasury (`config::DaoConfig`) owns governance limits and aggregate
//! counters; under it, linear streams (`stream::Stream`) and linear-or-cliff
//! vesting grants (`vesting::Vesting`) convert elapsed time into a
//! withdrawable or claimable amount. The operations in `ops` tie a grant and
//! its treasury together: each one either applies every state change and
//! returns the fund movement to perform, or fails and changes nothing.

pub mod config;
pub mod error;
pub mod ids;
pub mod math;
pub mod ops;
pub mod stream;
pub mod vesting;
