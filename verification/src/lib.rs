//! Verified core of an order-book exchange on a fixed-point ledger.
//!
//! - `fixed_point`: amounts with 48 fractional bits and their rounding.
//! - `state`: orders, positions, markets and the refusals.
//! - `place_order`: locking and depositing the funds an order needs; the
//!   size limit of reduce-only orders.
//! - `settle_funds`: paying out a trader's free funds and referrer rebates.
//! - `accounts`: the constraints on the accounts the instructions take.
//! - `gpa`: the filters that select the program's accounts.
//! - `logs`: the events the program logs.
pub mod fixed_point;
pub mod state;
pub mod place_order;
pub mod settle_funds;
pub mod gpa;
pub mod logs;
pub mod accounts;
