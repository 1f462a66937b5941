//! Client-side logic for a regtest transfer demonstration: provision two
//! wallets, mine to spendable maturity, execute a transfer, and reconcile the
//! confirmed transaction (funding input, recipient and change outputs, fee)
//! from node-queryable data.
//!
//! All monetary arithmetic is done on integer satoshi values; the fractional
//! display form is derived only for presentation.

pub mod amount;
pub mod funding;
pub mod provision;
pub mod reconcile;
pub mod records;
pub mod report;
