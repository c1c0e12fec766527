//! Single-leg option orders for a brokerage's order endpoint.
//!
//! A trade request (ticker, limit price, quantity, call or put, buy or sell)
//! is turned into the order document that the brokerage accepts, and the
//! address that the document is posted to is derived from the account.
//! Everything here is pure; sending the document is left to the caller.

pub mod common;
pub mod decimal;
pub mod exchanges;
pub mod money;
