//! A ledger-resident counter: one record per address, created once and then
//! changed only by the identity that controls it.

pub mod address;
pub mod counter;
pub mod error;
pub mod key;
pub mod policy;
pub mod theorems;
