//! Hash time-locked token swap: the decisions of a contract that locks an
//! amount of tokens for a recipient, releases it to the recipient against the
//! preimage of a hash before a deadline, and refunds it to the owner after.

pub mod error;
pub mod amount;
pub mod account;
pub mod hash;
pub mod helper;
pub mod validator;
pub mod swap;
pub mod entry;
pub mod laws;
