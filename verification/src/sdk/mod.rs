//! Checks and decisions of the send-payment prepare flow.

pub mod prepare_cross_chain;
pub mod validation;
