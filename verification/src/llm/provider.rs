//! The providers of chat completion, one module for each protocol.

pub mod open_ai;
