//! Helpers shared by the other modules.

pub mod datetime;
pub mod markdown;
pub mod text;
