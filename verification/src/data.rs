//! The data of a security as the data source gives it.

pub mod daily;
