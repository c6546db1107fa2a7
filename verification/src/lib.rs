//! Storage and lookup engine of an RDAP service, with the response checks
//! and the plain-text rendering helpers that sit beside it.

pub mod check;
pub mod config;
pub mod error;
pub mod ip;
pub mod md;
pub mod rdap;
pub mod response;
pub mod storage;
pub mod strings;
