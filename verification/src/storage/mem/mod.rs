//! The in-memory storage engine.

pub mod config;
pub mod indices;
pub mod interval;
pub mod ops;
pub mod state;
pub mod tx;
