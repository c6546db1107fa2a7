//! The relational storage engine: its settings. The engine itself talks to
//! a database and lives with the service.

pub mod config;
