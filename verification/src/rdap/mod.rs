//! What the service hands to the query layer.

pub mod response;
