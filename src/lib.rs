//! A users-and-posts record store with soft deletion, a cascade from a user
//! to the posts it owns, and the mapping of records to response payloads.

pub mod clock;
pub mod handlers;
pub mod laws;
pub mod model;
pub mod store;
