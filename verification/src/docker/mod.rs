//! The container engine: what is shown of its objects, and what is answered
//! to the requests that act on them.

pub mod handlers;
pub mod models;
