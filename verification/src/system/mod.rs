//! The state of the machine: what is shown of it, and what is answered to
//! the requests about it.

pub mod handlers;
pub mod models;
