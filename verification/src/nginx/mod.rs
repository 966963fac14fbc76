//! Reverse-proxy configurations: their text, its checks, and the steps that
//! put a configuration on disk or take it away.

pub mod config;
pub mod format_laws;
pub mod handlers;
pub mod lifecycle;
pub mod lifecycle_laws;
pub mod models;
pub mod render_laws;
pub mod token_laws;
