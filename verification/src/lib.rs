//! Administration of a host: settings, errors, and the life cycle of
//! reverse-proxy configuration files.

pub mod config;
pub mod docker;
pub mod error;
pub mod nginx;
pub mod system;
pub mod text;
pub mod text_laws;
