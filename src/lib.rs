//! Environment-scoped configuration read from YAML documents.

pub mod app_config;
pub mod app_info;
pub mod document;
pub mod server_config;
pub mod text;
