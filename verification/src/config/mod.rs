//! Settings with defaults.

pub mod pdf_config;
