//! A multi-channel notification dispatcher: one request is optionally rendered to
//! PDF, fanned out to email and WhatsApp, and recorded as an operation with one
//! attempt row per channel.
//!
//! Everything here is decision logic over plain values. Sockets, processes, files
//! and the database sit with the caller, which performs the actions this crate
//! hands out and reports back what happened.

pub mod address;
pub mod auth;
pub mod clock;
pub mod config;
pub mod encoding;
pub mod handlers;
pub mod ident;
pub mod models;
pub mod services;
pub mod status;
pub mod text;
