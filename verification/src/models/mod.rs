//! The records and payloads that the services exchange.

pub mod email_model;
pub mod notification_model;
pub mod operation_channel_model;
pub mod operation_model;
pub mod pdf_model;
