//! The components: registries, senders, renderer and dispatcher.

pub mod email_service;
pub mod ledger;
pub mod notification_channel_service;
pub mod notification_service;
pub mod operation_service;
pub mod pdf_service;
pub mod whatsapp_service;
