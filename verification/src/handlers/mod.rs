//! What the HTTP boundary decides: defaults, status codes and answers.

pub mod email_handler;
pub mod notification_handler;
pub mod operation_handler;
pub mod pdf_handler;
