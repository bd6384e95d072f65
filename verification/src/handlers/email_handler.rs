//! What the unified email endpoint notes on the operation it creates.

use crate::models::email_model::{SendUniversalEmailRequest, SendUniversalEmailRequestView};
use crate::models::operation_model::{CreateOperationRequest, CreateOperationRequestView};
use vstd::prelude::*;
use vstd::string::StringExecFns;

verus! {

/// What is noted about an email send on its operation.
#[derive(Debug, PartialEq, Eq)]
pub struct EmailMetadata {
    pub recipients: Vec<String>,
    pub subject: String,
    pub pdf_planned: bool,
    pub other_attachments: usize,
}

pub struct EmailMetadataView {
    pub recipients: Seq<Seq<char>>,
    pub subject: Seq<char>,
    pub pdf_planned: bool,
    pub other_attachments: usize,
}

impl View for EmailMetadata {
    type V = EmailMetadataView;

    open spec fn view(&self) -> EmailMetadataView {
        EmailMetadataView {
            recipients: self.recipients.deep_view(),
            subject: self.subject@,
            pdf_planned: self.pdf_planned,
            other_attachments: self.other_attachments,
        }
    }
}

/// The metadata of a send.
pub open spec fn metadata_of(req: SendUniversalEmailRequestView) -> EmailMetadataView {
    EmailMetadataView {
        recipients: req.recipients,
        subject: req.subject,
        pdf_planned: req.pdf_html is Some,
        other_attachments: match req.other_attachments {
            Some(list) => list.len() as usize,
            None => 0,
        },
    }
}

/// Collects what is noted about `req` on its operation.
pub fn email_metadata(req: &SendUniversalEmailRequest) -> (r: EmailMetadata)
    ensures
        r@ == metadata_of(req@),
{
    let recipients = req.recipients.clone();
    assert(recipients.deep_view() =~= req.recipients.deep_view());
    EmailMetadata {
        recipients,
        subject: req.subject.clone(),
        pdf_planned: req.pdf_html.is_some(),
        other_attachments: match &req.other_attachments {
            Some(list) => list.len(),
            None => 0,
        },
    }
}

/// The operation to create for an email send: of type `send_unified_email`,
/// asynchronous as the request says, with the metadata as written by the caller.
pub fn operation_request(req: &SendUniversalEmailRequest, metadata: Option<String>) -> (r:
    CreateOperationRequest)
    ensures
        r@ == (CreateOperationRequestView {
            operation_type: "send_unified_email"@,
            is_async: req@.async_send,
            metadata: metadata.deep_view(),
        }),
{
    CreateOperationRequest {
        operation_type: String::from_str("send_unified_email"),
        is_async: req.async_send,
        metadata,
    }
}

} // verus!
