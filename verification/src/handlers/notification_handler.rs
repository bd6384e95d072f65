//! Answers of the notification endpoint.

use crate::ident::{format_id, uuid_text};
use crate::models::notification_model::{
    NotificationRequest, NotificationRequestView, NotificationResponse,
};
use crate::models::operation_model::{CreateOperationRequest, CreateOperationRequestView};
use crate::services::notification_service::{DispatchOutcome, DispatchOutcomeView};
use vstd::prelude::*;
use vstd::string::StringExecFns;

verus! {

/// What is noted about a notification on its operation: the channels, whether a
/// document is to be rendered, and how many ready-made attachments came along.
#[derive(Debug, PartialEq, Eq)]
pub struct NotificationMetadata {
    pub channels: Vec<String>,
    pub pdf_planned: bool,
    pub has_attachments: usize,
}

pub struct NotificationMetadataView {
    pub channels: Seq<Seq<char>>,
    pub pdf_planned: bool,
    pub has_attachments: usize,
}

impl View for NotificationMetadata {
    type V = NotificationMetadataView;

    open spec fn view(&self) -> NotificationMetadataView {
        NotificationMetadataView {
            channels: self.channels.deep_view(),
            pdf_planned: self.pdf_planned,
            has_attachments: self.has_attachments,
        }
    }
}

/// The metadata of a request.
pub open spec fn metadata_of(req: NotificationRequestView) -> NotificationMetadataView {
    NotificationMetadataView {
        channels: req.channels,
        pdf_planned: req.pdf_html is Some,
        has_attachments: match req.other_attachments {
            Some(list) => list.len() as usize,
            None => 0,
        },
    }
}

/// Collects what is noted about `req` on its operation.
pub fn notification_metadata(req: &NotificationRequest) -> (r: NotificationMetadata)
    ensures
        r@ == metadata_of(req@),
{
    let channels = req.channels.clone();
    assert(channels.deep_view() =~= req.channels.deep_view());
    NotificationMetadata {
        channels,
        pdf_planned: req.pdf_html.is_some(),
        has_attachments: match &req.other_attachments {
            Some(list) => list.len(),
            None => 0,
        },
    }
}

/// The operation to create for a notification: of type `send_notification`,
/// asynchronous as the request says, with the metadata as written by the caller.
pub fn operation_request(req: &NotificationRequest, metadata: Option<String>) -> (r:
    CreateOperationRequest)
    ensures
        r@ == (CreateOperationRequestView {
            operation_type: "send_notification"@,
            is_async: req@.async_send,
            metadata: metadata.deep_view(),
        }),
{
    CreateOperationRequest {
        operation_type: String::from_str("send_notification"),
        is_async: req.async_send,
        metadata,
    }
}

pub struct NotificationResponseView {
    pub success: bool,
    pub operation_id: Seq<char>,
    pub message: Seq<char>,
}

/// A notification answer as the contracts see it.
pub open spec fn response_view(response: NotificationResponse) -> NotificationResponseView {
    NotificationResponseView {
        success: response.success,
        operation_id: response.operation_id@,
        message: response.message@,
    }
}

/// The answer to an asynchronous request: accepted, whatever happens later.
pub open spec fn accepted(operation_id: u128) -> (u16, NotificationResponseView) {
    (
        200,
        NotificationResponseView {
            success: true,
            operation_id: uuid_text(operation_id),
            message: "Notification queued for async processing"@,
        },
    )
}

/// The answer to a synchronous request: 200 where the operation is done, 500
/// with the latest error where it is not.
pub open spec fn finished(operation_id: u128, outcome: DispatchOutcomeView) -> (
    u16,
    NotificationResponseView,
) {
    match outcome {
        DispatchOutcomeView::Done => (
            200,
            NotificationResponseView {
                success: true,
                operation_id: uuid_text(operation_id),
                message: "Notification processed successfully"@,
            },
        ),
        DispatchOutcomeView::Failed(error) => (
            500,
            NotificationResponseView {
                success: false,
                operation_id: uuid_text(operation_id),
                message: error,
            },
        ),
        DispatchOutcomeView::Aborted(error) => (
            500,
            NotificationResponseView {
                success: false,
                operation_id: uuid_text(operation_id),
                message: error,
            },
        ),
    }
}

/// The answer to an asynchronous request, given at once.
pub fn accepted_reply(operation_id: u128) -> (r: (u16, NotificationResponse))
    ensures
        (r.0, response_view(r.1)) == accepted(operation_id),
{
    (
        200,
        NotificationResponse {
            success: true,
            operation_id: format_id(operation_id),
            message: String::from_str("Notification queued for async processing"),
        },
    )
}

/// The answer to a synchronous request, given when the dispatch is over.
pub fn finished_reply(operation_id: u128, outcome: &DispatchOutcome) -> (r: (
    u16,
    NotificationResponse,
))
    ensures
        (r.0, response_view(r.1)) == finished(operation_id, outcome@),
{
    match outcome {
        DispatchOutcome::Done => (
            200,
            NotificationResponse {
                success: true,
                operation_id: format_id(operation_id),
                message: String::from_str("Notification processed successfully"),
            },
        ),
        DispatchOutcome::Failed(error) => (
            500,
            NotificationResponse {
                success: false,
                operation_id: format_id(operation_id),
                message: error.clone(),
            },
        ),
        DispatchOutcome::Aborted(error) => (
            500,
            NotificationResponse {
                success: false,
                operation_id: format_id(operation_id),
                message: error.clone(),
            },
        ),
    }
}

/// The text recorded on an operation whose dispatch was abandoned.
pub fn abandoned_text(async_send: bool, error: &String) -> (r: String)
    ensures
        r@ == (if async_send {
            "Async task error: "@
        } else {
            "Send failed: "@
        }) + error@,
{
    let mut text = if async_send {
        String::from_str("Async task error: ")
    } else {
        String::from_str("Send failed: ")
    };
    text.append(error.as_str());
    text
}

} // verus!
