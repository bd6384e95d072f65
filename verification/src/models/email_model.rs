//! Attachments, audit rows and the unified email request.

use crate::models::notification_model::{
    EmailConfig, EmailConfigView, NotificationRequest, NotificationRequestView,
};
use crate::models::pdf_model::{
    PaperSize, PaperSizeView, PdfMargins, PdfMarginsView, PdfOrientation, PdfPagePreset,
};
use vstd::prelude::*;
use vstd::string::StringExecFns;

verus! {

/// A file to send along: name, MIME type and raw bytes.
#[derive(Debug, PartialEq, Eq)]
pub struct EmailAttachment {
    pub filename: String,
    pub content_type: String,
    pub data: Vec<u8>,
}

pub struct EmailAttachmentView {
    pub filename: Seq<char>,
    pub content_type: Seq<char>,
    pub data: Seq<u8>,
}

impl View for EmailAttachment {
    type V = EmailAttachmentView;

    open spec fn view(&self) -> EmailAttachmentView {
        EmailAttachmentView {
            filename: self.filename@,
            content_type: self.content_type@,
            data: self.data@,
        }
    }
}

impl DeepView for EmailAttachment {
    type V = EmailAttachmentView;

    open spec fn deep_view(&self) -> EmailAttachmentView {
        self@
    }
}

impl Clone for EmailAttachment {
    fn clone(&self) -> (r: Self)
        ensures
            r@ == self@,
    {
        EmailAttachment {
            filename: self.filename.clone(),
            content_type: self.content_type.clone(),
            data: self.data.clone(),
        }
    }
}

/// Copies a list of attachments, keeping their order.
pub fn clone_attachments(list: &Vec<EmailAttachment>) -> (r: Vec<EmailAttachment>)
    ensures
        r.deep_view() == list.deep_view(),
{
    let mut out: Vec<EmailAttachment> = Vec::new();
    let mut i: usize = 0;
    while i < list.len()
        invariant
            i <= list.len(),
            out@.len() == i,
            forall|j: int| 0 <= j < i ==> out@[j]@ == list@[j]@,
        decreases list.len() - i,
    {
        out.push(list[i].clone());
        i += 1;
    }
    assert(out.deep_view() =~= list.deep_view());
    out
}

/// Where an email send stands on its audit row.
#[derive(Clone, Copy, Debug, PartialEq, Eq, Structural)]
pub enum EmailStatus {
    Pending,
    Sent,
    Failed,
}

impl EmailStatus {
    /// The stored text of the status.
    pub open spec fn text(self) -> Seq<char> {
        match self {
            EmailStatus::Pending => "pending"@,
            EmailStatus::Sent => "sent"@,
            EmailStatus::Failed => "failed"@,
        }
    }

    pub fn as_str(&self) -> (r: &'static str)
        ensures
            r@ == self.text(),
    {
        match self {
            EmailStatus::Pending => "pending",
            EmailStatus::Sent => "sent",
            EmailStatus::Failed => "failed",
        }
    }
}

/// One email send as the audit trail holds it.
#[derive(Debug, PartialEq, Eq)]
pub struct EmailRecord {
    pub id: u128,
    pub operation_id: u128,
    /// All recipients, joined by `;`.
    pub recipient: String,
    pub subject: String,
    /// The HTML body.
    pub body: String,
    pub status: EmailStatus,
    pub error_message: Option<String>,
    /// Microseconds since the Unix epoch.
    pub created_at: i64,
}

pub struct EmailRecordView {
    pub id: u128,
    pub operation_id: u128,
    pub recipient: Seq<char>,
    pub subject: Seq<char>,
    pub body: Seq<char>,
    pub status: EmailStatus,
    pub error_message: Option<Seq<char>>,
    pub created_at: i64,
}

impl View for EmailRecord {
    type V = EmailRecordView;

    open spec fn view(&self) -> EmailRecordView {
        EmailRecordView {
            id: self.id,
            operation_id: self.operation_id,
            recipient: self.recipient@,
            subject: self.subject@,
            body: self.body@,
            status: self.status,
            error_message: self.error_message.deep_view(),
            created_at: self.created_at,
        }
    }
}

impl DeepView for EmailRecord {
    type V = EmailRecordView;

    open spec fn deep_view(&self) -> EmailRecordView {
        self@
    }
}

impl Clone for EmailRecord {
    fn clone(&self) -> (r: Self)
        ensures
            r@ == self@,
    {
        EmailRecord {
            id: self.id,
            operation_id: self.operation_id,
            recipient: self.recipient.clone(),
            subject: self.subject.clone(),
            body: self.body.clone(),
            status: self.status,
            error_message: self.error_message.clone(),
            created_at: self.created_at,
        }
    }
}

impl EmailRecordView {
    /// A new audit row: `pending`, without error.
    pub open spec fn pending(
        id: u128,
        operation_id: u128,
        recipient: Seq<char>,
        subject: Seq<char>,
        body: Seq<char>,
        now: i64,
    ) -> EmailRecordView {
        EmailRecordView {
            id,
            operation_id,
            recipient,
            subject,
            body,
            status: EmailStatus::Pending,
            error_message: None,
            created_at: now,
        }
    }
}

/// The answer to a status query for one email send.
#[derive(Debug, PartialEq, Eq)]
pub struct EmailStatusResponse {
    /// The operation's identifier, as text.
    pub id: String,
    pub status: String,
    pub error: Option<String>,
}

pub struct EmailStatusResponseView {
    pub id: Seq<char>,
    pub status: Seq<char>,
    pub error: Option<Seq<char>>,
}

impl View for EmailStatusResponse {
    type V = EmailStatusResponseView;

    open spec fn view(&self) -> EmailStatusResponseView {
        EmailStatusResponseView { id: self.id@, status: self.status@, error: self.error.deep_view() }
    }
}

/// An email to send, with an optional document to render and attach.
#[derive(Debug, PartialEq, Eq)]
pub struct SendUniversalEmailRequest {
    pub smtp_host: String,
    pub smtp_port: u16,
    pub smtp_user: String,
    pub smtp_pass: String,
    pub recipients: Vec<String>,
    pub subject: String,
    /// The HTML body.
    pub body: String,
    /// Whether the caller is answered before the work is done.
    pub async_send: bool,
    /// When present, this HTML is rendered to PDF and attached first.
    pub pdf_html: Option<String>,
    pub pdf_orientation: Option<PdfOrientation>,
    pub pdf_page_size_preset: Option<PdfPagePreset>,
    pub pdf_custom_page_size: Option<PaperSize>,
    pub pdf_margins: Option<PdfMargins>,
    /// The zoom factor as decimal text, present only when it is not 1.
    pub pdf_scale: Option<String>,
    /// File name of the rendered attachment; `document.pdf` when absent.
    pub pdf_attachment_name: Option<String>,
    pub other_attachments: Option<Vec<EmailAttachment>>,
}

pub struct SendUniversalEmailRequestView {
    pub smtp_host: Seq<char>,
    pub smtp_port: u16,
    pub smtp_user: Seq<char>,
    pub smtp_pass: Seq<char>,
    pub recipients: Seq<Seq<char>>,
    pub subject: Seq<char>,
    pub body: Seq<char>,
    pub async_send: bool,
    pub pdf_html: Option<Seq<char>>,
    pub pdf_orientation: Option<PdfOrientation>,
    pub pdf_page_size_preset: Option<PdfPagePreset>,
    pub pdf_custom_page_size: Option<PaperSizeView>,
    pub pdf_margins: Option<PdfMarginsView>,
    pub pdf_scale: Option<Seq<char>>,
    pub pdf_attachment_name: Option<Seq<char>>,
    pub other_attachments: Option<Seq<EmailAttachmentView>>,
}

impl View for SendUniversalEmailRequest {
    type V = SendUniversalEmailRequestView;

    open spec fn view(&self) -> SendUniversalEmailRequestView {
        SendUniversalEmailRequestView {
            smtp_host: self.smtp_host@,
            smtp_port: self.smtp_port,
            smtp_user: self.smtp_user@,
            smtp_pass: self.smtp_pass@,
            recipients: self.recipients.deep_view(),
            subject: self.subject@,
            body: self.body@,
            async_send: self.async_send,
            pdf_html: self.pdf_html.deep_view(),
            pdf_orientation: self.pdf_orientation,
            pdf_page_size_preset: self.pdf_page_size_preset,
            pdf_custom_page_size: self.pdf_custom_page_size.deep_view(),
            pdf_margins: self.pdf_margins.deep_view(),
            pdf_scale: self.pdf_scale.deep_view(),
            pdf_attachment_name: self.pdf_attachment_name.deep_view(),
            other_attachments: self.other_attachments.deep_view(),
        }
    }
}

impl SendUniversalEmailRequestView {
    /// The same send as a notification: email is the only channel, the SMTP
    /// fields become its settings, everything else carries over.
    pub open spec fn as_notification(self) -> NotificationRequestView {
        NotificationRequestView {
            channels: seq!["email"@],
            email_config: Some(
                EmailConfigView {
                    smtp_host: self.smtp_host,
                    smtp_port: self.smtp_port,
                    smtp_user: self.smtp_user,
                    smtp_pass: self.smtp_pass,
                    recipients: self.recipients,
                },
            ),
            whatsapp_config: None,
            subject: Some(self.subject),
            body: Some(self.body),
            async_send: self.async_send,
            pdf_html: self.pdf_html,
            pdf_orientation: self.pdf_orientation,
            pdf_page_size_preset: self.pdf_page_size_preset,
            pdf_custom_page_size: self.pdf_custom_page_size,
            pdf_margins: self.pdf_margins,
            pdf_scale: self.pdf_scale,
            pdf_attachment_name: self.pdf_attachment_name,
            other_attachments: self.other_attachments,
        }
    }
}

impl SendUniversalEmailRequest {
    /// Turns the send into a notification with email as its only channel.
    pub fn into_notification(self) -> (r: NotificationRequest)
        ensures
            r@ == self@.as_notification(),
    {
        let mut channels: Vec<String> = Vec::new();
        channels.push(String::from_str("email"));
        assert(channels.deep_view() =~= seq!["email"@]);
        NotificationRequest {
            channels,
            email_config: Some(
                EmailConfig {
                    smtp_host: self.smtp_host,
                    smtp_port: self.smtp_port,
                    smtp_user: self.smtp_user,
                    smtp_pass: self.smtp_pass,
                    recipients: self.recipients,
                },
            ),
            whatsapp_config: None,
            subject: Some(self.subject),
            body: Some(self.body),
            async_send: self.async_send,
            pdf_html: self.pdf_html,
            pdf_orientation: self.pdf_orientation,
            pdf_page_size_preset: self.pdf_page_size_preset,
            pdf_custom_page_size: self.pdf_custom_page_size,
            pdf_margins: self.pdf_margins,
            pdf_scale: self.pdf_scale,
            pdf_attachment_name: self.pdf_attachment_name,
            other_attachments: self.other_attachments,
        }
    }
}

} // verus!
