//! The unified notification request and the per-channel settings it carries.

use crate::models::email_model::{clone_attachments, EmailAttachment, EmailAttachmentView};
use crate::models::pdf_model::{
    clone_margins, clone_paper_size, PaperSize, PaperSizeView, PdfMargins, PdfMarginsView,
    PdfOrientation, PdfPagePreset,
};
use vstd::prelude::*;

verus! {

/// How to reach the SMTP relay, and whom to write to.
#[derive(Debug, PartialEq, Eq)]
pub struct EmailConfig {
    pub smtp_host: String,
    pub smtp_port: u16,
    pub smtp_user: String,
    pub smtp_pass: String,
    pub recipients: Vec<String>,
}

pub struct EmailConfigView {
    pub smtp_host: Seq<char>,
    pub smtp_port: u16,
    pub smtp_user: Seq<char>,
    pub smtp_pass: Seq<char>,
    pub recipients: Seq<Seq<char>>,
}

impl View for EmailConfig {
    type V = EmailConfigView;

    open spec fn view(&self) -> EmailConfigView {
        EmailConfigView {
            smtp_host: self.smtp_host@,
            smtp_port: self.smtp_port,
            smtp_user: self.smtp_user@,
            smtp_pass: self.smtp_pass@,
            recipients: self.recipients.deep_view(),
        }
    }
}

impl DeepView for EmailConfig {
    type V = EmailConfigView;

    open spec fn deep_view(&self) -> EmailConfigView {
        self@
    }
}

impl Clone for EmailConfig {
    fn clone(&self) -> (r: Self)
        ensures
            r@ == self@,
    {
        let recipients = self.recipients.clone();
        assert(recipients.deep_view() =~= self.recipients.deep_view());
        EmailConfig {
            smtp_host: self.smtp_host.clone(),
            smtp_port: self.smtp_port,
            smtp_user: self.smtp_user.clone(),
            smtp_pass: self.smtp_pass.clone(),
            recipients,
        }
    }
}

/// The chats to write to through the WhatsApp gateway.
#[derive(Debug, PartialEq, Eq)]
pub struct WhatsAppConfig {
    pub recipients: Vec<String>,
}

pub struct WhatsAppConfigView {
    pub recipients: Seq<Seq<char>>,
}

impl View for WhatsAppConfig {
    type V = WhatsAppConfigView;

    open spec fn view(&self) -> WhatsAppConfigView {
        WhatsAppConfigView { recipients: self.recipients.deep_view() }
    }
}

impl DeepView for WhatsAppConfig {
    type V = WhatsAppConfigView;

    open spec fn deep_view(&self) -> WhatsAppConfigView {
        self@
    }
}

impl Clone for WhatsAppConfig {
    fn clone(&self) -> (r: Self)
        ensures
            r@ == self@,
    {
        let recipients = self.recipients.clone();
        assert(recipients.deep_view() =~= self.recipients.deep_view());
        WhatsAppConfig { recipients }
    }
}

/// One logical notification: what to say, through which channels, and the
/// optional document to render and attach.
#[derive(Debug, PartialEq, Eq)]
pub struct NotificationRequest {
    /// Channel tags in the order they are to be served.
    pub channels: Vec<String>,
    pub email_config: Option<EmailConfig>,
    pub whatsapp_config: Option<WhatsAppConfig>,
    pub subject: Option<String>,
    pub body: Option<String>,
    /// Whether the caller is answered before the work is done.
    pub async_send: bool,
    /// When present, this HTML is rendered to PDF and attached first.
    pub pdf_html: Option<String>,
    pub pdf_orientation: Option<PdfOrientation>,
    pub pdf_page_size_preset: Option<PdfPagePreset>,
    pub pdf_custom_page_size: Option<PaperSize>,
    pub pdf_margins: Option<PdfMargins>,
    /// The zoom factor as decimal text, present only when it is not 1.
    pub pdf_scale: Option<String>,
    /// File name of the rendered attachment; `document.pdf` when absent.
    pub pdf_attachment_name: Option<String>,
    /// Ready-made attachments, sent after the rendered one.
    pub other_attachments: Option<Vec<EmailAttachment>>,
}

pub struct NotificationRequestView {
    pub channels: Seq<Seq<char>>,
    pub email_config: Option<EmailConfigView>,
    pub whatsapp_config: Option<WhatsAppConfigView>,
    pub subject: Option<Seq<char>>,
    pub body: Option<Seq<char>>,
    pub async_send: bool,
    pub pdf_html: Option<Seq<char>>,
    pub pdf_orientation: Option<PdfOrientation>,
    pub pdf_page_size_preset: Option<PdfPagePreset>,
    pub pdf_custom_page_size: Option<PaperSizeView>,
    pub pdf_margins: Option<PdfMarginsView>,
    pub pdf_scale: Option<Seq<char>>,
    pub pdf_attachment_name: Option<Seq<char>>,
    pub other_attachments: Option<Seq<EmailAttachmentView>>,
}

impl View for NotificationRequest {
    type V = NotificationRequestView;

    open spec fn view(&self) -> NotificationRequestView {
        NotificationRequestView {
            channels: self.channels.deep_view(),
            email_config: self.email_config.deep_view(),
            whatsapp_config: self.whatsapp_config.deep_view(),
            subject: self.subject.deep_view(),
            body: self.body.deep_view(),
            async_send: self.async_send,
            pdf_html: self.pdf_html.deep_view(),
            pdf_orientation: self.pdf_orientation,
            pdf_page_size_preset: self.pdf_page_size_preset,
            pdf_custom_page_size: self.pdf_custom_page_size.deep_view(),
            pdf_margins: self.pdf_margins.deep_view(),
            pdf_scale: self.pdf_scale.deep_view(),
            pdf_attachment_name: self.pdf_attachment_name.deep_view(),
            other_attachments: self.other_attachments.deep_view(),
        }
    }
}

impl DeepView for NotificationRequest {
    type V = NotificationRequestView;

    open spec fn deep_view(&self) -> NotificationRequestView {
        self@
    }
}

impl Clone for NotificationRequest {
    fn clone(&self) -> (r: Self)
        ensures
            r@ == self@,
    {
        let channels = self.channels.clone();
        assert(channels.deep_view() =~= self.channels.deep_view());
        NotificationRequest {
            channels,
            email_config: clone_email_config(&self.email_config),
            whatsapp_config: clone_whatsapp_config(&self.whatsapp_config),
            subject: self.subject.clone(),
            body: self.body.clone(),
            async_send: self.async_send,
            pdf_html: self.pdf_html.clone(),
            pdf_orientation: self.pdf_orientation,
            pdf_page_size_preset: self.pdf_page_size_preset,
            pdf_custom_page_size: clone_paper_size(&self.pdf_custom_page_size),
            pdf_margins: clone_margins(&self.pdf_margins),
            pdf_scale: self.pdf_scale.clone(),
            pdf_attachment_name: self.pdf_attachment_name.clone(),
            other_attachments: match &self.other_attachments {
                Some(list) => Some(clone_attachments(list)),
                None => None,
            },
        }
    }
}

/// Copies optional email settings.
pub fn clone_email_config(config: &Option<EmailConfig>) -> (r: Option<EmailConfig>)
    ensures
        r.deep_view() == config.deep_view(),
{
    match config {
        Some(c) => Some(c.clone()),
        None => None,
    }
}

/// Copies optional WhatsApp settings.
pub fn clone_whatsapp_config(config: &Option<WhatsAppConfig>) -> (r: Option<WhatsAppConfig>)
    ensures
        r.deep_view() == config.deep_view(),
{
    match config {
        Some(c) => Some(c.clone()),
        None => None,
    }
}

/// The JSON answer to a notification request.
#[derive(Debug, PartialEq, Eq)]
pub struct NotificationResponse {
    pub success: bool,
    pub operation_id: String,
    pub message: String,
}

} // verus!
