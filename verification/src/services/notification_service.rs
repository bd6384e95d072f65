//! The dispatcher: drives one operation through rendering, channel rows, senders
//! and the final verdict.
//!
//! The dispatcher decides; it performs nothing. [`NotificationService::new`] and
//! [`NotificationService::process_notification`] hand out one [`DispatchAction`]
//! at a time. The caller carries it out (a registry write, a rendering, a send)
//! and reports the result as a [`DispatchEvent`].

use crate::models::email_model::{clone_attachments, EmailAttachment, EmailAttachmentView};
use crate::models::notification_model::{
    clone_email_config, clone_whatsapp_config, EmailConfig, EmailConfigView, NotificationRequest,
    NotificationRequestView, WhatsAppConfig, WhatsAppConfigView,
};
use crate::models::pdf_model::{clone_margins, clone_paper_size, PdfRequest, PdfRequestView};
use crate::status::Status;
use vstd::prelude::*;
use vstd::string::StringExecFns;

verus! {

/// How a dispatch ended.
#[derive(Debug, PartialEq, Eq)]
pub enum DispatchOutcome {
    /// Every channel is done, and so is the operation.
    Done,
    /// The operation is failed; the text is the latest error.
    Failed(String),
    /// The dispatch could not be carried through: the store failed, or an event
    /// was reported that was not asked for. The operation is as last written.
    Aborted(String),
}

pub enum DispatchOutcomeView {
    Done,
    Failed(Seq<char>),
    Aborted(Seq<char>),
}

impl View for DispatchOutcome {
    type V = DispatchOutcomeView;

    open spec fn view(&self) -> DispatchOutcomeView {
        match self {
            DispatchOutcome::Done => DispatchOutcomeView::Done,
            DispatchOutcome::Failed(error) => DispatchOutcomeView::Failed(error@),
            DispatchOutcome::Aborted(error) => DispatchOutcomeView::Aborted(error@),
        }
    }
}

/// What the dispatcher wants done next.
#[derive(Debug, PartialEq, Eq)]
#[allow(inconsistent_fields)]
pub enum DispatchAction {
    /// Write this status and error over the operation.
    SetOperationStatus { status: Status, error: Option<String> },
    /// Render this document and report the bytes.
    RenderPdf(PdfRequest),
    /// Create a `pending` attempt for this channel tag and report its identifier.
    CreateChannel { channel: String },
    /// Write this status and error over the attempt, counting a failure where
    /// `increment_attempts` is set.
    SetChannelStatus {
        channel_id: u128,
        status: Status,
        error: Option<String>,
        increment_attempts: bool,
    },
    /// Send by email.
    SendEmail {
        config: Option<EmailConfig>,
        subject: String,
        body: String,
        attachments: Vec<EmailAttachment>,
    },
    /// Send by WhatsApp.
    SendWhatsApp {
        config: Option<WhatsAppConfig>,
        message: String,
        attachments: Vec<EmailAttachment>,
    },
    /// Read the statuses of all attempts of the operation, in order of creation.
    ReadChannels,
    /// Nothing more: the dispatch is over.
    Finish(DispatchOutcome),
}

#[allow(inconsistent_fields)]
pub enum DispatchActionView {
    SetOperationStatus { status: Status, error: Option<Seq<char>> },
    RenderPdf(PdfRequestView),
    CreateChannel { channel: Seq<char> },
    SetChannelStatus {
        channel_id: u128,
        status: Status,
        error: Option<Seq<char>>,
        increment_attempts: bool,
    },
    SendEmail {
        config: Option<EmailConfigView>,
        subject: Seq<char>,
        body: Seq<char>,
        attachments: Seq<EmailAttachmentView>,
    },
    SendWhatsApp {
        config: Option<WhatsAppConfigView>,
        message: Seq<char>,
        attachments: Seq<EmailAttachmentView>,
    },
    ReadChannels,
    Finish(DispatchOutcomeView),
}

impl View for DispatchAction {
    type V = DispatchActionView;

    open spec fn view(&self) -> DispatchActionView {
        match self {
            DispatchAction::SetOperationStatus {
                status,
                error,
            } => DispatchActionView::SetOperationStatus {
                status: *status,
                error: error.deep_view(),
            },
            DispatchAction::RenderPdf(request) => DispatchActionView::RenderPdf(request@),
            DispatchAction::CreateChannel { channel } => DispatchActionView::CreateChannel {
                channel: channel@,
            },
            DispatchAction::SetChannelStatus {
                channel_id,
                status,
                error,
                increment_attempts,
            } => DispatchActionView::SetChannelStatus {
                channel_id: *channel_id,
                status: *status,
                error: error.deep_view(),
                increment_attempts: *increment_attempts,
            },
            DispatchAction::SendEmail {
                config,
                subject,
                body,
                attachments,
            } => DispatchActionView::SendEmail {
                config: config.deep_view(),
                subject: subject@,
                body: body@,
                attachments: attachments.deep_view(),
            },
            DispatchAction::SendWhatsApp {
                config,
                message,
                attachments,
            } => DispatchActionView::SendWhatsApp {
                config: config.deep_view(),
                message: message@,
                attachments: attachments.deep_view(),
            },
            DispatchAction::ReadChannels => DispatchActionView::ReadChannels,
            DispatchAction::Finish(outcome) => DispatchActionView::Finish(outcome@),
        }
    }
}

/// What the caller reports after carrying out a [`DispatchAction`].
#[derive(Debug, PartialEq, Eq)]
pub enum DispatchEvent {
    /// The write is done.
    Stored,
    /// The write could not be made.
    StoreFailed(String),
    /// The rendering gave these bytes.
    PdfRendered(Vec<u8>),
    /// The rendering failed.
    PdfFailed(String),
    /// The attempt was created under this identifier.
    ChannelCreated(u128),
    /// The send went through.
    Sent,
    /// The send failed.
    SendFailed(String),
    /// The statuses of the operation's attempts, in order of creation.
    ChannelsRead(Vec<Status>),
}

pub enum DispatchEventView {
    Stored,
    StoreFailed(Seq<char>),
    PdfRendered(Seq<u8>),
    PdfFailed(Seq<char>),
    ChannelCreated(u128),
    Sent,
    SendFailed(Seq<char>),
    ChannelsRead(Seq<Status>),
}

impl View for DispatchEvent {
    type V = DispatchEventView;

    open spec fn view(&self) -> DispatchEventView {
        match self {
            DispatchEvent::Stored => DispatchEventView::Stored,
            DispatchEvent::StoreFailed(error) => DispatchEventView::StoreFailed(error@),
            DispatchEvent::PdfRendered(bytes) => DispatchEventView::PdfRendered(bytes@),
            DispatchEvent::PdfFailed(error) => DispatchEventView::PdfFailed(error@),
            DispatchEvent::ChannelCreated(id) => DispatchEventView::ChannelCreated(*id),
            DispatchEvent::Sent => DispatchEventView::Sent,
            DispatchEvent::SendFailed(error) => DispatchEventView::SendFailed(error@),
            DispatchEvent::ChannelsRead(statuses) => DispatchEventView::ChannelsRead(statuses@),
        }
    }
}

/// Which report the dispatcher is waiting for. An index is a position in the
/// request's list of channels.
#[derive(Clone, Copy, Debug, PartialEq, Eq, Structural)]
pub enum DispatchPhase {
    /// `running` is being written over the operation.
    Starting,
    /// The document is being rendered.
    Rendering,
    /// The renderer's error is being written over the operation.
    RecordingRenderFailure,
    /// The attempt for this channel is being created.
    CreatingChannel(usize),
    /// `running` is being written over this channel's attempt.
    MarkingRunning(usize),
    /// This channel's sender is at work.
    Sending(usize),
    /// `done` is being written over this channel's attempt.
    MarkingDone(usize),
    /// `failed` is being written over this channel's attempt.
    MarkingFailed(usize),
    /// This channel's error is being written over the operation.
    FailingOperation(usize),
    /// The attempts are being read back.
    Reading,
    /// `done` is being written over the operation.
    Completing,
    /// Over: every channel was served and the verdict is in.
    Completed,
    /// Over: the rendering failed, and no attempt was ever created.
    RenderFailed,
    /// Over: the dispatch was abandoned.
    Aborted,
}

impl DispatchPhase {
    /// Whether the dispatch is over.
    pub open spec fn over(self) -> bool {
        self == DispatchPhase::Completed || self == DispatchPhase::RenderFailed || self
            == DispatchPhase::Aborted
    }
}

/// Whether every status is `done`; true of the empty list.
pub open spec fn all_done(statuses: Seq<Status>) -> bool {
    forall|i: int| 0 <= i < statuses.len() ==> statuses[i] == Status::Done
}

/// The dispatcher as the contracts see it.
pub struct DispatcherView {
    pub operation_id: u128,
    pub request: NotificationRequestView,
    /// What every sender is given: the rendered document first, then the
    /// request's own attachments. Empty until the rendering is through.
    pub attachments: Seq<EmailAttachmentView>,
    /// The attempts created so far, in the order of the request's channels.
    pub channel_ids: Seq<u128>,
    /// The latest error recorded.
    pub last_error: Option<Seq<char>>,
    pub phase: DispatchPhase,
}

impl DispatcherView {
    /// The channels can be counted, no attempt exists before the rendering is
    /// through, the indices a phase names are in range, every attempt it speaks
    /// of exists, and an error being recorded is at hand.
    pub open spec fn wf(self) -> bool {
        let n = self.request.channels.len();
        &&& n <= usize::MAX
        &&& match self.phase {
            DispatchPhase::Starting => self.channel_ids.len() == 0,
            DispatchPhase::Rendering => self.channel_ids.len() == 0,
            DispatchPhase::RecordingRenderFailure => self.last_error is Some,
            DispatchPhase::CreatingChannel(i) => i < n && self.channel_ids.len() == i,
            DispatchPhase::MarkingRunning(i) => i < n && self.channel_ids.len() == n,
            DispatchPhase::Sending(i) => i < n && self.channel_ids.len() == n,
            DispatchPhase::MarkingDone(i) => i < n && self.channel_ids.len() == n,
            DispatchPhase::MarkingFailed(i) => i < n && self.channel_ids.len() == n
                && self.last_error is Some,
            DispatchPhase::FailingOperation(i) => i < n && self.channel_ids.len() == n
                && self.last_error is Some,
            _ => true,
        }
    }

    /// The file name of the rendered attachment: `document.pdf` unless the request
    /// names another.
    pub open spec fn attachment_name(self) -> Seq<char> {
        match self.request.pdf_attachment_name {
            Some(name) => name,
            None => "document.pdf"@,
        }
    }

    /// The rendering job for `html`: the request's layout, never kept on disk.
    pub open spec fn pdf_request(self, html: Seq<char>) -> PdfRequestView {
        PdfRequestView {
            file_name: self.attachment_name(),
            html,
            orientation: self.request.pdf_orientation,
            page_size_preset: self.request.pdf_page_size_preset,
            custom_page_size: self.request.pdf_custom_page_size,
            margins: self.request.pdf_margins,
            scale: self.request.pdf_scale,
            store_local_pdf: Some(false),
        }
    }

    /// The request's own attachments, in input order.
    pub open spec fn other_attachments(self) -> Seq<EmailAttachmentView> {
        match self.request.other_attachments {
            Some(list) => list,
            None => Seq::empty(),
        }
    }

    /// The rendered document as an attachment.
    pub open spec fn rendered(self, bytes: Seq<u8>) -> EmailAttachmentView {
        EmailAttachmentView {
            filename: self.attachment_name(),
            content_type: "application/pdf"@,
            data: bytes,
        }
    }

    /// The shared subject; empty where the request has none.
    pub open spec fn subject(self) -> Seq<char> {
        match self.request.subject {
            Some(text) => text,
            None => Seq::empty(),
        }
    }

    /// The shared body; empty where the request has none.
    pub open spec fn body(self) -> Seq<char> {
        match self.request.body {
            Some(text) => text,
            None => Seq::empty(),
        }
    }

    /// With the attachments assembled: create the first attempt, or, where no
    /// channel is asked for, write `done` at once.
    pub open spec fn begin_channels(self) -> (DispatcherView, DispatchActionView) {
        if self.request.channels.len() == 0 {
            (
                DispatcherView { phase: DispatchPhase::Completing, ..self },
                DispatchActionView::SetOperationStatus { status: Status::Done, error: None },
            )
        } else {
            (
                DispatcherView { phase: DispatchPhase::CreatingChannel(0), ..self },
                DispatchActionView::CreateChannel { channel: self.request.channels[0] },
            )
        }
    }

    /// Take up channel `i`: write `running` over its attempt, counting nothing.
    pub open spec fn mark_running(self, i: int) -> (DispatcherView, DispatchActionView) {
        (
            DispatcherView { phase: DispatchPhase::MarkingRunning(i as usize), ..self },
            DispatchActionView::SetChannelStatus {
                channel_id: self.channel_ids[i],
                status: Status::Running,
                error: None,
                increment_attempts: false,
            },
        )
    }

    /// Channel `i` failed with `error`: write `failed` and the error over its
    /// attempt and count the failure.
    pub open spec fn fail_channel(self, i: int, error: Seq<char>) -> (
        DispatcherView,
        DispatchActionView,
    ) {
        (
            DispatcherView {
                phase: DispatchPhase::MarkingFailed(i as usize),
                last_error: Some(error),
                ..self
            },
            DispatchActionView::SetChannelStatus {
                channel_id: self.channel_ids[i],
                status: Status::Failed,
                error: Some(error),
                increment_attempts: true,
            },
        )
    }

    /// Channel `i` is running: call the sender its tag names. A tag that names none
    /// fails the channel on the spot.
    pub open spec fn serve(self, i: int) -> (DispatcherView, DispatchActionView) {
        let tag = self.request.channels[i];
        if tag == "email"@ {
            (
                DispatcherView { phase: DispatchPhase::Sending(i as usize), ..self },
                DispatchActionView::SendEmail {
                    config: self.request.email_config,
                    subject: self.subject(),
                    body: self.body(),
                    attachments: self.attachments,
                },
            )
        } else if tag == "whatsapp"@ {
            (
                DispatcherView { phase: DispatchPhase::Sending(i as usize), ..self },
                DispatchActionView::SendWhatsApp {
                    config: self.request.whatsapp_config,
                    message: self.body(),
                    attachments: self.attachments,
                },
            )
        } else {
            self.fail_channel(i, "unsupported channel"@)
        }
    }

    /// Channel `i` is through, one way or the other: on to the next, or, after the
    /// last, read the attempts back.
    pub open spec fn next_channel(self, i: int) -> (DispatcherView, DispatchActionView) {
        if i + 1 < self.request.channels.len() {
            self.mark_running(i + 1)
        } else {
            (
                DispatcherView { phase: DispatchPhase::Reading, ..self },
                DispatchActionView::ReadChannels,
            )
        }
    }

    /// The text of the verdict where not every attempt is done: the latest error,
    /// or a plain statement where none was recorded.
    pub open spec fn failure_text(self) -> Seq<char> {
        match self.last_error {
            Some(error) => error,
            None => "not every channel is done"@,
        }
    }

    /// The attempts as read back: where all are `done`, write `done` over the
    /// operation; otherwise the operation stays as last written, failed.
    pub open spec fn conclude(self, statuses: Seq<Status>) -> (DispatcherView, DispatchActionView) {
        if all_done(statuses) {
            (
                DispatcherView { phase: DispatchPhase::Completing, ..self },
                DispatchActionView::SetOperationStatus { status: Status::Done, error: None },
            )
        } else {
            (
                DispatcherView { phase: DispatchPhase::Completed, ..self },
                DispatchActionView::Finish(DispatchOutcomeView::Failed(self.failure_text())),
            )
        }
    }

    /// Abandon the dispatch.
    pub open spec fn abort(self, error: Seq<char>) -> (DispatcherView, DispatchActionView) {
        (
            DispatcherView { phase: DispatchPhase::Aborted, ..self },
            DispatchActionView::Finish(DispatchOutcomeView::Aborted(error)),
        )
    }

    /// The transition function: the dispatcher after `event`, and what it asks for
    /// next.
    pub open spec fn next(self, event: DispatchEventView) -> (DispatcherView, DispatchActionView) {
        if self.phase.over() {
            (self, DispatchActionView::Finish(DispatchOutcomeView::Aborted("the dispatch is over"@)))
        } else {
            match (self.phase, event) {
                (_, DispatchEventView::StoreFailed(error)) => self.abort(error),
                (DispatchPhase::Starting, DispatchEventView::Stored) => match self.request.pdf_html {
                    Some(html) => (
                        DispatcherView { phase: DispatchPhase::Rendering, ..self },
                        DispatchActionView::RenderPdf(self.pdf_request(html)),
                    ),
                    None => (DispatcherView {
                        attachments: self.other_attachments(),
                        ..self
                    }).begin_channels(),
                },
                (DispatchPhase::Rendering, DispatchEventView::PdfRendered(bytes)) => (DispatcherView {
                    attachments: seq![self.rendered(bytes)] + self.other_attachments(),
                    ..self
                }).begin_channels(),
                (DispatchPhase::Rendering, DispatchEventView::PdfFailed(error)) => (
                    DispatcherView {
                        phase: DispatchPhase::RecordingRenderFailure,
                        last_error: Some(error),
                        ..self
                    },
                    DispatchActionView::SetOperationStatus {
                        status: Status::Failed,
                        error: Some(error),
                    },
                ),
                (DispatchPhase::RecordingRenderFailure, DispatchEventView::Stored) => (
                    DispatcherView { phase: DispatchPhase::RenderFailed, ..self },
                    DispatchActionView::Finish(DispatchOutcomeView::Failed(self.failure_text())),
                ),
                (DispatchPhase::CreatingChannel(i), DispatchEventView::ChannelCreated(id)) => {
                    let grown = DispatcherView { channel_ids: self.channel_ids.push(id), ..self };
                    if i + 1 < self.request.channels.len() {
                        (
                            DispatcherView {
                                phase: DispatchPhase::CreatingChannel((i + 1) as usize),
                                ..grown
                            },
                            DispatchActionView::CreateChannel {
                                channel: self.request.channels[i + 1],
                            },
                        )
                    } else {
                        grown.mark_running(0)
                    }
                },
                (DispatchPhase::MarkingRunning(i), DispatchEventView::Stored) => self.serve(i as int),
                (DispatchPhase::Sending(i), DispatchEventView::Sent) => (
                    DispatcherView { phase: DispatchPhase::MarkingDone(i), ..self },
                    DispatchActionView::SetChannelStatus {
                        channel_id: self.channel_ids[i as int],
                        status: Status::Done,
                        error: None,
                        increment_attempts: false,
                    },
                ),
                (DispatchPhase::Sending(i), DispatchEventView::SendFailed(error)) => self.fail_channel(
                    i as int,
                    error,
                ),
                (DispatchPhase::MarkingDone(i), DispatchEventView::Stored) => self.next_channel(
                    i as int,
                ),
                (DispatchPhase::MarkingFailed(i), DispatchEventView::Stored) => (
                    DispatcherView { phase: DispatchPhase::FailingOperation(i), ..self },
                    DispatchActionView::SetOperationStatus {
                        status: Status::Failed,
                        error: self.last_error,
                    },
                ),
                (DispatchPhase::FailingOperation(i), DispatchEventView::Stored) => self.next_channel(
                    i as int,
                ),
                (DispatchPhase::Reading, DispatchEventView::ChannelsRead(statuses)) => self.conclude(
                    statuses,
                ),
                (DispatchPhase::Completing, DispatchEventView::Stored) => (
                    DispatcherView { phase: DispatchPhase::Completed, ..self },
                    DispatchActionView::Finish(DispatchOutcomeView::Done),
                ),
                _ => self.abort("unexpected event"@),
            }
        }
    }
}

/// Whether every status is `done`.
pub fn every_channel_done(statuses: &Vec<Status>) -> (r: bool)
    ensures
        r == all_done(statuses@),
{
    let mut i: usize = 0;
    while i < statuses.len()
        invariant
            i <= statuses.len(),
            forall|j: int| 0 <= j < i ==> statuses@[j] == Status::Done,
        decreases statuses.len() - i,
    {
        match statuses[i] {
            Status::Done => {},
            _ => {
                return false;
            },
        }
        i += 1;
    }
    true
}

/// One dispatch in progress.
pub struct NotificationService {
    operation_id: u128,
    request: NotificationRequest,
    attachments: Vec<EmailAttachment>,
    channel_ids: Vec<u128>,
    last_error: Option<String>,
    phase: DispatchPhase,
}

impl View for NotificationService {
    type V = DispatcherView;

    closed spec fn view(&self) -> DispatcherView {
        DispatcherView {
            operation_id: self.operation_id,
            request: self.request@,
            attachments: self.attachments.deep_view(),
            channel_ids: self.channel_ids@,
            last_error: self.last_error.deep_view(),
            phase: self.phase,
        }
    }
}

impl NotificationService {
    #[verifier::type_invariant]
    spec fn inv(self) -> bool {
        self@.wf()
    }

    /// Takes up the operation `operation_id`, created `pending` for `request`. The
    /// first thing to do is to write `running` over it.
    pub fn new(operation_id: u128, request: NotificationRequest) -> (r: (
        NotificationService,
        DispatchAction,
    ))
        ensures
            r.0@ == (DispatcherView {
                operation_id,
                request: request@,
                attachments: Seq::empty(),
                channel_ids: Seq::empty(),
                last_error: None,
                phase: DispatchPhase::Starting,
            }),
            r.1@ == (DispatchActionView::SetOperationStatus {
                status: Status::Running,
                error: None,
            }),
            r.0@.wf(),
    {
        let count = request.channels.len();
        assert(request@.channels.len() == count);
        let service = NotificationService {
            operation_id,
            request,
            attachments: Vec::new(),
            channel_ids: Vec::new(),
            last_error: None,
            phase: DispatchPhase::Starting,
        };
        assert(service.attachments.deep_view() =~= Seq::empty());
        (service, DispatchAction::SetOperationStatus { status: Status::Running, error: None })
    }

    /// The operation being dispatched.
    pub fn operation_id(&self) -> (id: u128)
        ensures
            id == self@.operation_id,
    {
        self.operation_id
    }

    /// Which report the dispatcher is waiting for.
    pub fn phase(&self) -> (phase: DispatchPhase)
        ensures
            phase == self@.phase,
    {
        self.phase
    }

    /// Whether the dispatch is over.
    pub fn is_over(&self) -> (r: bool)
        ensures
            r == self@.phase.over(),
    {
        match self.phase {
            DispatchPhase::Completed => true,
            DispatchPhase::RenderFailed => true,
            DispatchPhase::Aborted => true,
            _ => false,
        }
    }

    fn attachment_name(&self) -> (r: String)
        ensures
            r@ == self@.attachment_name(),
    {
        match &self.request.pdf_attachment_name {
            Some(name) => name.clone(),
            None => String::from_str("document.pdf"),
        }
    }

    fn pdf_request(&self, html: String) -> (r: PdfRequest)
        ensures
            r@ == self@.pdf_request(html@),
    {
        PdfRequest {
            file_name: self.attachment_name(),
            html,
            orientation: self.request.pdf_orientation,
            page_size_preset: self.request.pdf_page_size_preset,
            custom_page_size: clone_paper_size(&self.request.pdf_custom_page_size),
            margins: clone_margins(&self.request.pdf_margins),
            scale: self.request.pdf_scale.clone(),
            store_local_pdf: Some(false),
        }
    }

    /// Appends the request's own attachments to `list`.
    fn with_other_attachments(&self, list: Vec<EmailAttachment>) -> (r: Vec<EmailAttachment>)
        ensures
            r.deep_view() == list.deep_view() + self@.other_attachments(),
    {
        let mut out = list;
        match &self.request.other_attachments {
            Some(others) => {
                let ghost head = out.deep_view();
                let mut i: usize = 0;
                while i < others.len()
                    invariant
                        i <= others.len(),
                        out.deep_view() == head + others.deep_view().take(i as int),
                    decreases others.len() - i,
                {
                    let ghost before = out.deep_view();
                    out.push(others[i].clone());
                    assert(out.deep_view() =~= before.push(others@[i as int]@));
                    assert(others.deep_view().take(i as int + 1) =~= others.deep_view().take(
                        i as int,
                    ).push(others@[i as int]@));
                    i += 1;
                }
                assert(others.deep_view().take(others.len() as int) =~= others.deep_view());
            },
            None => {
                assert(out.deep_view() =~= out.deep_view() + Seq::empty());
            },
        }
        out
    }

    fn subject(&self) -> (r: String)
        ensures
            r@ == self@.subject(),
    {
        match &self.request.subject {
            Some(text) => text.clone(),
            None => String::new(),
        }
    }

    fn body(&self) -> (r: String)
        ensures
            r@ == self@.body(),
    {
        match &self.request.body {
            Some(text) => text.clone(),
            None => String::new(),
        }
    }

    fn failure_text(&self) -> (r: String)
        ensures
            r@ == self@.failure_text(),
    {
        match &self.last_error {
            Some(error) => error.clone(),
            None => String::from_str("not every channel is done"),
        }
    }

    fn begin_channels(&mut self) -> (action: DispatchAction)
        requires
            old(self)@.channel_ids.len() == 0,
        ensures
            (final(self)@, action@) == old(self)@.begin_channels(),
    {
        proof {
            use_type_invariant(&*self);
        }
        if self.request.channels.len() == 0 {
            self.phase = DispatchPhase::Completing;
            DispatchAction::SetOperationStatus { status: Status::Done, error: None }
        } else {
            let channel = self.request.channels[0].clone();
            self.phase = DispatchPhase::CreatingChannel(0);
            DispatchAction::CreateChannel { channel }
        }
    }

    fn mark_running(&mut self, i: usize) -> (action: DispatchAction)
        requires
            i < old(self)@.request.channels.len(),
            old(self)@.channel_ids.len() == old(self)@.request.channels.len(),
        ensures
            (final(self)@, action@) == old(self)@.mark_running(i as int),
    {
        proof {
            use_type_invariant(&*self);
        }
        let channel_id = self.channel_ids[i];
        self.phase = DispatchPhase::MarkingRunning(i);
        DispatchAction::SetChannelStatus {
            channel_id,
            status: Status::Running,
            error: None,
            increment_attempts: false,
        }
    }

    fn fail_channel(&mut self, i: usize, error: String) -> (action: DispatchAction)
        requires
            i < old(self)@.request.channels.len(),
            old(self)@.channel_ids.len() == old(self)@.request.channels.len(),
        ensures
            (final(self)@, action@) == old(self)@.fail_channel(i as int, error@),
    {
        proof {
            use_type_invariant(&*self);
        }
        let channel_id = self.channel_ids[i];
        let recorded = error.clone();
        self.last_error = Some(error);
        self.phase = DispatchPhase::MarkingFailed(i);
        DispatchAction::SetChannelStatus {
            channel_id,
            status: Status::Failed,
            error: Some(recorded),
            increment_attempts: true,
        }
    }

    fn serve(&mut self, i: usize) -> (action: DispatchAction)
        requires
            i < old(self)@.request.channels.len(),
            old(self)@.channel_ids.len() == old(self)@.request.channels.len(),
        ensures
            (final(self)@, action@) == old(self)@.serve(i as int),
    {
        proof {
            use_type_invariant(&*self);
        }
        if self.request.channels[i] == String::from_str("email") {
            let action = DispatchAction::SendEmail {
                config: clone_email_config(&self.request.email_config),
                subject: self.subject(),
                body: self.body(),
                attachments: clone_attachments(&self.attachments),
            };
            self.phase = DispatchPhase::Sending(i);
            action
        } else if self.request.channels[i] == String::from_str("whatsapp") {
            let action = DispatchAction::SendWhatsApp {
                config: clone_whatsapp_config(&self.request.whatsapp_config),
                message: self.body(),
                attachments: clone_attachments(&self.attachments),
            };
            self.phase = DispatchPhase::Sending(i);
            action
        } else {
            self.fail_channel(i, String::from_str("unsupported channel"))
        }
    }

    fn next_channel(&mut self, i: usize) -> (action: DispatchAction)
        requires
            i < old(self)@.request.channels.len(),
            old(self)@.channel_ids.len() == old(self)@.request.channels.len(),
        ensures
            (final(self)@, action@) == old(self)@.next_channel(i as int),
    {
        proof {
            use_type_invariant(&*self);
        }
        let n = self.request.channels.len();
        if i + 1 < n {
            self.mark_running(i + 1)
        } else {
            self.phase = DispatchPhase::Reading;
            DispatchAction::ReadChannels
        }
    }

    fn abort(&mut self, error: String) -> (action: DispatchAction)
        ensures
            (final(self)@, action@) == old(self)@.abort(error@),
    {
        proof {
            use_type_invariant(&*self);
        }
        self.phase = DispatchPhase::Aborted;
        DispatchAction::Finish(DispatchOutcome::Aborted(error))
    }

    /// Takes the report on the action last handed out and says what to do next.
    ///
    /// A failed store write abandons the dispatch, and so does a report that was
    /// not asked for. A failed rendering is recorded on the operation and ends
    /// the dispatch before any attempt is created. A failed send is recorded on
    /// its attempt and on the operation, and the remaining channels are still
    /// served.
    pub fn process_notification(&mut self, event: DispatchEvent) -> (action: DispatchAction)
        ensures
            (final(self)@, action@) == old(self)@.next(event@),
            old(self)@.wf(),
            final(self)@.wf(),
    {
        proof {
            use_type_invariant(&*self);
        }
        if self.is_over() {
            return DispatchAction::Finish(
                DispatchOutcome::Aborted(String::from_str("the dispatch is over")),
            );
        }
        let n = self.request.channels.len();
        assert(n == self@.request.channels.len());
        match (self.phase, event) {
            (_, DispatchEvent::StoreFailed(error)) => self.abort(error),
            (DispatchPhase::Starting, DispatchEvent::Stored) => {
                match &self.request.pdf_html {
                    Some(html) => {
                        let request = self.pdf_request(html.clone());
                        self.phase = DispatchPhase::Rendering;
                        DispatchAction::RenderPdf(request)
                    },
                    None => {
                        let list = self.with_other_attachments(Vec::new());
                        assert(list.deep_view() =~= self@.other_attachments());
                        self.attachments = list;
                        self.begin_channels()
                    },
                }
            },
            (DispatchPhase::Rendering, DispatchEvent::PdfRendered(bytes)) => {
                let mut list: Vec<EmailAttachment> = Vec::new();
                list.push(
                    EmailAttachment {
                        filename: self.attachment_name(),
                        content_type: String::from_str("application/pdf"),
                        data: bytes,
                    },
                );
                assert(list.deep_view() =~= seq![self@.rendered(bytes@)]);
                let list = self.with_other_attachments(list);
                self.attachments = list;
                self.begin_channels()
            },
            (DispatchPhase::Rendering, DispatchEvent::PdfFailed(error)) => {
                let recorded = error.clone();
                self.last_error = Some(error);
                self.phase = DispatchPhase::RecordingRenderFailure;
                DispatchAction::SetOperationStatus { status: Status::Failed, error: Some(recorded) }
            },
            (DispatchPhase::RecordingRenderFailure, DispatchEvent::Stored) => {
                let text = self.failure_text();
                self.phase = DispatchPhase::RenderFailed;
                DispatchAction::Finish(DispatchOutcome::Failed(text))
            },
            (DispatchPhase::CreatingChannel(i), DispatchEvent::ChannelCreated(id)) => {
                // The phase counts the attempts, so it steps aside while the list
                // grows and is set again once the list is back in place.
                self.phase = DispatchPhase::Aborted;
                let mut ids: Vec<u128> = Vec::new();
                std::mem::swap(&mut ids, &mut self.channel_ids);
                ids.push(id);
                self.channel_ids = ids;
                if i + 1 < n {
                    let channel = self.request.channels[i + 1].clone();
                    self.phase = DispatchPhase::CreatingChannel(i + 1);
                    DispatchAction::CreateChannel { channel }
                } else {
                    self.mark_running(0)
                }
            },
            (DispatchPhase::MarkingRunning(i), DispatchEvent::Stored) => self.serve(i),
            (DispatchPhase::Sending(i), DispatchEvent::Sent) => {
                let channel_id = self.channel_ids[i];
                self.phase = DispatchPhase::MarkingDone(i);
                DispatchAction::SetChannelStatus {
                    channel_id,
                    status: Status::Done,
                    error: None,
                    increment_attempts: false,
                }
            },
            (DispatchPhase::Sending(i), DispatchEvent::SendFailed(error)) => self.fail_channel(
                i,
                error,
            ),
            (DispatchPhase::MarkingDone(i), DispatchEvent::Stored) => self.next_channel(i),
            (DispatchPhase::MarkingFailed(i), DispatchEvent::Stored) => {
                let error = self.last_error.clone();
                self.phase = DispatchPhase::FailingOperation(i);
                DispatchAction::SetOperationStatus { status: Status::Failed, error }
            },
            (DispatchPhase::FailingOperation(i), DispatchEvent::Stored) => self.next_channel(i),
            (DispatchPhase::Reading, DispatchEvent::ChannelsRead(statuses)) => {
                if every_channel_done(&statuses) {
                    self.phase = DispatchPhase::Completing;
                    DispatchAction::SetOperationStatus { status: Status::Done, error: None }
                } else {
                    let text = self.failure_text();
                    self.phase = DispatchPhase::Completed;
                    DispatchAction::Finish(DispatchOutcome::Failed(text))
                }
            },
            (DispatchPhase::Completing, DispatchEvent::Stored) => {
                self.phase = DispatchPhase::Completed;
                DispatchAction::Finish(DispatchOutcome::Done)
            },
            _ => self.abort(String::from_str("unexpected event")),
        }
    }
}

} // verus!
