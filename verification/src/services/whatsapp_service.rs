//! The WhatsApp sender: which calls to make to the gateway, in which order, and
//! what each answer means.
//!
//! The sender never touches the network. [`WhatsAppSender::start`] and
//! [`WhatsAppSender::step`] hand out one [`GatewayRequest`] at a time; the caller
//! performs it and reports the answer as a [`GatewayEvent`].

use crate::encoding::{base64_text, encode_base64, json_text_field, read_text_field};
use crate::models::email_model::{EmailAttachment, EmailAttachmentView};
use crate::models::notification_model::WhatsAppConfig;
use crate::text::{decimal, decimal_text};
use vstd::prelude::*;
use vstd::string::StringExecFns;

verus! {

/// Why a WhatsApp send failed.
#[derive(Debug, PartialEq, Eq)]
pub enum WhatsAppError {
    /// The named environment variable is not set.
    EnvMissing(String),
    /// The request asks for WhatsApp but carries no settings for it.
    ConfigMissing,
    /// The gateway could not be reached at all.
    Unreachable(String),
    /// The gateway's session is not in state `CONNECTED`.
    SessionNotReady,
    /// The gateway answered outside 2xx.
    HttpError { status: u16, body: String },
    /// The gateway's answer is not the JSON it should be.
    SerializationError(String),
    /// An answer was reported to a sender that had already finished.
    Unexpected,
}

pub enum WhatsAppErrorView {
    EnvMissing(Seq<char>),
    ConfigMissing,
    Unreachable(Seq<char>),
    SessionNotReady,
    HttpError { status: u16, body: Seq<char> },
    SerializationError(Seq<char>),
    Unexpected,
}

impl View for WhatsAppError {
    type V = WhatsAppErrorView;

    open spec fn view(&self) -> WhatsAppErrorView {
        match self {
            WhatsAppError::EnvMissing(name) => WhatsAppErrorView::EnvMissing(name@),
            WhatsAppError::ConfigMissing => WhatsAppErrorView::ConfigMissing,
            WhatsAppError::Unreachable(text) => WhatsAppErrorView::Unreachable(text@),
            WhatsAppError::SessionNotReady => WhatsAppErrorView::SessionNotReady,
            WhatsAppError::HttpError { status, body } => WhatsAppErrorView::HttpError {
                status: *status,
                body: body@,
            },
            WhatsAppError::SerializationError(text) => WhatsAppErrorView::SerializationError(text@),
            WhatsAppError::Unexpected => WhatsAppErrorView::Unexpected,
        }
    }
}

impl WhatsAppErrorView {
    /// The text under which the failure is recorded.
    pub open spec fn message(self) -> Seq<char> {
        match self {
            WhatsAppErrorView::EnvMissing(name) => "environment variable not set: "@ + name,
            WhatsAppErrorView::ConfigMissing => "missing whatsapp_config for channel whatsapp"@,
            WhatsAppErrorView::Unreachable(text) => "WhatsApp gateway unreachable: "@ + text,
            WhatsAppErrorView::SessionNotReady => "WhatsApp session is not CONNECTED"@,
            WhatsAppErrorView::HttpError { status, body } => "WhatsApp gateway answered "@
                + decimal_text(status as nat) + ": "@ + body,
            WhatsAppErrorView::SerializationError(text) => "WhatsApp gateway sent malformed JSON: "@
                + text,
            WhatsAppErrorView::Unexpected => "answer reported to a finished WhatsApp send"@,
        }
    }
}

impl WhatsAppError {
    /// The text under which the failure is recorded.
    pub fn message(&self) -> (r: String)
        ensures
            r@ == self@.message(),
    {
        match self {
            WhatsAppError::EnvMissing(name) => {
                let mut s = String::from_str("environment variable not set: ");
                s.append(name.as_str());
                s
            },
            WhatsAppError::ConfigMissing => String::from_str(
                "missing whatsapp_config for channel whatsapp",
            ),
            WhatsAppError::Unreachable(text) => {
                let mut s = String::from_str("WhatsApp gateway unreachable: ");
                s.append(text.as_str());
                s
            },
            WhatsAppError::SessionNotReady => String::from_str("WhatsApp session is not CONNECTED"),
            WhatsAppError::HttpError { status, body } => {
                let mut s = String::from_str("WhatsApp gateway answered ");
                let code = decimal(*status as u64);
                s.append(code.as_str());
                s.append(": ");
                s.append(body.as_str());
                s
            },
            WhatsAppError::SerializationError(text) => {
                let mut s = String::from_str("WhatsApp gateway sent malformed JSON: ");
                s.append(text.as_str());
                s
            },
            WhatsAppError::Unexpected => String::from_str(
                "answer reported to a finished WhatsApp send",
            ),
        }
    }
}

/// One call to the gateway.
#[derive(Debug, PartialEq, Eq)]
pub enum GatewayRequest {
    /// `GET url`: the session's state.
    SessionStatus { url: String },
    /// `POST url` with `{chatId, contentType: "string", content}`.
    Text { url: String, chat_id: String, content: String },
    /// `POST url` with `{chatId, contentType: "MessageMedia", content: {mimetype,
    /// data, filename}}`; `data` is base64.
    Media { url: String, chat_id: String, mimetype: String, data: String, filename: String },
}

pub enum GatewayRequestView {
    SessionStatus { url: Seq<char> },
    Text { url: Seq<char>, chat_id: Seq<char>, content: Seq<char> },
    Media {
        url: Seq<char>,
        chat_id: Seq<char>,
        mimetype: Seq<char>,
        data: Seq<char>,
        filename: Seq<char>,
    },
}

impl View for GatewayRequest {
    type V = GatewayRequestView;

    open spec fn view(&self) -> GatewayRequestView {
        match self {
            GatewayRequest::SessionStatus { url } => GatewayRequestView::SessionStatus { url: url@ },
            GatewayRequest::Text { url, chat_id, content } => GatewayRequestView::Text {
                url: url@,
                chat_id: chat_id@,
                content: content@,
            },
            GatewayRequest::Media {
                url,
                chat_id,
                mimetype,
                data,
                filename,
            } => GatewayRequestView::Media {
                url: url@,
                chat_id: chat_id@,
                mimetype: mimetype@,
                data: data@,
                filename: filename@,
            },
        }
    }
}

impl GatewayRequestView {
    /// The value of `contentType` in the JSON body; a status query has no body.
    pub open spec fn content_type(self) -> Option<Seq<char>> {
        match self {
            GatewayRequestView::SessionStatus { .. } => None,
            GatewayRequestView::Text { .. } => Some("string"@),
            GatewayRequestView::Media { .. } => Some("MessageMedia"@),
        }
    }
}

impl GatewayRequest {
    /// The value of `contentType` in the JSON body; a status query has no body.
    pub fn content_type(&self) -> (r: Option<&'static str>)
        ensures
            r.deep_view() == self@.content_type(),
    {
        match self {
            GatewayRequest::SessionStatus { .. } => None,
            GatewayRequest::Text { .. } => Some("string"),
            GatewayRequest::Media { .. } => Some("MessageMedia"),
        }
    }
}

/// What the caller reports after performing a [`GatewayRequest`].
#[derive(Debug, PartialEq, Eq)]
pub enum GatewayEvent {
    /// The gateway answered with this status code and body.
    Reply { status: u16, body: String },
    /// No answer: connection refused, timed out, and the like.
    Unreachable(String),
}

pub enum GatewayEventView {
    Reply { status: u16, body: Seq<char> },
    Unreachable(Seq<char>),
}

impl View for GatewayEvent {
    type V = GatewayEventView;

    open spec fn view(&self) -> GatewayEventView {
        match self {
            GatewayEvent::Reply { status, body } => GatewayEventView::Reply {
                status: *status,
                body: body@,
            },
            GatewayEvent::Unreachable(text) => GatewayEventView::Unreachable(text@),
        }
    }
}

/// What the sender wants next.
#[derive(Debug, PartialEq, Eq)]
pub enum SenderAction {
    /// Perform this call and report the answer.
    Call(GatewayRequest),
    /// The send is over, with this outcome.
    Finish(Result<(), WhatsAppError>),
}

pub enum SenderActionView {
    Call(GatewayRequestView),
    Finish(Result<(), WhatsAppErrorView>),
}

impl View for SenderAction {
    type V = SenderActionView;

    open spec fn view(&self) -> SenderActionView {
        match self {
            SenderAction::Call(request) => SenderActionView::Call(request@),
            SenderAction::Finish(Ok(())) => SenderActionView::Finish(Ok(())),
            SenderAction::Finish(Err(error)) => SenderActionView::Finish(Err(error@)),
        }
    }
}

/// Which answer the sender is waiting for.
#[derive(Clone, Copy, Debug, PartialEq, Eq, Structural)]
pub enum SenderPhase {
    /// The session's state.
    AwaitingSession,
    /// The text to the recipient at this index.
    AwaitingText(usize),
    /// The attachment at the first index to the recipient at the second.
    AwaitingMedia(usize, usize),
    /// Nothing: the send is over.
    Finished,
}

/// The sender as the contracts see it.
pub struct SenderView {
    pub base_url: Seq<char>,
    pub session_id: Seq<char>,
    pub recipients: Seq<Seq<char>>,
    pub message: Seq<char>,
    pub attachments: Seq<EmailAttachmentView>,
    pub phase: SenderPhase,
}

/// A status code in 200..=299.
pub open spec fn is_success(status: u16) -> bool {
    200 <= status < 300
}

/// Why [`WhatsAppSender::start`] refuses: the first thing missing, in the order
/// base URL, session identifier, settings.
pub open spec fn start_error(
    base_url: Option<Seq<char>>,
    session_id: Option<Seq<char>>,
    has_config: bool,
) -> Option<WhatsAppErrorView> {
    if base_url is None {
        Some(WhatsAppErrorView::EnvMissing("WHATSAPP_API_URL"@))
    } else if session_id is None {
        Some(WhatsAppErrorView::EnvMissing("WHATSAPP_API_SESSION_ID"@))
    } else if !has_config {
        Some(WhatsAppErrorView::ConfigMissing)
    } else {
        None
    }
}

/// What a session-status answer means, given the `state` field read from its body.
pub open spec fn session_verdict(
    status: u16,
    body: Seq<char>,
    state: Result<Option<Seq<char>>, Seq<char>>,
) -> Result<(), WhatsAppErrorView> {
    if !is_success(status) {
        Err(WhatsAppErrorView::HttpError { status, body })
    } else {
        match state {
            Err(message) => Err(WhatsAppErrorView::SerializationError(message)),
            Ok(Some(text)) => if text == "CONNECTED"@ {
                Ok(())
            } else {
                Err(WhatsAppErrorView::SessionNotReady)
            },
            Ok(None) => Err(WhatsAppErrorView::SessionNotReady),
        }
    }
}

impl SenderView {
    pub open spec fn status_url(self) -> Seq<char> {
        self.base_url + "/session/status/"@ + self.session_id
    }

    pub open spec fn send_url(self) -> Seq<char> {
        self.base_url + "/client/sendMessage/"@ + self.session_id
    }

    /// The text message to the recipient at `r`.
    pub open spec fn text_request(self, r: int) -> GatewayRequestView {
        GatewayRequestView::Text {
            url: self.send_url(),
            chat_id: self.recipients[r],
            content: self.message,
        }
    }

    /// The attachment at `a`, sent to the recipient at `r`.
    pub open spec fn media_request(self, a: int, r: int) -> GatewayRequestView {
        GatewayRequestView::Media {
            url: self.send_url(),
            chat_id: self.recipients[r],
            mimetype: self.attachments[a].content_type,
            data: base64_text(self.attachments[a].data),
            filename: self.attachments[a].filename,
        }
    }

    /// The lists can be counted, the indices a phase names are in range, and texts
    /// are only sent where there is a message.
    pub open spec fn wf(self) -> bool {
        &&& self.recipients.len() <= usize::MAX
        &&& self.attachments.len() <= usize::MAX
        &&& match self.phase {
            SenderPhase::AwaitingText(r) => r < self.recipients.len() && self.message.len() > 0,
            SenderPhase::AwaitingMedia(a, r) => a < self.attachments.len() && r
                < self.recipients.len(),
            _ => true,
        }
    }

    /// How many text messages a send makes: one per recipient, none where the
    /// message is empty.
    pub open spec fn text_count(self) -> int {
        if self.message.len() > 0 {
            self.recipients.len() as int
        } else {
            0
        }
    }

    /// How many calls a send makes when nothing fails: the status query, the
    /// texts, and every attachment to every recipient.
    pub open spec fn call_count(self) -> int {
        1 + self.text_count() + self.attachments.len() * self.recipients.len()
    }

    /// The place of the awaited call in the order of a send: the status query
    /// first, then the texts recipient by recipient, then the attachments, each
    /// to every recipient before the next. A finished send stands at the end.
    pub open spec fn position(self) -> int {
        match self.phase {
            SenderPhase::AwaitingSession => 0,
            SenderPhase::AwaitingText(r) => 1 + r,
            SenderPhase::AwaitingMedia(a, r) => 1 + self.text_count() + a * self.recipients.len()
                + r,
            SenderPhase::Finished => self.call_count(),
        }
    }

    /// Once the texts are through: the first attachment to the first recipient, or
    /// the end where there is nothing to attach or nobody to send to.
    pub open spec fn after_texts(self) -> (SenderPhase, SenderActionView) {
        if self.attachments.len() > 0 && self.recipients.len() > 0 {
            (SenderPhase::AwaitingMedia(0, 0), SenderActionView::Call(self.media_request(0, 0)))
        } else {
            (SenderPhase::Finished, SenderActionView::Finish(Ok(())))
        }
    }

    /// Once the session is known to be connected: the text to the first recipient,
    /// or straight on to the attachments where the message is empty.
    pub open spec fn after_session(self) -> (SenderPhase, SenderActionView) {
        if self.message.len() > 0 && self.recipients.len() > 0 {
            (SenderPhase::AwaitingText(0), SenderActionView::Call(self.text_request(0)))
        } else {
            self.after_texts()
        }
    }

    /// What follows a 2xx answer in the current phase.
    pub open spec fn advance(self) -> (SenderPhase, SenderActionView) {
        match self.phase {
            SenderPhase::AwaitingSession => self.after_session(),
            SenderPhase::AwaitingText(r) => if r + 1 < self.recipients.len() {
                (
                    SenderPhase::AwaitingText((r + 1) as usize),
                    SenderActionView::Call(self.text_request(r + 1)),
                )
            } else {
                self.after_texts()
            },
            SenderPhase::AwaitingMedia(a, r) => if r + 1 < self.recipients.len() {
                (
                    SenderPhase::AwaitingMedia(a, (r + 1) as usize),
                    SenderActionView::Call(self.media_request(a as int, r + 1)),
                )
            } else if a + 1 < self.attachments.len() {
                (
                    SenderPhase::AwaitingMedia((a + 1) as usize, 0),
                    SenderActionView::Call(self.media_request(a + 1, 0)),
                )
            } else {
                (SenderPhase::Finished, SenderActionView::Finish(Ok(())))
            },
            SenderPhase::Finished => (
                SenderPhase::Finished,
                SenderActionView::Finish(Err(WhatsAppErrorView::Unexpected)),
            ),
        }
    }

    /// An error ends the send.
    pub open spec fn fail(error: WhatsAppErrorView) -> (SenderPhase, SenderActionView) {
        (SenderPhase::Finished, SenderActionView::Finish(Err(error)))
    }

    /// The transition function: the phase after `event`, and what the sender asks
    /// for next.
    pub open spec fn next(self, event: GatewayEventView) -> (SenderPhase, SenderActionView) {
        match (self.phase, event) {
            (SenderPhase::Finished, _) => Self::fail(WhatsAppErrorView::Unexpected),
            (_, GatewayEventView::Unreachable(text)) => Self::fail(
                WhatsAppErrorView::Unreachable(text),
            ),
            (SenderPhase::AwaitingSession, GatewayEventView::Reply { status, body }) => {
                match session_verdict(status, body, json_text_field(body, "state"@)) {
                    Ok(()) => self.after_session(),
                    Err(error) => Self::fail(error),
                }
            },
            (_, GatewayEventView::Reply { status, body }) => if is_success(status) {
                self.advance()
            } else {
                Self::fail(WhatsAppErrorView::HttpError { status, body })
            },
        }
    }
}

/// While nothing fails, a send makes its calls in order and none twice: each good
/// answer moves the send exactly one place on, and it finishes exactly when the
/// last call has been answered.
pub proof fn lemma_calls_in_order(sender: SenderView, event: GatewayEventView)
    requires
        sender.wf(),
        sender.phase != SenderPhase::Finished,
        !(sender.next(event).1 is Finish && sender.next(event).1->Finish_0 is Err),
    ensures
        (SenderView { phase: sender.next(event).0, ..sender }).wf(),
        (SenderView { phase: sender.next(event).0, ..sender }).position() == sender.position() + 1,
        sender.next(event).1 is Finish <==> sender.position() + 1 == sender.call_count(),
        sender.next(event).1 is Call ==> sender.next(event).1->Call_0 == (match sender.next(
            event,
        ).0 {
            SenderPhase::AwaitingText(r) => sender.text_request(r as int),
            SenderPhase::AwaitingMedia(a, r) => sender.media_request(a as int, r as int),
            _ => sender.text_request(0),
        }),
{
    let recipients = sender.recipients.len() as int;
    let attachments = sender.attachments.len() as int;
    assert(0 * recipients == 0);
    assert(attachments * recipients >= 0) by (nonlinear_arith)
        requires
            attachments >= 0,
            recipients >= 0,
    ;
    if recipients == 0 {
        assert(attachments * recipients == 0) by (nonlinear_arith)
            requires
                recipients == 0,
        ;
    }
    if attachments == 0 {
        assert(attachments * recipients == 0) by (nonlinear_arith)
            requires
                attachments == 0,
        ;
    }
    match sender.phase {
        SenderPhase::AwaitingMedia(a, r) => {
            assert((a + 1) * recipients == a * recipients + recipients) by (nonlinear_arith);
            if a + 1 == attachments {
                assert(attachments * recipients == a * recipients + recipients);
            } else {
                assert((a + 1) * recipients <= (attachments - 1) * recipients) by (nonlinear_arith)
                    requires
                        a + 1 <= attachments - 1,
                        recipients >= 0,
                ;
                assert((attachments - 1) * recipients == attachments * recipients - recipients)
                    by (nonlinear_arith);
            }
            if r + 1 < recipients {
                assert(a * recipients <= (attachments - 1) * recipients) by (nonlinear_arith)
                    requires
                        a <= attachments - 1,
                        recipients >= 0,
                ;
                assert((attachments - 1) * recipients == attachments * recipients - recipients)
                    by (nonlinear_arith);
            }
        },
        SenderPhase::AwaitingText(r) => {
            if attachments > 0 && recipients > 0 {
                assert(attachments * recipients >= recipients) by (nonlinear_arith)
                    requires
                        attachments >= 1,
                        recipients >= 0,
                ;
            }
        },
        _ => {
            if attachments > 0 && recipients > 0 {
                assert(attachments * recipients >= 1) by (nonlinear_arith)
                    requires
                        attachments >= 1,
                        recipients >= 1,
                ;
            }
        },
    }
}

/// Decides what a session-status answer means. `state` is the `state` field as
/// read from the answer's body.
pub fn check_session(status: u16, body: String, state: Result<Option<String>, String>) -> (r:
    Result<(), WhatsAppError>)
    ensures
        match r {
            Ok(()) => session_verdict(status, body@, state_view(state)) == Ok::<
                (),
                WhatsAppErrorView,
            >(()),
            Err(error) => session_verdict(status, body@, state_view(state)) == Err::<
                (),
                WhatsAppErrorView,
            >(error@),
        },
{
    if !(200 <= status && status < 300) {
        return Err(WhatsAppError::HttpError { status, body });
    }
    match state {
        Err(message) => Err(WhatsAppError::SerializationError(message)),
        Ok(Some(text)) => {
            if text == String::from_str("CONNECTED") {
                Ok(())
            } else {
                Err(WhatsAppError::SessionNotReady)
            }
        },
        Ok(None) => Err(WhatsAppError::SessionNotReady),
    }
}

/// The `state` field of a session-status body, as the contracts see it.
pub open spec fn state_view(state: Result<Option<String>, String>) -> Result<
    Option<Seq<char>>,
    Seq<char>,
> {
    match state {
        Ok(Some(text)) => Ok(Some(text@)),
        Ok(None) => Ok(None),
        Err(message) => Err(message@),
    }
}

/// One WhatsApp send in progress.
pub struct WhatsAppSender {
    base_url: String,
    session_id: String,
    recipients: Vec<String>,
    message: String,
    attachments: Vec<EmailAttachment>,
    phase: SenderPhase,
}

impl View for WhatsAppSender {
    type V = SenderView;

    closed spec fn view(&self) -> SenderView {
        SenderView {
            base_url: self.base_url@,
            session_id: self.session_id@,
            recipients: self.recipients.deep_view(),
            message: self.message@,
            attachments: self.attachments.deep_view(),
            phase: self.phase,
        }
    }
}

impl WhatsAppSender {
    #[verifier::type_invariant]
    spec fn inv(self) -> bool {
        self@.wf()
    }

    /// Begins a send. `base_url` and `session_id` are the values of
    /// `WHATSAPP_API_URL` and `WHATSAPP_API_SESSION_ID`, `None` where unset.
    ///
    /// Refuses with the first thing missing; otherwise the sender waits for the
    /// session's state, and the request to make is the status query.
    pub fn start(
        base_url: Option<String>,
        session_id: Option<String>,
        config: &Option<WhatsAppConfig>,
        message: String,
        attachments: Vec<EmailAttachment>,
    ) -> (r: Result<(WhatsAppSender, GatewayRequest), WhatsAppError>)
        ensures
            match r {
                Ok((sender, request)) => {
                    &&& start_error(base_url.deep_view(), session_id.deep_view(), config is Some)
                        is None
                    &&& sender@ == (SenderView {
                        base_url: base_url->0@,
                        session_id: session_id->0@,
                        recipients: config->0@.recipients,
                        message: message@,
                        attachments: attachments.deep_view(),
                        phase: SenderPhase::AwaitingSession,
                    })
                    &&& request@ == (GatewayRequestView::SessionStatus {
                        url: sender@.status_url(),
                    })
                },
                Err(error) => start_error(
                    base_url.deep_view(),
                    session_id.deep_view(),
                    config is Some,
                ) == Some(error@),
            },
    {
        let base_url = match base_url {
            Some(url) => url,
            None => {
                return Err(WhatsAppError::EnvMissing(String::from_str("WHATSAPP_API_URL")));
            },
        };
        let session_id = match session_id {
            Some(id) => id,
            None => {
                return Err(WhatsAppError::EnvMissing(String::from_str("WHATSAPP_API_SESSION_ID")));
            },
        };
        let recipients = match config {
            Some(c) => {
                let list = c.recipients.clone();
                assert(list.deep_view() =~= c.recipients.deep_view());
                list
            },
            None => {
                return Err(WhatsAppError::ConfigMissing);
            },
        };
        let mut url = base_url.clone();
        url.append("/session/status/");
        url.append(session_id.as_str());
        let recipient_count = recipients.len();
        let attachment_count = attachments.len();
        assert(recipients.deep_view().len() == recipient_count);
        assert(attachments.deep_view().len() == attachment_count);
        let sender = WhatsAppSender {
            base_url,
            session_id,
            recipients,
            message,
            attachments,
            phase: SenderPhase::AwaitingSession,
        };
        Ok((sender, GatewayRequest::SessionStatus { url }))
    }

    /// Which answer the sender is waiting for.
    pub fn phase(&self) -> (r: SenderPhase)
        ensures
            r == self@.phase,
    {
        self.phase
    }

    /// Whether the send is over.
    pub fn is_finished(&self) -> (r: bool)
        ensures
            r == (self@.phase == SenderPhase::Finished),
    {
        match self.phase {
            SenderPhase::Finished => true,
            _ => false,
        }
    }

    fn send_url(&self) -> (r: String)
        ensures
            r@ == self@.send_url(),
    {
        let mut url = self.base_url.clone();
        url.append("/client/sendMessage/");
        url.append(self.session_id.as_str());
        url
    }

    fn text_request(&self, r: usize) -> (request: GatewayRequest)
        requires
            r < self@.recipients.len(),
        ensures
            request@ == self@.text_request(r as int),
    {
        GatewayRequest::Text {
            url: self.send_url(),
            chat_id: self.recipients[r].clone(),
            content: self.message.clone(),
        }
    }

    fn media_request(&self, a: usize, r: usize) -> (request: GatewayRequest)
        requires
            a < self@.attachments.len(),
            r < self@.recipients.len(),
        ensures
            request@ == self@.media_request(a as int, r as int),
    {
        let attachment = &self.attachments[a];
        GatewayRequest::Media {
            url: self.send_url(),
            chat_id: self.recipients[r].clone(),
            mimetype: attachment.content_type.clone(),
            data: encode_base64(&attachment.data),
            filename: attachment.filename.clone(),
        }
    }

    fn after_texts(&mut self) -> (action: SenderAction)
        ensures
            final(self)@ == (SenderView { phase: old(self)@.after_texts().0, ..old(self)@ }),
            action@ == old(self)@.after_texts().1,
    {
        proof {
            use_type_invariant(&*self);
        }
        if self.attachments.len() > 0 && self.recipients.len() > 0 {
            let request = self.media_request(0, 0);
            self.phase = SenderPhase::AwaitingMedia(0, 0);
            SenderAction::Call(request)
        } else {
            self.phase = SenderPhase::Finished;
            SenderAction::Finish(Ok(()))
        }
    }

    fn after_session(&mut self) -> (action: SenderAction)
        ensures
            final(self)@ == (SenderView { phase: old(self)@.after_session().0, ..old(self)@ }),
            action@ == old(self)@.after_session().1,
    {
        proof {
            use_type_invariant(&*self);
        }
        if !self.message.as_str().is_empty() && self.recipients.len() > 0 {
            let request = self.text_request(0);
            self.phase = SenderPhase::AwaitingText(0);
            SenderAction::Call(request)
        } else {
            self.after_texts()
        }
    }

    fn advance(&mut self) -> (action: SenderAction)
        ensures
            final(self)@ == (SenderView { phase: old(self)@.advance().0, ..old(self)@ }),
            action@ == old(self)@.advance().1,
    {
        proof {
            use_type_invariant(&*self);
            assert(self@.recipients.len() == self.recipients@.len());
            assert(self@.attachments.len() == self.attachments@.len());
        }
        let recipients = self.recipients.len();
        let attachments = self.attachments.len();
        match self.phase {
            SenderPhase::AwaitingSession => self.after_session(),
            SenderPhase::AwaitingText(r) => {
                if r + 1 < recipients {
                    let request = self.text_request(r + 1);
                    self.phase = SenderPhase::AwaitingText(r + 1);
                    SenderAction::Call(request)
                } else {
                    self.after_texts()
                }
            },
            SenderPhase::AwaitingMedia(a, r) => {
                if r + 1 < recipients {
                    let request = self.media_request(a, r + 1);
                    self.phase = SenderPhase::AwaitingMedia(a, r + 1);
                    SenderAction::Call(request)
                } else if a + 1 < attachments {
                    let request = self.media_request(a + 1, 0);
                    self.phase = SenderPhase::AwaitingMedia(a + 1, 0);
                    SenderAction::Call(request)
                } else {
                    self.phase = SenderPhase::Finished;
                    SenderAction::Finish(Ok(()))
                }
            },
            SenderPhase::Finished => SenderAction::Finish(Err(WhatsAppError::Unexpected)),
        }
    }

    /// Takes the answer to the request last handed out and says what to do next.
    ///
    /// Any failure ends the send at once: an unreachable gateway, an answer outside
    /// 2xx, a session that is not `CONNECTED`. Otherwise the order is: the text to
    /// each recipient (where the message is not empty), then each attachment to
    /// each recipient, attachment by attachment.
    pub fn step(&mut self, event: GatewayEvent) -> (action: SenderAction)
        ensures
            final(self)@ == (SenderView { phase: old(self)@.next(event@).0, ..old(self)@ }),
            action@ == old(self)@.next(event@).1,
    {
        proof {
            use_type_invariant(&*self);
        }
        match self.phase {
            SenderPhase::Finished => {
                return SenderAction::Finish(Err(WhatsAppError::Unexpected));
            },
            _ => {},
        }
        match event {
            GatewayEvent::Unreachable(text) => {
                self.phase = SenderPhase::Finished;
                SenderAction::Finish(Err(WhatsAppError::Unreachable(text)))
            },
            GatewayEvent::Reply { status, body } => {
                match self.phase {
                    SenderPhase::AwaitingSession => {
                        let state = read_text_field(body.as_str(), "state");
                        match check_session(status, body, state) {
                            Ok(()) => self.after_session(),
                            Err(error) => {
                                self.phase = SenderPhase::Finished;
                                SenderAction::Finish(Err(error))
                            },
                        }
                    },
                    _ => {
                        if 200 <= status && status < 300 {
                            self.advance()
                        } else {
                            self.phase = SenderPhase::Finished;
                            SenderAction::Finish(Err(WhatsAppError::HttpError { status, body }))
                        }
                    },
                }
            },
        }
    }
}

} // verus!
