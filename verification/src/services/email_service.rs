//! The email sender and its audit trail.
//!
//! An [`EmailJob`] says, one step at a time, what one send needs: an audit row, a
//! TLS connection to the relay, one message per recipient, and the outcome on the
//! audit row. The [`EmailService`] keeps the audit rows.

use crate::address::{check_mailbox, mailbox_error};
use crate::clock::now_micros;
use crate::ident::{format_id, parse_id, random_id, uuid_text, uuid_value};
use crate::models::email_model::{
    clone_attachments, EmailAttachment, EmailAttachmentView, EmailRecord, EmailRecordView,
    EmailStatus, EmailStatusResponse, EmailStatusResponseView,
};
use crate::models::notification_model::{EmailConfig, EmailConfigView};
use crate::services::operation_service::RegistryError;
use crate::text::{join, joined};
use vstd::prelude::*;
use vstd::string::StringExecFns;

verus! {

/// How long one transmission may take, in seconds.
pub const TRANSMIT_TIMEOUT_SECONDS: u64 = 30;

/// Why an email send failed.
#[derive(Debug, PartialEq, Eq)]
pub enum EmailError {
    /// The request asks for email but carries no settings for it.
    ConfigMissing,
    /// A sender or recipient address is no address.
    AddressParse(String),
    /// TLS to the relay could not be set up.
    TlsSetup(String),
    /// The relay refused, or the connection broke.
    SmtpTransport(String),
    /// A transmission ran out of time.
    Timeout,
    /// The audit row could not be written.
    Store(String),
    /// A report came that the send had not asked for.
    Unexpected,
}

pub enum EmailErrorView {
    ConfigMissing,
    AddressParse(Seq<char>),
    TlsSetup(Seq<char>),
    SmtpTransport(Seq<char>),
    Timeout,
    Store(Seq<char>),
    Unexpected,
}

impl View for EmailError {
    type V = EmailErrorView;

    open spec fn view(&self) -> EmailErrorView {
        match self {
            EmailError::ConfigMissing => EmailErrorView::ConfigMissing,
            EmailError::AddressParse(text) => EmailErrorView::AddressParse(text@),
            EmailError::TlsSetup(text) => EmailErrorView::TlsSetup(text@),
            EmailError::SmtpTransport(text) => EmailErrorView::SmtpTransport(text@),
            EmailError::Timeout => EmailErrorView::Timeout,
            EmailError::Store(text) => EmailErrorView::Store(text@),
            EmailError::Unexpected => EmailErrorView::Unexpected,
        }
    }
}

impl DeepView for EmailError {
    type V = EmailErrorView;

    open spec fn deep_view(&self) -> EmailErrorView {
        self@
    }
}

impl Clone for EmailError {
    fn clone(&self) -> (r: Self)
        ensures
            r@ == self@,
    {
        match self {
            EmailError::ConfigMissing => EmailError::ConfigMissing,
            EmailError::AddressParse(text) => EmailError::AddressParse(text.clone()),
            EmailError::TlsSetup(text) => EmailError::TlsSetup(text.clone()),
            EmailError::SmtpTransport(text) => EmailError::SmtpTransport(text.clone()),
            EmailError::Timeout => EmailError::Timeout,
            EmailError::Store(text) => EmailError::Store(text.clone()),
            EmailError::Unexpected => EmailError::Unexpected,
        }
    }
}

impl EmailErrorView {
    /// The text under which the failure is recorded.
    pub open spec fn message(self) -> Seq<char> {
        match self {
            EmailErrorView::ConfigMissing => "missing email_config for channel email"@,
            EmailErrorView::AddressParse(text) => "invalid email address: "@ + text,
            EmailErrorView::TlsSetup(text) => "TLS setup failed: "@ + text,
            EmailErrorView::SmtpTransport(text) => "SMTP transport failed: "@ + text,
            EmailErrorView::Timeout => "SMTP transmission timed out after 30 seconds"@,
            EmailErrorView::Store(text) => "email audit row not written: "@ + text,
            EmailErrorView::Unexpected => "report not asked for by the email sender"@,
        }
    }
}

fn prefixed(prefix: &str, text: &String) -> (r: String)
    ensures
        r@ == prefix@ + text@,
{
    let mut s = String::from_str(prefix);
    s.append(text.as_str());
    s
}

impl EmailError {
    /// The text under which the failure is recorded.
    pub fn message(&self) -> (r: String)
        ensures
            r@ == self@.message(),
    {
        match self {
            EmailError::ConfigMissing => String::from_str("missing email_config for channel email"),
            EmailError::AddressParse(text) => prefixed("invalid email address: ", text),
            EmailError::TlsSetup(text) => prefixed("TLS setup failed: ", text),
            EmailError::SmtpTransport(text) => prefixed("SMTP transport failed: ", text),
            EmailError::Timeout => String::from_str("SMTP transmission timed out after 30 seconds"),
            EmailError::Store(text) => prefixed("email audit row not written: ", text),
            EmailError::Unexpected => String::from_str("report not asked for by the email sender"),
        }
    }
}

/// What the check of an address means for a send: nothing where the address is
/// one, else a failure that names the address and what is wrong with it.
pub open spec fn address_verdict(address: Seq<char>, checked: Option<Seq<char>>) -> Result<
    (),
    EmailErrorView,
> {
    match checked {
        None => Ok(()),
        Some(reason) => Err(EmailErrorView::AddressParse(address + ": "@ + reason)),
    }
}

/// Decides what the check of `address` means for a send. `checked` is what the
/// check found wrong, `None` where it found nothing.
pub fn judge_address(address: &str, checked: Option<String>) -> (r: Result<(), EmailError>)
    ensures
        match r {
            Ok(()) => address_verdict(address@, checked.deep_view()) == Ok::<(), EmailErrorView>(()),
            Err(error) => address_verdict(address@, checked.deep_view()) == Err::<
                (),
                EmailErrorView,
            >(error@),
        },
{
    match checked {
        None => Ok(()),
        Some(reason) => {
            let mut text = String::from_str(address);
            text.append(": ");
            text.append(reason.as_str());
            Err(EmailError::AddressParse(text))
        },
    }
}

/// What an email send wants done next.
#[derive(Debug, PartialEq, Eq)]
pub enum EmailAction {
    /// Insert a `pending` audit row; `recipient` is all recipients joined by `;`.
    RecordEmail { recipient: String, subject: String, body: String },
    /// Connect to the relay over TLS, which is required, and log in. `from` is the
    /// sender's mailbox.
    Connect { host: String, port: u16, user: String, password: String, from: String },
    /// Send one message: an HTML body and one part per attachment, to one
    /// recipient, within `timeout_seconds`.
    Transmit {
        to: String,
        subject: String,
        html_body: String,
        attachments: Vec<EmailAttachment>,
        timeout_seconds: u64,
    },
    /// Write the outcome over the audit row.
    SetEmailStatus { status: EmailStatus, error: Option<String> },
    /// Nothing more: the send is over.
    Finish(Result<(), EmailError>),
}

pub enum EmailActionView {
    RecordEmail { recipient: Seq<char>, subject: Seq<char>, body: Seq<char> },
    Connect { host: Seq<char>, port: u16, user: Seq<char>, password: Seq<char>, from: Seq<char> },
    Transmit {
        to: Seq<char>,
        subject: Seq<char>,
        html_body: Seq<char>,
        attachments: Seq<EmailAttachmentView>,
        timeout_seconds: u64,
    },
    SetEmailStatus { status: EmailStatus, error: Option<Seq<char>> },
    Finish(Result<(), EmailErrorView>),
}

impl View for EmailAction {
    type V = EmailActionView;

    open spec fn view(&self) -> EmailActionView {
        match self {
            EmailAction::RecordEmail { recipient, subject, body } => EmailActionView::RecordEmail {
                recipient: recipient@,
                subject: subject@,
                body: body@,
            },
            EmailAction::Connect { host, port, user, password, from } => EmailActionView::Connect {
                host: host@,
                port: *port,
                user: user@,
                password: password@,
                from: from@,
            },
            EmailAction::Transmit {
                to,
                subject,
                html_body,
                attachments,
                timeout_seconds,
            } => EmailActionView::Transmit {
                to: to@,
                subject: subject@,
                html_body: html_body@,
                attachments: attachments.deep_view(),
                timeout_seconds: *timeout_seconds,
            },
            EmailAction::SetEmailStatus { status, error } => EmailActionView::SetEmailStatus {
                status: *status,
                error: error.deep_view(),
            },
            EmailAction::Finish(Ok(())) => EmailActionView::Finish(Ok(())),
            EmailAction::Finish(Err(error)) => EmailActionView::Finish(Err(error@)),
        }
    }
}

/// What the caller reports after carrying out an [`EmailAction`].
#[derive(Debug, PartialEq, Eq)]
pub enum EmailEvent {
    /// The audit row is written.
    Stored,
    /// The audit row could not be written.
    StoreFailed(String),
    /// The relay is connected.
    Connected,
    /// The message is delivered to the relay.
    Delivered,
    /// TLS could not be set up.
    TlsFailed(String),
    /// The relay refused, or the connection broke.
    TransportFailed(String),
    /// The transmission ran out of time.
    TimedOut,
}

pub enum EmailEventView {
    Stored,
    StoreFailed(Seq<char>),
    Connected,
    Delivered,
    TlsFailed(Seq<char>),
    TransportFailed(Seq<char>),
    TimedOut,
}

impl View for EmailEvent {
    type V = EmailEventView;

    open spec fn view(&self) -> EmailEventView {
        match self {
            EmailEvent::Stored => EmailEventView::Stored,
            EmailEvent::StoreFailed(text) => EmailEventView::StoreFailed(text@),
            EmailEvent::Connected => EmailEventView::Connected,
            EmailEvent::Delivered => EmailEventView::Delivered,
            EmailEvent::TlsFailed(text) => EmailEventView::TlsFailed(text@),
            EmailEvent::TransportFailed(text) => EmailEventView::TransportFailed(text@),
            EmailEvent::TimedOut => EmailEventView::TimedOut,
        }
    }
}

/// Which report an email send is waiting for.
#[derive(Clone, Copy, Debug, PartialEq, Eq, Structural)]
pub enum EmailPhase {
    /// The audit row is being inserted.
    Recording,
    /// The relay is being connected.
    Connecting,
    /// The message to the recipient at this index is on its way.
    Transmitting(usize),
    /// `sent` is being written over the audit row.
    RecordingSent,
    /// `failed` is being written over the audit row.
    RecordingFailure,
    /// Nothing: the send is over.
    Finished,
}

/// An email send as the contracts see it.
pub struct EmailJobView {
    pub config: EmailConfigView,
    pub subject: Seq<char>,
    pub body: Seq<char>,
    pub attachments: Seq<EmailAttachmentView>,
    /// The failure being recorded.
    pub failure: Option<EmailErrorView>,
    pub phase: EmailPhase,
}

impl EmailJobView {
    /// The recipients can be counted, a phase's recipient exists, and a failure
    /// being recorded is at hand.
    pub open spec fn wf(self) -> bool {
        &&& self.config.recipients.len() <= usize::MAX
        &&& match self.phase {
            EmailPhase::Transmitting(i) => i < self.config.recipients.len(),
            EmailPhase::RecordingFailure => self.failure is Some,
            _ => true,
        }
    }

    /// The sender's mailbox.
    pub open spec fn from(self) -> Seq<char> {
        "Calipso Dynamics <"@ + self.config.smtp_user + ">"@
    }

    /// The message to the recipient at `i`.
    pub open spec fn transmit(self, i: int) -> EmailActionView {
        EmailActionView::Transmit {
            to: self.config.recipients[i],
            subject: self.subject,
            html_body: self.body,
            attachments: self.attachments,
            timeout_seconds: TRANSMIT_TIMEOUT_SECONDS,
        }
    }

    /// After recipient `done - 1`: the next recipient, provided its address is
    /// one, or, after the last, `sent` on the audit row.
    pub open spec fn proceed(self, done: int) -> (EmailJobView, EmailActionView) {
        if done < self.config.recipients.len() {
            match address_verdict(
                self.config.recipients[done],
                mailbox_error(self.config.recipients[done]),
            ) {
                Err(error) => self.fail(error),
                Ok(()) => (
                    EmailJobView { phase: EmailPhase::Transmitting(done as usize), ..self },
                    self.transmit(done),
                ),
            }
        } else {
            (
                EmailJobView { phase: EmailPhase::RecordingSent, ..self },
                EmailActionView::SetEmailStatus { status: EmailStatus::Sent, error: None },
            )
        }
    }

    /// The first failure ends the sending: no further recipient is tried, and
    /// `failed` goes on the audit row with the error's text.
    pub open spec fn fail(self, error: EmailErrorView) -> (EmailJobView, EmailActionView) {
        (
            EmailJobView { phase: EmailPhase::RecordingFailure, failure: Some(error), ..self },
            EmailActionView::SetEmailStatus {
                status: EmailStatus::Failed,
                error: Some(error.message()),
            },
        )
    }

    /// The send is over.
    pub open spec fn finish(self, outcome: Result<(), EmailErrorView>) -> (
        EmailJobView,
        EmailActionView,
    ) {
        (EmailJobView { phase: EmailPhase::Finished, ..self }, EmailActionView::Finish(outcome))
    }

    /// The transition function: the send after `event`, and what it asks for next.
    pub open spec fn next(self, event: EmailEventView) -> (EmailJobView, EmailActionView) {
        match (self.phase, event) {
            (EmailPhase::Finished, _) => self.finish(Err(EmailErrorView::Unexpected)),
            (_, EmailEventView::StoreFailed(text)) => self.finish(Err(EmailErrorView::Store(text))),
            (EmailPhase::Recording, EmailEventView::Stored) => match address_verdict(
                self.from(),
                mailbox_error(self.from()),
            ) {
                Err(error) => self.fail(error),
                Ok(()) => (
                    EmailJobView { phase: EmailPhase::Connecting, ..self },
                    EmailActionView::Connect {
                        host: self.config.smtp_host,
                        port: self.config.smtp_port,
                        user: self.config.smtp_user,
                        password: self.config.smtp_pass,
                        from: self.from(),
                    },
                ),
            },
            (EmailPhase::Connecting, EmailEventView::Connected) => self.proceed(0),
            (EmailPhase::Connecting, EmailEventView::TlsFailed(text)) => self.fail(
                EmailErrorView::TlsSetup(text),
            ),
            (EmailPhase::Connecting, EmailEventView::TransportFailed(text)) => self.fail(
                EmailErrorView::SmtpTransport(text),
            ),
            (EmailPhase::Transmitting(i), EmailEventView::Delivered) => self.proceed(i + 1),
            (EmailPhase::Transmitting(_), EmailEventView::TransportFailed(text)) => self.fail(
                EmailErrorView::SmtpTransport(text),
            ),
            (EmailPhase::Transmitting(_), EmailEventView::TimedOut) => self.fail(
                EmailErrorView::Timeout,
            ),
            (EmailPhase::RecordingSent, EmailEventView::Stored) => self.finish(Ok(())),
            (EmailPhase::RecordingFailure, EmailEventView::Stored) => self.finish(
                Err(
                    match self.failure {
                        Some(error) => error,
                        None => EmailErrorView::Unexpected,
                    },
                ),
            ),
            _ => self.finish(Err(EmailErrorView::Unexpected)),
        }
    }

    /// How many transmissions the send may still ask for.
    pub open spec fn transmissions_left(self) -> int {
        match self.phase {
            EmailPhase::Recording => self.config.recipients.len() as int,
            EmailPhase::Connecting => self.config.recipients.len() as int,
            EmailPhase::Transmitting(i) => self.config.recipients.len() - i - 1,
            _ => 0,
        }
    }
}

/// A send asks for at most one transmission per recipient, each limited to 30
/// seconds: every step either uses up one of the transmissions left, or asks for
/// none. So all transmissions of one send take at most 30 seconds times the number
/// of recipients.
pub proof fn lemma_transmissions_bounded(job: EmailJobView, event: EmailEventView)
    requires
        job.wf(),
    ensures
        job.next(event).0.wf(),
        0 <= job.next(event).0.transmissions_left(),
        job.next(event).1 is Transmit ==> job.next(event).0.transmissions_left() + 1
            <= job.transmissions_left() && job.next(event).1->timeout_seconds == 30,
        !(job.next(event).1 is Transmit) ==> job.next(event).0.transmissions_left()
            <= job.transmissions_left(),
{
}

/// A send is recorded as sent only when every recipient has had a message
/// delivered: `sent` is asked for on the delivery to the last recipient, or, where
/// there is no recipient at all, on connecting.
pub proof fn lemma_sent_means_all_delivered(job: EmailJobView, event: EmailEventView)
    requires
        job.wf(),
        job.next(event).1 == (EmailActionView::SetEmailStatus {
            status: EmailStatus::Sent,
            error: None,
        }),
    ensures
        match job.phase {
            EmailPhase::Connecting => event == EmailEventView::Connected
                && job.config.recipients.len() == 0,
            EmailPhase::Transmitting(i) => event == EmailEventView::Delivered && i + 1
                == job.config.recipients.len(),
            _ => false,
        },
{
}

/// One email send in progress.
pub struct EmailJob {
    config: EmailConfig,
    subject: String,
    body: String,
    attachments: Vec<EmailAttachment>,
    failure: Option<EmailError>,
    phase: EmailPhase,
}

impl View for EmailJob {
    type V = EmailJobView;

    closed spec fn view(&self) -> EmailJobView {
        EmailJobView {
            config: self.config@,
            subject: self.subject@,
            body: self.body@,
            attachments: self.attachments.deep_view(),
            failure: self.failure.deep_view(),
            phase: self.phase,
        }
    }
}

impl EmailJob {
    #[verifier::type_invariant]
    spec fn inv(self) -> bool {
        self@.wf()
    }

    /// Begins a send. Refuses where the request has no email settings; otherwise
    /// the first thing to do is to insert the audit row, naming all recipients
    /// joined by `;`.
    pub fn start(
        config: &Option<EmailConfig>,
        subject: String,
        body: String,
        attachments: Vec<EmailAttachment>,
    ) -> (r: Result<(EmailJob, EmailAction), EmailError>)
        ensures
            r is Ok <==> config is Some,
            r is Ok ==> {
                &&& r->Ok_0.0@ == (EmailJobView {
                    config: config->0@,
                    subject: subject@,
                    body: body@,
                    attachments: attachments.deep_view(),
                    failure: None,
                    phase: EmailPhase::Recording,
                })
                &&& r->Ok_0.1@ == (EmailActionView::RecordEmail {
                    recipient: joined(config->0@.recipients, ";"@),
                    subject: subject@,
                    body: body@,
                })
            },
            r is Err ==> r->Err_0@ == EmailErrorView::ConfigMissing,
    {
        match config {
            None => Err(EmailError::ConfigMissing),
            Some(settings) => {
                let action = EmailAction::RecordEmail {
                    recipient: join(&settings.recipients, ";"),
                    subject: subject.clone(),
                    body: body.clone(),
                };
                let n = settings.recipients.len();
                assert(n == settings@.recipients.len());
                let job = EmailJob {
                    config: settings.clone(),
                    subject,
                    body,
                    attachments,
                    failure: None,
                    phase: EmailPhase::Recording,
                };
                Ok((job, action))
            },
        }
    }

    /// Which report the send is waiting for.
    pub fn phase(&self) -> (r: EmailPhase)
        ensures
            r == self@.phase,
            self@.wf(),
    {
        proof {
            use_type_invariant(self);
        }
        self.phase
    }

    fn proceed(&mut self, done: usize) -> (action: EmailAction)
        ensures
            (final(self)@, action@) == old(self)@.proceed(done as int),
    {
        proof {
            use_type_invariant(&*self);
        }
        let n = self.config.recipients.len();
        assert(n == self@.config.recipients.len());
        if done < n {
            let to = self.config.recipients[done].clone();
            match judge_address(to.as_str(), check_mailbox(to.as_str())) {
                Err(error) => self.fail(error),
                Ok(()) => {
                    let action = EmailAction::Transmit {
                        to,
                        subject: self.subject.clone(),
                        html_body: self.body.clone(),
                        attachments: clone_attachments(&self.attachments),
                        timeout_seconds: TRANSMIT_TIMEOUT_SECONDS,
                    };
                    self.phase = EmailPhase::Transmitting(done);
                    action
                },
            }
        } else {
            self.phase = EmailPhase::RecordingSent;
            EmailAction::SetEmailStatus { status: EmailStatus::Sent, error: None }
        }
    }

    fn fail(&mut self, error: EmailError) -> (action: EmailAction)
        ensures
            (final(self)@, action@) == old(self)@.fail(error@),
    {
        proof {
            use_type_invariant(&*self);
        }
        let text = error.message();
        self.failure = Some(error);
        self.phase = EmailPhase::RecordingFailure;
        EmailAction::SetEmailStatus { status: EmailStatus::Failed, error: Some(text) }
    }

    fn finish(&mut self, outcome: Result<(), EmailError>) -> (action: EmailAction)
        ensures
            (final(self)@, action@) == old(self)@.finish(
                match outcome {
                    Ok(()) => Ok(()),
                    Err(error) => Err(error@),
                },
            ),
    {
        proof {
            use_type_invariant(&*self);
        }
        self.phase = EmailPhase::Finished;
        EmailAction::Finish(outcome)
    }

    /// Takes the report on the action last handed out and says what to do next.
    ///
    /// One message goes to each recipient, in order. An address is checked just
    /// before it is used: the sender's before connecting, a recipient's before
    /// its message. The first failure ends the sending: the recipients after it
    /// are not tried, `failed` is written over the audit row, and the failure is
    /// the send's outcome.
    pub fn step(&mut self, event: EmailEvent) -> (action: EmailAction)
        ensures
            (final(self)@, action@) == old(self)@.next(event@),
    {
        proof {
            use_type_invariant(&*self);
        }
        match (self.phase, event) {
            (EmailPhase::Finished, _) => self.finish(Err(EmailError::Unexpected)),
            (_, EmailEvent::StoreFailed(text)) => self.finish(Err(EmailError::Store(text))),
            (EmailPhase::Recording, EmailEvent::Stored) => {
                let mut from = String::from_str("Calipso Dynamics <");
                from.append(self.config.smtp_user.as_str());
                from.append(">");
                match judge_address(from.as_str(), check_mailbox(from.as_str())) {
                    Err(error) => self.fail(error),
                    Ok(()) => {
                        self.phase = EmailPhase::Connecting;
                        EmailAction::Connect {
                            host: self.config.smtp_host.clone(),
                            port: self.config.smtp_port,
                            user: self.config.smtp_user.clone(),
                            password: self.config.smtp_pass.clone(),
                            from,
                        }
                    },
                }
            },
            (EmailPhase::Connecting, EmailEvent::Connected) => self.proceed(0),
            (EmailPhase::Connecting, EmailEvent::TlsFailed(text)) => self.fail(
                EmailError::TlsSetup(text),
            ),
            (EmailPhase::Connecting, EmailEvent::TransportFailed(text)) => self.fail(
                EmailError::SmtpTransport(text),
            ),
            (EmailPhase::Transmitting(i), EmailEvent::Delivered) => {
                assert(i < self@.config.recipients.len());
                let n = self.config.recipients.len();
                assert(n == self@.config.recipients.len());
                self.proceed(i + 1)
            },
            (EmailPhase::Transmitting(_), EmailEvent::TransportFailed(text)) => self.fail(
                EmailError::SmtpTransport(text),
            ),
            (EmailPhase::Transmitting(_), EmailEvent::TimedOut) => self.fail(EmailError::Timeout),
            (EmailPhase::RecordingSent, EmailEvent::Stored) => self.finish(Ok(())),
            (EmailPhase::RecordingFailure, EmailEvent::Stored) => {
                let error = match &self.failure {
                    Some(error) => error.clone(),
                    None => EmailError::Unexpected,
                };
                self.finish(Err(error))
            },
            _ => self.finish(Err(EmailError::Unexpected)),
        }
    }
}

/// Whether some audit row has the identifier `id`.
pub open spec fn has_email(rows: Seq<EmailRecordView>, id: u128) -> bool {
    exists|i: int| 0 <= i < rows.len() && #[trigger] rows[i].id == id
}

/// No identifier occurs twice.
pub open spec fn distinct_email_ids(rows: Seq<EmailRecordView>) -> bool {
    forall|i: int, j: int|
        0 <= i < j < rows.len() ==> (#[trigger] rows[i]).id != (#[trigger] rows[j]).id
}

/// The earliest audit row of an operation, where it has one.
pub open spec fn first_email_of(rows: Seq<EmailRecordView>, operation_id: u128) -> Option<
    EmailRecordView,
>
    decreases rows.len(),
{
    if rows.len() == 0 {
        None
    } else if rows[0].operation_id == operation_id {
        Some(rows[0])
    } else {
        first_email_of(rows.drop_first(), operation_id)
    }
}

/// The table after an outcome is written for an operation: each of its audit rows
/// takes the status and the error, every other row stays.
pub open spec fn emails_written(
    rows: Seq<EmailRecordView>,
    operation_id: u128,
    status: EmailStatus,
    error: Option<Seq<char>>,
) -> Seq<EmailRecordView> {
    Seq::new(
        rows.len(),
        |i: int|
            if rows[i].operation_id == operation_id {
                EmailRecordView { status, error_message: error, ..rows[i] }
            } else {
                rows[i]
            },
    )
}

/// An audit row as a status query shows it: under the operation's identifier.
pub open spec fn status_answer(row: EmailRecordView) -> EmailStatusResponseView {
    EmailStatusResponseView {
        id: uuid_text(row.operation_id),
        status: row.status.text(),
        error: row.error_message,
    }
}

/// The audit trail: one row per email send, in the order of creation.
pub struct EmailService {
    rows: Vec<EmailRecord>,
}

impl View for EmailService {
    type V = Seq<EmailRecordView>;

    closed spec fn view(&self) -> Seq<EmailRecordView> {
        self.rows.deep_view()
    }
}

impl EmailService {
    #[verifier::type_invariant]
    spec fn inv(self) -> bool {
        distinct_email_ids(self@)
    }

    /// An empty audit trail.
    pub fn new() -> (r: Self)
        ensures
            r@.len() == 0,
    {
        EmailService { rows: Vec::new() }
    }

    /// How many audit rows there are. No identifier occurs twice among them.
    pub fn len(&self) -> (n: usize)
        ensures
            n == self@.len(),
            distinct_email_ids(self@),
    {
        proof {
            use_type_invariant(self);
        }
        self.rows.len()
    }

    fn holds(&self, id: u128) -> (r: bool)
        ensures
            r == has_email(self@, id),
    {
        let mut i: usize = 0;
        while i < self.rows.len()
            invariant
                i <= self.rows.len(),
                forall|j: int| 0 <= j < i ==> self@[j].id != id,
            decreases self.rows.len() - i,
        {
            if self.rows[i].id == id {
                assert(self@[i as int].id == id);
                return true;
            }
            i += 1;
        }
        false
    }

    /// Appends a row.
    fn append(&mut self, record: EmailRecord)
        requires
            !has_email(old(self)@, record@.id),
        ensures
            final(self)@ == old(self)@.push(record@),
    {
        proof {
            use_type_invariant(&*self);
        }
        let ghost before = self@;
        let ghost row = record@;
        let mut rows: Vec<EmailRecord> = Vec::new();
        std::mem::swap(&mut rows, &mut self.rows);
        rows.push(record);
        proof {
            let after = rows.deep_view();
            assert(after =~= before.push(row));
            assert forall|i: int, j: int| 0 <= i < j < after.len() implies (#[trigger] after[i]).id
                != (#[trigger] after[j]).id by {
                if j < before.len() {
                    assert(before[i].id != before[j].id);
                } else {
                    assert(before[i].id != row.id);
                }
            }
        }
        self.rows = rows;
    }

    /// Records a send under a given identifier at a given instant: `pending`,
    /// without error, appended after all earlier rows. An identifier already in
    /// use is refused and nothing changes.
    pub fn insert_email_record(
        &mut self,
        id: u128,
        now: i64,
        operation_id: u128,
        recipient: &str,
        subject: &str,
        body: &str,
    ) -> (r: Result<u128, RegistryError>)
        ensures
            r is Ok <==> !has_email(old(self)@, id),
            r is Ok ==> r->Ok_0 == id && final(self)@ == old(self)@.push(
                EmailRecordView::pending(id, operation_id, recipient@, subject@, body@, now),
            ),
            r is Err ==> final(self)@ == old(self)@ && r->Err_0 is Internal,
    {
        if self.holds(id) {
            return Err(RegistryError::Internal(String::from_str("email id already in use")));
        }
        self.append(
            EmailRecord {
                id,
                operation_id,
                recipient: String::from_str(recipient),
                subject: String::from_str(subject),
                body: String::from_str(body),
                status: EmailStatus::Pending,
                error_message: None,
                created_at: now,
            },
        );
        Ok(id)
    }

    /// Takes in a row as it was stored earlier, whatever its status, and appends
    /// it. An identifier already in use is refused and nothing changes.
    pub fn restore_email_record(&mut self, record: EmailRecord) -> (r: Result<(), RegistryError>)
        ensures
            r is Ok <==> !has_email(old(self)@, record@.id),
            r is Ok ==> final(self)@ == old(self)@.push(record@),
            r is Err ==> final(self)@ == old(self)@ && r->Err_0 is Internal,
    {
        if self.holds(record.id) {
            return Err(RegistryError::Internal(String::from_str("email id already in use")));
        }
        self.append(record);
        Ok(())
    }

    /// The earliest audit row of the operation; `NotFound` where it has none.
    pub fn find_email_record(&self, operation_id: u128) -> (r: Result<EmailRecord, RegistryError>)
        ensures
            r is Ok <==> first_email_of(self@, operation_id) is Some,
            r is Ok ==> r->Ok_0@ == first_email_of(self@, operation_id)->0,
            r is Err ==> r->Err_0 is NotFound,
    {
        let mut i: usize = 0;
        assert(self@.skip(0) =~= self@);
        while i < self.rows.len()
            invariant
                i <= self.rows.len(),
                first_email_of(self@, operation_id) == first_email_of(
                    self@.skip(i as int),
                    operation_id,
                ),
            decreases self.rows.len() - i,
        {
            assert(self@.skip(i as int).drop_first() =~= self@.skip(i as int + 1));
            assert(self@.skip(i as int)[0] == self@[i as int]);
            if self.rows[i].operation_id == operation_id {
                return Ok(self.rows[i].clone());
            }
            i += 1;
        }
        Err(RegistryError::NotFound)
    }

    /// Records a send under a fresh random identifier, stamped with the current
    /// time. Whatever identifier and instant were drawn, the outcome is that of
    /// [`Self::insert_email_record`] with them.
    pub fn create_email_record(&mut self, operation_id: u128, recipient: &str, subject: &str, body: &str)
        -> (r: Result<u128, RegistryError>)
        ensures
            r is Ok ==> !has_email(old(self)@, r->Ok_0) && exists|now: i64|
                final(self)@ == old(self)@.push(
                    #[trigger] EmailRecordView::pending(
                        r->Ok_0,
                        operation_id,
                        recipient@,
                        subject@,
                        body@,
                        now,
                    ),
                ),
            r is Err ==> final(self)@ == old(self)@ && r->Err_0 is Internal && exists|id: u128|
                has_email(old(self)@, id),
    {
        let id = random_id();
        let now = now_micros();
        self.insert_email_record(id, now, operation_id, recipient, subject, body)
    }

    /// Writes an outcome over every audit row of the operation. Says whether it
    /// has one.
    pub fn update_email_status(
        &mut self,
        operation_id: u128,
        status: EmailStatus,
        error: Option<String>,
    ) -> (found: bool)
        ensures
            found == (first_email_of(old(self)@, operation_id) is Some),
            final(self)@ == emails_written(old(self)@, operation_id, status, error.deep_view()),
    {
        proof {
            use_type_invariant(&*self);
        }
        let ghost before = self@;
        let mut rows: Vec<EmailRecord> = Vec::new();
        std::mem::swap(&mut rows, &mut self.rows);
        let mut found = false;
        let mut i: usize = 0;
        assert(before.skip(0) =~= before);
        while i < rows.len()
            invariant
                i <= rows.len(),
                rows.deep_view().len() == before.len(),
                forall|j: int|
                    0 <= j < i ==> rows.deep_view()[j] == emails_written(
                        before,
                        operation_id,
                        status,
                        error.deep_view(),
                    )[j],
                forall|j: int| i <= j < before.len() ==> rows.deep_view()[j] == before[j],
                found ==> first_email_of(before, operation_id) is Some,
                !found ==> first_email_of(before, operation_id) == first_email_of(
                    before.skip(i as int),
                    operation_id,
                ),
            decreases rows.len() - i,
        {
            assert(before.skip(i as int).drop_first() =~= before.skip(i as int + 1));
            assert(before.skip(i as int)[0] == before[i as int]);
            let ghost held = rows.deep_view();
            assert(held[i as int] == rows@[i as int]@);
            if rows[i].operation_id == operation_id {
                let previous = rows[i].clone();
                let record = EmailRecord {
                    id: previous.id,
                    operation_id: previous.operation_id,
                    recipient: previous.recipient,
                    subject: previous.subject,
                    body: previous.body,
                    status,
                    error_message: error.clone(),
                    created_at: previous.created_at,
                };
                rows.set(i, record);
                found = true;
                assert(rows.deep_view() =~= held.update(i as int, rows@[i as int]@));
            }
            i += 1;
        }
        proof {
            let after = rows.deep_view();
            let target = emails_written(before, operation_id, status, error.deep_view());
            assert(after =~= target);
            assert forall|a: int, b: int| 0 <= a < b < after.len() implies (#[trigger] after[a]).id
                != (#[trigger] after[b]).id by {
                assert(before[a].id != before[b].id);
            }
        }
        self.rows = rows;
        found
    }

    /// Begins a send to every recipient of `config`: see [`EmailJob::start`]. The
    /// first thing the send asks for is its audit row in this trail.
    pub fn send_unified(
        &self,
        config: &Option<EmailConfig>,
        subject: String,
        body: String,
        attachments: Vec<EmailAttachment>,
    ) -> (r: Result<(EmailJob, EmailAction), EmailError>)
        ensures
            r is Ok <==> config is Some,
            r is Ok ==> {
                &&& r->Ok_0.0@ == (EmailJobView {
                    config: config->0@,
                    subject: subject@,
                    body: body@,
                    attachments: attachments.deep_view(),
                    failure: None,
                    phase: EmailPhase::Recording,
                })
                &&& r->Ok_0.1@ == (EmailActionView::RecordEmail {
                    recipient: joined(config->0@.recipients, ";"@),
                    subject: subject@,
                    body: body@,
                })
            },
            r is Err ==> r->Err_0@ == EmailErrorView::ConfigMissing,
    {
        EmailJob::start(config, subject, body, attachments)
    }

    /// The status of the operation's email send, read from its earliest audit row;
    /// `NotFound` where it has none.
    pub fn find_email_status(&self, operation_id: u128) -> (r: Result<
        EmailStatusResponse,
        RegistryError,
    >)
        ensures
            r is Ok <==> first_email_of(self@, operation_id) is Some,
            r is Ok ==> r->Ok_0@ == status_answer(first_email_of(self@, operation_id)->0),
            r is Err ==> r->Err_0 is NotFound,
    {
        match self.find_email_record(operation_id) {
            Ok(row) => Ok(
                EmailStatusResponse {
                    id: format_id(row.operation_id),
                    status: String::from_str(row.status.as_str()),
                    error: row.error_message,
                },
            ),
            Err(error) => Err(error),
        }
    }

    /// The status of the email send of the operation whose identifier
    /// `operation_id` spells; `NotFound` where the text is no identifier or the
    /// operation has no audit row.
    pub fn get_email_status(&self, operation_id: &str) -> (r: Result<
        EmailStatusResponse,
        RegistryError,
    >)
        ensures
            r is Ok <==> uuid_value(operation_id@) is Some && first_email_of(
                self@,
                uuid_value(operation_id@)->0,
            ) is Some,
            r is Ok ==> r->Ok_0@ == status_answer(
                first_email_of(self@, uuid_value(operation_id@)->0)->0,
            ),
            r is Err ==> r->Err_0 is NotFound,
    {
        match parse_id(operation_id) {
            Some(id) => self.find_email_status(id),
            None => Err(RegistryError::NotFound),
        }
    }
}

} // verus!
