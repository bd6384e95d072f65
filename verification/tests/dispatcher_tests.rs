use notification_dispatcher::models::email_model::EmailAttachment;
use notification_dispatcher::models::notification_model::{
    EmailConfig, NotificationRequest, WhatsAppConfig,
};
use notification_dispatcher::models::operation_model::CreateOperationRequest;
use notification_dispatcher::models::pdf_model::{PdfMargins, PdfOrientation, PdfPagePreset, PdfRequest};
use notification_dispatcher::services::notification_channel_service::NotificationChannelService;
use notification_dispatcher::services::notification_service::{
    every_channel_done, DispatchAction, DispatchEvent, DispatchOutcome, DispatchPhase,
    NotificationService,
};
use notification_dispatcher::services::operation_service::OperationService;
use notification_dispatcher::status::Status;

const OP: u128 = 0xaaaaaaaa_0000_4000_8000_000000000001;

fn email_config() -> EmailConfig {
    EmailConfig {
        smtp_host: "smtp.example.org".to_string(),
        smtp_port: 465,
        smtp_user: "robot@example.org".to_string(),
        smtp_pass: "secret".to_string(),
        recipients: vec!["a@x.io".to_string()],
    }
}

fn whatsapp_config() -> WhatsAppConfig {
    WhatsAppConfig { recipients: vec!["1@c.us".to_string()] }
}

fn request(channels: &[&str]) -> NotificationRequest {
    NotificationRequest {
        channels: channels.iter().map(|c| c.to_string()).collect(),
        email_config: Some(email_config()),
        whatsapp_config: Some(whatsapp_config()),
        subject: Some("Subject".to_string()),
        body: Some("Body".to_string()),
        async_send: false,
        pdf_html: None,
        pdf_orientation: None,
        pdf_page_size_preset: None,
        pdf_custom_page_size: None,
        pdf_margins: None,
        pdf_scale: None,
        pdf_attachment_name: None,
        other_attachments: None,
    }
}

fn attachment(name: &str) -> EmailAttachment {
    EmailAttachment {
        filename: name.to_string(),
        content_type: "text/plain".to_string(),
        data: name.as_bytes().to_vec(),
    }
}

/// What the outside world does during one dispatch.
struct World {
    ops: OperationService,
    channels: NotificationChannelService,
    pdf: Result<Vec<u8>, String>,
    email: Result<(), String>,
    whatsapp: Result<(), String>,
    log: Vec<DispatchAction>,
}

impl World {
    fn new() -> World {
        let mut ops = OperationService::new();
        ops.insert_operation(
            OP,
            1000,
            CreateOperationRequest {
                operation_type: "send_notification".to_string(),
                is_async: false,
                metadata: None,
            },
        )
        .unwrap();
        World {
            ops,
            channels: NotificationChannelService::new(),
            pdf: Ok(b"%PDF-1.4".to_vec()),
            email: Ok(()),
            whatsapp: Ok(()),
            log: vec![],
        }
    }

    fn outcome(result: &Result<(), String>) -> DispatchEvent {
        match result {
            Ok(()) => DispatchEvent::Sent,
            Err(text) => DispatchEvent::SendFailed(text.clone()),
        }
    }

    /// Carries the dispatch through against the registries.
    fn run(&mut self, request: NotificationRequest) -> DispatchOutcome {
        let (mut dispatcher, mut action) = NotificationService::new(OP, request);
        assert_eq!(dispatcher.operation_id(), OP);
        loop {
            let event = match &action {
                DispatchAction::SetOperationStatus { status, error } => {
                    assert!(self.ops.update_operation_status(OP, *status, error.clone()));
                    DispatchEvent::Stored
                }
                DispatchAction::RenderPdf(_) => match &self.pdf {
                    Ok(bytes) => DispatchEvent::PdfRendered(bytes.clone()),
                    Err(text) => DispatchEvent::PdfFailed(text.clone()),
                },
                DispatchAction::CreateChannel { channel } => DispatchEvent::ChannelCreated(
                    self.channels.create_channel(OP, channel, Status::Pending).unwrap(),
                ),
                DispatchAction::SetChannelStatus { channel_id, status, error, increment_attempts } => {
                    let written = self.channels.update_channel_status(
                        *channel_id,
                        *status,
                        error.clone(),
                        *increment_attempts,
                    );
                    assert_eq!(written, Ok(true));
                    DispatchEvent::Stored
                }
                DispatchAction::SendEmail { .. } => World::outcome(&self.email),
                DispatchAction::SendWhatsApp { .. } => World::outcome(&self.whatsapp),
                DispatchAction::ReadChannels => DispatchEvent::ChannelsRead(
                    self.channels.list_channels_for_operation(OP).iter().map(|r| r.status).collect(),
                ),
                DispatchAction::Finish(_) => {
                    assert!(dispatcher.is_over());
                    match action {
                        DispatchAction::Finish(outcome) => return outcome,
                        _ => unreachable!(),
                    }
                }
            };
            self.log.push(action);
            action = dispatcher.process_notification(event);
        }
    }

    fn operation_status(&self) -> Status {
        self.ops.find_operation(OP).unwrap().status
    }

    fn rows(&self) -> Vec<(String, Status, u32, Option<String>)> {
        self.channels
            .list_channels_for_operation(OP)
            .into_iter()
            .map(|r| (r.channel, r.status, r.attempts, r.error_message))
            .collect()
    }

    /// The operation is terminal, and done exactly when every attempt is done.
    fn verdict_holds(&self) -> bool {
        let status = self.operation_status();
        let all_done = self.rows().iter().all(|r| r.1 == Status::Done);
        status.is_terminal() && (status == Status::Done) == all_done
    }
}

#[test]
fn both_channels_succeed() {
    let mut world = World::new();
    let outcome = world.run(request(&["email", "whatsapp"]));
    assert_eq!(outcome, DispatchOutcome::Done);
    assert_eq!(world.operation_status(), Status::Done);
    assert_eq!(world.ops.find_operation(OP).unwrap().error_message, None);
    assert_eq!(
        world.rows(),
        vec![
            ("email".to_string(), Status::Done, 0, None),
            ("whatsapp".to_string(), Status::Done, 0, None),
        ]
    );
    assert!(world.verdict_holds());
}

#[test]
fn actions_come_in_the_documented_order() {
    let mut world = World::new();
    world.run(request(&["email", "whatsapp"]));
    let ids: Vec<u128> = world.channels.list_channels_for_operation(OP).iter().map(|r| r.id).collect();
    let set = |id: u128, status: Status| DispatchAction::SetChannelStatus {
        channel_id: id,
        status,
        error: None,
        increment_attempts: false,
    };
    assert_eq!(
        world.log,
        vec![
            DispatchAction::SetOperationStatus { status: Status::Running, error: None },
            DispatchAction::CreateChannel { channel: "email".to_string() },
            DispatchAction::CreateChannel { channel: "whatsapp".to_string() },
            set(ids[0], Status::Running),
            DispatchAction::SendEmail {
                config: Some(email_config()),
                subject: "Subject".to_string(),
                body: "Body".to_string(),
                attachments: vec![],
            },
            set(ids[0], Status::Done),
            set(ids[1], Status::Running),
            DispatchAction::SendWhatsApp {
                config: Some(whatsapp_config()),
                message: "Body".to_string(),
                attachments: vec![],
            },
            set(ids[1], Status::Done),
            DispatchAction::ReadChannels,
            DispatchAction::SetOperationStatus { status: Status::Done, error: None },
        ]
    );
}

#[test]
fn failed_email_is_recorded_and_counted_once() {
    let mut world = World::new();
    world.email = Err("SMTP transport failed: connection refused".to_string());
    let mut req = request(&["email"]);
    req.pdf_html = Some("<h1>hi</h1>".to_string());
    let outcome = world.run(req);
    assert_eq!(
        outcome,
        DispatchOutcome::Failed("SMTP transport failed: connection refused".to_string())
    );
    assert_eq!(world.operation_status(), Status::Failed);
    assert_eq!(
        world.ops.find_operation(OP).unwrap().error_message,
        Some("SMTP transport failed: connection refused".to_string())
    );
    assert_eq!(
        world.rows(),
        vec![(
            "email".to_string(),
            Status::Failed,
            1,
            Some("SMTP transport failed: connection refused".to_string())
        )]
    );
    assert!(world.verdict_holds());
}

#[test]
fn one_failure_does_not_stop_the_other_channels() {
    let mut world = World::new();
    world.whatsapp = Err("WhatsApp session is not CONNECTED".to_string());
    let outcome = world.run(request(&["whatsapp", "email"]));
    assert_eq!(outcome, DispatchOutcome::Failed("WhatsApp session is not CONNECTED".to_string()));
    assert_eq!(world.operation_status(), Status::Failed);
    let rows = world.rows();
    assert_eq!(rows[0].0, "whatsapp");
    assert_eq!(rows[0].1, Status::Failed);
    assert_eq!(rows[0].2, 1);
    assert!(rows[0].3.as_ref().unwrap().contains("CONNECTED"));
    assert_eq!(rows[1], ("email".to_string(), Status::Done, 0, None));
    assert!(world.verdict_holds());
}

#[test]
fn unknown_channel_fails_alone() {
    let mut world = World::new();
    let outcome = world.run(request(&["email", "sms", "whatsapp"]));
    assert_eq!(outcome, DispatchOutcome::Failed("unsupported channel".to_string()));
    assert_eq!(
        world.rows(),
        vec![
            ("email".to_string(), Status::Done, 0, None),
            ("sms".to_string(), Status::Failed, 1, Some("unsupported channel".to_string())),
            ("whatsapp".to_string(), Status::Done, 0, None),
        ]
    );
    assert_eq!(world.operation_status(), Status::Failed);
    assert_eq!(
        world.ops.find_operation(OP).unwrap().error_message,
        Some("unsupported channel".to_string())
    );
    assert!(!world.log.iter().any(|a| matches!(a, DispatchAction::SetOperationStatus { status: Status::Done, .. })));
    assert!(world.verdict_holds());
}

#[test]
fn channel_tags_are_case_sensitive() {
    let mut world = World::new();
    world.run(request(&["Email", "email ", ""]));
    assert!(world.rows().iter().all(|r| r.1 == Status::Failed && r.2 == 1));
    assert!(!world.log.iter().any(|a| matches!(a, DispatchAction::SendEmail { .. })));
}

#[test]
fn latest_error_wins_on_the_operation() {
    let mut world = World::new();
    world.email = Err("first".to_string());
    world.whatsapp = Err("second".to_string());
    let outcome = world.run(request(&["email", "whatsapp"]));
    assert_eq!(outcome, DispatchOutcome::Failed("second".to_string()));
    assert_eq!(world.ops.find_operation(OP).unwrap().error_message, Some("second".to_string()));
    let writes: Vec<Status> = world
        .log
        .iter()
        .filter_map(|a| match a {
            DispatchAction::SetOperationStatus { status, .. } => Some(*status),
            _ => None,
        })
        .collect();
    assert_eq!(writes, vec![Status::Running, Status::Failed, Status::Failed]);
    assert!(world.verdict_holds());
}

#[test]
fn failed_rendering_creates_no_channel_rows() {
    let mut world = World::new();
    world.pdf = Err("PDF rendering timed out".to_string());
    let mut req = request(&["email", "whatsapp"]);
    req.pdf_html = Some("<h1>slow</h1>".to_string());
    let outcome = world.run(req);
    assert_eq!(outcome, DispatchOutcome::Failed("PDF rendering timed out".to_string()));
    assert_eq!(world.operation_status(), Status::Failed);
    assert_eq!(
        world.ops.find_operation(OP).unwrap().error_message,
        Some("PDF rendering timed out".to_string())
    );
    assert!(world.rows().is_empty());
    assert_eq!(world.channels.len(), 0);
    assert_eq!(world.log.len(), 3);
}

#[test]
fn empty_channel_list_is_done_at_once() {
    let mut world = World::new();
    let outcome = world.run(request(&[]));
    assert_eq!(outcome, DispatchOutcome::Done);
    assert_eq!(world.operation_status(), Status::Done);
    assert!(world.rows().is_empty());
    assert_eq!(
        world.log,
        vec![
            DispatchAction::SetOperationStatus { status: Status::Running, error: None },
            DispatchAction::SetOperationStatus { status: Status::Done, error: None },
        ]
    );
    assert!(world.verdict_holds());
}

#[test]
fn rendered_document_is_the_first_attachment() {
    let mut world = World::new();
    let mut req = request(&["email", "whatsapp"]);
    req.pdf_html = Some("<h1>hi</h1>".to_string());
    req.other_attachments = Some(vec![attachment("a.txt"), attachment("b.txt")]);
    world.run(req);
    let expected = vec![
        EmailAttachment {
            filename: "document.pdf".to_string(),
            content_type: "application/pdf".to_string(),
            data: b"%PDF-1.4".to_vec(),
        },
        attachment("a.txt"),
        attachment("b.txt"),
    ];
    let mut seen = 0;
    for action in &world.log {
        match action {
            DispatchAction::SendEmail { attachments, .. } => {
                assert_eq!(attachments, &expected);
                seen += 1;
            }
            DispatchAction::SendWhatsApp { attachments, .. } => {
                assert_eq!(attachments, &expected);
                seen += 1;
            }
            _ => {}
        }
    }
    assert_eq!(seen, 2);
}

#[test]
fn rendering_job_takes_the_layout_from_the_request() {
    let mut req = request(&["email"]);
    req.pdf_html = Some("<h1>hi</h1>".to_string());
    req.pdf_orientation = Some(PdfOrientation::Landscape);
    req.pdf_page_size_preset = Some(PdfPagePreset::A3);
    req.pdf_margins = Some(PdfMargins::default());
    req.pdf_scale = Some("1.5".to_string());
    req.pdf_attachment_name = Some("invoice.pdf".to_string());
    let mut world = World::new();
    world.run(req);
    assert_eq!(
        world.log[1],
        DispatchAction::RenderPdf(PdfRequest {
            file_name: "invoice.pdf".to_string(),
            html: "<h1>hi</h1>".to_string(),
            orientation: Some(PdfOrientation::Landscape),
            page_size_preset: Some(PdfPagePreset::A3),
            custom_page_size: None,
            margins: Some(PdfMargins::default()),
            scale: Some("1.5".to_string()),
            store_local_pdf: Some(false),
        })
    );
    match &world.log[4] {
        DispatchAction::SendEmail { attachments, .. } => {
            assert_eq!(attachments[0].filename, "invoice.pdf")
        }
        other => panic!("{:?}", other),
    }
}

#[test]
fn other_attachments_alone_keep_their_order() {
    let mut world = World::new();
    let mut req = request(&["whatsapp"]);
    req.other_attachments = Some(vec![attachment("z"), attachment("a"), attachment("m")]);
    req.subject = None;
    req.body = None;
    req.whatsapp_config = None;
    world.run(req);
    assert!(world.log.contains(&DispatchAction::SendWhatsApp {
        config: None,
        message: "".to_string(),
        attachments: vec![attachment("z"), attachment("a"), attachment("m")],
    }));
}

#[test]
fn store_failure_abandons_the_dispatch() {
    let (mut dispatcher, _) = NotificationService::new(OP, request(&["email"]));
    let action = dispatcher.process_notification(DispatchEvent::StoreFailed("database is locked".to_string()));
    assert_eq!(
        action,
        DispatchAction::Finish(DispatchOutcome::Aborted("database is locked".to_string()))
    );
    assert_eq!(dispatcher.phase(), DispatchPhase::Aborted);
    assert!(dispatcher.is_over());
    assert_eq!(
        dispatcher.process_notification(DispatchEvent::Stored),
        DispatchAction::Finish(DispatchOutcome::Aborted("the dispatch is over".to_string()))
    );
}

#[test]
fn report_out_of_turn_abandons_the_dispatch() {
    let (mut dispatcher, _) = NotificationService::new(OP, request(&["email"]));
    assert_eq!(dispatcher.phase(), DispatchPhase::Starting);
    assert_eq!(
        dispatcher.process_notification(DispatchEvent::Sent),
        DispatchAction::Finish(DispatchOutcome::Aborted("unexpected event".to_string()))
    );
    assert_eq!(dispatcher.phase(), DispatchPhase::Aborted);
}

#[test]
fn verdict_follows_what_is_read_back() {
    let (mut dispatcher, _) = NotificationService::new(OP, request(&["email"]));
    dispatcher.process_notification(DispatchEvent::Stored);
    dispatcher.process_notification(DispatchEvent::ChannelCreated(7));
    dispatcher.process_notification(DispatchEvent::Stored);
    dispatcher.process_notification(DispatchEvent::Sent);
    assert_eq!(dispatcher.process_notification(DispatchEvent::Stored), DispatchAction::ReadChannels);
    assert_eq!(dispatcher.phase(), DispatchPhase::Reading);
    assert_eq!(
        dispatcher.process_notification(DispatchEvent::ChannelsRead(vec![Status::Running])),
        DispatchAction::Finish(DispatchOutcome::Failed("not every channel is done".to_string()))
    );
    assert_eq!(dispatcher.phase(), DispatchPhase::Completed);
}

#[test]
fn every_channel_done_is_true_of_the_empty_list() {
    assert!(every_channel_done(&vec![]));
    assert!(every_channel_done(&vec![Status::Done, Status::Done]));
    assert!(!every_channel_done(&vec![Status::Done, Status::Failed]));
    assert!(!every_channel_done(&vec![Status::Pending]));
    assert!(!every_channel_done(&vec![Status::Running, Status::Done]));
}

#[test]
fn verdict_holds_for_every_combination_of_outcomes() {
    let results: [Result<(), String>; 2] = [Ok(()), Err("e".to_string())];
    for email in &results {
        for whatsapp in &results {
            for channels in [
                vec![],
                vec!["email"],
                vec!["whatsapp"],
                vec!["email", "whatsapp"],
                vec!["whatsapp", "email", "fax"],
                vec!["email", "email"],
            ] {
                let mut world = World::new();
                world.email = email.clone();
                world.whatsapp = whatsapp.clone();
                world.run(request(&channels));
                assert!(world.verdict_holds(), "{:?} {:?} {:?}", channels, email, whatsapp);
                assert_eq!(world.rows().len(), channels.len());
                for row in world.rows() {
                    assert_eq!(row.2, if row.1 == Status::Failed { 1 } else { 0 });
                }
            }
        }
    }
}
