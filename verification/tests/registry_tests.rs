use notification_dispatcher::models::email_model::EmailRecord;
use notification_dispatcher::models::operation_channel_model::OperationChannelRecord;
use notification_dispatcher::models::operation_model::{CreateOperationRequest, OperationRecord};
use notification_dispatcher::services::email_service::EmailService;
use notification_dispatcher::models::email_model::EmailStatus;
use notification_dispatcher::services::notification_channel_service::NotificationChannelService;
use notification_dispatcher::services::operation_service::{OperationService, RegistryError};
use notification_dispatcher::status::Status;

const ID_A: u128 = 0x11111111_2222_4333_8444_555555555555;
const ID_B: u128 = 0x11111111_2222_4333_8444_555555555556;
const ID_C: u128 = 0x00000000_0000_4000_8000_000000000001;

fn request(kind: &str) -> CreateOperationRequest {
    CreateOperationRequest {
        operation_type: kind.to_string(),
        is_async: false,
        metadata: Some("{\"k\":1}".to_string()),
    }
}

#[test]
fn created_operation_is_pending_with_equal_timestamps() {
    let mut ops = OperationService::new();
    let answer = ops.insert_operation(ID_A, 1_700_000_000_000_000, request("generate_pdf")).unwrap();
    assert_eq!(answer.id, "11111111-2222-4333-8444-555555555555");
    assert_eq!(answer.message, "operation created");
    let row = ops.find_operation(ID_A).unwrap();
    assert_eq!(row.id, ID_A);
    assert_eq!(row.operation_type, "generate_pdf");
    assert_eq!(row.status, Status::Pending);
    assert_eq!(row.error_message, None);
    assert!(!row.is_async);
    assert_eq!(row.created_at, 1_700_000_000_000_000);
    assert_eq!(row.updated_at, 1_700_000_000_000_000);
    assert_eq!(row.metadata, Some("{\"k\":1}".to_string()));
    assert_eq!(ops.len(), 1);
}

#[test]
fn duplicate_operation_id_is_refused_and_changes_nothing() {
    let mut ops = OperationService::new();
    ops.insert_operation(ID_A, 10, request("first")).unwrap();
    let again = ops.insert_operation(ID_A, 20, request("second"));
    assert!(matches!(again, Err(RegistryError::Internal(_))));
    assert_eq!(ops.len(), 1);
    assert_eq!(ops.find_operation(ID_A).unwrap().operation_type, "first");
}

#[test]
fn create_operation_draws_distinct_identifiers() {
    let mut ops = OperationService::new();
    let first = ops.create_operation(request("a")).unwrap();
    let second = ops.create_operation(request("b")).unwrap();
    assert_ne!(first.id, second.id);
    assert_eq!(first.id.len(), 36);
    assert_eq!(ops.len(), 2);
    let row = ops.get_operation(&first.id).unwrap();
    assert_eq!(row.operation_type, "a");
    assert_eq!(row.status, Status::Pending);
    assert_eq!(row.created_at, row.updated_at);
    assert!(row.created_at > 1_600_000_000_000_000);
}

#[test]
fn get_operation_reads_the_textual_identifier() {
    let mut ops = OperationService::new();
    ops.insert_operation(ID_A, 10, request("x")).unwrap();
    assert_eq!(ops.get_operation("11111111-2222-4333-8444-555555555555").unwrap().id, ID_A);
    assert_eq!(ops.get_operation("11111111222243338444555555555555").unwrap().id, ID_A);
    assert_eq!(ops.get_operation("not-an-id"), Err(RegistryError::NotFound));
    assert_eq!(ops.get_operation(""), Err(RegistryError::NotFound));
    assert_eq!(
        ops.get_operation("11111111-2222-4333-8444-555555555556"),
        Err(RegistryError::NotFound)
    );
    assert_eq!(ops.find_operation(ID_B), Err(RegistryError::NotFound));
}

#[test]
fn repeated_reads_return_identical_rows() {
    let mut ops = OperationService::new();
    ops.insert_operation(ID_A, 10, request("x")).unwrap();
    ops.update_operation_status(ID_A, Status::Running, None);
    let first = ops.find_operation(ID_A).unwrap();
    let second = ops.find_operation(ID_A).unwrap();
    let third = ops.get_operation("11111111-2222-4333-8444-555555555555").unwrap();
    assert_eq!(first, second);
    assert_eq!(first, third);
}

#[test]
fn status_write_overwrites_status_and_error_only() {
    let mut ops = OperationService::new();
    ops.insert_operation(ID_A, 10, request("x")).unwrap();
    ops.insert_operation(ID_B, 11, request("y")).unwrap();
    assert!(ops.update_operation_status(ID_A, Status::Failed, Some("boom".to_string())));
    let row = ops.find_operation(ID_A).unwrap();
    assert_eq!(row.status, Status::Failed);
    assert_eq!(row.error_message, Some("boom".to_string()));
    assert_eq!(row.updated_at, 10);
    assert_eq!(row.created_at, 10);
    let other = ops.find_operation(ID_B).unwrap();
    assert_eq!(other.status, Status::Pending);
    assert_eq!(other.error_message, None);
    assert!(ops.update_operation_status(ID_A, Status::Done, None));
    assert_eq!(ops.find_operation(ID_A).unwrap().error_message, None);
}

#[test]
fn status_write_to_unknown_operation_changes_nothing() {
    let mut ops = OperationService::new();
    ops.insert_operation(ID_A, 10, request("x")).unwrap();
    assert!(!ops.update_operation_status(ID_B, Status::Done, None));
    assert!(!ops.mark_operation_failed(ID_B, "e".to_string()));
    assert_eq!(ops.len(), 1);
    assert_eq!(ops.find_operation(ID_A).unwrap().status, Status::Pending);
}

#[test]
fn touched_write_moves_updated_at_forward_only() {
    let mut ops = OperationService::new();
    ops.insert_operation(ID_A, 100, request("x")).unwrap();
    assert!(ops.write_status(ID_A, Status::Running, None, Some(150)));
    assert_eq!(ops.find_operation(ID_A).unwrap().updated_at, 150);
    assert!(ops.write_status(ID_A, Status::Done, None, Some(120)));
    let row = ops.find_operation(ID_A).unwrap();
    assert_eq!(row.updated_at, 150);
    assert_eq!(row.created_at, 100);
    assert_eq!(row.status, Status::Done);
    assert!(ops.write_status(ID_A, Status::Done, None, Some(i64::MIN)));
    assert_eq!(ops.find_operation(ID_A).unwrap().updated_at, 150);
}

#[test]
fn mark_failed_records_the_error_and_stamps_the_row() {
    let mut ops = OperationService::new();
    ops.insert_operation(ID_A, 5, request("x")).unwrap();
    assert!(ops.mark_operation_failed(ID_A, "Async task error: boom".to_string()));
    let row = ops.find_operation(ID_A).unwrap();
    assert_eq!(row.status, Status::Failed);
    assert_eq!(row.error_message, Some("Async task error: boom".to_string()));
    assert!(row.updated_at >= row.created_at);
    assert!(row.updated_at > 1_600_000_000_000_000);
    assert!(ops.update_operation(ID_A, Status::Failed, None));
    assert_eq!(ops.find_operation(ID_A).unwrap().error_message, None);
}

#[test]
fn listing_is_newest_first_with_ties_by_identifier() {
    let mut ops = OperationService::new();
    ops.insert_operation(ID_B, 200, request("b")).unwrap();
    ops.insert_operation(ID_C, 300, request("c")).unwrap();
    ops.insert_operation(ID_A, 200, request("a")).unwrap();
    ops.insert_operation(7, 100, request("old")).unwrap();
    let rows = ops.page_rows(1, 10);
    let kinds: Vec<&str> = rows.iter().map(|r| r.operation_type.as_str()).collect();
    assert_eq!(kinds, vec!["c", "a", "b", "old"]);
}

#[test]
fn pages_cut_the_listing() {
    let mut ops = OperationService::new();
    for i in 0..7u128 {
        ops.insert_operation(i + 1, 1000 + i as i64, request(&format!("op{}", i))).unwrap();
    }
    let names = |rows: Vec<OperationRecord>| {
        rows.into_iter().map(|r| r.operation_type).collect::<Vec<String>>()
    };
    assert_eq!(names(ops.page_rows(1, 3)), vec!["op6", "op5", "op4"]);
    assert_eq!(names(ops.page_rows(2, 3)), vec!["op3", "op2", "op1"]);
    assert_eq!(names(ops.page_rows(3, 3)), vec!["op0"]);
    assert!(ops.page_rows(4, 3).is_empty());
    assert!(ops.page_rows(0, 3).is_empty());
    assert!(ops.page_rows(1, 0).is_empty());
    assert!(ops.page_rows(u64::MAX, u64::MAX).is_empty());
    assert_eq!(ops.page_rows(1, u64::MAX).len(), 7);
}

#[test]
fn list_operations_writes_rows_as_text() {
    let mut ops = OperationService::new();
    ops.insert_operation(ID_A, 1_662_921_288_000_000, request("send_notification")).unwrap();
    ops.insert_operation(ID_B, 1_662_921_289_500_000, request("generate_pdf")).unwrap();
    ops.update_operation_status(ID_A, Status::Failed, Some("e".to_string()));
    let page = ops.list_operations(1, 10).unwrap();
    assert_eq!(page.total, 2);
    assert_eq!(page.page, 1);
    assert_eq!(page.page_size, 10);
    assert_eq!(page.items.len(), 2);
    assert_eq!(page.items[0].id, "11111111-2222-4333-8444-555555555556");
    assert_eq!(page.items[0].status, "pending");
    assert_eq!(page.items[0].created_at, "2022-09-11T18:34:49.500+00:00");
    assert_eq!(page.items[1].id, "11111111-2222-4333-8444-555555555555");
    assert_eq!(page.items[1].operation_type, "send_notification");
    assert_eq!(page.items[1].status, "failed");
    assert_eq!(page.items[1].error_message, Some("e".to_string()));
    assert_eq!(page.items[1].created_at, "2022-09-11T18:34:48+00:00");
    assert_eq!(page.items[1].updated_at, "2022-09-11T18:34:48+00:00");
    assert_eq!(page.items[1].metadata, Some("{\"k\":1}".to_string()));
    let second = ops.list_operations(2, 1).unwrap();
    assert_eq!(second.total, 2);
    assert_eq!(second.items.len(), 1);
    assert_eq!(second.items[0].id, "11111111-2222-4333-8444-555555555555");
}

#[test]
fn list_operations_refuses_unwritable_timestamps() {
    let mut ops = OperationService::new();
    ops.insert_operation(ID_A, 10, request("fine")).unwrap();
    ops.insert_operation(ID_B, i64::MAX, request("too far")).unwrap();
    assert!(matches!(ops.list_operations(1, 10), Err(RegistryError::Serialization(_))));
    let later = ops.list_operations(2, 1).unwrap();
    assert_eq!(later.items.len(), 1);
    assert_eq!(later.items[0].operation_type, "fine");
}

#[test]
fn created_channel_starts_without_failures() {
    let mut channels = NotificationChannelService::new();
    assert_eq!(channels.insert_channel(ID_C, 50, ID_A, "email", Status::Pending), Ok(ID_C));
    let row = channels.find_channel(ID_C).unwrap();
    assert_eq!(row.id, ID_C);
    assert_eq!(row.operation_id, ID_A);
    assert_eq!(row.channel, "email");
    assert_eq!(row.status, Status::Pending);
    assert_eq!(row.error_message, None);
    assert_eq!(row.attempts, 0);
    assert_eq!(row.created_at, 50);
    assert_eq!(row.updated_at, 50);
    assert!(matches!(
        channels.insert_channel(ID_C, 60, ID_B, "whatsapp", Status::Pending),
        Err(RegistryError::Internal(_))
    ));
    assert_eq!(channels.len(), 1);
    assert_eq!(channels.get_channel("00000000-0000-4000-8000-000000000001").unwrap().id, ID_C);
    assert_eq!(channels.get_channel("zzz"), Err(RegistryError::NotFound));
    assert_eq!(channels.find_channel(ID_A), Err(RegistryError::NotFound));
}

#[test]
fn attempts_grow_by_one_exactly_when_asked() {
    let mut channels = NotificationChannelService::new();
    channels.insert_channel(1, 10, ID_A, "email", Status::Pending).unwrap();
    assert_eq!(channels.write_channel_status(1, Status::Running, None, false, 11), Ok(true));
    assert_eq!(channels.find_channel(1).unwrap().attempts, 0);
    assert_eq!(
        channels.write_channel_status(1, Status::Failed, Some("e1".to_string()), true, 12),
        Ok(true)
    );
    let row = channels.find_channel(1).unwrap();
    assert_eq!(row.attempts, 1);
    assert_eq!(row.status, Status::Failed);
    assert_eq!(row.error_message, Some("e1".to_string()));
    assert_eq!(row.updated_at, 12);
    assert_eq!(channels.write_channel_status(1, Status::Failed, None, true, 5), Ok(true));
    let row = channels.find_channel(1).unwrap();
    assert_eq!(row.attempts, 2);
    assert_eq!(row.error_message, None);
    assert_eq!(row.updated_at, 12);
    assert_eq!(channels.write_channel_status(1, Status::Done, None, false, 13), Ok(true));
    assert_eq!(channels.find_channel(1).unwrap().attempts, 2);
    assert_eq!(channels.write_channel_status(9, Status::Done, None, true, 14), Ok(false));
    assert_eq!(channels.find_channel(1).unwrap().attempts, 2);
}

#[test]
fn update_channel_status_stamps_the_current_time() {
    let mut channels = NotificationChannelService::new();
    let id = channels.create_channel(ID_A, "whatsapp", Status::Pending).unwrap();
    assert_eq!(channels.update_channel_status(id, Status::Failed, Some("x".to_string()), true), Ok(true));
    let row = channels.find_channel(id).unwrap();
    assert_eq!(row.attempts, 1);
    assert_eq!(row.channel, "whatsapp");
    assert!(row.updated_at >= row.created_at);
    assert!(row.created_at > 1_600_000_000_000_000);
}

#[test]
fn channels_are_listed_per_operation_in_creation_order() {
    let mut channels = NotificationChannelService::new();
    channels.insert_channel(1, 10, ID_A, "email", Status::Pending).unwrap();
    channels.insert_channel(2, 10, ID_B, "email", Status::Pending).unwrap();
    channels.insert_channel(3, 9, ID_A, "whatsapp", Status::Pending).unwrap();
    channels.insert_channel(4, 11, ID_A, "sms", Status::Pending).unwrap();
    let mine: Vec<u128> = channels.list_channels_for_operation(ID_A).iter().map(|r| r.id).collect();
    assert_eq!(mine, vec![1, 3, 4]);
    let theirs: Vec<u128> = channels.list_channels_for_operation(ID_B).iter().map(|r| r.id).collect();
    assert_eq!(theirs, vec![2]);
    assert!(channels.list_channels_for_operation(ID_C).is_empty());
}

#[test]
fn email_audit_row_follows_the_send() {
    let mut emails = EmailService::new();
    assert_eq!(emails.find_email_status(ID_A), Err(RegistryError::NotFound));
    emails.insert_email_record(1, 10, ID_A, "a@x.io;b@x.io", "Hi", "<p>hello</p>").unwrap();
    emails.insert_email_record(2, 11, ID_B, "c@x.io", "Yo", "<p>yo</p>").unwrap();
    let status = emails.find_email_status(ID_A).unwrap();
    assert_eq!(status.id, "11111111-2222-4333-8444-555555555555");
    assert_eq!(status.status, "pending");
    assert_eq!(status.error, None);
    assert!(emails.update_email_status(ID_A, EmailStatus::Failed, Some("relay refused".to_string())));
    let status = emails.get_email_status("11111111-2222-4333-8444-555555555555").unwrap();
    assert_eq!(status.status, "failed");
    assert_eq!(status.error, Some("relay refused".to_string()));
    assert_eq!(emails.find_email_status(ID_B).unwrap().status, "pending");
    assert!(emails.update_email_status(ID_B, EmailStatus::Sent, None));
    assert_eq!(emails.find_email_status(ID_B).unwrap().status, "sent");
    assert!(!emails.update_email_status(ID_C, EmailStatus::Sent, None));
    assert_eq!(emails.get_email_status("nope"), Err(RegistryError::NotFound));
    assert!(matches!(
        emails.insert_email_record(1, 12, ID_C, "d@x.io", "s", "b"),
        Err(RegistryError::Internal(_))
    ));
    assert_eq!(emails.len(), 2);
    let fresh = emails.create_email_record(ID_C, "d@x.io", "s", "b").unwrap();
    assert!(fresh != 1 && fresh != 2);
    assert_eq!(emails.find_email_status(ID_C).unwrap().status, "pending");
}

#[test]
fn restored_operation_takes_its_place_in_the_listing() {
    let row = |id: u128, created_at: i64, updated_at: i64, status: Status| OperationRecord {
        id,
        operation_type: format!("op{}", id),
        status,
        error_message: None,
        is_async: true,
        created_at,
        updated_at,
        metadata: None,
    };
    let mut ops = OperationService::new();
    assert_eq!(ops.restore_operation(row(1, 100, 150, Status::Done)), Ok(()));
    assert_eq!(ops.restore_operation(row(2, 300, 300, Status::Failed)), Ok(()));
    assert_eq!(ops.restore_operation(row(3, 200, 900, Status::Running)), Ok(()));
    let order: Vec<u128> = ops.page_rows(1, 10).iter().map(|r| r.id).collect();
    assert_eq!(order, vec![2, 3, 1]);
    assert_eq!(ops.find_operation(1).unwrap(), row(1, 100, 150, Status::Done));
    assert!(matches!(
        ops.restore_operation(row(1, 100, 150, Status::Done)),
        Err(RegistryError::Internal(_))
    ));
    assert!(matches!(
        ops.restore_operation(row(4, 500, 499, Status::Done)),
        Err(RegistryError::Serialization(_))
    ));
    assert!(matches!(
        ops.restore_operation(row(2, 500, 499, Status::Done)),
        Err(RegistryError::Internal(_))
    ));
    assert_eq!(ops.len(), 3);
}

#[test]
fn restored_channel_keeps_its_count() {
    let row = |id: u128, attempts: u32, created_at: i64, updated_at: i64| OperationChannelRecord {
        id,
        operation_id: ID_A,
        channel: "email".to_string(),
        status: Status::Failed,
        error_message: Some("e".to_string()),
        created_at,
        updated_at,
        attempts,
    };
    let mut channels = NotificationChannelService::new();
    assert_eq!(channels.restore_channel(row(1, 3, 10, 20)), Ok(()));
    assert_eq!(channels.find_channel(1).unwrap(), row(1, 3, 10, 20));
    assert!(matches!(channels.restore_channel(row(1, 0, 10, 20)), Err(RegistryError::Internal(_))));
    assert!(matches!(
        channels.restore_channel(row(2, 0, 21, 20)),
        Err(RegistryError::Serialization(_))
    ));
    assert_eq!(channels.len(), 1);
    assert_eq!(channels.write_channel_status(1, Status::Failed, None, true, 30), Ok(true));
    assert_eq!(channels.find_channel(1).unwrap().attempts, 4);
}

#[test]
fn exhausted_attempt_counter_refuses_to_count() {
    let mut channels = NotificationChannelService::new();
    let full = OperationChannelRecord {
        id: 1,
        operation_id: ID_A,
        channel: "email".to_string(),
        status: Status::Failed,
        error_message: None,
        created_at: 1,
        updated_at: 1,
        attempts: u32::MAX,
    };
    channels.restore_channel(full.clone()).unwrap();
    assert!(matches!(
        channels.write_channel_status(1, Status::Failed, Some("again".to_string()), true, 2),
        Err(RegistryError::Internal(_))
    ));
    assert_eq!(channels.find_channel(1).unwrap(), full);
    assert_eq!(channels.write_channel_status(1, Status::Running, None, false, 2), Ok(true));
    assert_eq!(channels.find_channel(1).unwrap().attempts, u32::MAX);
}

#[test]
fn restored_email_record_is_found_by_operation() {
    let row = EmailRecord {
        id: 9,
        operation_id: ID_A,
        recipient: "a@x.io".to_string(),
        subject: "s".to_string(),
        body: "b".to_string(),
        status: EmailStatus::Sent,
        error_message: None,
        created_at: 5,
    };
    let mut emails = EmailService::new();
    assert_eq!(emails.restore_email_record(row.clone()), Ok(()));
    assert_eq!(emails.find_email_record(ID_A), Ok(row.clone()));
    assert!(matches!(emails.restore_email_record(row), Err(RegistryError::Internal(_))));
    assert_eq!(emails.find_email_record(ID_B), Err(RegistryError::NotFound));
    assert_eq!(emails.find_email_status(ID_A).unwrap().status, "sent");
}
