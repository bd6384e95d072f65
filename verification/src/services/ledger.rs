//! What the registries hold while a dispatch runs, and why the final verdict is
//! right.
//!
//! A [`Ledger`] is the operation's row together with its attempts. The theorems
//! here follow a dispatch step by step against a store that does what it is
//! asked and reports truthfully, and show that the dispatcher and the ledger
//! never part ways.

use crate::models::notification_model::NotificationRequestView;
use crate::models::operation_channel_model::OperationChannelRecordView;
use crate::models::operation_model::OperationRecordView;
use crate::services::notification_channel_service::{channel_written, distinct_ids, has_channel};
use crate::services::notification_service::{
    all_done, DispatchActionView, DispatchEventView, DispatchPhase, DispatcherView,
};
use crate::status::{Status, StatusEvent};
use vstd::prelude::*;

verus! {

/// One operation and its attempts, in order of creation.
pub struct Ledger {
    pub operation: OperationRecordView,
    pub rows: Seq<OperationChannelRecordView>,
}

/// The statuses of the attempts, in order.
pub open spec fn statuses(rows: Seq<OperationChannelRecordView>) -> Seq<Status> {
    rows.map_values(|row: OperationChannelRecordView| row.status)
}

/// Whether one of the first `upto` attempts is failed.
pub open spec fn any_failed(rows: Seq<OperationChannelRecordView>, upto: int) -> bool {
    exists|j: int| 0 <= j < upto && j < rows.len() && (#[trigger] rows[j]).status == Status::Failed
}

/// What the operation's status must be once the first `upto` channels are through
/// and recorded: failed if one of them failed, still running otherwise.
pub open spec fn verdict_so_far(rows: Seq<OperationChannelRecordView>, upto: int) -> Status {
    if any_failed(rows, upto) {
        Status::Failed
    } else {
        Status::Running
    }
}

impl Ledger {
    /// The ledger after a faithful store has carried out `action`. A creation is
    /// recorded under `id`; `now` is the instant the store stamps. Actions that
    /// are no writes leave the ledger alone.
    pub open spec fn apply(self, action: DispatchActionView, id: u128, now: i64) -> Ledger {
        match action {
            DispatchActionView::SetOperationStatus { status, error } => Ledger {
                operation: self.operation.with_status(status, error, None),
                ..self
            },
            DispatchActionView::CreateChannel { channel } => Ledger {
                rows: self.rows.push(
                    OperationChannelRecordView::fresh(
                        id,
                        self.operation.id,
                        channel,
                        Status::Pending,
                        now,
                    ),
                ),
                ..self
            },
            DispatchActionView::SetChannelStatus {
                channel_id,
                status,
                error,
                increment_attempts,
            } => Ledger {
                rows: channel_written(
                    self.rows,
                    channel_id,
                    status,
                    error,
                    increment_attempts,
                    now,
                ),
                ..self
            },
            _ => self,
        }
    }

    /// Every attempt before `i` is through, attempt `i` has status `current`, and
    /// every later attempt is still pending.
    pub open spec fn served_up_to(self, i: int, current: Status) -> bool {
        &&& 0 <= i < self.rows.len()
        &&& forall|j: int| 0 <= j < i ==> (#[trigger] self.rows[j]).status.terminal()
        &&& self.rows[i].status == current
        &&& forall|j: int| i < j < self.rows.len() ==> (#[trigger] self.rows[j]).status
            == Status::Pending
    }

    /// A failed attempt has been counted once, any other never.
    pub open spec fn attempts_counted(self) -> bool {
        forall|j: int|
            0 <= j < self.rows.len() ==> (#[trigger] self.rows[j]).attempts == (if self.rows[j].status
                == Status::Failed {
                1u32
            } else {
                0u32
            })
    }
}

/// The dispatcher and the ledger agree: the ledger holds exactly what the
/// dispatcher has asked for so far, the write it is waiting on included.
pub open spec fn consistent(d: DispatcherView, l: Ledger) -> bool {
    let n = d.request.channels.len() as int;
    &&& d.wf()
    &&& l.operation.id == d.operation_id
    &&& distinct_ids(l.rows)
    &&& l.attempts_counted()
    &&& forall|j: int|
        0 <= j < d.channel_ids.len() ==> j < l.rows.len() && (#[trigger] l.rows[j]).id
            == d.channel_ids[j]
    &&& match d.phase {
        DispatchPhase::Starting => l.operation.status == Status::Running && l.rows.len() == 0,
        DispatchPhase::Rendering => l.operation.status == Status::Running && l.rows.len() == 0,
        DispatchPhase::RecordingRenderFailure => l.operation.status == Status::Failed
            && l.rows.len() == 0,
        DispatchPhase::RenderFailed => l.operation.status == Status::Failed && l.rows.len() == 0,
        DispatchPhase::CreatingChannel(i) => {
            &&& l.operation.status == Status::Running
            &&& l.rows.len() == i + 1
            &&& forall|j: int|
                0 <= j < l.rows.len() ==> (#[trigger] l.rows[j]).status == Status::Pending
        },
        DispatchPhase::MarkingRunning(i) => {
            &&& l.rows.len() == n
            &&& l.served_up_to(i as int, Status::Running)
            &&& l.operation.status == verdict_so_far(l.rows, i as int)
        },
        DispatchPhase::Sending(i) => {
            &&& l.rows.len() == n
            &&& l.served_up_to(i as int, Status::Running)
            &&& l.operation.status == verdict_so_far(l.rows, i as int)
        },
        DispatchPhase::MarkingDone(i) => {
            &&& l.rows.len() == n
            &&& l.served_up_to(i as int, Status::Done)
            &&& l.operation.status == verdict_so_far(l.rows, i as int)
        },
        DispatchPhase::MarkingFailed(i) => {
            &&& l.rows.len() == n
            &&& l.served_up_to(i as int, Status::Failed)
            &&& l.operation.status == verdict_so_far(l.rows, i as int)
        },
        DispatchPhase::FailingOperation(i) => {
            &&& l.rows.len() == n
            &&& l.served_up_to(i as int, Status::Failed)
            &&& l.operation.status == Status::Failed
        },
        DispatchPhase::Reading => {
            &&& l.rows.len() == n
            &&& forall|j: int| 0 <= j < n ==> (#[trigger] l.rows[j]).status.terminal()
            &&& l.operation.status == verdict_so_far(l.rows, n)
        },
        DispatchPhase::Completing => {
            &&& l.rows.len() == n
            &&& all_done(statuses(l.rows))
            &&& l.operation.status == Status::Done
        },
        DispatchPhase::Completed => {
            &&& l.rows.len() == n
            &&& forall|j: int| 0 <= j < n ==> (#[trigger] l.rows[j]).status.terminal()
            &&& l.operation.status == (if any_failed(l.rows, n) {
                Status::Failed
            } else {
                Status::Done
            })
        },
        DispatchPhase::Aborted => true,
    }
}

/// Whether `event` is a truthful report on what the dispatcher is waiting for,
/// given what the ledger holds.
pub open spec fn faithful(d: DispatcherView, l: Ledger, event: DispatchEventView) -> bool {
    match d.phase {
        DispatchPhase::Rendering => event is PdfRendered || event is PdfFailed,
        DispatchPhase::CreatingChannel(i) => i < l.rows.len() && event
            == DispatchEventView::ChannelCreated(l.rows[i as int].id),
        DispatchPhase::Sending(_) => event is Sent || event is SendFailed,
        DispatchPhase::Reading => event == DispatchEventView::ChannelsRead(statuses(l.rows)),
        DispatchPhase::Completed => false,
        DispatchPhase::RenderFailed => false,
        DispatchPhase::Aborted => false,
        _ => event == DispatchEventView::Stored,
    }
}

/// The start of a dispatch agrees with a ledger that holds the operation, now
/// running, and no attempt; and a pending operation may be started.
pub proof fn lemma_start_is_consistent(operation: OperationRecordView, request: NotificationRequestView)
    requires
        operation.status == Status::Pending,
        request.channels.len() <= usize::MAX,
    ensures
        consistent(at_start(operation, request).0, at_start(operation, request).1),
        operation.status.after(StatusEvent::Start) == Some(Status::Running),
{
}

/// A status write addressed to attempt `k` changes that row and no other.
proof fn lemma_write_one(
    rows: Seq<OperationChannelRecordView>,
    k: int,
    status: Status,
    error: Option<Seq<char>>,
    increment_attempts: bool,
    now: i64,
)
    requires
        distinct_ids(rows),
        0 <= k < rows.len(),
    ensures
        ({
            let after = channel_written(rows, rows[k].id, status, error, increment_attempts, now);
            &&& after.len() == rows.len()
            &&& after[k] == rows[k].with_status(status, error, increment_attempts, now)
            &&& forall|j: int| 0 <= j < rows.len() && j != k ==> #[trigger] after[j] == rows[j]
            &&& distinct_ids(after)
        }),
{
    let after = channel_written(rows, rows[k].id, status, error, increment_attempts, now);
    assert forall|j: int| 0 <= j < rows.len() && j != k implies #[trigger] after[j] == rows[j] by {
        if j < k {
            assert(rows[j].id != rows[k].id);
        } else {
            assert(rows[k].id != rows[j].id);
        }
    }
    assert forall|a: int, b: int| 0 <= a < b < after.len() implies (#[trigger] after[a]).id != (
    #[trigger] after[b]).id by {
        assert(rows[a].id != rows[b].id);
    }
}

/// Whether one of the first `upto` attempts is failed depends on their statuses
/// alone.
proof fn lemma_any_failed_same_prefix(
    a: Seq<OperationChannelRecordView>,
    b: Seq<OperationChannelRecordView>,
    upto: int,
)
    requires
        a.len() == b.len(),
        forall|j: int| 0 <= j < upto && j < a.len() ==> (#[trigger] a[j]).status == b[j].status,
    ensures
        any_failed(a, upto) == any_failed(b, upto),
{
    if any_failed(a, upto) {
        let j = choose|j: int|
            0 <= j < upto && j < a.len() && (#[trigger] a[j]).status == Status::Failed;
        assert(b[j].status == Status::Failed);
    }
    if any_failed(b, upto) {
        let j = choose|j: int|
            0 <= j < upto && j < b.len() && (#[trigger] b[j]).status == Status::Failed;
        assert(a[j].status == Status::Failed);
    }
}

/// Taking one more attempt into account adds exactly its own failure.
proof fn lemma_any_failed_extend(rows: Seq<OperationChannelRecordView>, i: int)
    requires
        0 <= i < rows.len(),
    ensures
        any_failed(rows, i + 1) == (any_failed(rows, i) || rows[i].status == Status::Failed),
{
    if any_failed(rows, i + 1) {
        let j = choose|j: int|
            0 <= j < i + 1 && j < rows.len() && (#[trigger] rows[j]).status == Status::Failed;
        if j < i {
            assert(any_failed(rows, i));
        }
    }
    if any_failed(rows, i) {
        let j = choose|j: int|
            0 <= j < i && j < rows.len() && (#[trigger] rows[j]).status == Status::Failed;
        assert(rows[j].status == Status::Failed);
    }
    if rows[i].status == Status::Failed {
        assert(any_failed(rows, i + 1));
    }
}

/// Before any attempt exists, and at the very end, only the operation is written.
proof fn lemma_step_from_before_channels(
    d: DispatcherView,
    l: Ledger,
    event: DispatchEventView,
    id: u128,
    now: i64,
)
    requires
        consistent(d, l),
        faithful(d, l, event),
        !has_channel(l.rows, id),
        d.phase == DispatchPhase::Starting || d.phase == DispatchPhase::Rendering || d.phase
            == DispatchPhase::RecordingRenderFailure || d.phase == DispatchPhase::Completing,
    ensures
        consistent(d.next(event).0, l.apply(d.next(event).1, id, now)),
{
    let d2 = d.next(event).0;
    let l2 = l.apply(d.next(event).1, id, now);
    match d.phase {
        DispatchPhase::Starting => {
            assert(consistent(d2, l2));
        },
        DispatchPhase::Rendering => {
            assert(consistent(d2, l2));
        },
        DispatchPhase::RecordingRenderFailure => {
            assert(consistent(d2, l2));
        },
        _ => {
            assert forall|j: int| 0 <= j < l.rows.len() implies (#[trigger] l.rows[j]).status
                == Status::Done by {
                assert(statuses(l.rows)[j] == Status::Done);
            }
            assert(!any_failed(l.rows, l.rows.len() as int));
            assert(consistent(d2, l2));
        },
    }
}

/// A reported creation is the row the ledger has just gained.
proof fn lemma_step_from_creating_channel(
    d: DispatcherView,
    l: Ledger,
    event: DispatchEventView,
    id: u128,
    now: i64,
)
    requires
        consistent(d, l),
        faithful(d, l, event),
        !has_channel(l.rows, id),
        d.phase is CreatingChannel,
    ensures
        consistent(d.next(event).0, l.apply(d.next(event).1, id, now)),
{
    let l2 = l.apply(d.next(event).1, id, now);
    let n = d.request.channels.len() as int;
    let i = d.phase->CreatingChannel_0 as int;
}

/// A running attempt is handed to its sender, or failed on the spot.
proof fn lemma_step_from_marking_running(
    d: DispatcherView,
    l: Ledger,
    event: DispatchEventView,
    id: u128,
    now: i64,
)
    requires
        consistent(d, l),
        faithful(d, l, event),
        !has_channel(l.rows, id),
        d.phase is MarkingRunning,
    ensures
        consistent(d.next(event).0, l.apply(d.next(event).1, id, now)),
{
    let l2 = l.apply(d.next(event).1, id, now);
    let n = d.request.channels.len() as int;
    let i = d.phase->MarkingRunning_0 as int;
    assert(l.rows[i].id == d.channel_ids[i]);
    lemma_write_one(l.rows, i, Status::Failed, Some("unsupported channel"@), true, now);
    lemma_any_failed_same_prefix(l.rows, l2.rows, i);
}

/// The sender's outcome is written over the attempt it served.
proof fn lemma_step_from_sending(
    d: DispatcherView,
    l: Ledger,
    event: DispatchEventView,
    id: u128,
    now: i64,
)
    requires
        consistent(d, l),
        faithful(d, l, event),
        !has_channel(l.rows, id),
        d.phase is Sending,
    ensures
        consistent(d.next(event).0, l.apply(d.next(event).1, id, now)),
{
    let l2 = l.apply(d.next(event).1, id, now);
    let n = d.request.channels.len() as int;
    let i = d.phase->Sending_0 as int;
    assert(l.rows[i].id == d.channel_ids[i]);
    match event {
        DispatchEventView::Sent => {
            lemma_write_one(l.rows, i, Status::Done, None, false, now);
        },
        DispatchEventView::SendFailed(error) => {
            lemma_write_one(l.rows, i, Status::Failed, Some(error), true, now);
        },
        _ => {},
    }
    lemma_any_failed_same_prefix(l.rows, l2.rows, i);
}

/// A failed attempt is followed by the failure of the operation.
proof fn lemma_step_from_marking_failed(
    d: DispatcherView,
    l: Ledger,
    event: DispatchEventView,
    id: u128,
    now: i64,
)
    requires
        consistent(d, l),
        faithful(d, l, event),
        !has_channel(l.rows, id),
        d.phase is MarkingFailed,
    ensures
        consistent(d.next(event).0, l.apply(d.next(event).1, id, now)),
{
    let l2 = l.apply(d.next(event).1, id, now);
    let n = d.request.channels.len() as int;
    let i = d.phase->MarkingFailed_0 as int;
}

/// After a done attempt comes the next channel, or the reading back.
proof fn lemma_step_from_marking_done(
    d: DispatcherView,
    l: Ledger,
    event: DispatchEventView,
    id: u128,
    now: i64,
)
    requires
        consistent(d, l),
        faithful(d, l, event),
        !has_channel(l.rows, id),
        d.phase is MarkingDone,
    ensures
        consistent(d.next(event).0, l.apply(d.next(event).1, id, now)),
{
    let l2 = l.apply(d.next(event).1, id, now);
    let n = d.request.channels.len() as int;
    let i = d.phase->MarkingDone_0 as int;
    lemma_any_failed_extend(l.rows, i);
    if i + 1 < n {
        assert(l.rows[i + 1].id == d.channel_ids[i + 1]);
        lemma_write_one(l.rows, i + 1, Status::Running, None, false, now);
        lemma_any_failed_same_prefix(l.rows, l2.rows, i + 1);
        lemma_any_failed_extend(l2.rows, i);
    }
}

/// After a recorded failure comes the next channel, or the reading back.
proof fn lemma_step_from_failing_operation(
    d: DispatcherView,
    l: Ledger,
    event: DispatchEventView,
    id: u128,
    now: i64,
)
    requires
        consistent(d, l),
        faithful(d, l, event),
        !has_channel(l.rows, id),
        d.phase is FailingOperation,
    ensures
        consistent(d.next(event).0, l.apply(d.next(event).1, id, now)),
{
    let l2 = l.apply(d.next(event).1, id, now);
    let n = d.request.channels.len() as int;
    let i = d.phase->FailingOperation_0 as int;
    lemma_any_failed_extend(l.rows, i);
    if i + 1 < n {
        assert(l.rows[i + 1].id == d.channel_ids[i + 1]);
        lemma_write_one(l.rows, i + 1, Status::Running, None, false, now);
        lemma_any_failed_same_prefix(l.rows, l2.rows, i + 1);
        lemma_any_failed_extend(l2.rows, i);
    }
}

/// The verdict follows what was read back.
proof fn lemma_step_from_reading(
    d: DispatcherView,
    l: Ledger,
    event: DispatchEventView,
    id: u128,
    now: i64,
)
    requires
        consistent(d, l),
        faithful(d, l, event),
        !has_channel(l.rows, id),
        d.phase == DispatchPhase::Reading,
    ensures
        consistent(d.next(event).0, l.apply(d.next(event).1, id, now)),
{
    let l2 = l.apply(d.next(event).1, id, now);
    let n = d.request.channels.len() as int;
    let read = statuses(l.rows);
    if !all_done(read) {
        let j = choose|j: int| 0 <= j < read.len() && read[j] != Status::Done;
        assert(l.rows[j].status.terminal());
        assert(l.rows[j].status == Status::Failed);
        assert(any_failed(l.rows, n));
    }
}

/// One step of a dispatch against a faithful store keeps dispatcher and ledger in
/// agreement. `id` is the identifier the store draws if the step asks for a
/// creation, `now` the instant it stamps.
pub proof fn lemma_step_keeps_consistent(
    d: DispatcherView,
    l: Ledger,
    event: DispatchEventView,
    id: u128,
    now: i64,
)
    requires
        consistent(d, l),
        faithful(d, l, event),
        !has_channel(l.rows, id),
    ensures
        consistent(d.next(event).0, l.apply(d.next(event).1, id, now)),
{
    match d.phase {
        DispatchPhase::CreatingChannel(_) => lemma_step_from_creating_channel(d, l, event, id, now),
        DispatchPhase::MarkingRunning(_) => lemma_step_from_marking_running(d, l, event, id, now),
        DispatchPhase::Sending(_) => lemma_step_from_sending(d, l, event, id, now),
        DispatchPhase::MarkingDone(_) => lemma_step_from_marking_done(d, l, event, id, now),
        DispatchPhase::MarkingFailed(_) => lemma_step_from_marking_failed(d, l, event, id, now),
        DispatchPhase::FailingOperation(_) => lemma_step_from_failing_operation(
            d,
            l,
            event,
            id,
            now,
        ),
        DispatchPhase::Reading => lemma_step_from_reading(d, l, event, id, now),
        DispatchPhase::Starting => lemma_step_from_before_channels(d, l, event, id, now),
        DispatchPhase::Rendering => lemma_step_from_before_channels(d, l, event, id, now),
        DispatchPhase::RecordingRenderFailure => lemma_step_from_before_channels(
            d,
            l,
            event,
            id,
            now,
        ),
        DispatchPhase::Completing => lemma_step_from_before_channels(d, l, event, id, now),
        _ => {},
    }
}

/// When a dispatch has served its channels and given its verdict, the operation is
/// terminal, and it is done exactly when every one of its attempts is done. There
/// is one attempt per requested channel, each terminal, counted once if it failed
/// and never otherwise.
pub proof fn lemma_completed_verdict(d: DispatcherView, l: Ledger)
    requires
        consistent(d, l),
        d.phase == DispatchPhase::Completed,
    ensures
        l.operation.status.terminal(),
        l.operation.status == Status::Done <==> all_done(statuses(l.rows)),
        l.operation.status == Status::Failed <==> any_failed(l.rows, l.rows.len() as int),
        l.rows.len() == d.request.channels.len(),
        forall|j: int| 0 <= j < l.rows.len() ==> (#[trigger] l.rows[j]).status.terminal(),
        l.attempts_counted(),
{
    let n = l.rows.len() as int;
    if any_failed(l.rows, n) {
        let j = choose|j: int|
            0 <= j < n && j < l.rows.len() && (#[trigger] l.rows[j]).status == Status::Failed;
        assert(statuses(l.rows)[j] == Status::Failed);
    } else {
        assert forall|j: int| 0 <= j < statuses(l.rows).len() implies statuses(l.rows)[j]
            == Status::Done by {
            assert(l.rows[j].status.terminal());
        }
    }
}

/// When a dispatch ends on a failed rendering, the operation is failed and not one
/// attempt was created.
pub proof fn lemma_render_failure_creates_nothing(d: DispatcherView, l: Ledger)
    requires
        consistent(d, l),
        d.phase == DispatchPhase::RenderFailed,
    ensures
        l.operation.status == Status::Failed,
        l.rows.len() == 0,
{
}

/// Every write a dispatch asks for keeps the written status monotone: an attempt
/// only ever takes a legal transition, and the operation takes one or is written
/// `failed` again. A write that counts a failure finds room in the counter.
pub proof fn lemma_writes_are_monotone(d: DispatcherView, l: Ledger, event: DispatchEventView)
    requires
        consistent(d, l),
        faithful(d, l, event),
    ensures
        match d.next(event).1 {
            DispatchActionView::SetOperationStatus { status, .. } => l.operation.status.may_become(
                status,
            ),
            DispatchActionView::SetChannelStatus {
                channel_id,
                status,
                increment_attempts,
                ..
            } => exists|k: int, e: StatusEvent|
                {
                    &&& 0 <= k < l.rows.len()
                    &&& (#[trigger] l.rows[k]).id == channel_id
                    &&& #[trigger] l.rows[k].status.after(e) == Some(status)
                    &&& l.rows[k].can_count(increment_attempts)
                },
            _ => true,
        },
{
    match d.next(event).1 {
        DispatchActionView::SetOperationStatus { status, .. } => {
            if status != l.operation.status {
                if status == Status::Done {
                    if d.phase == DispatchPhase::Reading && any_failed(
                        l.rows,
                        l.rows.len() as int,
                    ) {
                        let j = choose|j: int|
                            0 <= j < l.rows.len() && (#[trigger] l.rows[j]).status
                                == Status::Failed;
                        assert(statuses(l.rows)[j] == Status::Failed);
                    }
                    assert(l.operation.status.after(StatusEvent::Succeed) == Some(status));
                } else {
                    assert(l.operation.status.after(StatusEvent::Fail) == Some(status));
                }
            }
        },
        DispatchActionView::SetChannelStatus { channel_id, status, increment_attempts, .. } => {
            let k: int = match d.phase {
                DispatchPhase::CreatingChannel(_) => 0,
                DispatchPhase::MarkingRunning(i) => i as int,
                DispatchPhase::Sending(i) => i as int,
                DispatchPhase::MarkingDone(i) => i + 1,
                DispatchPhase::FailingOperation(i) => i + 1,
                _ => 0,
            };
            let e = if status == Status::Running {
                StatusEvent::Start
            } else if status == Status::Done {
                StatusEvent::Succeed
            } else {
                StatusEvent::Fail
            };
            assert(l.rows[k].id == channel_id);
            assert(l.rows[k].status.after(e) == Some(status));
            assert(l.rows[k].can_count(increment_attempts));
        },
        _ => {},
    }
}

/// One report to the dispatcher, with what the store drew while acting on the
/// action that the report leads to: the identifier for a creation, the instant it
/// stamps.
pub struct Report {
    pub event: DispatchEventView,
    pub id: u128,
    pub now: i64,
}

/// The dispatcher as it starts on `operation`, and the ledger once the first
/// write, `running` over the operation, is made.
pub open spec fn at_start(operation: OperationRecordView, request: NotificationRequestView) -> (
    DispatcherView,
    Ledger,
) {
    (
        DispatcherView {
            operation_id: operation.id,
            request,
            attachments: Seq::empty(),
            channel_ids: Seq::empty(),
            last_error: None,
            phase: DispatchPhase::Starting,
        },
        Ledger { operation: operation.with_status(Status::Running, None, None), rows: Seq::empty() },
    )
}

/// The dispatcher and the ledger after the reports, taken in order: each report
/// steps the dispatcher, and the store carries out the action that comes back.
pub open spec fn after_reports(d: DispatcherView, l: Ledger, reports: Seq<Report>) -> (
    DispatcherView,
    Ledger,
)
    decreases reports.len(),
{
    if reports.len() == 0 {
        (d, l)
    } else {
        after_reports(
            d.next(reports[0].event).0,
            l.apply(d.next(reports[0].event).1, reports[0].id, reports[0].now),
            reports.drop_first(),
        )
    }
}

/// Every report is truthful at the point where it is made, and every identifier
/// drawn is new.
pub open spec fn truthful(d: DispatcherView, l: Ledger, reports: Seq<Report>) -> bool
    decreases reports.len(),
{
    reports.len() == 0 || {
        &&& faithful(d, l, reports[0].event)
        &&& !has_channel(l.rows, reports[0].id)
        &&& truthful(
            d.next(reports[0].event).0,
            l.apply(d.next(reports[0].event).1, reports[0].id, reports[0].now),
            reports.drop_first(),
        )
    }
}

/// However many truthful reports are made, dispatcher and ledger stay in
/// agreement.
pub proof fn lemma_reports_keep_consistent(d: DispatcherView, l: Ledger, reports: Seq<Report>)
    requires
        consistent(d, l),
        truthful(d, l, reports),
    ensures
        consistent(after_reports(d, l, reports).0, after_reports(d, l, reports).1),
    decreases reports.len(),
{
    if reports.len() > 0 {
        let first = reports[0];
        lemma_step_keeps_consistent(d, l, first.event, first.id, first.now);
        lemma_reports_keep_consistent(
            d.next(first.event).0,
            l.apply(d.next(first.event).1, first.id, first.now),
            reports.drop_first(),
        );
    }
}

/// The verdict of a dispatch is right. Take an operation that is pending, start
/// its dispatch, and let any number of truthful reports come in. If the dispatch
/// then stands completed, the operation is terminal, it is done exactly when all
/// its attempts are done, and there is one attempt for each channel asked for.
pub proof fn lemma_dispatch_verdict(
    operation: OperationRecordView,
    request: NotificationRequestView,
    reports: Seq<Report>,
)
    requires
        operation.status == Status::Pending,
        request.channels.len() <= usize::MAX,
        truthful(at_start(operation, request).0, at_start(operation, request).1, reports),
        after_reports(
            at_start(operation, request).0,
            at_start(operation, request).1,
            reports,
        ).0.phase == DispatchPhase::Completed,
    ensures
        ({
            let end = after_reports(
                at_start(operation, request).0,
                at_start(operation, request).1,
                reports,
            ).1;
            &&& end.operation.id == operation.id
            &&& end.operation.status.terminal()
            &&& end.operation.status == Status::Done <==> all_done(statuses(end.rows))
            &&& end.rows.len() == request.channels.len()
        }),
{
    let (d, l) = at_start(operation, request);
    lemma_start_is_consistent(operation, request);
    lemma_reports_keep_consistent(d, l, reports);
    lemma_requests_stay(d, l, reports);
    lemma_completed_verdict(after_reports(d, l, reports).0, after_reports(d, l, reports).1);
}

/// A dispatch never changes its request, nor the operation it works on.
proof fn lemma_requests_stay(d: DispatcherView, l: Ledger, reports: Seq<Report>)
    ensures
        after_reports(d, l, reports).0.request == d.request,
        after_reports(d, l, reports).0.operation_id == d.operation_id,
    decreases reports.len(),
{
    if reports.len() > 0 {
        let first = reports[0];
        lemma_requests_stay(
            d.next(first.event).0,
            l.apply(d.next(first.event).1, first.id, first.now),
            reports.drop_first(),
        );
    }
}

} // verus!
