//! The channel registry: every channel attempt, in the order of creation.

use crate::clock::now_micros;
use crate::ident::{parse_id, random_id, uuid_value};
use crate::models::operation_channel_model::{OperationChannelRecord, OperationChannelRecordView};
use crate::services::operation_service::RegistryError;
use crate::status::Status;
use vstd::prelude::*;
use vstd::string::StringExecFns;

verus! {

/// Whether some row has the identifier `id`.
pub open spec fn has_channel(rows: Seq<OperationChannelRecordView>, id: u128) -> bool {
    exists|i: int| 0 <= i < rows.len() && #[trigger] rows[i].id == id
}

/// No identifier occurs twice.
pub open spec fn distinct_ids(rows: Seq<OperationChannelRecordView>) -> bool {
    forall|i: int, j: int|
        0 <= i < j < rows.len() ==> (#[trigger] rows[i]).id != (#[trigger] rows[j]).id
}

/// The row with identifier `id`, where there is one.
pub open spec fn channel_with_id(
    rows: Seq<OperationChannelRecordView>,
    id: u128,
) -> OperationChannelRecordView {
    rows[choose|i: int| 0 <= i < rows.len() && #[trigger] rows[i].id == id]
}

/// The table after a status write to `id`: that row changes as
/// [`OperationChannelRecordView::with_status`] says, every other row stays.
pub open spec fn channel_written(
    rows: Seq<OperationChannelRecordView>,
    id: u128,
    status: Status,
    error: Option<Seq<char>>,
    increment_attempts: bool,
    now: i64,
) -> Seq<OperationChannelRecordView> {
    Seq::new(
        rows.len(),
        |i: int|
            if rows[i].id == id {
                rows[i].with_status(status, error, increment_attempts, now)
            } else {
                rows[i]
            },
    )
}

/// The rows of one operation, in the order of creation.
pub open spec fn channels_of(
    rows: Seq<OperationChannelRecordView>,
    operation_id: u128,
) -> Seq<OperationChannelRecordView> {
    rows.filter(|row: OperationChannelRecordView| row.operation_id == operation_id)
}

/// The channel registry.
pub struct NotificationChannelService {
    rows: Vec<OperationChannelRecord>,
}

impl View for NotificationChannelService {
    type V = Seq<OperationChannelRecordView>;

    closed spec fn view(&self) -> Seq<OperationChannelRecordView> {
        self.rows.deep_view()
    }
}

impl NotificationChannelService {
    #[verifier::type_invariant]
    spec fn inv(self) -> bool {
        &&& distinct_ids(self@)
        &&& forall|i: int| 0 <= i < self@.len() ==> (#[trigger] self@[i]).wf()
    }

    /// An empty registry.
    pub fn new() -> (r: Self)
        ensures
            r@.len() == 0,
    {
        NotificationChannelService { rows: Vec::new() }
    }

    /// How many attempts there are. No identifier occurs twice among them, and
    /// each has `updated_at` not before `created_at`.
    pub fn len(&self) -> (n: usize)
        ensures
            n == self@.len(),
            distinct_ids(self@),
            forall|i: int| 0 <= i < self@.len() ==> (#[trigger] self@[i]).wf(),
    {
        proof {
            use_type_invariant(self);
        }
        self.rows.len()
    }

    fn index_of(&self, id: u128) -> (r: Option<usize>)
        ensures
            match r {
                Some(i) => i < self@.len() && self@[i as int].id == id && self@[i as int]
                    == channel_with_id(self@, id),
                None => !has_channel(self@, id),
            },
    {
        proof {
            use_type_invariant(self);
        }
        let mut i: usize = 0;
        while i < self.rows.len()
            invariant
                i <= self.rows.len(),
                distinct_ids(self@),
                forall|j: int| 0 <= j < i ==> self@[j].id != id,
            decreases self.rows.len() - i,
        {
            if self.rows[i].id == id {
                proof {
                    assert(self@[i as int].id == id);
                    let c = choose|c: int| 0 <= c < self@.len() && #[trigger] self@[c].id == id;
                    if c < i {
                        assert(self@[c].id != self@[i as int].id);
                    } else if c > i {
                        assert(self@[i as int].id != self@[c].id);
                    }
                }
                return Some(i);
            }
            i += 1;
        }
        None
    }

    /// Appends a row.
    fn append(&mut self, record: OperationChannelRecord)
        requires
            !has_channel(old(self)@, record@.id),
            record@.wf(),
        ensures
            final(self)@ == old(self)@.push(record@),
    {
        proof {
            use_type_invariant(&*self);
        }
        let ghost before = self@;
        let ghost row = record@;
        let mut rows: Vec<OperationChannelRecord> = Vec::new();
        std::mem::swap(&mut rows, &mut self.rows);
        rows.push(record);
        proof {
            let after = rows.deep_view();
            assert(after =~= before.push(row));
            assert forall|i: int, j: int| 0 <= i < j < after.len() implies (#[trigger] after[i]).id
                != (#[trigger] after[j]).id by {
                if j < before.len() {
                    assert(before[i].id != before[j].id);
                } else {
                    assert(before[i].id != row.id);
                }
            }
            assert forall|i: int| 0 <= i < after.len() implies (#[trigger] after[i]).wf() by {
                if i < before.len() {
                    assert(before[i].wf());
                }
            }
        }
        self.rows = rows;
    }

    /// Records an attempt under a given identifier at a given instant: no error,
    /// no failures yet, appended after all earlier attempts. An identifier already
    /// in use is refused and nothing changes.
    pub fn insert_channel(
        &mut self,
        id: u128,
        now: i64,
        operation_id: u128,
        channel: &str,
        initial_status: Status,
    ) -> (r: Result<u128, RegistryError>)
        ensures
            r is Ok <==> !has_channel(old(self)@, id),
            r is Ok ==> r->Ok_0 == id && final(self)@ == old(self)@.push(
                OperationChannelRecordView::fresh(id, operation_id, channel@, initial_status, now),
            ),
            r is Err ==> final(self)@ == old(self)@ && r->Err_0 is Internal,
    {
        if self.index_of(id).is_some() {
            return Err(RegistryError::Internal(String::from_str("channel id already in use")));
        }
        self.append(
            OperationChannelRecord {
                id,
                operation_id,
                channel: String::from_str(channel),
                status: initial_status,
                error_message: None,
                created_at: now,
                updated_at: now,
                attempts: 0,
            },
        );
        Ok(id)
    }

    /// Takes in a row as it was stored earlier, whatever its status and count, and
    /// appends it.
    ///
    /// Refused, with nothing changed: `Internal` where the identifier is already
    /// in use, `Serialization` where the row's `updated_at` lies before its
    /// `created_at`.
    pub fn restore_channel(&mut self, record: OperationChannelRecord) -> (r: Result<
        (),
        RegistryError,
    >)
        ensures
            r is Ok <==> !has_channel(old(self)@, record@.id) && record@.wf(),
            r is Ok ==> final(self)@ == old(self)@.push(record@),
            r is Err ==> final(self)@ == old(self)@,
            r is Err ==> (if has_channel(old(self)@, record@.id) {
                r->Err_0 is Internal
            } else {
                r->Err_0 is Serialization
            }),
    {
        if self.index_of(record.id).is_some() {
            return Err(RegistryError::Internal(String::from_str("channel id already in use")));
        }
        if record.created_at > record.updated_at {
            return Err(
                RegistryError::Serialization(String::from_str("row updated before it was created")),
            );
        }
        self.append(record);
        Ok(())
    }

    /// Records an attempt under a fresh random identifier, stamped with the
    /// current time. Whatever identifier and instant were drawn, the outcome is
    /// that of [`Self::insert_channel`] with them.
    pub fn create_channel(&mut self, operation_id: u128, channel: &str, initial_status: Status) -> (r:
        Result<u128, RegistryError>)
        ensures
            r is Ok ==> !has_channel(old(self)@, r->Ok_0) && exists|now: i64|
                final(self)@ == old(self)@.push(
                    #[trigger] OperationChannelRecordView::fresh(
                        r->Ok_0,
                        operation_id,
                        channel@,
                        initial_status,
                        now,
                    ),
                ),
            r is Err ==> final(self)@ == old(self)@ && r->Err_0 is Internal && exists|id: u128|
                has_channel(old(self)@, id),
    {
        let id = random_id();
        let now = now_micros();
        self.insert_channel(id, now, operation_id, channel, initial_status)
    }

    /// Writes a status and error over the attempt `channel_id` at instant `now`,
    /// and counts a failure where `increment_attempts` is set: status, error,
    /// `updated_at` and `attempts` change together, in one replacement of the row.
    ///
    /// `Ok(true)` where the row was written, `Ok(false)` where there is no such
    /// row. Where the counter is at its limit and a failure is to be counted, the
    /// write is refused with `Internal`. In the last two cases nothing changes.
    pub fn write_channel_status(
        &mut self,
        channel_id: u128,
        status: Status,
        error_message: Option<String>,
        increment_attempts: bool,
        now: i64,
    ) -> (r: Result<bool, RegistryError>)
        ensures
            r is Ok <==> (has_channel(old(self)@, channel_id) ==> channel_with_id(
                old(self)@,
                channel_id,
            ).can_count(increment_attempts)),
            r is Ok ==> r->Ok_0 == has_channel(old(self)@, channel_id) && final(self)@
                == channel_written(
                old(self)@,
                channel_id,
                status,
                error_message.deep_view(),
                increment_attempts,
                now,
            ),
            r is Err ==> final(self)@ == old(self)@ && r->Err_0 is Internal,
    {
        proof {
            use_type_invariant(&*self);
        }
        let ghost before = self@;
        match self.index_of(channel_id) {
            Some(i) => {
                let previous = self.rows[i].clone();
                if increment_attempts && previous.attempts == u32::MAX {
                    return Err(
                        RegistryError::Internal(String::from_str("attempt counter exhausted")),
                    );
                }
                let record = OperationChannelRecord {
                    id: previous.id,
                    operation_id: previous.operation_id,
                    channel: previous.channel,
                    status,
                    error_message,
                    created_at: previous.created_at,
                    updated_at: if now > previous.updated_at {
                        now
                    } else {
                        previous.updated_at
                    },
                    attempts: if increment_attempts {
                        previous.attempts + 1
                    } else {
                        previous.attempts
                    },
                };
                let mut rows: Vec<OperationChannelRecord> = Vec::new();
                std::mem::swap(&mut rows, &mut self.rows);
                rows.set(i, record);
                proof {
                    let after = rows.deep_view();
                    let target = channel_written(
                        before,
                        channel_id,
                        status,
                        error_message.deep_view(),
                        increment_attempts,
                        now,
                    );
                    assert forall|k: int| 0 <= k < before.len() && k != i implies before[k].id
                        != channel_id by {
                        if k < i {
                            assert(before[k].id != before[i as int].id);
                        } else {
                            assert(before[i as int].id != before[k].id);
                        }
                    }
                    assert(after =~= target);
                    assert forall|a: int, b: int| 0 <= a < b < after.len() implies (
                    #[trigger] after[a]).id != (#[trigger] after[b]).id by {
                        assert(before[a].id != before[b].id);
                    }
                    assert forall|k: int| 0 <= k < after.len() implies (#[trigger] after[k]).wf() by {
                        assert(before[k].wf());
                    }
                }
                self.rows = rows;
                Ok(true)
            },
            None => {
                proof {
                    assert(self@ =~= channel_written(
                        before,
                        channel_id,
                        status,
                        error_message.deep_view(),
                        increment_attempts,
                        now,
                    ));
                }
                Ok(false)
            },
        }
    }

    /// Writes a status and error over the attempt `channel_id`, stamped with the
    /// current time. Whatever instant was read, the outcome is that of
    /// [`Self::write_channel_status`] with it.
    pub fn update_channel_status(
        &mut self,
        channel_id: u128,
        status: Status,
        error_message: Option<String>,
        increment_attempt: bool,
    ) -> (r: Result<bool, RegistryError>)
        ensures
            r is Ok <==> (has_channel(old(self)@, channel_id) ==> channel_with_id(
                old(self)@,
                channel_id,
            ).can_count(increment_attempt)),
            r is Ok ==> r->Ok_0 == has_channel(old(self)@, channel_id) && exists|now: i64|
                final(self)@ == #[trigger] channel_written(
                    old(self)@,
                    channel_id,
                    status,
                    error_message.deep_view(),
                    increment_attempt,
                    now,
                ),
            r is Err ==> final(self)@ == old(self)@ && r->Err_0 is Internal,
    {
        let now = now_micros();
        self.write_channel_status(channel_id, status, error_message, increment_attempt, now)
    }

    /// The attempt with identifier `id`; `NotFound` where there is none.
    pub fn find_channel(&self, id: u128) -> (r: Result<OperationChannelRecord, RegistryError>)
        ensures
            r is Ok <==> has_channel(self@, id),
            r is Ok ==> r->Ok_0@ == channel_with_id(self@, id) && r->Ok_0@.id == id,
            r is Err ==> r->Err_0 is NotFound,
    {
        match self.index_of(id) {
            Some(i) => Ok(self.rows[i].clone()),
            None => Err(RegistryError::NotFound),
        }
    }

    /// The attempt whose identifier `channel_id` spells; `NotFound` where the text
    /// is no identifier or no row has it.
    pub fn get_channel(&self, channel_id: &str) -> (r: Result<OperationChannelRecord, RegistryError>)
        ensures
            r is Ok <==> uuid_value(channel_id@) is Some && has_channel(
                self@,
                uuid_value(channel_id@)->0,
            ),
            r is Ok ==> r->Ok_0@ == channel_with_id(self@, uuid_value(channel_id@)->0),
            r is Err ==> r->Err_0 is NotFound,
    {
        match parse_id(channel_id) {
            Some(id) => self.find_channel(id),
            None => Err(RegistryError::NotFound),
        }
    }

    /// The attempts of one operation, in the order of creation.
    pub fn list_channels_for_operation(&self, operation_id: u128) -> (r: Vec<OperationChannelRecord>)
        ensures
            r.deep_view() == channels_of(self@, operation_id),
    {
        let ghost wanted = |row: OperationChannelRecordView| row.operation_id == operation_id;
        let mut out: Vec<OperationChannelRecord> = Vec::new();
        let mut i: usize = 0;
        assert(self@.take(0) =~= Seq::empty());
        while i < self.rows.len()
            invariant
                i <= self.rows.len(),
                wanted == |row: OperationChannelRecordView| row.operation_id == operation_id,
                out.deep_view() == self@.take(i as int).filter(wanted),
            decreases self.rows.len() - i,
        {
            proof {
                let shorter = self@.take(i as int);
                let longer = self@.take(i as int + 1);
                assert(longer =~= shorter.push(self@[i as int]));
                shorter.lemma_filter_push(self@[i as int], wanted);
            }
            if self.rows[i].operation_id == operation_id {
                let ghost before = out.deep_view();
                out.push(self.rows[i].clone());
                assert(out.deep_view() =~= before.push(self@[i as int]));
            }
            i += 1;
        }
        assert(self@.take(self.rows.len() as int) =~= self@);
        out
    }
}

} // verus!
