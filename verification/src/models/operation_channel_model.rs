//! Channel attempts: one row per channel of an operation.

use crate::status::Status;
use vstd::prelude::*;

verus! {

/// One channel attempt as the registry holds it.
#[derive(Debug, PartialEq, Eq)]
pub struct OperationChannelRecord {
    pub id: u128,
    /// The operation this attempt belongs to.
    pub operation_id: u128,
    /// The channel tag: `email`, `whatsapp`, or whatever the request said.
    pub channel: String,
    pub status: Status,
    pub error_message: Option<String>,
    /// Microseconds since the Unix epoch.
    pub created_at: i64,
    /// Microseconds since the Unix epoch; never before `created_at`.
    pub updated_at: i64,
    /// How many times the attempt has failed.
    pub attempts: u32,
}

pub struct OperationChannelRecordView {
    pub id: u128,
    pub operation_id: u128,
    pub channel: Seq<char>,
    pub status: Status,
    pub error_message: Option<Seq<char>>,
    pub created_at: i64,
    pub updated_at: i64,
    pub attempts: u32,
}

impl View for OperationChannelRecord {
    type V = OperationChannelRecordView;

    open spec fn view(&self) -> OperationChannelRecordView {
        OperationChannelRecordView {
            id: self.id,
            operation_id: self.operation_id,
            channel: self.channel@,
            status: self.status,
            error_message: self.error_message.deep_view(),
            created_at: self.created_at,
            updated_at: self.updated_at,
            attempts: self.attempts,
        }
    }
}

impl DeepView for OperationChannelRecord {
    type V = OperationChannelRecordView;

    open spec fn deep_view(&self) -> OperationChannelRecordView {
        self@
    }
}

impl Clone for OperationChannelRecord {
    fn clone(&self) -> (r: Self)
        ensures
            r@ == self@,
    {
        OperationChannelRecord {
            id: self.id,
            operation_id: self.operation_id,
            channel: self.channel.clone(),
            status: self.status,
            error_message: self.error_message.clone(),
            created_at: self.created_at,
            updated_at: self.updated_at,
            attempts: self.attempts,
        }
    }
}

impl OperationChannelRecordView {
    /// `updated_at` is not before `created_at`.
    pub open spec fn wf(self) -> bool {
        self.created_at <= self.updated_at
    }

    /// A new attempt: no error, no failures yet, both timestamps `now`.
    pub open spec fn fresh(
        id: u128,
        operation_id: u128,
        channel: Seq<char>,
        status: Status,
        now: i64,
    ) -> OperationChannelRecordView {
        OperationChannelRecordView {
            id,
            operation_id,
            channel,
            status,
            error_message: None,
            created_at: now,
            updated_at: now,
            attempts: 0,
        }
    }

    /// Whether a status write that counts a failure can still be recorded.
    pub open spec fn can_count(self, increment_attempts: bool) -> bool {
        increment_attempts ==> self.attempts < u32::MAX
    }

    /// The row after a status write: status and error are overwritten, `updated_at`
    /// moves to `now` unless that is earlier, and `attempts` grows by one exactly
    /// when `increment_attempts` is set. All of it is one change of the row.
    pub open spec fn with_status(
        self,
        status: Status,
        error: Option<Seq<char>>,
        increment_attempts: bool,
        now: i64,
    ) -> OperationChannelRecordView {
        OperationChannelRecordView {
            status,
            error_message: error,
            updated_at: if now > self.updated_at {
                now
            } else {
                self.updated_at
            },
            attempts: if increment_attempts {
                (self.attempts + 1) as u32
            } else {
                self.attempts
            },
            ..self
        }
    }
}

/// The attempt counter never goes down under a status write, and goes up by exactly
/// one under a write that counts a failure.
pub proof fn lemma_attempts_monotone(
    row: OperationChannelRecordView,
    status: Status,
    error: Option<Seq<char>>,
    increment_attempts: bool,
    now: i64,
)
    requires
        row.can_count(increment_attempts),
    ensures
        row.with_status(status, error, increment_attempts, now).attempts >= row.attempts,
        increment_attempts ==> row.with_status(status, error, increment_attempts, now).attempts
            == row.attempts + 1,
        !increment_attempts ==> row.with_status(status, error, increment_attempts, now).attempts
            == row.attempts,
{
}

} // verus!
