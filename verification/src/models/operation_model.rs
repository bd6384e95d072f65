//! Operations: the top-level unit of work and the payloads that speak of it.

use crate::status::Status;
use vstd::prelude::*;

verus! {

/// One operation as the registry holds it.
#[derive(Debug, PartialEq, Eq)]
pub struct OperationRecord {
    pub id: u128,
    pub operation_type: String,
    pub status: Status,
    pub error_message: Option<String>,
    pub is_async: bool,
    /// Microseconds since the Unix epoch.
    pub created_at: i64,
    /// Microseconds since the Unix epoch; never before `created_at`.
    pub updated_at: i64,
    /// Opaque JSON text; never interpreted here.
    pub metadata: Option<String>,
}

pub struct OperationRecordView {
    pub id: u128,
    pub operation_type: Seq<char>,
    pub status: Status,
    pub error_message: Option<Seq<char>>,
    pub is_async: bool,
    pub created_at: i64,
    pub updated_at: i64,
    pub metadata: Option<Seq<char>>,
}

impl View for OperationRecord {
    type V = OperationRecordView;

    open spec fn view(&self) -> OperationRecordView {
        OperationRecordView {
            id: self.id,
            operation_type: self.operation_type@,
            status: self.status,
            error_message: self.error_message.deep_view(),
            is_async: self.is_async,
            created_at: self.created_at,
            updated_at: self.updated_at,
            metadata: self.metadata.deep_view(),
        }
    }
}

impl DeepView for OperationRecord {
    type V = OperationRecordView;

    open spec fn deep_view(&self) -> OperationRecordView {
        self@
    }
}

impl Clone for OperationRecord {
    fn clone(&self) -> (r: Self)
        ensures
            r@ == self@,
    {
        OperationRecord {
            id: self.id,
            operation_type: self.operation_type.clone(),
            status: self.status,
            error_message: self.error_message.clone(),
            is_async: self.is_async,
            created_at: self.created_at,
            updated_at: self.updated_at,
            metadata: self.metadata.clone(),
        }
    }
}

impl OperationRecordView {
    /// `updated_at` is not before `created_at`.
    pub open spec fn wf(self) -> bool {
        self.created_at <= self.updated_at
    }

    /// The row after a status write. The error is overwritten too. Where the write
    /// carries an instant, `updated_at` moves to it, but never backwards.
    pub open spec fn with_status(
        self,
        status: Status,
        error: Option<Seq<char>>,
        touched: Option<i64>,
    ) -> OperationRecordView {
        OperationRecordView {
            status,
            error_message: error,
            updated_at: match touched {
                Some(now) if now > self.updated_at => now,
                _ => self.updated_at,
            },
            ..self
        }
    }

    /// Whether `self` is listed before `other`: newer first, and among rows of one
    /// instant the smaller identifier first.
    pub open spec fn listed_before(self, other: OperationRecordView) -> bool {
        self.created_at > other.created_at || (self.created_at == other.created_at && self.id
            < other.id)
    }
}

/// What is needed to create an operation.
#[derive(Debug, PartialEq, Eq)]
pub struct CreateOperationRequest {
    /// A free tag such as `send_notification` or `generate_pdf`.
    pub operation_type: String,
    pub is_async: bool,
    pub metadata: Option<String>,
}

pub struct CreateOperationRequestView {
    pub operation_type: Seq<char>,
    pub is_async: bool,
    pub metadata: Option<Seq<char>>,
}

impl View for CreateOperationRequest {
    type V = CreateOperationRequestView;

    open spec fn view(&self) -> CreateOperationRequestView {
        CreateOperationRequestView {
            operation_type: self.operation_type@,
            is_async: self.is_async,
            metadata: self.metadata.deep_view(),
        }
    }
}

impl CreateOperationRequestView {
    /// The row that creating this request at `now` under `id` gives: pending, no
    /// error, both timestamps `now`.
    pub open spec fn pending_row(self, id: u128, now: i64) -> OperationRecordView {
        OperationRecordView {
            id,
            operation_type: self.operation_type,
            status: Status::Pending,
            error_message: None,
            is_async: self.is_async,
            created_at: now,
            updated_at: now,
            metadata: self.metadata,
        }
    }
}

/// The answer to a creation.
#[derive(Debug, PartialEq, Eq)]
pub struct CreateOperationResponse {
    /// The new operation's identifier, as text.
    pub id: String,
    pub message: String,
}

/// One operation as a listing shows it: identifier, status and timestamps as text.
#[derive(Debug, PartialEq, Eq)]
pub struct OperationStatusResponse {
    pub id: String,
    pub operation_type: String,
    pub status: String,
    pub error_message: Option<String>,
    pub is_async: bool,
    pub created_at: String,
    pub updated_at: String,
    pub metadata: Option<String>,
}

pub struct OperationStatusResponseView {
    pub id: Seq<char>,
    pub operation_type: Seq<char>,
    pub status: Seq<char>,
    pub error_message: Option<Seq<char>>,
    pub is_async: bool,
    pub created_at: Seq<char>,
    pub updated_at: Seq<char>,
    pub metadata: Option<Seq<char>>,
}

impl View for OperationStatusResponse {
    type V = OperationStatusResponseView;

    open spec fn view(&self) -> OperationStatusResponseView {
        OperationStatusResponseView {
            id: self.id@,
            operation_type: self.operation_type@,
            status: self.status@,
            error_message: self.error_message.deep_view(),
            is_async: self.is_async,
            created_at: self.created_at@,
            updated_at: self.updated_at@,
            metadata: self.metadata.deep_view(),
        }
    }
}

impl DeepView for OperationStatusResponse {
    type V = OperationStatusResponseView;

    open spec fn deep_view(&self) -> OperationStatusResponseView {
        self@
    }
}

/// One page of operations, newest first.
#[derive(Debug, PartialEq, Eq)]
pub struct ListOperationsResponse {
    /// How many operations there are in all.
    pub total: u64,
    pub page: u64,
    pub page_size: u64,
    pub items: Vec<OperationStatusResponse>,
}

} // verus!
