//! The operation registry: every operation ever created, newest first.
//!
//! The registry is the working copy of the `operations` table. Whoever owns it
//! persists the rows it hands back; nothing here touches a database.

use crate::clock::{format_rfc3339, now_micros, rfc3339_text};
use crate::ident::{format_id, parse_id, random_id, uuid_text, uuid_value};
use crate::models::operation_model::{
    CreateOperationRequest, CreateOperationResponse, ListOperationsResponse, OperationRecord,
    OperationRecordView, OperationStatusResponse, OperationStatusResponseView,
};
use crate::status::Status;
use vstd::prelude::*;
use vstd::string::StringExecFns;

verus! {

/// Why a registry call failed.
#[derive(Debug, PartialEq, Eq)]
pub enum RegistryError {
    /// No row has the identifier asked for.
    NotFound,
    /// The store behind the registry cannot be reached.
    StoreUnavailable(String),
    /// A value cannot be written in its textual form.
    Serialization(String),
    /// Anything else.
    Internal(String),
}

/// Whether some row has the identifier `id`.
pub open spec fn has_id(rows: Seq<OperationRecordView>, id: u128) -> bool {
    exists|i: int| 0 <= i < rows.len() && #[trigger] rows[i].id == id
}

/// The row with identifier `id`, where there is one.
pub open spec fn operation_with_id(rows: Seq<OperationRecordView>, id: u128) -> OperationRecordView {
    rows[choose|i: int| 0 <= i < rows.len() && #[trigger] rows[i].id == id]
}

/// Where `row` belongs in a listing: in front of the first row that it is listed
/// before, or at the end.
pub open spec fn listing_position(rows: Seq<OperationRecordView>, row: OperationRecordView) -> int
    decreases rows.len(),
{
    if rows.len() == 0 {
        0
    } else if row.listed_before(rows[0]) {
        0
    } else {
        1 + listing_position(rows.drop_first(), row)
    }
}

/// Rows in listing order: newest first, ties by identifier, and no identifier
/// twice.
pub open spec fn listed_in_order(rows: Seq<OperationRecordView>) -> bool {
    forall|i: int, j: int|
        0 <= i < j < rows.len() ==> (#[trigger] rows[i]).listed_before(#[trigger] rows[j])
            && rows[i].id != rows[j].id
}

/// The table after a status write to `id`: that row changes as
/// [`OperationRecordView::with_status`] says, every other row stays.
pub open spec fn written(
    rows: Seq<OperationRecordView>,
    id: u128,
    status: Status,
    error: Option<Seq<char>>,
    touched: Option<i64>,
) -> Seq<OperationRecordView> {
    Seq::new(
        rows.len(),
        |i: int|
            if rows[i].id == id {
                rows[i].with_status(status, error, touched)
            } else {
                rows[i]
            },
    )
}

/// Where page `page` of `page_size` rows begins and ends among `len` rows. Pages
/// count from 1; page 0 and pages past the end are empty.
pub open spec fn page_bounds(len: int, page: u64, page_size: u64) -> (int, int) {
    if page == 0 {
        (0, 0)
    } else {
        let start = if (page - 1) * page_size < len {
            (page - 1) * page_size
        } else {
            len
        };
        let end = if start + page_size < len {
            start + page_size
        } else {
            len
        };
        (start, end)
    }
}

/// The rows on page `page`.
pub open spec fn page_of(rows: Seq<OperationRecordView>, page: u64, page_size: u64) -> Seq<
    OperationRecordView,
> {
    let (start, end) = page_bounds(rows.len() as int, page, page_size);
    rows.subrange(start, end)
}

/// Whether both timestamps of a row can be written as RFC 3339.
pub open spec fn printable(row: OperationRecordView) -> bool {
    rfc3339_text(row.created_at as int) is Some && rfc3339_text(row.updated_at as int) is Some
}

/// A row as a listing shows it.
pub open spec fn listing_entry(row: OperationRecordView) -> OperationStatusResponseView {
    OperationStatusResponseView {
        id: uuid_text(row.id),
        operation_type: row.operation_type,
        status: row.status.text(),
        error_message: row.error_message,
        is_async: row.is_async,
        created_at: rfc3339_text(row.created_at as int)->0,
        updated_at: rfc3339_text(row.updated_at as int)->0,
        metadata: row.metadata,
    }
}

/// The operation registry.
pub struct OperationService {
    rows: Vec<OperationRecord>,
}

impl View for OperationService {
    type V = Seq<OperationRecordView>;

    closed spec fn view(&self) -> Seq<OperationRecordView> {
        self.rows.deep_view()
    }
}

proof fn lemma_position_in_range(rows: Seq<OperationRecordView>, row: OperationRecordView)
    ensures
        0 <= listing_position(rows, row) <= rows.len(),
        forall|j: int|
            0 <= j < listing_position(rows, row) ==> !row.listed_before(#[trigger] rows[j]),
        listing_position(rows, row) < rows.len() ==> row.listed_before(
            rows[listing_position(rows, row)],
        ),
    decreases rows.len(),
{
    if rows.len() > 0 && !row.listed_before(rows[0]) {
        let rest = rows.drop_first();
        lemma_position_in_range(rest, row);
        assert forall|j: int| 0 <= j < listing_position(rows, row) implies !row.listed_before(
            #[trigger] rows[j],
        ) by {
            if j > 0 {
                assert(rows[j] == rest[j - 1]);
            }
        }
        if listing_position(rows, row) < rows.len() {
            assert(rows[listing_position(rows, row)] == rest[listing_position(rest, row)]);
        }
    }
}

proof fn lemma_insert_keeps_order(
    before: Seq<OperationRecordView>,
    row: OperationRecordView,
    p: int,
)
    requires
        listed_in_order(before),
        !has_id(before, row.id),
        p == listing_position(before, row),
    ensures
        0 <= p <= before.len(),
        listed_in_order(before.insert(p, row)),
{
    lemma_position_in_range(before, row);
    let after = before.insert(p, row);
    assert forall|i: int, j: int| 0 <= i < j < after.len() implies (#[trigger] after[i])
        .listed_before(#[trigger] after[j]) && after[i].id != after[j].id by {
        if i < p && j > p {
            assert(after[i] == before[i]);
            assert(after[j] == before[j - 1]);
        } else if i == p {
            assert(after[j] == before[j - 1]);
            if j - 1 > p {
                assert(before[p].listed_before(before[j - 1]));
            }
        } else if j == p {
            assert(after[i] == before[i]);
            assert(!row.listed_before(before[i]));
            assert(before[i].id != row.id);
        }
    }
}

impl OperationService {
    #[verifier::type_invariant]
    spec fn inv(self) -> bool {
        &&& listed_in_order(self@)
        &&& forall|i: int| 0 <= i < self@.len() ==> (#[trigger] self@[i]).wf()
    }

    /// An empty registry.
    pub fn new() -> (r: Self)
        ensures
            r@.len() == 0,
    {
        OperationService { rows: Vec::new() }
    }

    /// How many operations there are. The rows are always in listing order, each
    /// with `updated_at` not before `created_at`.
    pub fn len(&self) -> (n: usize)
        ensures
            n == self@.len(),
            listed_in_order(self@),
            forall|i: int| 0 <= i < self@.len() ==> (#[trigger] self@[i]).wf(),
    {
        proof {
            use_type_invariant(self);
        }
        self.rows.len()
    }

    fn index_of(&self, id: u128) -> (r: Option<usize>)
        ensures
            match r {
                Some(i) => i < self@.len() && self@[i as int].id == id && self@[i as int]
                    == operation_with_id(self@, id),
                None => !has_id(self@, id),
            },
    {
        proof {
            use_type_invariant(self);
        }
        let mut i: usize = 0;
        while i < self.rows.len()
            invariant
                i <= self.rows.len(),
                listed_in_order(self@),
                forall|j: int| 0 <= j < i ==> self@[j].id != id,
            decreases self.rows.len() - i,
        {
            if self.rows[i].id == id {
                proof {
                    assert(self@[i as int].id == id);
                    let c = choose|c: int| 0 <= c < self@.len() && #[trigger] self@[c].id == id;
                    if c < i {
                        assert(self@[c].id != self@[i as int].id);
                    } else if c > i {
                        assert(self@[i as int].id != self@[c].id);
                    }
                }
                return Some(i);
            }
            i += 1;
        }
        None
    }

    /// Puts a row in its place in the listing.
    fn place(&mut self, record: OperationRecord)
        requires
            !has_id(old(self)@, record@.id),
            record@.wf(),
        ensures
            final(self)@ == old(self)@.insert(
                listing_position(old(self)@, record@),
                record@,
            ),
    {
        proof {
            use_type_invariant(&*self);
        }
        let ghost row = record@;
        let ghost before = self@;
        let mut p: usize = 0;
        assert(before.skip(0) =~= before);
        while p < self.rows.len() && !(record.created_at > self.rows[p].created_at || (
        record.created_at == self.rows[p].created_at && record.id < self.rows[p].id))
            invariant
                p <= self.rows.len(),
                self@ == before,
                listing_position(before, row) == p + listing_position(before.skip(p as int), row),
                row == record@,
            decreases self.rows.len() - p,
        {
            assert(before.skip(p as int).drop_first() =~= before.skip(p as int + 1));
            p += 1;
        }
        proof {
            lemma_position_in_range(before, row);
            if p < before.len() {
                assert(before.skip(p as int)[0] == before[p as int]);
            }
            assert(listing_position(before, row) == p);
        }
        let mut rows: Vec<OperationRecord> = Vec::new();
        std::mem::swap(&mut rows, &mut self.rows);
        rows.insert(p, record);
        proof {
            let after = rows.deep_view();
            assert(after =~= before.insert(p as int, row));
            lemma_insert_keeps_order(before, row, p as int);
            assert forall|i: int| 0 <= i < after.len() implies (#[trigger] after[i]).wf() by {
                if i < p {
                    assert(before[i].wf());
                } else if i > p {
                    assert(before[i - 1].wf());
                }
            }
        }
        self.rows = rows;
    }

    /// Creates an operation under a given identifier at a given instant.
    ///
    /// The row starts `pending`, without error, both timestamps `now`, and takes
    /// its place in the listing. An identifier already in use is refused and
    /// nothing changes.
    pub fn insert_operation(&mut self, id: u128, now: i64, req: CreateOperationRequest) -> (r:
        Result<CreateOperationResponse, RegistryError>)
        ensures
            r is Ok <==> !has_id(old(self)@, id),
            r is Ok ==> {
                &&& final(self)@ == old(self)@.insert(
                    listing_position(old(self)@, req@.pending_row(id, now)),
                    req@.pending_row(id, now),
                )
                &&& r->Ok_0.id@ == uuid_text(id)
                &&& r->Ok_0.message@ == "operation created"@
            },
            r is Err ==> final(self)@ == old(self)@ && r->Err_0 is Internal,
    {
        if self.index_of(id).is_some() {
            return Err(RegistryError::Internal(String::from_str("operation id already in use")));
        }
        self.place(
            OperationRecord {
                id,
                operation_type: req.operation_type,
                status: Status::Pending,
                error_message: None,
                is_async: req.is_async,
                created_at: now,
                updated_at: now,
                metadata: req.metadata,
            },
        );
        Ok(
            CreateOperationResponse {
                id: format_id(id),
                message: String::from_str("operation created"),
            },
        )
    }

    /// Takes in a row as it was stored earlier, whatever its status, and puts it
    /// in its place in the listing.
    ///
    /// Refused, with nothing changed: `Internal` where the identifier is already
    /// in use, `Serialization` where the row's `updated_at` lies before its
    /// `created_at`.
    pub fn restore_operation(&mut self, record: OperationRecord) -> (r: Result<(), RegistryError>)
        ensures
            r is Ok <==> !has_id(old(self)@, record@.id) && record@.wf(),
            r is Ok ==> final(self)@ == old(self)@.insert(
                listing_position(old(self)@, record@),
                record@,
            ),
            r is Err ==> final(self)@ == old(self)@,
            r is Err ==> (if has_id(old(self)@, record@.id) {
                r->Err_0 is Internal
            } else {
                r->Err_0 is Serialization
            }),
    {
        if self.index_of(record.id).is_some() {
            return Err(RegistryError::Internal(String::from_str("operation id already in use")));
        }
        if record.created_at > record.updated_at {
            return Err(
                RegistryError::Serialization(String::from_str("row updated before it was created")),
            );
        }
        self.place(record);
        Ok(())
    }

    /// Creates an operation under a fresh random identifier, stamped with the
    /// current time.
    ///
    /// Whatever identifier and instant were drawn, the outcome is that of
    /// [`Self::insert_operation`] with them: it fails only where the identifier
    /// drawn is already in use.
    pub fn create_operation(&mut self, req: CreateOperationRequest) -> (r: Result<
        CreateOperationResponse,
        RegistryError,
    >)
        ensures
            r is Ok ==> exists|id: u128, now: i64|
                {
                    &&& !has_id(old(self)@, id)
                    &&& final(self)@ == old(self)@.insert(
                        listing_position(old(self)@, req@.pending_row(id, now)),
                        #[trigger] req@.pending_row(id, now),
                    )
                    &&& r->Ok_0.id@ == uuid_text(id)
                    &&& r->Ok_0.message@ == "operation created"@
                },
            r is Err ==> final(self)@ == old(self)@ && r->Err_0 is Internal && exists|id: u128|
                has_id(old(self)@, id),
    {
        let id = random_id();
        let now = now_micros();
        self.insert_operation(id, now, req)
    }

    /// Writes a status and error over the row `op_id`, and moves `updated_at` to
    /// `touched` where one is given and it is later. Says whether there is such a
    /// row; where there is none, nothing changes.
    ///
    /// The write is unconditional: keeping the status monotone is the caller's
    /// business.
    pub fn write_status(
        &mut self,
        op_id: u128,
        status: Status,
        error: Option<String>,
        touched: Option<i64>,
    ) -> (found: bool)
        ensures
            found == has_id(old(self)@, op_id),
            final(self)@ == written(old(self)@, op_id, status, error.deep_view(), touched),
    {
        proof {
            use_type_invariant(&*self);
        }
        let ghost before = self@;
        match self.index_of(op_id) {
            Some(i) => {
                let previous = self.rows[i].clone();
                let updated_at = match touched {
                    Some(now) => if now > previous.updated_at {
                        now
                    } else {
                        previous.updated_at
                    },
                    None => previous.updated_at,
                };
                let record = OperationRecord {
                    id: previous.id,
                    operation_type: previous.operation_type,
                    status,
                    error_message: error,
                    is_async: previous.is_async,
                    created_at: previous.created_at,
                    updated_at,
                    metadata: previous.metadata,
                };
                let mut rows: Vec<OperationRecord> = Vec::new();
                std::mem::swap(&mut rows, &mut self.rows);
                rows.set(i, record);
                proof {
                    let after = rows.deep_view();
                    let target = written(before, op_id, status, error.deep_view(), touched);
                    assert forall|k: int| 0 <= k < before.len() && k != i implies before[k].id
                        != op_id by {
                        if k < i {
                            assert(before[k].listed_before(before[i as int]));
                        } else {
                            assert(before[i as int].listed_before(before[k]));
                        }
                    }
                    assert(after =~= target);
                    assert forall|a: int, b: int| 0 <= a < b < after.len() implies (
                    #[trigger] after[a]).listed_before(#[trigger] after[b]) && after[a].id
                        != after[b].id by {
                        assert(before[a].listed_before(before[b]));
                    }
                    assert forall|k: int| 0 <= k < after.len() implies (#[trigger] after[k]).wf() by {
                        assert(before[k].wf());
                    }
                }
                self.rows = rows;
                true
            },
            None => {
                proof {
                    assert(self@ =~= written(before, op_id, status, error.deep_view(), touched));
                }
                false
            },
        }
    }

    /// Writes a status and error over the row `op_id` and stamps it with the
    /// current time. Whatever instant was read, the row changes as
    /// [`Self::write_status`] says for it.
    pub fn update_operation(&mut self, op_id: u128, new_status: Status, error_message: Option<String>)
        -> (found: bool)
        ensures
            found == has_id(old(self)@, op_id),
            exists|now: i64|
                final(self)@ == #[trigger] written(
                    old(self)@,
                    op_id,
                    new_status,
                    error_message.deep_view(),
                    Some(now),
                ),
    {
        let now = now_micros();
        self.write_status(op_id, new_status, error_message, Some(now))
    }

    /// Marks the row `op_id` as failed with `error`, stamped with the current time.
    pub fn mark_operation_failed(&mut self, op_id: u128, error: String) -> (found: bool)
        ensures
            found == has_id(old(self)@, op_id),
            exists|now: i64|
                final(self)@ == #[trigger] written(
                    old(self)@,
                    op_id,
                    Status::Failed,
                    Some(error@),
                    Some(now),
                ),
    {
        let now = now_micros();
        self.write_status(op_id, Status::Failed, Some(error), Some(now))
    }

    /// Writes a status and error over the row `op_id`; `updated_at` stays.
    pub fn update_operation_status(&mut self, operation_id: u128, status: Status, error: Option<String>)
        -> (found: bool)
        ensures
            found == has_id(old(self)@, operation_id),
            final(self)@ == written(old(self)@, operation_id, status, error.deep_view(), None),
    {
        self.write_status(operation_id, status, error, None)
    }

    /// The row with identifier `id`; `NotFound` where there is none.
    pub fn find_operation(&self, id: u128) -> (r: Result<OperationRecord, RegistryError>)
        ensures
            r is Ok <==> has_id(self@, id),
            r is Ok ==> r->Ok_0@ == operation_with_id(self@, id) && r->Ok_0@.id == id,
            r is Err ==> r->Err_0 is NotFound,
    {
        match self.index_of(id) {
            Some(i) => Ok(self.rows[i].clone()),
            None => Err(RegistryError::NotFound),
        }
    }

    /// The row whose identifier `op_id` spells; `NotFound` where the text is no
    /// identifier or no row has it.
    pub fn get_operation(&self, op_id: &str) -> (r: Result<OperationRecord, RegistryError>)
        ensures
            r is Ok <==> uuid_value(op_id@) is Some && has_id(self@, uuid_value(op_id@)->0),
            r is Ok ==> r->Ok_0@ == operation_with_id(self@, uuid_value(op_id@)->0),
            r is Err ==> r->Err_0 is NotFound,
    {
        match parse_id(op_id) {
            Some(id) => self.find_operation(id),
            None => Err(RegistryError::NotFound),
        }
    }

    /// The rows on page `page`, `page_size` to a page, newest first.
    pub fn page_rows(&self, page: u64, page_size: u64) -> (r: Vec<OperationRecord>)
        ensures
            r.deep_view() == page_of(self@, page, page_size),
    {
        let len = self.rows.len();
        let mut out: Vec<OperationRecord> = Vec::new();
        if page == 0 {
            assert(out.deep_view() =~= page_of(self@, page, page_size));
            return out;
        }
        let start: usize = match (page - 1).checked_mul(page_size) {
            Some(offset) => if offset < len as u64 {
                offset as usize
            } else {
                len
            },
            None => len,
        };
        let end: usize = if page_size < (len - start) as u64 {
            start + page_size as usize
        } else {
            len
        };
        assert((start as int, end as int) == page_bounds(len as int, page, page_size)) by {
            assert((page - 1) * page_size >= 0) by (nonlinear_arith)
                requires
                    page >= 1,
                    page_size >= 0,
            ;
        }
        let mut i: usize = start;
        while i < end
            invariant
                start <= i <= end <= len,
                len == self.rows.len(),
                out@.len() == i - start,
                forall|k: int| 0 <= k < i - start ==> out@[k]@ == self@[start + k],
            decreases end - i,
        {
            out.push(self.rows[i].clone());
            i += 1;
        }
        assert(out.deep_view() =~= self@.subrange(start as int, end as int));
        out
    }

    /// One page of the listing, with identifiers, statuses and timestamps written
    /// as text. Fails with `Serialization` where a timestamp on the page cannot be
    /// written.
    pub fn list_operations(&self, page: u64, page_size: u64) -> (r: Result<
        ListOperationsResponse,
        RegistryError,
    >)
        ensures
            r is Ok <==> forall|i: int|
                0 <= i < page_of(self@, page, page_size).len() ==> printable(
                    #[trigger] page_of(self@, page, page_size)[i],
                ),
            r is Ok ==> {
                &&& r->Ok_0.total == self@.len()
                &&& r->Ok_0.page == page
                &&& r->Ok_0.page_size == page_size
                &&& r->Ok_0.items.deep_view() == page_of(self@, page, page_size).map_values(
                    |row: OperationRecordView| listing_entry(row),
                )
            },
            r is Err ==> r->Err_0 is Serialization,
    {
        let rows = self.page_rows(page, page_size);
        let ghost shown = page_of(self@, page, page_size);
        let mut items: Vec<OperationStatusResponse> = Vec::new();
        let mut i: usize = 0;
        while i < rows.len()
            invariant
                i <= rows.len(),
                rows.deep_view() == shown,
                shown == page_of(self@, page, page_size),
                items@.len() == i,
                forall|k: int| 0 <= k < i ==> printable(#[trigger] shown[k]),
                forall|k: int| 0 <= k < i ==> items@[k]@ == listing_entry(shown[k]),
            decreases rows.len() - i,
        {
            assert(shown.len() == rows@.len());
            assert(rows@[i as int]@ == shown[i as int]);
            match entry_of(&rows[i]) {
                Some(entry) => {
                    items.push(entry);
                },
                None => {
                    assert(!printable(shown[i as int]));
                    return Err(
                        RegistryError::Serialization(
                            String::from_str("timestamp outside the years that can be written"),
                        ),
                    );
                },
            }
            i += 1;
        }
        assert(items.deep_view() =~= shown.map_values(
            |row: OperationRecordView| listing_entry(row),
        ));
        Ok(ListOperationsResponse { total: self.rows.len() as u64, page, page_size, items })
    }
}

/// A row as a listing shows it; `None` where a timestamp cannot be written.
pub fn entry_of(row: &OperationRecord) -> (r: Option<OperationStatusResponse>)
    ensures
        r is Some <==> printable(row@),
        r is Some ==> r->0@ == listing_entry(row@),
{
    let created_at = match format_rfc3339(row.created_at) {
        Some(text) => text,
        None => {
            return None;
        },
    };
    let updated_at = match format_rfc3339(row.updated_at) {
        Some(text) => text,
        None => {
            return None;
        },
    };
    Some(
        OperationStatusResponse {
            id: format_id(row.id),
            operation_type: row.operation_type.clone(),
            status: String::from_str(row.status.as_str()),
            error_message: row.error_message.clone(),
            is_async: row.is_async,
            created_at,
            updated_at,
            metadata: row.metadata.clone(),
        },
    )
}

} // verus!
