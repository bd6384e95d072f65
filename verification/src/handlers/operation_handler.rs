//! Listing and looking up operations.

use crate::models::operation_model::{ListOperationsResponse, OperationRecordView};
use crate::services::operation_service::{
    listing_entry, page_of, printable, OperationService, RegistryError,
};
use vstd::prelude::*;

verus! {

/// The paging parameters of a listing, as the query string gives them.
#[derive(Clone, Copy, Debug)]
pub struct PaginationQuery {
    pub page: Option<u64>,
    pub page_size: Option<u64>,
}

impl PaginationQuery {
    /// The page asked for; the first where none is named.
    pub open spec fn spec_page(self) -> u64 {
        match self.page {
            Some(page) => page,
            None => 1,
        }
    }

    /// The page size asked for; ten where none is named.
    pub open spec fn spec_page_size(self) -> u64 {
        match self.page_size {
            Some(size) => size,
            None => 10,
        }
    }

    /// The page asked for; the first where none is named.
    #[verifier::when_used_as_spec(spec_page)]
    pub fn page(self) -> (r: u64)
        ensures
            r == self.spec_page(),
    {
        match self.page {
            Some(page) => page,
            None => 1,
        }
    }

    /// The page size asked for; ten where none is named.
    #[verifier::when_used_as_spec(spec_page_size)]
    pub fn page_size(self) -> (r: u64)
        ensures
            r == self.spec_page_size(),
    {
        match self.page_size {
            Some(size) => size,
            None => 10,
        }
    }
}

/// The HTTP status for a registry failure: 404 for a missing row, 500 otherwise.
pub open spec fn failure_status(error: RegistryError) -> u16 {
    match error {
        RegistryError::NotFound => 404,
        _ => 500,
    }
}

/// The HTTP status for a registry failure: 404 for a missing row, 500 otherwise.
pub fn registry_error_status(error: &RegistryError) -> (r: u16)
    ensures
        r == failure_status(*error),
{
    match error {
        RegistryError::NotFound => 404,
        _ => 500,
    }
}

/// The listing for a query: the page and page size it names, or the defaults.
pub fn list_page(registry: &OperationService, query: PaginationQuery) -> (r: Result<
    ListOperationsResponse,
    RegistryError,
>)
    ensures
        r is Ok <==> forall|i: int|
            0 <= i < page_of(registry@, query.page(), query.page_size()).len() ==> printable(
                #[trigger] page_of(registry@, query.page(), query.page_size())[i],
            ),
        r is Ok ==> {
            &&& r->Ok_0.total == registry@.len()
            &&& r->Ok_0.page == query.page()
            &&& r->Ok_0.page_size == query.page_size()
            &&& r->Ok_0.items.deep_view() == page_of(
                registry@,
                query.page(),
                query.page_size(),
            ).map_values(|row: OperationRecordView| listing_entry(row))
        },
        r is Err ==> r->Err_0 is Serialization,
{
    registry.list_operations(query.page(), query.page_size())
}

} // verus!
