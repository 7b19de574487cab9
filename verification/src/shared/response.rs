//! Shapes shared by every endpoint: the paging query and the response
//! envelope.

use vstd::prelude::*;

verus! {

/// The paging and search part of a listing request.
#[derive(Debug, Clone, PartialEq, Eq)]
pub struct PaginationRequest {
    pub page: Option<u32>,
    pub page_size: Option<u32>,
    pub search: Option<String>,
}

/// One page of a listing, with the totals a client pages by.
#[derive(Debug, Clone, PartialEq, Eq)]
pub struct PaginatedResponse<T> {
    pub items: Vec<T>,
    pub total: i64,
    pub page: i64,
    pub page_size: i64,
}

/// The envelope of a response: either data or an error text.
#[derive(Debug, Clone, PartialEq, Eq)]
pub struct ApiResponse<T> {
    pub success: bool,
    pub data: Option<T>,
    pub error: Option<String>,
}

impl<T> ApiResponse<T> {
    /// The envelope of a successful response.
    pub fn success(data: T) -> (r: Self)
        ensures
            r == (ApiResponse { success: true, data: Some(data), error: None }),
    {
        Self { success: true, data: Some(data), error: None }
    }

    /// The envelope of a failed response.
    pub fn error(message: String) -> (r: Self)
        ensures
            r == (ApiResponse::<T> { success: false, data: None, error: Some(message) }),
    {
        Self { success: false, data: None, error: Some(message) }
    }
}

} // verus!
