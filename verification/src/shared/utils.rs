//! Conversions between identities and the bytes the store keeps, and the
//! reading of a paging request.

use vstd::prelude::*;
use vstd::string::StringExecFns;
use crate::shared::db::row::{
    ColumnType,
    MappingError,
    MappingErrorView,
    MappingProblem,
    failure,
    lemma_bytes_deep_view,
};
use crate::shared::ids::Uuid;
use crate::shared::response::PaginationRequest;

verus! {

/// The sixteen bytes of an identity, as a binary parameter holds them.
pub fn ub(u: Uuid) -> (b: Vec<u8>)
    ensures
        b@ == u@,
{
    let bytes = u.as_bytes();
    let mut out: Vec<u8> = Vec::with_capacity(16);
    let mut i: usize = 0;
    while i < 16
        invariant
            i <= 16,
            bytes@.len() == 16,
            out@ == bytes@.subrange(0, i as int),
        decreases 16 - i,
    {
        out.push(bytes[i]);
        assert(out@ =~= bytes@.subrange(0, i + 1));
        i += 1;
    }
    assert(out@ =~= bytes@);
    out
}

/// What [`oub`] gives: the bytes of the identity, if there is one.
pub open spec fn oub_spec(u: Option<Uuid>) -> Option<Seq<u8>> {
    match u {
        Some(u) => Some(u@),
        None => None,
    }
}

/// The bytes of an optional identity.
pub fn oub(u: Option<Uuid>) -> (b: Option<Vec<u8>>)
    ensures
        b.deep_view() == oub_spec(u),
        b matches Some(v) ==> u matches Some(id) && v@ == id@,
{
    broadcast use lemma_bytes_deep_view;

    match u {
        Some(u) => Some(ub(u)),
        None => None,
    }
}

/// The identity made of sixteen bytes.
pub fn bu(b: &[u8]) -> (u: Uuid)
    requires
        b@.len() == 16,
    ensures
        u@ == b@,
{
    match Uuid::from_slice(b) {
        Some(u) => u,
        None => unreached(),
    }
}

/// The identity made of sixteen bytes, if there are any.
pub fn obu(b: Option<&[u8]>) -> (u: Option<Uuid>)
    requires
        b matches Some(bytes) ==> bytes@.len() == 16,
    ensures
        b is None ==> u is None,
        b matches Some(bytes) ==> u matches Some(id) && id@ == bytes@,
{
    match b {
        Some(b) => Some(bu(b)),
        None => None,
    }
}

/// The row limit a paging request asks for: its page size.
pub open spec fn limit_of(pagination: Option<PaginationRequest>) -> Option<u32> {
    match pagination {
        Some(p) => p.page_size,
        None => None,
    }
}

/// The page a request stands for: pages count from one, and page zero is
/// read as the first page.
pub open spec fn page_number(page: u32) -> int {
    if page < 1 {
        1
    } else {
        page as int
    }
}

/// The row offset a paging request asks for, where it names both a page and
/// a page size: the rows of all the pages before it. The first page starts
/// at row zero.
pub open spec fn offset_of(pagination: Option<PaginationRequest>) -> Option<int> {
    match pagination {
        Some(p) => match (p.page_size, p.page) {
            (Some(page_size), Some(page)) => Some((page_number(page) - 1) * page_size),
            _ => None,
        },
        None => None,
    }
}

/// The row offset of a paging request as a parameter holds it.
pub open spec fn offset_param(pagination: Option<PaginationRequest>) -> Option<u32> {
    match offset_of(pagination) {
        Some(offset) => Some(offset as u32),
        None => None,
    }
}

/// Whether the row offset of a paging request fits a parameter.
pub open spec fn offset_fits(pagination: Option<PaginationRequest>) -> bool {
    offset_of(pagination) matches Some(offset) ==> offset <= u32::MAX
}

/// The search text a paging request carries.
pub open spec fn search_of(pagination: Option<PaginationRequest>) -> Option<String> {
    match pagination {
        Some(p) => p.search,
        None => None,
    }
}

/// The row offset of a paging request where it fits a parameter: the outer
/// option says whether it fits, the inner one whether the request names an
/// offset at all.
pub fn offset_of_checked(pagination: &PaginationRequest) -> (r: Option<Option<u32>>)
    ensures
        r is Some <==> offset_fits(Some(*pagination)),
        r matches Some(offset) ==> offset == offset_param(Some(*pagination)),
{
    match (pagination.page_size, pagination.page) {
        (Some(page_size), Some(page)) => {
            let before: u32 = if page < 1 {
                0
            } else {
                page - 1
            };
            match before.checked_mul(page_size) {
                Some(offset) => Some(Some(offset)),
                None => None,
            }
        },
        _ => Some(None),
    }
}

/// Splits a paging request into limit, offset and search text.
pub fn extract_pagination_data(pagination: Option<PaginationRequest>) -> (r: (
    Option<u32>,
    Option<u32>,
    Option<String>,
))
    requires
        offset_fits(pagination),
    ensures
        r.0 == limit_of(pagination),
        r.1 == offset_param(pagination),
        r.1 matches Some(offset) ==> offset_of(pagination) == Some(offset as int),
        r.2 == search_of(pagination),
{
    match pagination {
        Some(pagination) => {
            let limit = pagination.page_size;
            let offset = match (pagination.page_size, pagination.page) {
                (Some(page_size), Some(page)) => {
                    let before: u32 = if page < 1 {
                        0
                    } else {
                        page - 1
                    };
                    assert(before * page_size <= u32::MAX);
                    Some(before * page_size)
                },
                _ => None,
            };
            (limit, offset, pagination.search)
        },
        None => (None, None, None),
    }
}

/// Whether row `i` of a listing of `total` rows is on the page that a request
/// names: at or after its offset, and within its limit.
pub open spec fn lists_row(pagination: PaginationRequest, total: nat, i: int) -> bool {
    &&& 0 <= i < total
    &&& offset_of(Some(pagination)) is Some
    &&& limit_of(Some(pagination)) is Some
    &&& offset_of(Some(pagination))->0 <= i < offset_of(Some(pagination))->0 + limit_of(
        Some(pagination),
    )->0
}

/// The pages of a listing follow each other without a gap: a page starts
/// where the page before it ends, and the first page starts at row zero.
pub proof fn listing_pages_are_adjacent(page: u32, page_size: u32, search: Option<String>)
    requires
        page >= 1,
        page < u32::MAX,
    ensures
        offset_of(Some(PaginationRequest { page: Some(1), page_size: Some(page_size), search }))
            == Some(0int),
        offset_of(
            Some(
                PaginationRequest {
                    page: Some((page + 1) as u32),
                    page_size: Some(page_size),
                    search,
                },
            ),
        ) == Some(
            offset_of(
                Some(PaginationRequest { page: Some(page), page_size: Some(page_size), search }),
            )->0 + page_size,
        ),
{
    assert((page_number(1) - 1) * page_size == 0) by (nonlinear_arith)
        requires
            page_number(1) == 1,
    ;
    assert((page + 1 - 1) * page_size == (page - 1) * page_size + page_size) by (nonlinear_arith);
}

/// Two different pages of one size share no row.
pub proof fn listing_pages_are_disjoint(
    a: PaginationRequest,
    b: PaginationRequest,
    total: nat,
    i: int,
)
    requires
        a.page_size == b.page_size,
        a.page is Some,
        b.page is Some,
        page_number(a.page->0) != page_number(b.page->0),
    ensures
        !(lists_row(a, total, i) && lists_row(b, total, i)),
{
    if a.page_size is Some {
        let size = a.page_size->0 as int;
        let m = page_number(a.page->0) - 1;
        let n = page_number(b.page->0) - 1;
        if m < n {
            assert(m * size + size <= n * size) by (nonlinear_arith)
                requires
                    m + 1 <= n,
                    size >= 0,
            ;
        } else {
            assert(n * size + size <= m * size) by (nonlinear_arith)
                requires
                    n + 1 <= m,
                    size >= 0,
            ;
        }
    }
}

/// Every row of a listing is on the page whose number is the row's index
/// divided by the page size, plus one: the pages together show the whole
/// listing.
pub proof fn listing_pages_cover(pagination: PaginationRequest, total: nat, i: int)
    requires
        0 <= i < total,
        pagination.page_size is Some,
        pagination.page_size->0 >= 1,
        pagination.page is Some,
        pagination.page->0 == i / (pagination.page_size->0 as int) + 1,
    ensures
        lists_row(pagination, total, i),
{
    let size = pagination.page_size->0 as int;
    let q = i / size;
    assert(q * size <= i < q * size + size) by (nonlinear_arith)
        requires
            q == i / size,
            size >= 1,
            i >= 0,
    ;
}

/// The identity that the bytes of an `id` column hold: present and sixteen
/// bytes long, or the reason why the column does not fit. Only a row that
/// the store has given an identity can be shown.
pub open spec fn stored_id(id: Option<Seq<u8>>) -> Result<Seq<u8>, MappingErrorView> {
    match id {
        None => Err(failure("id"@, ColumnType::Bytes, MappingProblem::UnexpectedNull)),
        Some(bytes) => if bytes.len() == 16 {
            Ok(bytes)
        } else {
            Err(failure("id"@, ColumnType::Bytes, MappingProblem::OutOfRange))
        },
    }
}

/// Reads the identity out of the bytes of an `id` column.
pub fn read_stored_id(id: &Option<Vec<u8>>) -> (r: Result<Uuid, MappingError>)
    ensures
        r matches Ok(u) ==> stored_id(id.deep_view()) == Ok::<Seq<u8>, MappingErrorView>(u@),
        r matches Err(e) ==> stored_id(id.deep_view()) == Err::<Seq<u8>, MappingErrorView>(e@),
{
    broadcast use lemma_bytes_deep_view;

    match id {
        None => Err(
            MappingError {
                column: String::from_str("id"),
                expected: ColumnType::Bytes,
                problem: MappingProblem::UnexpectedNull,
            },
        ),
        Some(bytes) => match Uuid::from_slice(bytes.as_slice()) {
            Some(u) => Ok(u),
            None => Err(
                MappingError {
                    column: String::from_str("id"),
                    expected: ColumnType::Bytes,
                    problem: MappingProblem::OutOfRange,
                },
            ),
        },
    }
}

/// The identity that the bytes of a `user_id` column hold: sixteen bytes
/// long, or the reason why the column does not fit.
pub open spec fn stored_owner(user_id: Seq<u8>) -> Result<Seq<u8>, MappingErrorView> {
    if user_id.len() == 16 {
        Ok(user_id)
    } else {
        Err(failure("user_id"@, ColumnType::Bytes, MappingProblem::OutOfRange))
    }
}

/// Reads the identity out of the bytes of a `user_id` column.
pub fn read_stored_owner(user_id: &Vec<u8>) -> (r: Result<Uuid, MappingError>)
    ensures
        r matches Ok(u) ==> stored_owner(user_id@) == Ok::<Seq<u8>, MappingErrorView>(u@),
        r matches Err(e) ==> stored_owner(user_id@) == Err::<Seq<u8>, MappingErrorView>(e@),
{
    match Uuid::from_slice(user_id.as_slice()) {
        Some(u) => Ok(u),
        None => Err(
            MappingError {
                column: String::from_str("user_id"),
                expected: ColumnType::Bytes,
                problem: MappingProblem::OutOfRange,
            },
        ),
    }
}

} // verus!
