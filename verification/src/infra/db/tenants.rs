//! What the tenant repository decides around its queries: what to ask the
//! storage engine for, and what to make of its answer.

use vstd::prelude::*;
use vstd::string::*;
use crate::error::{Error, ErrorCode};
use crate::infra::db::util::{is_unique_constraint_error, reports_unique_violation, StorageError};
use crate::tenant::domain::Tenant;
use crate::util::paging::{cursor_position, position_token, IntCursor, Page, PageInfos, Paging};

verus! {

/// The constraint that keeps tenant codes unique.
pub const TENANT_CODE_CONSTRAINT: &'static str = "tenants_code_key";

/// Whether the fault `e` says that the tenant's code is taken.
pub open spec fn is_duplicate_tenant(e: StorageError) -> bool {
    e.database matches Some(fault) && reports_unique_violation(fault, TENANT_CODE_CONSTRAINT@)
}

/// What declaring a tenant with `code` comes to, given what the storage
/// engine answered to the insert. A violation of the uniqueness of codes
/// becomes a duplicate error that names the field `code` and the value
/// refused. Any other fault is passed on with its message.
pub fn declaration_outcome(code: String, stored: Result<Tenant, StorageError>) -> (outcome: Result<
    Tenant,
    Error,
>)
    ensures
        stored matches Ok(tenant) ==> outcome == Ok::<Tenant, Error>(tenant),
        stored matches Err(e) ==> if is_duplicate_tenant(e) {
            &&& outcome matches Err(Error::Generic(ErrorCode::UniqueViolation, message, fields))
            &&& message@ == "Duplicate tenant"@
            &&& fields@.len() == 1
            &&& fields@[0].0@ == "code"@
            &&& fields@[0].1 == code
        } else {
            outcome == Err::<Tenant, Error>(Error::RepositoryError(e.message))
        },
{
    match stored {
        Ok(tenant) => Ok(tenant),
        Err(e) => {
            if is_unique_constraint_error(&e, Some(TENANT_CODE_CONSTRAINT)) {
                let mut fields: Vec<(String, String)> = Vec::new();
                fields.push(("code".to_string(), code));
                Err(Error::Generic(ErrorCode::UniqueViolation, "Duplicate tenant".to_string(), fields))
            } else {
                Err(Error::from(e))
            }
        },
    }
}

/// What to ask the storage engine for: the rows whose key is greater than
/// `after`, in the order of their keys, and no more than `limit` of them.
pub struct TenantsQuery {
    pub after: i64,
    pub limit: i64,
}

/// The query for a page: one row more than asked for, so that the answer
/// shows whether anything follows the page.
pub fn tenants_query(paging: &Paging) -> (query: TenantsQuery)
    requires
        paging.first < i64::MAX,
    ensures
        query.after == cursor_position(paging.after),
        query.limit == paging.first + 1,
{
    let cursor = IntCursor::after(&paging.after);
    TenantsQuery { after: *cursor, limit: paging.first + 1 }
}

/// Whether `rows`, the answer to the query for a page of `first` items,
/// holds more than the page.
pub open spec fn overflows(rows: Seq<Tenant>, first: i64) -> bool {
    0 <= first < rows.len()
}

/// The position that the page after this one starts from: the key of the
/// last item of this page, or, for a page without items, where this page
/// started.
pub open spec fn next_position(rows: Seq<Tenant>, paging: Paging) -> i64 {
    if paging.first > 0 {
        rows[paging.first - 1].id
    } else {
        cursor_position(paging.after)
    }
}

/// The page that `rows` make, where `rows` is the answer to the query for
/// `paging`. Where there are more rows than asked for, the page holds the
/// first `first` of them and a cursor for the next page. Otherwise it
/// holds them all and is the last page. A negative `first` asks for no
/// cut at all.
pub fn tenants_page(rows: Vec<Tenant>, paging: &Paging) -> (page: Page<Tenant>)
    ensures
        overflows(rows@, paging.first) ==> {
            &&& page.items@ == rows@.take(paging.first as int)
            &&& page.page_infos.more()
            &&& page.page_infos.token() matches Some(token) && token@ == position_token(
                next_position(rows@, *paging),
            )
            &&& cursor_position(page.page_infos.token()) == next_position(rows@, *paging)
        },
        !overflows(rows@, paging.first) ==> {
            &&& page.items@ == rows@
            &&& !page.page_infos.more()
            &&& page.page_infos.token() is None
        },
{
    let first = paging.first;
    if first >= 0 && (first as u64) < (rows.len() as u64) {
        let mut items = rows;
        items.truncate(first as usize);
        let position = if first > 0 {
            items[(first - 1) as usize].id
        } else {
            *IntCursor::after(&paging.after)
        };
        Page { items, page_infos: PageInfos::page_after(position, true) }
    } else {
        Page { items: rows, page_infos: PageInfos::no_page_after() }
    }
}

} // verus!
