use vstd::prelude::*;
use crate::params::{lookup, value_of};
use crate::sql::Query;
use crate::text::{parse_u32, parse_u32_spec};
use crate::users::User;

verus! {

/// The page that is listed when the request names none.
pub const DEFAULT_PAGE: u32 = 1;

/// The page size when the request names none.
pub const DEFAULT_LIMIT: u32 = 10;

/// The largest page size.
pub const MAX_LIMIT: u32 = 100;

/// The number that an optional query value stands for: its value as a
/// `u32`, or `fallback` where it is absent or no such number.
pub open spec fn number_or(value: Option<Seq<char>>, fallback: u32) -> u32 {
    match value {
        Some(text) => match parse_u32_spec(text) {
            Some(n) => n,
            None => fallback,
        },
        None => fallback,
    }
}

/// The page that a query asks for.
pub open spec fn page_of(query: Seq<(String, String)>) -> u32 {
    number_or(value_of(query, "page"@), DEFAULT_PAGE)
}

/// The page size that a query asks for, capped at `MAX_LIMIT`.
pub open spec fn limit_of(query: Seq<(String, String)>) -> u32 {
    let asked = number_or(value_of(query, "limit"@), DEFAULT_LIMIT);
    if asked > MAX_LIMIT {
        MAX_LIMIT
    } else {
        asked
    }
}

/// The number of rows that stand before page `page` of size `limit`.
pub open spec fn offset_of(page: u32, limit: u32) -> int {
    (page - 1) * limit
}

/// The total that goes out for the count that the database reported: the
/// count reduced to 32 bits, or 0 where it reported none.
pub open spec fn total_of(count: Option<u64>) -> u32 {
    match count {
        Some(n) => (n % 0x1_0000_0000) as u32,
        None => 0,
    }
}

/// One page of a listing.
#[derive(Clone, Debug, PartialEq, Eq)]
pub struct PaginatedResponse<T> {
    pub data: Vec<T>,
    pub page: u32,
    pub limit: u32,
    pub total: u32,
}

/// What listing users asks of the database.
#[derive(Clone, Debug, PartialEq, Eq)]
pub struct ListPlan {
    pub page: u32,
    pub limit: u32,
    pub offset: i64,
    /// Fetches the users of the page.
    pub page_query: Query,
    /// Counts all users.
    pub count_query: Query,
}

/// Reads a number from an optional query value.
pub fn number_from(value: Option<&String>, fallback: u32) -> (n: u32)
    ensures
        n == number_or(
            match value {
                Some(text) => Some(text@),
                None => None,
            },
            fallback,
        ),
{
    match value {
        Some(text) => match parse_u32(text.as_str()) {
            Some(n) => n,
            None => fallback,
        },
        None => fallback,
    }
}

/// The offset of page `page` of a size that `MAX_LIMIT` allows.
fn offset_for(page: u32, limit: u32) -> (offset: i64)
    requires
        limit <= MAX_LIMIT,
    ensures
        offset == offset_of(page, limit),
{
    let before: i64 = page as i64 - 1;
    let size: i64 = limit as i64;
    assert(-100 <= before * size <= 0xffff_ffff * 100) by (nonlinear_arith)
        requires
            -1 <= before <= 0xffff_ffff,
            0 <= size <= 100,
    ;
    before * size
}

/// Listing users, first step: page and page size come from the query pairs
/// of the request, each with its default where the pair is absent or not a
/// number, and decide the two statements.
pub fn handle_list_users(query: &Vec<(String, String)>) -> (plan: ListPlan)
    ensures
        plan.page == page_of(query@),
        plan.limit == limit_of(query@),
        plan.limit <= MAX_LIMIT,
        plan.offset == offset_of(plan.page, plan.limit),
        plan.page_query == (Query::ListUsers { limit: plan.limit, offset: plan.offset }),
        plan.count_query == Query::CountUsers,
{
    let page = number_from(lookup(query, "page"), DEFAULT_PAGE);
    let asked = number_from(lookup(query, "limit"), DEFAULT_LIMIT);
    let limit = if asked > MAX_LIMIT {
        MAX_LIMIT
    } else {
        asked
    };
    let offset = offset_for(page, limit);
    ListPlan {
        page,
        limit,
        offset,
        page_query: Query::ListUsers { limit, offset },
        count_query: Query::CountUsers,
    }
}

/// Listing users, last step: the rows that the page statement returned go
/// out as they are, with the page, its size and the total.
pub fn list_users_reply(plan: &ListPlan, users: Vec<User>, count: Option<u64>) -> (reply:
    PaginatedResponse<User>)
    ensures
        reply.data == users,
        reply.page == plan.page,
        reply.limit == plan.limit,
        reply.total == total_of(count),
        users@.len() <= plan.limit ==> reply.data@.len() <= reply.limit,
{
    let total: u32 = match count {
        Some(n) => (n % 0x1_0000_0000) as u32,
        None => 0,
    };
    PaginatedResponse { data: users, page: plan.page, limit: plan.limit, total }
}

/// For a page from 1 on and a page size between 1 and `MAX_LIMIT`, the
/// page covers the rows from `(page - 1) * limit` up to `page * limit`, and
/// what a query with these two numbers asks for is exactly that.
pub proof fn lemma_page_window(query: Seq<(String, String)>, page: u32, limit: u32)
    requires
        page >= 1,
        1 <= limit <= MAX_LIMIT,
        value_of(query, "page"@) is Some,
        parse_u32_spec(value_of(query, "page"@)->0) == Some(page),
        value_of(query, "limit"@) is Some,
        parse_u32_spec(value_of(query, "limit"@)->0) == Some(limit),
    ensures
        page_of(query) == page,
        limit_of(query) == limit,
        offset_of(page_of(query), limit_of(query)) == (page - 1) * limit,
        0 <= offset_of(page, limit),
        offset_of(page, limit) + limit == page * limit,
{
    assert((page - 1) * limit >= 0) by (nonlinear_arith)
        requires
            page >= 1,
            limit >= 1,
    ;
    assert((page - 1) * limit + limit == page * limit) by (nonlinear_arith);
}

} // verus!
