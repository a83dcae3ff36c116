//! The plain data of the contact form and of the admin's dashboard.

use vstd::prelude::*;
use vstd::string::*;
use crate::text::{lowercase, same_text, to_lowercase, trim_text, trimmed, view_of};

verus! {

/// One page out of a longer list, and where it lies in the list.
#[derive(Debug)]
pub struct PaginationResult<T> {
    pub data: Vec<T>,
    pub total_count: i64,
    pub page: i64,
    pub per_page: i64,
    pub total_pages: i64,
    pub has_next: bool,
    pub has_prev: bool,
}

/// Counts of the submissions kept, over all time and of late.
#[derive(Debug, Clone, Copy, PartialEq, Eq)]
pub struct DatabaseStats {
    pub total_submissions: i64,
    pub today_count: i64,
    pub this_week_count: i64,
    pub this_month_count: i64,
}

/// Which page of the submissions the dashboard asks for, and in what order.
#[derive(Debug)]
pub struct PaginationQuery {
    pub page: usize,
    pub per_page: usize,
    pub sort_by: Option<String>,
    pub order: Option<String>,
}

/// The quotient of `a` by `b`, rounded towards zero.
pub open spec fn quotient(a: int, b: int) -> int {
    if a == 0 {
        0
    } else if a > 0 && b > 0 {
        a / b
    } else if a < 0 && b < 0 {
        (a * -1) / (b * -1)
    } else if a < 0 {
        ((a * -1) / b) * -1
    } else {
        (a / (b * -1)) * -1
    }
}

/// Pages that `total_count` items fill at `per_page` items a page.
pub open spec fn pages_needed(total_count: int, per_page: int) -> int {
    quotient(total_count + per_page - 1, per_page)
}

impl<T> PaginationResult<T> {
    /// The page `page` of a list of `total_count` items, cut at `per_page`
    /// items a page. There is a next page while `page` is not the last,
    /// and a previous one from the second page on.
    pub fn new(data: Vec<T>, total_count: i64, page: i64, per_page: i64) -> (r: Self)
        requires
            per_page != 0,
            i64::MIN <= total_count + per_page <= i64::MAX,
            i64::MIN <= total_count + per_page - 1,
            !(total_count + per_page - 1 == i64::MIN && per_page == -1),
        ensures
            r.data == data,
            r.total_count == total_count,
            r.page == page,
            r.per_page == per_page,
            r.total_pages == pages_needed(total_count as int, per_page as int),
            r.has_next == (page < r.total_pages),
            r.has_prev == (page > 1),
    {
        let filled = total_count + per_page - 1;
        proof {
            lemma_quotient_fits(filled as int, per_page as int);
        }
        let total_pages = match filled.checked_div(per_page) {
            Some(pages) => pages,
            None => 0,
        };
        PaginationResult {
            data,
            total_count,
            page,
            per_page,
            total_pages,
            has_next: page < total_pages,
            has_prev: page > 1,
        }
    }
}

/// The quotient of two integers of 64 bits is one too, but for the
/// least of them divided by -1.
pub proof fn lemma_quotient_fits(a: int, b: int)
    requires
        b != 0,
        i64::MIN <= a <= i64::MAX,
        i64::MIN <= b <= i64::MAX,
        !(a == i64::MIN && b == -1),
    ensures
        i64::MIN <= quotient(a, b) <= i64::MAX,
{
    let n = if a >= 0 {
        a
    } else {
        -a
    };
    let d = if b >= 0 {
        b
    } else {
        -b
    };
    assert(0 <= n / d <= n) by (nonlinear_arith)
        requires
            n >= 0,
            d > 0,
    ;
    if d >= 2 {
        assert(2 * (n / d) <= n) by (nonlinear_arith)
            requires
                n >= 0,
                d >= 2,
        ;
    }
}

/// Most submissions that a page of the dashboard shows.
pub const MAX_PER_PAGE: i64 = 10;

/// The page that is shown where `page` is asked for: the first at least.
pub open spec fn page_shown(page: int) -> int {
    if page < 1 {
        1
    } else {
        page
    }
}

/// The submissions that a page holds where `per_page` are asked for: one
/// at least, ten at most.
pub open spec fn per_page_shown(per_page: int) -> int {
    if per_page < 1 {
        1
    } else if per_page > MAX_PER_PAGE {
        MAX_PER_PAGE as int
    } else {
        per_page
    }
}

/// The submissions in front of the page that is shown.
pub open spec fn offset_shown(page: int, per_page: int) -> int {
    (page_shown(page) - 1) * per_page_shown(per_page)
}

/// The column that submissions are sorted by where `key` is asked for:
/// one of five, and the time of creation for a key that names none.
pub open spec fn column_of(key: Seq<char>) -> Seq<char> {
    if key == "created_at"@ || key == "created"@ || key == "date"@ {
        "created_at"@
    } else if key == "name"@ {
        "name"@
    } else if key == "email"@ {
        "email"@
    } else if key == "status"@ {
        "status"@
    } else if key == "submission_id"@ || key == "id"@ {
        "submission_id"@
    } else {
        "created_at"@
    }
}

/// The direction that submissions are sorted in where `key` is asked
/// for: downwards unless it says `asc`.
pub open spec fn direction_of(key: Seq<char>) -> Seq<char> {
    if key == "asc"@ {
        "ASC"@
    } else {
        "DESC"@
    }
}

/// What is asked for, trimmed and in lower case; `default` where nothing
/// is asked for.
pub open spec fn key_of(asked: Option<Seq<char>>, default: Seq<char>) -> Seq<char> {
    match asked {
        Some(s) => lowercase(trimmed(s)),
        None => default,
    }
}

/// The query that reads a page of submissions sorted by `column` in
/// `direction`.
pub open spec fn query_of(column: Seq<char>, direction: Seq<char>) -> Seq<char> {
    "SELECT * FROM submissions\n            ORDER BY "@ + column + " "@ + direction
        + "\n            LIMIT $1 OFFSET $2"@
}

/// How a page of submissions is read.
#[derive(Debug)]
pub struct PagePlan {
    pub page: i64,
    pub per_page: i64,
    /// Submissions in front of the page.
    pub offset: i64,
    pub sort_column: String,
    pub order: String,
    /// The query, with the size of the page and the offset for its two
    /// parameters.
    pub query: String,
}

/// The column that submissions are sorted by where `key` is asked for.
pub fn column_for(key: &str) -> (column: String)
    ensures
        column@ == column_of(key@),
{
    if same_text(key, "created_at") || same_text(key, "created") || same_text(key, "date") {
        String::from_str("created_at")
    } else if same_text(key, "name") {
        String::from_str("name")
    } else if same_text(key, "email") {
        String::from_str("email")
    } else if same_text(key, "status") {
        String::from_str("status")
    } else if same_text(key, "submission_id") || same_text(key, "id") {
        String::from_str("submission_id")
    } else {
        String::from_str("created_at")
    }
}

/// The direction that submissions are sorted in where `key` is asked for.
pub fn direction_for(key: &str) -> (direction: String)
    ensures
        direction@ == direction_of(key@),
{
    if same_text(key, "asc") {
        String::from_str("ASC")
    } else {
        String::from_str("DESC")
    }
}

/// What is asked for, trimmed and in lower case.
pub fn sort_key(asked: Option<&str>, default: &str) -> (key: String)
    ensures
        key@ == key_of(view_of(asked), default@),
{
    match asked {
        Some(s) => {
            let t = trim_text(s);
            to_lowercase(t.as_str())
        },
        None => default.to_owned(),
    }
}

/// The query that reads a page of submissions sorted by `column` in
/// `direction`.
pub fn data_query(column: &str, direction: &str) -> (query: String)
    ensures
        query@ == query_of(column@, direction@),
{
    let mut query = String::from_str("SELECT * FROM submissions\n            ORDER BY ");
    query.append(column);
    query.append(" ");
    query.append(direction);
    query.append("\n            LIMIT $1 OFFSET $2");
    query
}

impl PagePlan {
    /// How the page `page` of the submissions is read, `per_page` to a
    /// page, sorted as asked. Whatever is asked for, the query names one
    /// of five columns and one of two directions.
    pub fn new(page: i64, per_page: i64, sort_by: Option<&str>, sort_order: Option<&str>) -> (plan:
        PagePlan)
        requires
            offset_shown(page as int, per_page as int) <= i64::MAX,
        ensures
            plan.page == page_shown(page as int),
            plan.per_page == per_page_shown(per_page as int),
            plan.offset == offset_shown(page as int, per_page as int),
            plan.sort_column@ == column_of(key_of(view_of(sort_by), "created_at"@)),
            plan.order@ == direction_of(key_of(view_of(sort_order), "desc"@)),
            plan.query@ == query_of(plan.sort_column@, plan.order@),
    {
        let page = if page < 1 {
            1
        } else {
            page
        };
        let per_page = if per_page < 1 {
            1
        } else if per_page > MAX_PER_PAGE {
            MAX_PER_PAGE
        } else {
            per_page
        };
        assert(0 <= (page - 1) * per_page) by (nonlinear_arith)
            requires
                page >= 1,
                per_page >= 1,
        ;
        let offset = (page - 1) * per_page;
        let sort_column = column_for(sort_key(sort_by, "created_at").as_str());
        let order = direction_for(sort_key(sort_order, "desc").as_str());
        let query = data_query(sort_column.as_str(), order.as_str());
        PagePlan { page, per_page, offset, sort_column, order, query }
    }
}

} // verus!
