//! Gray releases: the paginated, filtered list query and the defaults of a
//! new release.
use vstd::prelude::*;

use crate::models::query::{
    conditions, equality_conditions, join, join_with, page_offset, page_window, page_window_fits,
    param_views, placeholder, placeholder_text, ParamView, PageQuery, SqlParam,
};
use crate::text::opt_str_view;

verus! {

/// The filtered columns of the gray-release list, in placeholder order.
pub open spec fn gray_release_columns(has_platform: bool, has_status: bool) -> Seq<Seq<char>> {
    (if has_platform {
        seq!["platform"@]
    } else {
        Seq::empty()
    }) + (if has_status {
        seq!["status"@]
    } else {
        Seq::empty()
    })
}

/// No clause at all without filters, else `WHERE` and the conditions.
pub open spec fn gray_releases_where(columns: Seq<Seq<char>>) -> Seq<char> {
    if columns.len() == 0 {
        Seq::empty()
    } else {
        "WHERE "@ + join(conditions(columns, 1), " AND "@)
    }
}

pub open spec fn spec_gray_releases_count_sql(columns: Seq<Seq<char>>) -> Seq<char> {
    "SELECT COUNT(*) FROM gray_releases "@ + gray_releases_where(columns)
}

pub open spec fn spec_gray_releases_list_sql(columns: Seq<Seq<char>>) -> Seq<char> {
    "SELECT * FROM gray_releases "@ + gray_releases_where(columns)
        + " ORDER BY created_at DESC LIMIT "@ + placeholder(columns.len() + 1int) + " OFFSET "@
        + placeholder(columns.len() + 2int)
}

/// The values of the filters that are set, in placeholder order.
pub open spec fn gray_release_params(platform: Option<Seq<char>>, status: Option<Seq<char>>) -> Seq<
    ParamView,
> {
    (match platform {
        Some(p) => seq![ParamView::Text(p)],
        None => Seq::empty(),
    }) + (match status {
        Some(s) => seq![ParamView::Text(s)],
        None => Seq::empty(),
    })
}

/// The page of gray releases that match the filters that are set, newest
/// first, and the count of all of them. The filters are numbered in the
/// order platform, status; the page size and the offset take the two
/// numbers after them.
pub fn query_gray_releases(
    platform: Option<&str>,
    status: Option<&str>,
    page_num: i32,
    page_size: i32,
) -> (q: PageQuery)
    requires
        page_num > i32::MIN,
        page_window_fits(page_num as int, page_size as int),
    ensures
        ({
            let cols = gray_release_columns(platform is Some, status is Some);
            &&& q.count_sql@ == spec_gray_releases_count_sql(cols)
            &&& q.list_sql@ == spec_gray_releases_list_sql(cols)
            &&& param_views(q.filter_params@) == gray_release_params(
                opt_str_view(platform),
                opt_str_view(status),
            )
        }),
        q.limit == page_size,
        q.offset == page_offset(page_num as int, page_size as int),
        ({
            let params = param_views(q.filter_params@);
            let at_status: int = if platform is Some { 1 } else { 0 };
            &&& params.len() == at_status + if status is Some { 1int } else { 0int }
            &&& platform is Some ==> params[0] == ParamView::Text(platform.unwrap()@)
            &&& status is Some ==> params[at_status] == ParamView::Text(status.unwrap()@)
        }),
{
    let mut columns: Vec<&str> = Vec::new();
    let mut params: Vec<SqlParam> = Vec::new();
    match platform {
        Some(p) => {
            columns.push("platform");
            params.push(SqlParam::Text(p.to_owned()));
        },
        None => {},
    }
    match status {
        Some(s) => {
            columns.push("status");
            params.push(SqlParam::Text(s.to_owned()));
        },
        None => {},
    }
    let ghost cols = gray_release_columns(platform is Some, status is Some);
    assert(crate::models::query::strs(columns@) =~= cols);
    assert(param_views(params@) =~= gray_release_params(opt_str_view(platform), opt_str_view(status)));
    let where_clause = if columns.len() == 0 {
        String::new()
    } else {
        let conds = equality_conditions(&columns, 1);
        let mut w = String::from_str("WHERE ");
        w.append(join_with(&conds, " AND ").as_str());
        w
    };
    let n = columns.len() as i64;
    let mut count_sql = String::from_str("SELECT COUNT(*) FROM gray_releases ");
    count_sql.append(where_clause.as_str());
    let mut list_sql = String::from_str("SELECT * FROM gray_releases ");
    list_sql.append(where_clause.as_str());
    list_sql.append(" ORDER BY created_at DESC LIMIT ");
    list_sql.append(placeholder_text(n + 1).as_str());
    list_sql.append(" OFFSET ");
    list_sql.append(placeholder_text(n + 2).as_str());
    let (limit, offset) = page_window(page_num, page_size);
    PageQuery { count_sql, list_sql, filter_params: params, limit, offset }
}

/// The priority a new gray release is created with: the requested one, or 0.
pub fn create_gray_release_priority(priority: Option<i32>) -> (r: i32)
    ensures
        r == match priority {
            Some(p) => p,
            None => 0,
        },
{
    match priority {
        Some(p) => p,
        None => 0,
    }
}

/// Every filter condition of the gray-release list has its value bound at
/// the same position: the platform first, then the status, each only when
/// given, so the value bound to `$k` is the value of the column compared
/// with `$k`, and the page size and the offset fall on the two placeholders
/// after them.
pub proof fn lemma_gray_release_params_match_conditions(
    platform: Option<Seq<char>>,
    status: Option<Seq<char>>,
)
    ensures
        ({
            let cols = gray_release_columns(platform is Some, status is Some);
            let params = gray_release_params(platform, status);
            let at_status: int = if platform is Some { 1 } else { 0 };
            &&& params.len() == cols.len()
            &&& cols.len() == at_status + if status is Some { 1int } else { 0int }
            &&& platform is Some ==> cols[0] == "platform"@ && params[0] == ParamView::Text(
                platform.unwrap(),
            )
            &&& status is Some ==> cols[at_status] == "status"@ && params[at_status]
                == ParamView::Text(status.unwrap())
        }),
{
}

} // verus!
