//! Machine users: the paginated, filtered list query, the version
//! information a new machine is stored with, and the choice between
//! refreshing and creating a binding.
use vstd::prelude::*;

use crate::json::{json_document, parse_json_value};
use crate::text::opt_str_view;
use crate::models::query::{
    conditions, conjunction, join, page_offset, page_window, page_window_fits, param_views,
    placeholder, placeholder_text, ParamView, PageQuery, SqlParam,
};

verus! {

/// The filtered columns of the machine-user list, in placeholder order.
pub open spec fn machine_user_columns(has_user: bool, has_platform: bool, has_status: bool) -> Seq<
    Seq<char>,
> {
    (if has_user {
        seq!["user_uuid"@]
    } else {
        Seq::empty()
    }) + (if has_platform {
        seq!["platform"@]
    } else {
        Seq::empty()
    }) + (if has_status {
        seq!["status"@]
    } else {
        Seq::empty()
    })
}

/// `1=1 AND user_uuid = $1 AND ...` over the filtered columns.
pub open spec fn machine_users_where(columns: Seq<Seq<char>>) -> Seq<char> {
    join(seq!["1=1"@] + conditions(columns, 1), " AND "@)
}

pub open spec fn spec_machine_users_count_sql(columns: Seq<Seq<char>>) -> Seq<char> {
    "SELECT COUNT(*) FROM machine_users WHERE "@ + machine_users_where(columns)
}

pub open spec fn spec_machine_users_list_sql(columns: Seq<Seq<char>>) -> Seq<char> {
    "SELECT * FROM machine_users WHERE "@ + machine_users_where(columns)
        + " ORDER BY created_at DESC LIMIT "@ + placeholder(columns.len() + 1int) + " OFFSET "@
        + placeholder(columns.len() + 2int)
}

/// The values of the filters that are set, in placeholder order.
pub open spec fn machine_user_params(
    user_uuid: Option<u128>,
    platform: Option<Seq<char>>,
    status: Option<Seq<char>>,
) -> Seq<ParamView> {
    (match user_uuid {
        Some(u) => seq![ParamView::Uuid(u)],
        None => Seq::empty(),
    }) + (match platform {
        Some(p) => seq![ParamView::Text(p)],
        None => Seq::empty(),
    }) + (match status {
        Some(s) => seq![ParamView::Text(s)],
        None => Seq::empty(),
    })
}

/// The page of machine users that match the filters that are set, newest
/// first, and the count of all of them. Each filter that is set adds one
/// equality condition, numbered in the order user, platform, status; the
/// page size and the offset take the two numbers after them.
pub fn query_machine_users(
    user_uuid: Option<u128>,
    platform: Option<&str>,
    status: Option<&str>,
    page_num: i32,
    page_size: i32,
) -> (q: PageQuery)
    requires
        page_num > i32::MIN,
        page_window_fits(page_num as int, page_size as int),
    ensures
        ({
            let cols = machine_user_columns(
                user_uuid is Some,
                platform is Some,
                status is Some,
            );
            &&& q.count_sql@ == spec_machine_users_count_sql(cols)
            &&& q.list_sql@ == spec_machine_users_list_sql(cols)
            &&& param_views(q.filter_params@) == machine_user_params(
                user_uuid,
                opt_str_view(platform),
                opt_str_view(status),
            )
        }),
        q.limit == page_size,
        q.offset == page_offset(page_num as int, page_size as int),
        ({
            let params = param_views(q.filter_params@);
            let at_platform: int = if user_uuid is Some { 1 } else { 0 };
            let at_status: int = at_platform + if platform is Some { 1int } else { 0int };
            &&& params.len() == at_status + if status is Some { 1int } else { 0int }
            &&& user_uuid is Some ==> params[0] == ParamView::Uuid(user_uuid.unwrap())
            &&& platform is Some ==> params[at_platform] == ParamView::Text(platform.unwrap()@)
            &&& status is Some ==> params[at_status] == ParamView::Text(status.unwrap()@)
        }),
{
    let mut columns: Vec<&str> = Vec::new();
    let mut params: Vec<SqlParam> = Vec::new();
    match user_uuid {
        Some(u) => {
            columns.push("user_uuid");
            params.push(SqlParam::Uuid(u));
        },
        None => {},
    }
    match platform {
        Some(p) => {
            columns.push("platform");
            params.push(SqlParam::Text(p.to_owned()));
        },
        None => {},
    }
    match status {
        Some(s) => {
            columns.push("status");
            params.push(SqlParam::Text(s.to_owned()));
        },
        None => {},
    }
    let ghost cols = machine_user_columns(user_uuid is Some, platform is Some, status is Some);
    assert(crate::models::query::strs(columns@) =~= cols);
    assert(param_views(params@) =~= machine_user_params(
        user_uuid,
        opt_str_view(platform),
        opt_str_view(status),
    ));
    let where_sql = conjunction("1=1", &columns);
    let n = columns.len() as i64;
    let mut count_sql = String::from_str("SELECT COUNT(*) FROM machine_users WHERE ");
    count_sql.append(where_sql.as_str());
    let mut list_sql = String::from_str("SELECT * FROM machine_users WHERE ");
    list_sql.append(where_sql.as_str());
    list_sql.append(" ORDER BY created_at DESC LIMIT ");
    list_sql.append(placeholder_text(n + 1).as_str());
    list_sql.append(" OFFSET ");
    list_sql.append(placeholder_text(n + 2).as_str());
    let (limit, offset) = page_window(page_num, page_size);
    PageQuery { count_sql, list_sql, filter_params: params, limit, offset }
}

/// The version information a new machine is stored with: the JSON document
/// that the request's text holds, or none when there is no text or it holds
/// no JSON document.
pub fn version_info_value(version_info: &Option<String>) -> (r: Option<serde_json::Value>)
    ensures
        match version_info {
            Some(t) => r is Some <==> json_document(t@),
            None => r is None,
        },
{
    match version_info {
        Some(t) => parse_json_value(t.as_str()),
        None => None,
    }
}

/// What binding a user to a machine does.
#[derive(Debug, Clone, Copy, PartialEq, Eq)]
pub enum BindAction {
    /// The binding exists: refresh its bind time.
    RefreshBindTime,
    /// There is no binding yet: create an active one.
    Insert,
}

/// Binding a user to a machine refreshes the binding when it exists and
/// creates it otherwise.
pub fn bind_user_to_machine(binding_exists: bool) -> (r: BindAction)
    ensures
        binding_exists ==> r == BindAction::RefreshBindTime,
        !binding_exists ==> r == BindAction::Insert,
{
    if binding_exists {
        BindAction::RefreshBindTime
    } else {
        BindAction::Insert
    }
}

/// Every filter condition of the machine-user list has its value bound at
/// the same position: the user first, then the platform, then the status,
/// each only when given, so the value bound to `$k` is the value of the
/// column compared with `$k`, and the page size and the offset fall on the
/// two placeholders after them.
pub proof fn lemma_machine_user_params_match_conditions(
    user_uuid: Option<u128>,
    platform: Option<Seq<char>>,
    status: Option<Seq<char>>,
)
    ensures
        ({
            let cols = machine_user_columns(user_uuid is Some, platform is Some, status is Some);
            let params = machine_user_params(user_uuid, platform, status);
            let at_platform: int = if user_uuid is Some { 1 } else { 0 };
            let at_status: int = at_platform + if platform is Some { 1int } else { 0int };
            &&& params.len() == cols.len()
            &&& cols.len() == at_status + if status is Some { 1int } else { 0int }
            &&& user_uuid is Some ==> cols[0] == "user_uuid"@ && params[0] == ParamView::Uuid(
                user_uuid.unwrap(),
            )
            &&& platform is Some ==> cols[at_platform] == "platform"@ && params[at_platform]
                == ParamView::Text(platform.unwrap())
            &&& status is Some ==> cols[at_status] == "status"@ && params[at_status]
                == ParamView::Text(status.unwrap())
        }),
{
}

} // verus!
