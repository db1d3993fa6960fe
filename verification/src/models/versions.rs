//! Versions of published resources: the paginated, filtered list query and
//! the shaping of the latest versions of every active version type.
use vstd::prelude::*;

use crate::dto::versions::Version;
use crate::models::query::{
    conditions, conjunction, join, page_offset, page_window, page_window_fits, param_views,
    placeholder, placeholder_text, statement_views, ParamView, PageQuery, SqlParam,
};
use crate::text::opt_str_view;

verus! {

/// The filtered columns of the version list, in placeholder order.
pub open spec fn version_columns(has_name: bool, has_platform: bool, has_status: bool) -> Seq<
    Seq<char>,
> {
    (if has_name {
        seq!["resource_name"@]
    } else {
        Seq::empty()
    }) + (if has_platform {
        seq!["platform"@]
    } else {
        Seq::empty()
    }) + (if has_status {
        seq!["status"@]
    } else {
        Seq::empty()
    })
}

/// `deleted_at IS NULL AND resource_name = $1 AND ...`: deleted versions
/// never show.
pub open spec fn versions_where(columns: Seq<Seq<char>>) -> Seq<char> {
    join(seq!["deleted_at IS NULL"@] + conditions(columns, 1), " AND "@)
}

pub open spec fn spec_versions_count_sql(columns: Seq<Seq<char>>) -> Seq<char> {
    "SELECT COUNT(*) FROM versions WHERE "@ + versions_where(columns)
}

pub open spec fn spec_versions_list_sql(columns: Seq<Seq<char>>) -> Seq<char> {
    "SELECT * FROM versions WHERE "@ + versions_where(columns) + " ORDER BY created_at DESC LIMIT "@
        + placeholder(columns.len() + 1int) + " OFFSET "@ + placeholder(columns.len() + 2int)
}

/// The values of the filters that are set, in placeholder order.
pub open spec fn version_params(
    resource_name: Option<Seq<char>>,
    platform: Option<Seq<char>>,
    status: Option<Seq<char>>,
) -> Seq<ParamView> {
    (match resource_name {
        Some(p) => seq![ParamView::Text(p)],
        None => Seq::empty(),
    }) + (match platform {
        Some(p) => seq![ParamView::Text(p)],
        None => Seq::empty(),
    }) + (match status {
        Some(s) => seq![ParamView::Text(s)],
        None => Seq::empty(),
    })
}

/// The page of versions that are not deleted and match the filters that are
/// set, newest first, and the count of all of them. The filters are numbered
/// in the order resource name, platform, status; the page size and the
/// offset take the two numbers after them.
pub fn query_versions(
    resource_name: Option<&str>,
    platform: Option<&str>,
    status: Option<&str>,
    page_num: i32,
    page_size: i32,
) -> (q: PageQuery)
    requires
        page_num > i32::MIN,
        page_window_fits(page_num as int, page_size as int),
    ensures
        ({
            let cols = version_columns(resource_name is Some, platform is Some, status is Some);
            &&& q.count_sql@ == spec_versions_count_sql(cols)
            &&& q.list_sql@ == spec_versions_list_sql(cols)
            &&& param_views(q.filter_params@) == version_params(
                opt_str_view(resource_name),
                opt_str_view(platform),
                opt_str_view(status),
            )
        }),
        q.limit == page_size,
        q.offset == page_offset(page_num as int, page_size as int),
        ({
            let params = param_views(q.filter_params@);
            let at_platform: int = if resource_name is Some { 1 } else { 0 };
            let at_status: int = at_platform + if platform is Some { 1int } else { 0int };
            &&& params.len() == at_status + if status is Some { 1int } else { 0int }
            &&& resource_name is Some ==> params[0] == ParamView::Text(resource_name.unwrap()@)
            &&& platform is Some ==> params[at_platform] == ParamView::Text(platform.unwrap()@)
            &&& status is Some ==> params[at_status] == ParamView::Text(status.unwrap()@)
        }),
{
    let mut columns: Vec<&str> = Vec::new();
    let mut params: Vec<SqlParam> = Vec::new();
    match resource_name {
        Some(n) => {
            columns.push("resource_name");
            params.push(SqlParam::Text(n.to_owned()));
        },
        None => {},
    }
    match platform {
        Some(p) => {
            columns.push("platform");
            params.push(SqlParam::Text(p.to_owned()));
        },
        None => {},
    }
    match status {
        Some(s) => {
            columns.push("status");
            params.push(SqlParam::Text(s.to_owned()));
        },
        None => {},
    }
    let ghost cols = version_columns(resource_name is Some, platform is Some, status is Some);
    assert(crate::models::query::strs(columns@) =~= cols);
    assert(param_views(params@) =~= version_params(
        opt_str_view(resource_name),
        opt_str_view(platform),
        opt_str_view(status),
    ));
    let where_sql = conjunction("deleted_at IS NULL", &columns);
    let n = columns.len() as i64;
    let mut count_sql = String::from_str("SELECT COUNT(*) FROM versions WHERE ");
    count_sql.append(where_sql.as_str());
    let mut list_sql = String::from_str("SELECT * FROM versions WHERE ");
    list_sql.append(where_sql.as_str());
    list_sql.append(" ORDER BY created_at DESC LIMIT ");
    list_sql.append(placeholder_text(n + 1).as_str());
    list_sql.append(" OFFSET ");
    list_sql.append(placeholder_text(n + 2).as_str());
    let (limit, offset) = page_window(page_num, page_size);
    PageQuery { count_sql, list_sql, filter_params: params, limit, offset }
}

/// A row of the latest-versions query: a version with the code of its type.
#[derive(Debug, Clone)]
pub struct VersionWithTypeCode {
    pub type_code: String,
    pub id: i32,
    pub type_id: i32,
    pub resource_name: String,
    pub version: String,
    pub name: Option<String>,
    pub notes: Option<String>,
    pub platform: Option<String>,
    pub url: Option<String>,
    pub hash: Option<String>,
    pub signature: Option<String>,
    pub install_path: Option<String>,
    pub file_size: Option<i32>,
    pub is_latest: bool,
    pub status: String,
    pub pub_date: Option<i64>,
    pub created_at: i64,
    pub updated_at: Option<i64>,
    pub deleted_at: Option<i64>,
}

/// The entry of one row: its type code, its resource name, and the version
/// that the row holds.
pub open spec fn latest_entry(r: VersionWithTypeCode) -> (String, String, Version) {
    (
        r.type_code,
        r.resource_name,
        Version {
            id: r.id,
            type_id: r.type_id,
            resource_name: r.resource_name,
            version: r.version,
            name: r.name,
            notes: r.notes,
            platform: r.platform,
            url: r.url,
            hash: r.hash,
            signature: r.signature,
            install_path: r.install_path,
            file_size: r.file_size,
            is_latest: r.is_latest,
            status: r.status,
            pub_date: r.pub_date,
            created_at: r.created_at,
            updated_at: r.updated_at,
            deleted_at: r.deleted_at,
        },
    )
}

fn row_entry(r: VersionWithTypeCode) -> (e: (String, String, Version))
    ensures
        e == latest_entry(r),
{
    let type_code = r.type_code;
    let name_key = r.resource_name.clone();
    (
        type_code,
        name_key,
        Version {
            id: r.id,
            type_id: r.type_id,
            resource_name: r.resource_name,
            version: r.version,
            name: r.name,
            notes: r.notes,
            platform: r.platform,
            url: r.url,
            hash: r.hash,
            signature: r.signature,
            install_path: r.install_path,
            file_size: r.file_size,
            is_latest: r.is_latest,
            status: r.status,
            pub_date: r.pub_date,
            created_at: r.created_at,
            updated_at: r.updated_at,
            deleted_at: r.deleted_at,
        },
    )
}

/// The latest versions of every active type on a platform, one entry per
/// row of the query, in the order of the rows: `(type code, resource name,
/// version)`.
pub fn query_all_active_latest_versions(rows: Vec<VersionWithTypeCode>) -> (r: Vec<
    (String, String, Version),
>)
    ensures
        r@ == rows@.map_values(|x: VersionWithTypeCode| latest_entry(x)),
        r@.len() == rows@.len(),
        forall|i: int|
            #![trigger r@[i]]
            0 <= i < r@.len() ==> {
                &&& r@[i].0 == rows@[i].type_code
                &&& r@[i].1 == rows@[i].resource_name
            &&& r@[i].2.id == rows@[i].id
            &&& r@[i].2.type_id == rows@[i].type_id
            &&& r@[i].2.resource_name == rows@[i].resource_name
            &&& r@[i].2.version == rows@[i].version
            &&& r@[i].2.name == rows@[i].name
            &&& r@[i].2.notes == rows@[i].notes
            &&& r@[i].2.platform == rows@[i].platform
            &&& r@[i].2.url == rows@[i].url
            &&& r@[i].2.hash == rows@[i].hash
            &&& r@[i].2.signature == rows@[i].signature
            &&& r@[i].2.install_path == rows@[i].install_path
            &&& r@[i].2.file_size == rows@[i].file_size
            &&& r@[i].2.is_latest == rows@[i].is_latest
            &&& r@[i].2.status == rows@[i].status
            &&& r@[i].2.pub_date == rows@[i].pub_date
            &&& r@[i].2.created_at == rows@[i].created_at
            &&& r@[i].2.updated_at == rows@[i].updated_at
            &&& r@[i].2.deleted_at == rows@[i].deleted_at
            },
{
    // The rows are moved, not cloned, into their entries: they are popped
    // off the back into a reversed vector, then popped off again, which
    // hands them out in their first order.
    let ghost input = rows@;
    let mut rows = rows;
    let mut reversed: Vec<VersionWithTypeCode> = Vec::new();
    while rows.len() > 0
        invariant
            rows@.len() + reversed@.len() == input.len(),
            rows@ == input.take(rows@.len() as int),
            forall|i: int|
                0 <= i < reversed@.len() ==> #[trigger] reversed@[i] == input[input.len() - 1
                    - i],
        decreases rows@.len(),
    {
        let ghost k = rows@.len();
        let row = rows.pop().unwrap();
        assert(row == input[k - 1]);
        reversed.push(row);
        assert(rows@ =~= input.take(rows@.len() as int));
    }
    let mut out: Vec<(String, String, Version)> = Vec::new();
    while reversed.len() > 0
        invariant
            out@.len() + reversed@.len() == input.len(),
            forall|i: int|
                0 <= i < reversed@.len() ==> #[trigger] reversed@[i] == input[input.len() - 1
                    - i],
            forall|i: int| 0 <= i < out@.len() ==> #[trigger] out@[i] == latest_entry(input[i]),
        decreases reversed@.len(),
    {
        let ghost k = out@.len();
        let row = reversed.pop().unwrap();
        assert(row == input[k as int]);
        out.push(row_entry(row));
    }
    assert(out@ =~= input.map_values(|x: VersionWithTypeCode| latest_entry(x)));
    out
}

/// The statement that takes the latest mark off the other versions of a
/// resource.
pub open spec fn spec_clear_latest_sql() -> Seq<char> {
    "\n        UPDATE versions SET is_latest = false, updated_at = NOW()\n        WHERE type_id = $1 AND resource_name = $2 AND id != $3 AND deleted_at IS NULL\n        "@
}

/// The statement that marks one version as the latest.
pub open spec fn spec_set_latest_sql() -> Seq<char> {
    "UPDATE versions SET is_latest = true, updated_at = NOW() WHERE id = $1 AND deleted_at IS NULL"@
}

/// Making a version the latest of its resource, as the two statements of
/// one transaction, in order: first every other version of the resource
/// (same type, same name, not deleted) loses the mark, then the version
/// gets it. Whether it worked is whether the second statement changed one
/// row.
pub fn set_as_latest_version(type_id: i32, resource_name: &str, version_id: i32) -> (r: Vec<
    (String, Vec<SqlParam>),
>)
    ensures
        statement_views(r@) == seq![
            (
                spec_clear_latest_sql(),
                seq![
                    ParamView::Int(type_id),
                    ParamView::Text(resource_name@),
                    ParamView::Int(version_id),
                ],
            ),
            (spec_set_latest_sql(), seq![ParamView::Int(version_id)]),
        ],
{
    let clear_params = vec![
        SqlParam::Int(type_id),
        SqlParam::Text(resource_name.to_owned()),
        SqlParam::Int(version_id),
    ];
    let set_params = vec![SqlParam::Int(version_id)];
    let clear = String::from_str(
        "\n        UPDATE versions SET is_latest = false, updated_at = NOW()\n        WHERE type_id = $1 AND resource_name = $2 AND id != $3 AND deleted_at IS NULL\n        ",
    );
    let set = String::from_str(
        "UPDATE versions SET is_latest = true, updated_at = NOW() WHERE id = $1 AND deleted_at IS NULL",
    );
    let r = vec![(clear, clear_params), (set, set_params)];
    assert(statement_views(r@) =~= seq![
        (
            spec_clear_latest_sql(),
            seq![
                ParamView::Int(type_id),
                ParamView::Text(resource_name@),
                ParamView::Int(version_id),
            ],
        ),
        (spec_set_latest_sql(), seq![ParamView::Int(version_id)]),
    ]) by {
        assert(param_views(r@[0].1@) =~= seq![
            ParamView::Int(type_id),
            ParamView::Text(resource_name@),
            ParamView::Int(version_id),
        ]);
        assert(param_views(r@[1].1@) =~= seq![ParamView::Int(version_id)]);
    }
    r
}

/// The entry of a row keeps the row's type code and resource name, and
/// every field of its version is the row's field of the same name.
pub proof fn lemma_latest_entry_keeps_fields(row: VersionWithTypeCode)
    ensures
        latest_entry(row).0 == row.type_code,
        latest_entry(row).1 == row.resource_name,
        latest_entry(row).2.id == row.id,
        latest_entry(row).2.type_id == row.type_id,
        latest_entry(row).2.resource_name == row.resource_name,
        latest_entry(row).2.version == row.version,
        latest_entry(row).2.name == row.name,
        latest_entry(row).2.notes == row.notes,
        latest_entry(row).2.platform == row.platform,
        latest_entry(row).2.url == row.url,
        latest_entry(row).2.hash == row.hash,
        latest_entry(row).2.signature == row.signature,
        latest_entry(row).2.install_path == row.install_path,
        latest_entry(row).2.file_size == row.file_size,
        latest_entry(row).2.is_latest == row.is_latest,
        latest_entry(row).2.status == row.status,
        latest_entry(row).2.pub_date == row.pub_date,
        latest_entry(row).2.created_at == row.created_at,
        latest_entry(row).2.updated_at == row.updated_at,
        latest_entry(row).2.deleted_at == row.deleted_at,
{
}

/// Every filter condition of the version list has its value bound at the
/// same position: the resource name first, then the platform, then the
/// status, each only when given, so the value bound to `$k` is the value of
/// the column compared with `$k`, and the page size and the offset fall on
/// the two placeholders after them.
pub proof fn lemma_version_params_match_conditions(
    resource_name: Option<Seq<char>>,
    platform: Option<Seq<char>>,
    status: Option<Seq<char>>,
)
    ensures
        ({
            let cols = version_columns(resource_name is Some, platform is Some, status is Some);
            let params = version_params(resource_name, platform, status);
            let at_platform: int = if resource_name is Some { 1 } else { 0 };
            let at_status: int = at_platform + if platform is Some { 1int } else { 0int };
            &&& params.len() == cols.len()
            &&& cols.len() == at_status + if status is Some { 1int } else { 0int }
            &&& resource_name is Some ==> cols[0] == "resource_name"@ && params[0]
                == ParamView::Text(resource_name.unwrap())
            &&& platform is Some ==> cols[at_platform] == "platform"@ && params[at_platform]
                == ParamView::Text(platform.unwrap())
            &&& status is Some ==> cols[at_status] == "status"@ && params[at_status]
                == ParamView::Text(status.unwrap())
        }),
{
}

} // verus!
