//! Maintenance windows: the statements that open one, and the default
//! window of their list.
use vstd::prelude::*;

use crate::models::query::{param_views, statement_views, ParamView, SqlParam};
use crate::text::opt_str_view;

verus! {

/// Default page size of the maintenance list.
pub const MAINTENANCE_LIST_DEFAULT_LIMIT: i64 = 50;

/// The statement that closes every active maintenance window.
pub open spec fn spec_close_active_sql() -> Seq<char> {
    "\n        UPDATE maintenances\n        SET status = 'inactive', updated_at = $1\n        WHERE status = 'active'\n        "@
}

/// The statement that records a new maintenance window and returns it.
pub open spec fn spec_insert_maintenance_sql() -> Seq<char> {
    "\n        INSERT INTO maintenances (name, description, status, start_time, end_time, maintenance_type, created_at, updated_at)\n        VALUES ($1, $2, $3, $4, $5, $6, $7, $8)\n        RETURNING id, name, description, status, start_time, end_time, maintenance_type, created_at, updated_at\n        "@
}

/// Opening a maintenance window at the instant `now` (instants in
/// microseconds since the Unix epoch), as the two statements of one
/// transaction, in order: every active window is closed, as updated at
/// `now`; then the new one is recorded, created and updated at `now`.
pub fn create_maintenance(
    name: &str,
    description: Option<&str>,
    status: &str,
    start_time: i64,
    end_time: i64,
    maintenance_type: &str,
    now: i64,
) -> (r: Vec<(String, Vec<SqlParam>)>)
    ensures
        statement_views(r@) == seq![
            (spec_close_active_sql(), seq![ParamView::Instant(now)]),
            (
                spec_insert_maintenance_sql(),
                seq![
                    ParamView::Text(name@),
                    ParamView::OptText(opt_str_view(description)),
                    ParamView::Text(status@),
                    ParamView::Instant(start_time),
                    ParamView::Instant(end_time),
                    ParamView::Text(maintenance_type@),
                    ParamView::Instant(now),
                    ParamView::Instant(now),
                ],
            ),
        ],
{
    let close = String::from_str(
        "\n        UPDATE maintenances\n        SET status = 'inactive', updated_at = $1\n        WHERE status = 'active'\n        ",
    );
    let insert = String::from_str(
        "\n        INSERT INTO maintenances (name, description, status, start_time, end_time, maintenance_type, created_at, updated_at)\n        VALUES ($1, $2, $3, $4, $5, $6, $7, $8)\n        RETURNING id, name, description, status, start_time, end_time, maintenance_type, created_at, updated_at\n        ",
    );
    let description_text = match description {
        Some(d) => Some(d.to_owned()),
        None => None,
    };
    let close_params = vec![SqlParam::Instant(now)];
    let insert_params = vec![
        SqlParam::Text(name.to_owned()),
        SqlParam::OptText(description_text),
        SqlParam::Text(status.to_owned()),
        SqlParam::Instant(start_time),
        SqlParam::Instant(end_time),
        SqlParam::Text(maintenance_type.to_owned()),
        SqlParam::Instant(now),
        SqlParam::Instant(now),
    ];
    let r = vec![(close, close_params), (insert, insert_params)];
    assert(param_views(r@[0].1@) =~= seq![ParamView::Instant(now)]);
    assert(param_views(r@[1].1@) =~= seq![
        ParamView::Text(name@),
        ParamView::OptText(opt_str_view(description)),
        ParamView::Text(status@),
        ParamView::Instant(start_time),
        ParamView::Instant(end_time),
        ParamView::Text(maintenance_type@),
        ParamView::Instant(now),
        ParamView::Instant(now),
    ]);
    assert(statement_views(r@) =~= seq![
        (spec_close_active_sql(), seq![ParamView::Instant(now)]),
        (
            spec_insert_maintenance_sql(),
            seq![
                ParamView::Text(name@),
                ParamView::OptText(opt_str_view(description)),
                ParamView::Text(status@),
                ParamView::Instant(start_time),
                ParamView::Instant(end_time),
                ParamView::Text(maintenance_type@),
                ParamView::Instant(now),
                ParamView::Instant(now),
            ],
        ),
    ]);
    r
}

} // verus!
