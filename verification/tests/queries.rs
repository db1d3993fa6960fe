use simprint_server::entitys::gray_resources::BatchCreateGrayResourceRequest;
use simprint_server::entitys::machine_tags::QueryTagsParams;
use simprint_server::models::batch::count_changed;
use simprint_server::models::gray_releases::{create_gray_release_priority, query_gray_releases};
use simprint_server::models::gray_resources::{
    batch_create_gray_resources, create_gray_resource_sort_order, max_sort_order,
};
use simprint_server::models::machine_tags::{batch_insert_or_get_tags, query_all_distinct_tags};
use simprint_server::models::machine_users::{
    bind_user_to_machine, query_machine_users, version_info_value, BindAction,
};
use simprint_server::models::query::{
    conjunction, equality_conditions, join_with, page_window, placeholder_text, SqlParam,
};
use simprint_server::models::versions::{query_versions, set_as_latest_version};
use simprint_server::models::maintenance::create_maintenance;
use simprint_server::models::admin::admin_permission_granted;

fn show(p: &SqlParam) -> String {
    match p {
        SqlParam::Uuid(u) => format!("uuid:{:x}", u),
        SqlParam::Text(t) => format!("text:{}", t),
        SqlParam::Int(i) => format!("int:{}", i),
        SqlParam::Instant(m) => format!("instant:{}", m),
        SqlParam::OptText(t) => format!("opttext:{:?}", t),
        SqlParam::OptBool(b) => format!("optbool:{:?}", b),
    }
}

fn shown(ps: &[SqlParam]) -> Vec<String> {
    ps.iter().map(show).collect()
}

#[test]
fn placeholders_and_conditions() {
    assert_eq!(placeholder_text(1), "$1");
    assert_eq!(placeholder_text(12), "$12");
    assert_eq!(
        equality_conditions(&vec!["a", "b"], 3),
        vec!["a = $3".to_string(), "b = $4".to_string()]
    );
    assert!(equality_conditions(&vec![], 1).is_empty());
    assert_eq!(
        join_with(&vec!["x".to_string(), "y".to_string(), "z".to_string()], ", "),
        "x, y, z"
    );
    assert_eq!(join_with(&vec![], " AND "), "");
    assert_eq!(conjunction("1=1", &vec![]), "1=1");
    assert_eq!(
        conjunction("1=1", &vec!["platform", "status"]),
        "1=1 AND platform = $1 AND status = $2"
    );
}

#[test]
fn page_window_skips_earlier_pages() {
    assert_eq!(page_window(1, 20), (20, 0));
    assert_eq!(page_window(3, 10), (10, 20));
    assert_eq!(page_window(0, 10), (10, -10));
}

#[test]
fn machine_users_without_filters() {
    let q = query_machine_users(None, None, None, 1, 10);
    assert_eq!(q.count_sql, "SELECT COUNT(*) FROM machine_users WHERE 1=1");
    assert_eq!(
        q.list_sql,
        "SELECT * FROM machine_users WHERE 1=1 ORDER BY created_at DESC LIMIT $1 OFFSET $2"
    );
    assert!(q.filter_params.is_empty());
    assert_eq!((q.limit, q.offset), (10, 0));
}

#[test]
fn machine_users_with_all_filters() {
    let u: u128 = 0x550e8400_e29b_41d4_a716_446655440000;
    let q = query_machine_users(Some(u), Some("windows"), Some("active"), 3, 25);
    assert_eq!(
        q.count_sql,
        "SELECT COUNT(*) FROM machine_users WHERE 1=1 AND user_uuid = $1 AND platform = $2 AND status = $3"
    );
    assert_eq!(
        q.list_sql,
        "SELECT * FROM machine_users WHERE 1=1 AND user_uuid = $1 AND platform = $2 AND status = $3 ORDER BY created_at DESC LIMIT $4 OFFSET $5"
    );
    assert_eq!(
        shown(&q.filter_params),
        vec![
            "uuid:550e8400e29b41d4a716446655440000".to_string(),
            "text:windows".to_string(),
            "text:active".to_string()
        ]
    );
    assert_eq!((q.limit, q.offset), (25, 50));
}

#[test]
fn machine_users_numbering_skips_absent_filters() {
    let q = query_machine_users(None, None, Some("banned"), 2, 5);
    assert_eq!(
        q.count_sql,
        "SELECT COUNT(*) FROM machine_users WHERE 1=1 AND status = $1"
    );
    assert_eq!(
        q.list_sql,
        "SELECT * FROM machine_users WHERE 1=1 AND status = $1 ORDER BY created_at DESC LIMIT $2 OFFSET $3"
    );
    assert_eq!(shown(&q.filter_params), vec!["text:banned".to_string()]);
    assert_eq!((q.limit, q.offset), (5, 5));
}

#[test]
fn versions_queries() {
    let q = query_versions(None, None, None, 1, 20);
    assert_eq!(q.count_sql, "SELECT COUNT(*) FROM versions WHERE deleted_at IS NULL");
    assert_eq!(
        q.list_sql,
        "SELECT * FROM versions WHERE deleted_at IS NULL ORDER BY created_at DESC LIMIT $1 OFFSET $2"
    );
    assert!(q.filter_params.is_empty());

    let q = query_versions(Some("client"), None, Some("active"), 2, 20);
    assert_eq!(
        q.count_sql,
        "SELECT COUNT(*) FROM versions WHERE deleted_at IS NULL AND resource_name = $1 AND status = $2"
    );
    assert_eq!(
        q.list_sql,
        "SELECT * FROM versions WHERE deleted_at IS NULL AND resource_name = $1 AND status = $2 ORDER BY created_at DESC LIMIT $3 OFFSET $4"
    );
    assert_eq!(
        shown(&q.filter_params),
        vec!["text:client".to_string(), "text:active".to_string()]
    );
    assert_eq!((q.limit, q.offset), (20, 20));

    let q = query_versions(Some("a"), Some("mac"), Some("s"), 1, 1);
    assert_eq!(
        q.list_sql,
        "SELECT * FROM versions WHERE deleted_at IS NULL AND resource_name = $1 AND platform = $2 AND status = $3 ORDER BY created_at DESC LIMIT $4 OFFSET $5"
    );
}

#[test]
fn gray_releases_queries() {
    let q = query_gray_releases(None, None, 1, 10);
    assert_eq!(q.count_sql, "SELECT COUNT(*) FROM gray_releases ");
    assert_eq!(
        q.list_sql,
        "SELECT * FROM gray_releases  ORDER BY created_at DESC LIMIT $1 OFFSET $2"
    );
    assert!(q.filter_params.is_empty());

    let q = query_gray_releases(Some("linux"), Some("active"), 4, 10);
    assert_eq!(
        q.count_sql,
        "SELECT COUNT(*) FROM gray_releases WHERE platform = $1 AND status = $2"
    );
    assert_eq!(
        q.list_sql,
        "SELECT * FROM gray_releases WHERE platform = $1 AND status = $2 ORDER BY created_at DESC LIMIT $3 OFFSET $4"
    );
    assert_eq!(
        shown(&q.filter_params),
        vec!["text:linux".to_string(), "text:active".to_string()]
    );
    assert_eq!((q.limit, q.offset), (10, 30));

    let q = query_gray_releases(None, Some("draft"), 1, 10);
    assert_eq!(
        q.count_sql,
        "SELECT COUNT(*) FROM gray_releases WHERE status = $1"
    );
}

#[test]
fn gray_defaults() {
    assert_eq!(create_gray_release_priority(None), 0);
    assert_eq!(create_gray_release_priority(Some(9)), 9);
    assert_eq!(create_gray_resource_sort_order(None), 0);
    assert_eq!(create_gray_resource_sort_order(Some(-3)), -3);
}

#[test]
fn gray_resources_batch_rows() {
    let req = BatchCreateGrayResourceRequest {
        gray_release_id: 11,
        version_ids: vec![5, 8, 2],
    };
    assert_eq!(
        batch_create_gray_resources(&req),
        vec![(11, 5, 0), (11, 8, 1), (11, 2, 2)]
    );
    let empty = BatchCreateGrayResourceRequest {
        gray_release_id: 1,
        version_ids: vec![],
    };
    assert!(batch_create_gray_resources(&empty).is_empty());
}

#[test]
fn distinct_tags_query() {
    let base = "\n        SELECT * FROM machine_tags\n        WHERE 1=1\n    ";
    let (sql, params) = query_all_distinct_tags(&QueryTagsParams {
        category: None,
        is_active: None,
    });
    assert_eq!(sql, format!("{} ORDER BY created_at DESC", base));
    assert!(params.is_empty());

    let (sql, params) = query_all_distinct_tags(&QueryTagsParams {
        category: Some("region".to_string()),
        is_active: None,
    });
    assert_eq!(sql, format!("{} AND category = $1 ORDER BY created_at DESC", base));
    assert_eq!(
        shown(&params),
        vec![
            "opttext:Some(\"region\")".to_string(),
            "optbool:None".to_string()
        ]
    );

    let (sql, params) = query_all_distinct_tags(&QueryTagsParams {
        category: None,
        is_active: Some(true),
    });
    assert_eq!(sql, format!("{} AND is_active = $2 ORDER BY created_at DESC", base));
    assert_eq!(
        shown(&params),
        vec!["opttext:None".to_string(), "optbool:Some(true)".to_string()]
    );
}

#[test]
fn tag_batch_plan() {
    let names: Vec<String> = vec!["vip".into(), "new".into(), "cn".into(), "new".into()];
    let existing = vec![("cn".to_string(), 4), ("vip".to_string(), 9)];
    let plan = batch_insert_or_get_tags(&names, &existing);
    assert_eq!(plan.known_ids, vec![4, 9]);
    assert_eq!(plan.to_insert, vec!["new".to_string()]);

    let names: Vec<String> = vec!["b".into(), "a".into(), "b".into(), "a".into(), "c".into()];
    let plan = batch_insert_or_get_tags(&names, &vec![("c".to_string(), 1)]);
    assert_eq!(plan.known_ids, vec![1]);
    assert_eq!(plan.to_insert, vec!["b".to_string(), "a".to_string()]);

    let plan = batch_insert_or_get_tags(&vec![], &vec![("x".to_string(), 3)]);
    assert!(plan.known_ids.is_empty());
    assert!(plan.to_insert.is_empty());

    let plan = batch_insert_or_get_tags(&vec![], &vec![]);
    assert!(plan.known_ids.is_empty());
    assert!(plan.to_insert.is_empty());

    let plan = batch_insert_or_get_tags(&vec!["a".to_string()], &vec![]);
    assert!(plan.known_ids.is_empty());
    assert_eq!(plan.to_insert, vec!["a".to_string()]);
}

#[test]
fn binding_refreshes_or_inserts() {
    assert_eq!(bind_user_to_machine(true), BindAction::RefreshBindTime);
    assert_eq!(bind_user_to_machine(false), BindAction::Insert);
}

#[test]
fn batch_counts_changed_statements() {
    let mut count = 0;
    for rows in [1u64, 0, 3, 0, 1] {
        count = count_changed(count, rows);
    }
    assert_eq!(count, 3);
    assert_eq!(count_changed(7, 0), 7);
    assert_eq!(count_changed(7, 2), 8);
}

#[test]
fn version_info_is_parsed_or_dropped() {
    let parsed = version_info_value(&Some("{\"app\": \"1.2.0\", \"build\": 7}".to_string()));
    let expected: serde_json::Value =
        serde_json::from_str("{\"build\": 7, \"app\": \"1.2.0\"}").unwrap();
    assert_eq!(parsed, Some(expected));
    assert_eq!(
        version_info_value(&Some(" [1, 2] ".to_string())),
        Some(serde_json::Value::Array(vec![1.into(), 2.into()]))
    );
    assert_eq!(version_info_value(&Some("not json".to_string())), None);
    assert_eq!(version_info_value(&Some("".to_string())), None);
    assert_eq!(version_info_value(&None), None);
}

#[test]
fn pages_are_consecutive() {
    for size in [1, 7, 50] {
        assert_eq!(page_window(1, size).1, 0);
        for page in 1..20 {
            assert_eq!(page_window(page + 1, size).1, page_window(page, size).1 + size);
        }
    }
}

#[test]
fn latest_version_clears_then_sets() {
    let st = set_as_latest_version(3, "client", 42);
    assert_eq!(st.len(), 2);
    assert_eq!(
        st[0].0,
        "\n        UPDATE versions SET is_latest = false, updated_at = NOW()\n        WHERE type_id = $1 AND resource_name = $2 AND id != $3 AND deleted_at IS NULL\n        "
    );
    assert_eq!(
        shown(&st[0].1),
        vec!["int:3".to_string(), "text:client".to_string(), "int:42".to_string()]
    );
    assert_eq!(
        st[1].0,
        "UPDATE versions SET is_latest = true, updated_at = NOW() WHERE id = $1 AND deleted_at IS NULL"
    );
    assert_eq!(shown(&st[1].1), vec!["int:42".to_string()]);
}

#[test]
fn maintenance_closes_then_opens() {
    let st = create_maintenance("upgrade", None, "active", 10, 20, "full", 5);
    assert_eq!(st.len(), 2);
    assert!(st[0].0.contains("SET status = 'inactive', updated_at = $1"));
    assert_eq!(shown(&st[0].1), vec!["instant:5".to_string()]);
    assert!(st[1].0.contains("VALUES ($1, $2, $3, $4, $5, $6, $7, $8)"));
    assert_eq!(
        shown(&st[1].1),
        vec![
            "text:upgrade".to_string(),
            "opttext:None".to_string(),
            "text:active".to_string(),
            "instant:10".to_string(),
            "instant:20".to_string(),
            "text:full".to_string(),
            "instant:5".to_string(),
            "instant:5".to_string()
        ]
    );
    let st = create_maintenance("n", Some("why"), "s", 1, 2, "t", 3);
    assert_eq!(shown(&st[1].1)[1], "opttext:Some(\"why\")");
}

#[test]
fn small_defaults() {
    assert!(admin_permission_granted(Some(2)));
    assert!(!admin_permission_granted(Some(0)));
    assert!(!admin_permission_granted(None));
    assert_eq!(max_sort_order(Some(4)), 4);
    assert_eq!(max_sort_order(None), 0);
}
