use simprint_server::dto::events::{EntityType, EventType, WorkspaceEvent};
use simprint_server::entitys::extensions::default_scope;
use simprint_server::handlers::environments::{
    batch_create_note, batch_create_responses, batch_delete_note, environment_detail,
    require_workspace_and_team,
};
use simprint_server::handlers::health::health_check_handler;
use simprint_server::handlers::events::{
    events_unavailable_message, no_workspace_message, sync_events_handler,
    sync_events_workspace, sync_needs_existence_check, SyncEventsRequest,
};
use simprint_server::models::versions::{query_all_active_latest_versions, VersionWithTypeCode};

fn event(id: &str) -> WorkspaceEvent {
    let mut e = WorkspaceEvent::new_at(
        1,
        EventType::Updated,
        EntityType::Environment,
        Some(5),
        vec!["/environments/list".to_string()],
        1_700_000_000_000,
    );
    e.event_id = id.to_string();
    e
}

fn req(last: Option<&str>) -> SyncEventsRequest {
    SyncEventsRequest {
        last_event_id: last.map(|s| s.to_string()),
    }
}

fn row(type_code: &str, name: &str, id: i32) -> VersionWithTypeCode {
    VersionWithTypeCode {
        type_code: type_code.to_string(),
        id,
        type_id: 2,
        resource_name: name.to_string(),
        version: "1.0.0".to_string(),
        name: None,
        notes: None,
        platform: Some("windows".to_string()),
        url: None,
        hash: None,
        signature: None,
        install_path: None,
        file_size: Some(10),
        is_latest: true,
        status: "active".to_string(),
        pub_date: None,
        created_at: 5,
        updated_at: None,
        deleted_at: None,
    }
}

#[test]
fn workspace_and_team_are_required() {
    assert_eq!(require_workspace_and_team(Some(1), Some(2)), Ok((1, 2)));
    assert_eq!(
        require_workspace_and_team(None, Some(2)),
        Err("请先选择工作空间")
    );
    assert_eq!(require_workspace_and_team(None, None), Err("请先选择工作空间"));
    assert_eq!(require_workspace_and_team(Some(1), None), Err("请先选择团队"));
}

#[test]
fn batch_answers_and_notes() {
    let r = batch_create_responses(&vec![9, 8, 7]);
    assert_eq!(r.iter().map(|c| c.uuid).collect::<Vec<_>>(), vec![9, 8, 7]);
    assert!(batch_create_responses(&vec![]).is_empty());
    assert_eq!(batch_create_note(3), "批量创建 3 个环境");
    assert_eq!(batch_delete_note(0), "批量删除 0 个环境");
    assert_eq!(batch_delete_note(12), "批量删除 12 个环境");
}

#[test]
fn sync_needs_workspace() {
    assert_eq!(sync_events_workspace(Some(4)), Ok(4));
    assert_eq!(sync_events_workspace(None), Err("未选择工作空间"));
    assert_eq!(no_workspace_message(), "未选择工作空间");
    assert_eq!(events_unavailable_message(), "获取事件失败");
}

#[test]
fn existence_check_only_for_named_event_without_news() {
    assert!(sync_needs_existence_check(&req(Some("1-0")), 0));
    assert!(!sync_needs_existence_check(&req(Some("1-0")), 2));
    assert!(!sync_needs_existence_check(&req(Some("")), 0));
    assert!(!sync_needs_existence_check(&req(None), 0));
}

#[test]
fn sync_with_new_events() {
    let r = sync_events_handler(&req(Some("1-0")), Ok(vec![event("2-0"), event("3-0")]), None)
        .unwrap();
    assert_eq!(r.message, "同步成功");
    assert!(!r.data.full_refresh);
    assert_eq!(r.data.events.len(), 2);
    assert_eq!(r.data.events[0].event_id, "2-0");
    assert_eq!(r.data.latest_event_id.as_deref(), Some("3-0"));
}

#[test]
fn sync_fails_when_events_are_unreadable() {
    assert_eq!(
        sync_events_handler(&req(Some("1-0")), Err(()), Some(Ok(false))).unwrap_err(),
        "获取事件失败"
    );
}

#[test]
fn sync_full_refresh_when_last_event_lost() {
    let full = |last: Option<&str>, exists: Option<Result<bool, ()>>| {
        sync_events_handler(&req(last), Ok(vec![]), exists).unwrap().data.full_refresh
    };
    let r = sync_events_handler(&req(Some("1-0")), Ok(vec![]), Some(Ok(false))).unwrap();
    assert!(r.data.full_refresh);
    assert!(r.data.events.is_empty());
    assert!(r.data.latest_event_id.is_none());
    assert!(!full(Some("1-0"), Some(Ok(true))));
    assert!(!full(Some("1-0"), Some(Err(()))));
    assert!(!full(None, Some(Ok(false))));
    assert!(!full(Some(""), Some(Ok(false))));
}

#[test]
fn events_are_built_without_id_or_payload() {
    let e = WorkspaceEvent::new_at(
        3,
        EventType::Created,
        EntityType::Tag,
        None,
        vec![],
        1234,
    );
    assert_eq!(e.event_id, "");
    assert_eq!(e.workspace_uuid, 3);
    assert_eq!(e.event_type, EventType::Created);
    assert_eq!(e.entity_type, EntityType::Tag);
    assert!(e.payload.is_none());
    assert_eq!(e.created_at, 1234);
    let now = WorkspaceEvent::new(3, EventType::Deleted, EntityType::Group, Some(1), vec![]);
    assert!(now.created_at > 1_600_000_000_000);
    assert!(now.created_at < 10_000_000_000_000);
    let with = now.with_payload(serde_json::Value::Bool(true));
    assert_eq!(with.payload, Some(serde_json::Value::Bool(true)));
    assert_eq!(with.event_type, EventType::Deleted);
    assert_eq!(with.entity_id, Some(1));
}

#[test]
fn latest_versions_keep_row_order() {
    let out = query_all_active_latest_versions(vec![
        row("app", "client", 4),
        row("plugin", "ext", 9),
        row("app", "updater", 2),
    ]);
    let keys: Vec<(String, String, i32)> = out
        .iter()
        .map(|(t, n, v)| (t.clone(), n.clone(), v.id))
        .collect();
    assert_eq!(
        keys,
        vec![
            ("app".to_string(), "client".to_string(), 4),
            ("plugin".to_string(), "ext".to_string(), 9),
            ("app".to_string(), "updater".to_string(), 2),
        ]
    );
    assert_eq!(out[1].2.resource_name, "ext");
    assert_eq!(out[1].2.platform.as_deref(), Some("windows"));
    assert!(query_all_active_latest_versions(vec![]).is_empty());
}

#[test]
fn installed_extensions_default_scope() {
    assert_eq!(default_scope(), "all");
}

#[test]
fn health_check_reports_ok_now() {
    let before = chrono::Utc::now();
    let r = health_check_handler();
    assert_eq!(r.message, "服务正常");
    assert_eq!(r.data.status, "ok");
    assert!(r.data.timestamp.ends_with("+00:00"));
    let at = chrono::DateTime::parse_from_rfc3339(&r.data.timestamp).unwrap();
    assert!(at >= before - chrono::Duration::seconds(1));
    assert!(at <= chrono::Utc::now() + chrono::Duration::seconds(1));
}

#[test]
fn environment_detail_needs_environment_and_tags() {
    let ok = environment_detail::<&str, u8, &str, &str, &str, &str>(
        Ok("env"),
        Err(()),
        Ok(vec!["t1", "t2"]),
        Err(()),
        Some(Ok("g")),
        Some(Err(())),
    )
    .unwrap();
    assert_eq!(ok.message, "获取成功");
    assert_eq!(ok.data.environment, "env");
    assert_eq!(ok.data.config, None);
    assert_eq!(ok.data.tags, vec!["t1", "t2"]);
    assert!(ok.data.accounts.is_empty());
    assert_eq!(ok.data.group, Some("g"));
    assert_eq!(ok.data.proxy, None);

    let ok = environment_detail::<&str, u8, &str, &str, &str, &str>(
        Ok("env"),
        Ok(7),
        Ok(vec![]),
        Ok(vec!["acc"]),
        None,
        Some(Ok("p")),
    )
    .unwrap();
    assert_eq!(ok.data.config, Some(7));
    assert_eq!(ok.data.accounts, vec!["acc"]);
    assert_eq!(ok.data.group, None);
    assert_eq!(ok.data.proxy, Some("p"));

    let failed = environment_detail::<&str, u8, &str, &str, &str, &str>(
        Err("环境不存在".to_string()),
        Ok(1),
        Err("标签读取失败".to_string()),
        Ok(vec![]),
        None,
        None,
    );
    assert_eq!(failed.unwrap_err(), "环境不存在");
    let failed = environment_detail::<&str, u8, &str, &str, &str, &str>(
        Ok("env"),
        Ok(1),
        Err("标签读取失败".to_string()),
        Ok(vec![]),
        None,
        None,
    );
    assert_eq!(failed.unwrap_err(), "标签读取失败");
}
