use simprint_server::dto::machine_users::MachineUser;
use simprint_server::middlewares::{
    admin_permission_check, admin_permission_outcome, auth, auth_user, bearer_token, dual_auth,
    dual_auth_api_key_outcome, dual_auth_token_outcome, get_request_path_and_method,
    is_whitelisted, machine_auth, machine_auth_after_lookup, split_api_key, whitelist_key,
    auth_context, auth_context_with_team_workspace, context_with_machine, AdminStep,
    AuthContextStep, AuthStep, CurrentMachineUser, DualAuthStep, MachineAuthStep,
    RequestContext, UserInfo,
};
use simprint_server::models::apikey::create_api_key;

const USER_TEXT: &str = "550e8400-e29b-41d4-a716-446655440000";
const USER: u128 = 0x550e8400_e29b_41d4_a716_446655440000;

fn whitelist() -> Vec<String> {
    vec!["POST+/api/health".to_string(), "GET+/api/ping".to_string()]
}

fn token_of(step: AuthStep) -> Option<String> {
    match step {
        AuthStep::VerifyToken(t) => Some(t),
        _ => None,
    }
}

fn reject_of(step: &DualAuthStep) -> Option<(u16, &'static str)> {
    match step {
        DualAuthStep::Reject(c, m) => Some((*c, *m)),
        _ => None,
    }
}

#[test]
fn request_path_prefers_matched_route() {
    assert_eq!(
        get_request_path_and_method("GET", Some("/api/users/:id"), "/api/users/7"),
        ("GET", "/api/users/:id")
    );
    assert_eq!(
        get_request_path_and_method("POST", None, "/api/users/7"),
        ("POST", "/api/users/7")
    );
}

#[test]
fn whitelist_keys() {
    assert_eq!(whitelist_key("POST", "/api/health"), "POST+/api/health");
    assert!(is_whitelisted(&whitelist(), "POST", "/api/health"));
    assert!(!is_whitelisted(&whitelist(), "GET", "/api/health"));
    assert!(!is_whitelisted(&vec![], "GET", "/api/ping"));
}

#[test]
fn bearer_tokens() {
    assert_eq!(bearer_token("Bearer abc.def"), Some("abc.def"));
    assert_eq!(bearer_token("Bearer "), Some(""));
    assert_eq!(bearer_token("bearer abc"), None);
    assert_eq!(bearer_token("Basic abc"), None);
    assert_eq!(bearer_token("Bearer"), None);
}

#[test]
fn api_key_header_splits_at_single_colon() {
    assert_eq!(split_api_key("id:secret"), Some(("id", "secret")));
    assert_eq!(split_api_key(":"), Some(("", "")));
    assert_eq!(split_api_key("nocolon"), None);
    assert_eq!(split_api_key("a:b:c"), None);
    assert_eq!(split_api_key(""), None);
}

#[test]
fn jwt_first_step() {
    let wl = whitelist();
    assert!(matches!(auth("OPTIONS", "/x", &wl, None), AuthStep::Continue));
    assert!(matches!(
        auth("POST", "/api/health", &wl, None),
        AuthStep::Continue
    ));
    assert!(matches!(auth("GET", "/x", &wl, None), AuthStep::Unauthorized));
    assert!(matches!(
        auth("GET", "/x", &wl, Some("Token t")),
        AuthStep::Unauthorized
    ));
    assert_eq!(
        token_of(auth("GET", "/x", &wl, Some("Bearer tok"))),
        Some("tok".to_string())
    );
}

#[test]
fn token_subject_must_be_uuid() {
    assert_eq!(auth_user(Ok(USER_TEXT.to_string())), Some(USER));
    assert_eq!(auth_user(Ok("not-a-uuid".to_string())), None);
    assert_eq!(auth_user(Err(())), None);
}

fn context() -> RequestContext {
    RequestContext {
        current_user: None,
        current_team_uuid: Some(90),
        current_workspace_uuid: Some(91),
        current_machine_user: None,
    }
}

fn info(team: Option<u128>, workspace: Option<u128>) -> UserInfo {
    UserInfo {
        current_team_uuid: team,
        current_workspace_uuid: workspace,
    }
}

fn done(step: AuthContextStep) -> RequestContext {
    match step {
        AuthContextStep::Done(c) => c,
        other => panic!("unexpected {:?}", other),
    }
}

#[test]
fn context_gets_user_team_and_workspace() {
    let c = done(auth_context(context(), USER, Some(info(Some(2), Some(1)))));
    assert_eq!(c.current_user, Some(USER));
    assert_eq!((c.current_team_uuid, c.current_workspace_uuid), (Some(2), Some(1)));

    let c = done(auth_context(context(), USER, Some(info(None, Some(1)))));
    assert_eq!((c.current_team_uuid, c.current_workspace_uuid), (None, Some(1)));

    let c = done(auth_context(context(), USER, Some(info(None, None))));
    assert_eq!((c.current_team_uuid, c.current_workspace_uuid), (None, None));

    let c = done(auth_context(context(), USER, None));
    assert_eq!(c.current_user, Some(USER));
    assert_eq!((c.current_team_uuid, c.current_workspace_uuid), (Some(90), Some(91)));
}

#[test]
fn context_takes_workspace_of_team() {
    match auth_context(context(), USER, Some(info(Some(2), None))) {
        AuthContextStep::LookUpTeamWorkspace(c, team) => {
            assert_eq!(team, 2);
            assert_eq!(c.current_user, Some(USER));
            assert_eq!(c.current_team_uuid, Some(2));
            let c2 = auth_context_with_team_workspace(c.clone(), Some(33));
            assert_eq!(c2.current_workspace_uuid, Some(33));
            assert_eq!(c2.current_team_uuid, Some(2));
            let c3 = auth_context_with_team_workspace(c, None);
            assert_eq!(c3.current_workspace_uuid, None);
        }
        other => panic!("unexpected {:?}", other),
    }
}

#[test]
fn context_records_machine() {
    let m = CurrentMachineUser {
        machine_code: "M-9".to_string(),
        platform: None,
        user_uuid: None,
        is_allowed: false,
    };
    let c = context_with_machine(context(), m);
    assert_eq!(c.current_machine_user.map(|m| m.machine_code).as_deref(), Some("M-9"));
    assert_eq!(c.current_workspace_uuid, Some(91));
}

#[test]
fn dual_auth_first_step() {
    let wl = whitelist();
    assert!(matches!(
        dual_auth("OPTIONS", "/x", &wl, Some(None), None),
        DualAuthStep::Continue
    ));
    assert!(matches!(
        dual_auth("GET", "/api/ping", &wl, None, None),
        DualAuthStep::Continue
    ));
    match dual_auth("GET", "/x", &wl, Some(Some("kid:sec")), Some("Bearer t")) {
        DualAuthStep::ValidateApiKey(k, s) => {
            assert_eq!(k, "kid");
            assert_eq!(s, "sec");
        }
        other => panic!("unexpected {:?}", other),
    }
    assert_eq!(
        reject_of(&dual_auth("GET", "/x", &wl, Some(Some("kidsec")), Some("Bearer t"))),
        Some((401, "Invalid API key format"))
    );
    assert_eq!(
        reject_of(&dual_auth("GET", "/x", &wl, Some(None), None)),
        Some((401, "Invalid API key format"))
    );
    assert_eq!(
        reject_of(&dual_auth("GET", "/x", &wl, None, None)),
        Some((401, "Missing authentication"))
    );
    assert_eq!(
        reject_of(&dual_auth("GET", "/x", &wl, None, Some("Basic x"))),
        Some((401, "Invalid authorization header format"))
    );
    match dual_auth("GET", "/x", &wl, None, Some("Bearer jwt")) {
        DualAuthStep::VerifyToken(t) => assert_eq!(t, "jwt"),
        other => panic!("unexpected {:?}", other),
    }
}

#[test]
fn dual_auth_outcomes() {
    assert!(matches!(
        dual_auth_api_key_outcome(Ok(true)),
        DualAuthStep::Continue
    ));
    assert_eq!(
        reject_of(&dual_auth_api_key_outcome(Ok(false))),
        Some((401, "Invalid or expired API key"))
    );
    assert_eq!(
        reject_of(&dual_auth_api_key_outcome(Err(()))),
        Some((500, "Authentication service error"))
    );
    assert_eq!(dual_auth_token_outcome(Ok(USER_TEXT.to_string())), Ok(USER));
    assert_eq!(
        dual_auth_token_outcome(Ok("42".to_string())),
        Err((401, "Invalid user identifier"))
    );
    assert_eq!(
        dual_auth_token_outcome(Err(())),
        Err((401, "Invalid or expired token"))
    );
}

#[test]
fn created_key_is_validated_as_presented() {
    let (key_id, secret) = create_api_key();
    let header = format!("{}:{}", key_id, secret);
    match dual_auth("POST", "/api/x", &whitelist(), Some(Some(&header)), None) {
        DualAuthStep::ValidateApiKey(k, s) => {
            assert_eq!(k, key_id);
            assert_eq!(s, secret);
        }
        other => panic!("unexpected {:?}", other),
    }
}

#[test]
fn api_key_header_wins_over_authorization() {
    let wl = whitelist();
    let a = dual_auth("GET", "/x", &wl, Some(Some("bad")), None);
    let b = dual_auth("GET", "/x", &wl, Some(Some("bad")), Some("Bearer ok"));
    assert_eq!(reject_of(&a), reject_of(&b));
    assert_eq!(reject_of(&a), Some((401, "Invalid API key format")));
}

#[test]
fn options_pass_every_middleware() {
    let wl = whitelist();
    assert!(matches!(auth("OPTIONS", "/any", &wl, None), AuthStep::Continue));
    assert!(matches!(
        dual_auth("OPTIONS", "/any", &wl, Some(Some("bad")), None),
        DualAuthStep::Continue
    ));
    assert_eq!(
        admin_permission_check("OPTIONS", Some(USER)),
        AdminStep::Continue
    );
}

#[test]
fn admin_permission_steps() {
    assert_eq!(
        admin_permission_check("GET", Some(USER)),
        AdminStep::CheckPermission(USER)
    );
    assert_eq!(admin_permission_check("GET", None), AdminStep::Continue);
    assert_eq!(admin_permission_outcome(Ok(true)), Ok(()));
    assert_eq!(admin_permission_outcome(Ok(false)), Err(403));
    assert_eq!(admin_permission_outcome(Err(())), Err(500));
}

#[test]
fn machine_auth_steps() {
    match machine_auth("M-1".to_string(), Ok(true)) {
        MachineAuthStep::Done(m) => {
            assert_eq!(m.machine_code, "M-1");
            assert!(!m.is_allowed);
            assert!(m.platform.is_none());
            assert!(m.user_uuid.is_none());
        }
        other => panic!("unexpected {:?}", other),
    }
    assert!(matches!(
        machine_auth("M-1".to_string(), Ok(false)),
        MachineAuthStep::LookUpMachine
    ));
    match machine_auth("M-2".to_string(), Err(())) {
        MachineAuthStep::Done(m) => {
            assert_eq!(m.machine_code, "M-2");
            assert!(m.is_allowed);
        }
        other => panic!("unexpected {:?}", other),
    }
}

#[test]
fn machine_lookup_outcome() {
    let found = MachineUser {
        id: 1,
        machine_code: "M-3".to_string(),
        user_uuid: Some(USER),
        platform: Some("windows".to_string()),
        bind_time: 0,
        status: "active".to_string(),
        version_info: None,
        hardware_hash: None,
        hardware_raw: None,
        allow: true,
        created_at: 0,
        updated_at: None,
    };
    let m = machine_auth_after_lookup("M-3".to_string(), Ok(found));
    assert_eq!(m.machine_code, "M-3");
    assert!(m.is_allowed);
    assert_eq!(m.platform.as_deref(), Some("windows"));
    assert_eq!(m.user_uuid, Some(USER));
    let m = machine_auth_after_lookup("M-4".to_string(), Err(()));
    assert!(m.is_allowed);
    assert!(m.platform.is_none());
    assert!(m.user_uuid.is_none());
}

#[test]
fn both_authentications_agree_without_api_key() {
    let wl = whitelist();
    let cases: Vec<(&str, &str, Option<&str>)> = vec![
        ("OPTIONS", "/x", None),
        ("POST", "/api/health", None),
        ("GET", "/x", None),
        ("GET", "/x", Some("Basic abc")),
        ("GET", "/x", Some("Bearer tok")),
    ];
    for (method, path, authorization) in cases {
        let single = auth(method, path, &wl, authorization);
        let dual = dual_auth(method, path, &wl, None, authorization);
        match single {
            AuthStep::Continue => assert!(matches!(dual, DualAuthStep::Continue)),
            AuthStep::Unauthorized => assert_eq!(reject_of(&dual).map(|r| r.0), Some(401)),
            AuthStep::VerifyToken(t) => match dual {
                DualAuthStep::VerifyToken(d) => assert_eq!(t, d),
                other => panic!("unexpected {:?}", other),
            },
        }
    }
}

#[test]
fn requests_without_user_skip_admin_check() {
    assert_eq!(admin_permission_check("DELETE", None), AdminStep::Continue);
    assert_eq!(
        admin_permission_check("DELETE", Some(7)),
        AdminStep::CheckPermission(7)
    );
}
