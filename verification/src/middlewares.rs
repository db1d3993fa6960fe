//! The decisions of the request middlewares: which requests pass without
//! credentials, how the `Authorization` and `X-API-KEY` headers are read,
//! what each check's answer leads to, and which machine a request comes
//! from.
//!
//! A middleware that waits on a database or token check between its
//! decisions is split into steps: a first function says what to check, and
//! a second takes the check's answer.
use vstd::prelude::*;

use crate::dto::machine_users::MachineUser;
use crate::ids::{parse_uuid, uuid_parse};
use crate::text::{
    find_char, is_prefix, lacks, opt_str_view, text_eq, text_starts_with, texts,
};

verus! {

/// HTTP status of a missing or refused credential.
pub const UNAUTHORIZED: u16 = 401;

/// HTTP status of a refused permission.
pub const FORBIDDEN: u16 = 403;

/// HTTP status of a failed check.
pub const INTERNAL_SERVER_ERROR: u16 = 500;

/// The method and the path of a request: the path of the route that matched
/// it when there is one, else the path of its URI.
pub fn get_request_path_and_method<'a>(
    method: &'a str,
    matched_path: Option<&'a str>,
    uri_path: &'a str,
) -> (r: (&'a str, &'a str))
    ensures
        r.0@ == method@,
        r.1@ == match matched_path {
            Some(p) => p@,
            None => uri_path@,
        },
{
    let path = match matched_path {
        Some(p) => p,
        None => uri_path,
    };
    (method, path)
}

/// `METHOD+path`, the form in which routes are whitelisted.
pub open spec fn spec_whitelist_key(method: Seq<char>, path: Seq<char>) -> Seq<char> {
    method + "+"@ + path
}

/// The route is in the whitelist.
pub open spec fn spec_whitelisted(
    whitelists: Seq<Seq<char>>,
    method: Seq<char>,
    path: Seq<char>,
) -> bool {
    whitelists.contains(spec_whitelist_key(method, path))
}

/// `METHOD+path`.
pub fn whitelist_key(method: &str, path: &str) -> (r: String)
    ensures
        r@ == spec_whitelist_key(method@, path@),
{
    let mut s = String::from_str(method);
    s.append("+");
    s.append(path);
    s
}

/// Whether the route `METHOD+path` is in the whitelist.
pub fn is_whitelisted(whitelists: &Vec<String>, method: &str, path: &str) -> (r: bool)
    ensures
        r == spec_whitelisted(texts(whitelists@), method@, path@),
{
    let key = whitelist_key(method, path);
    let n = whitelists.len();
    let mut i: usize = 0;
    while i < n
        invariant
            n == whitelists.len(),
            i <= n,
            key@ == spec_whitelist_key(method@, path@),
            forall|j: int| 0 <= j < i ==> whitelists@[j]@ != key@,
        decreases n - i,
    {
        if whitelists[i] == key {
            assert(texts(whitelists@)[i as int] == key@);
            return true;
        }
        i = i + 1;
    }
    assert forall|j: int| 0 <= j < texts(whitelists@).len() implies texts(whitelists@)[j]
        != key@ by {
        assert(texts(whitelists@)[j] == whitelists@[j]@);
    }
    false
}

/// The token of an `Authorization: Bearer <token>` header.
pub open spec fn spec_bearer_token(header: Seq<char>) -> Option<Seq<char>> {
    if is_prefix("Bearer "@, header) {
        Some(header.subrange("Bearer "@.len() as int, header.len() as int))
    } else {
        None
    }
}

/// The token of an `Authorization` header that starts with `Bearer `.
pub fn bearer_token<'a>(header: &'a str) -> (r: Option<&'a str>)
    ensures
        match r {
            Some(t) => spec_bearer_token(header@) == Some(t@),
            None => spec_bearer_token(header@) is None,
        },
{
    let prefix = "Bearer ";
    if text_starts_with(header, prefix) {
        let n = header.unicode_len();
        let m = prefix.unicode_len();
        Some(header.substring_char(m, n))
    } else {
        None
    }
}

/// The text holds exactly one `':'`, at index `p`.
pub open spec fn single_colon_at(s: Seq<char>, p: int) -> bool {
    0 <= p < s.len() && s[p] == ':' && lacks(s.subrange(0, p), ':') && lacks(
        s.subrange(p + 1, s.len() as int),
        ':',
    )
}

/// The key id and the secret of an `X-API-KEY` header `key_id:key_secret`:
/// the header splits at `':'` into exactly two parts.
pub open spec fn spec_split_api_key(s: Seq<char>) -> Option<(Seq<char>, Seq<char>)> {
    if exists|p: int| single_colon_at(s, p) {
        let p = choose|p: int| single_colon_at(s, p);
        Some((s.subrange(0, p), s.subrange(p + 1, s.len() as int)))
    } else {
        None
    }
}

proof fn lemma_single_colon_unique(s: Seq<char>, p: int, q: int)
    requires
        single_colon_at(s, p),
        single_colon_at(s, q),
    ensures
        p == q,
{
    if p < q {
        assert(s.subrange(0, q)[p] == s[p]);
    } else if q < p {
        assert(s.subrange(0, p)[q] == s[q]);
    }
}

/// Splits `key_id:key_secret` into its two parts; no split when the header
/// has no `':'` or more than one.
pub fn split_api_key<'a>(key: &'a str) -> (r: Option<(&'a str, &'a str)>)
    ensures
        match r {
            Some((a, b)) => spec_split_api_key(key@) == Some((a@, b@)),
            None => spec_split_api_key(key@) is None,
        },
{
    let n = key.unicode_len();
    match find_char(key, ':') {
        Some(p) => {
            let rest = key.substring_char(p + 1, n);
            match find_char(rest, ':') {
                Some(q) => {
                    proof {
                        assert forall|x: int| !single_colon_at(key@, x) by {
                            if single_colon_at(key@, x) {
                                if x < p {
                                    assert(key@.subrange(x + 1, key@.len() as int)[p - x - 1]
                                        == key@[p as int]);
                                } else if x == p {
                                    assert(rest@[q as int] == key@[p + 1 + q]);
                                    assert(key@.subrange(x + 1, key@.len() as int)[q as int]
                                        == key@[p + 1 + q]);
                                } else {
                                    assert(key@.subrange(0, x)[p as int] == key@[p as int]);
                                }
                            }
                        }
                    }
                    None
                },
                None => {
                    let head = key.substring_char(0, p);
                    proof {
                        assert(single_colon_at(key@, p as int));
                        let c = choose|c: int| single_colon_at(key@, c);
                        lemma_single_colon_unique(key@, p as int, c);
                    }
                    Some((head, rest))
                },
            }
        },
        None => {
            proof {
                assert forall|x: int| !single_colon_at(key@, x) by {
                    if 0 <= x < key@.len() {
                        assert(key@[x] != ':');
                    }
                }
            }
            None
        },
    }
}

/// A presented `key_id:key_secret` is read back as the same key id and
/// secret, whenever neither holds a `':'`.
pub proof fn lemma_api_key_header_round_trip(key_id: Seq<char>, secret: Seq<char>)
    requires
        lacks(key_id, ':'),
        lacks(secret, ':'),
    ensures
        spec_split_api_key(key_id + seq![':'] + secret) == Some((key_id, secret)),
{
    let s = key_id + seq![':'] + secret;
    let p = key_id.len() as int;
    assert(s.subrange(0, p) =~= key_id);
    assert(s.subrange(p + 1, s.len() as int) =~= secret);
    assert(single_colon_at(s, p));
    let c = choose|c: int| single_colon_at(s, c);
    lemma_single_colon_unique(s, p, c);
}

// ------------------------------------------------------------------------
// JWT authentication
// ------------------------------------------------------------------------
/// The first step of the JWT middleware.
#[derive(Debug, Clone)]
pub enum AuthStep {
    /// Let the request through without a user.
    Continue,
    /// Answer 401.
    Unauthorized,
    /// Verify this bearer token.
    VerifyToken(String),
}

/// The first step of the JWT middleware, as plain values.
pub enum AuthDecision {
    Continue,
    Unauthorized,
    VerifyToken(Seq<char>),
}

impl View for AuthStep {
    type V = AuthDecision;

    open spec fn view(&self) -> AuthDecision {
        match self {
            AuthStep::Continue => AuthDecision::Continue,
            AuthStep::Unauthorized => AuthDecision::Unauthorized,
            AuthStep::VerifyToken(t) => AuthDecision::VerifyToken(t@),
        }
    }
}

/// `OPTIONS` requests and whitelisted routes pass; otherwise the request
/// needs an `Authorization: Bearer <token>` header, whose token is verified
/// next.
pub open spec fn spec_auth(
    method: Seq<char>,
    path: Seq<char>,
    whitelists: Seq<Seq<char>>,
    authorization: Option<Seq<char>>,
) -> AuthDecision {
    if method == "OPTIONS"@ {
        AuthDecision::Continue
    } else if spec_whitelisted(whitelists, method, path) {
        AuthDecision::Continue
    } else {
        match authorization {
            None => AuthDecision::Unauthorized,
            Some(h) => match spec_bearer_token(h) {
                Some(t) => AuthDecision::VerifyToken(t),
                None => AuthDecision::Unauthorized,
            },
        }
    }
}

/// The JWT middleware's first step. `authorization` is the `Authorization`
/// header as text, `None` when it is missing or not visible ASCII.
pub fn auth(method: &str, path: &str, whitelists: &Vec<String>, authorization: Option<&str>) -> (r:
    AuthStep)
    ensures
        r@ == spec_auth(method@, path@, texts(whitelists@), opt_str_view(authorization)),
{
    if text_eq(method, "OPTIONS") {
        return AuthStep::Continue;
    }
    if is_whitelisted(whitelists, method, path) {
        return AuthStep::Continue;
    }
    match authorization {
        None => AuthStep::Unauthorized,
        Some(h) => match bearer_token(h) {
            Some(t) => AuthStep::VerifyToken(t.to_owned()),
            None => AuthStep::Unauthorized,
        },
    }
}

/// The user of a verified token: the token's subject must be a UUID.
/// `verified` is the subject that the token check gave, or `Err` when the
/// token was refused; `None` means 401.
pub fn auth_user(verified: Result<String, ()>) -> (r: Option<u128>)
    ensures
        r == match verified {
            Ok(s) => uuid_parse(s@),
            Err(_) => None,
        },
{
    match verified {
        Ok(s) => parse_uuid(s.as_str()),
        Err(_) => None,
    }
}

/// What a request carries once the middlewares have run: its user, the
/// user's current team and workspace, and the machine it comes from.
#[derive(Debug, Clone)]
pub struct RequestContext {
    pub current_user: Option<u128>,
    pub current_team_uuid: Option<u128>,
    pub current_workspace_uuid: Option<u128>,
    pub current_machine_user: Option<CurrentMachineUser>,
}

/// What is stored of a user's selection: the current team and workspace.
#[derive(Debug, Clone, Copy, PartialEq, Eq)]
pub struct UserInfo {
    pub current_team_uuid: Option<u128>,
    pub current_workspace_uuid: Option<u128>,
}

/// The step of the JWT middleware once the token's user is known.
#[derive(Debug, Clone)]
pub enum AuthContextStep {
    /// The context is complete.
    Done(RequestContext),
    /// Look up the workspace of this team, then complete the context with
    /// it.
    LookUpTeamWorkspace(RequestContext, u128),
}

/// The context of a request whose token names `user`, given the user's
/// stored selection (`None` when it was not found or could not be read).
/// The context always gets the user. With a stored selection it gets the
/// user's current team, and the user's current workspace when one is set,
/// else the workspace of the current team, which is looked up next, else
/// none. Without one, team and workspace stay as they were.
pub fn auth_context(ctx: RequestContext, user: u128, info: Option<UserInfo>) -> (r:
    AuthContextStep)
    ensures
        match info {
            None => r matches AuthContextStep::Done(c) && c == (RequestContext {
                current_user: Some(user),
                ..ctx
            }),
            Some(i) => match (i.current_workspace_uuid, i.current_team_uuid) {
                (Some(w), _) => r matches AuthContextStep::Done(c) && c == (RequestContext {
                    current_user: Some(user),
                    current_team_uuid: i.current_team_uuid,
                    current_workspace_uuid: Some(w),
                    ..ctx
                }),
                (None, Some(t)) => r matches AuthContextStep::LookUpTeamWorkspace(c, team)
                    && team == t && c == (RequestContext {
                    current_user: Some(user),
                    current_team_uuid: Some(t),
                    ..ctx
                }),
                (None, None) => r matches AuthContextStep::Done(c) && c == (RequestContext {
                    current_user: Some(user),
                    current_team_uuid: None,
                    current_workspace_uuid: None,
                    ..ctx
                }),
            },
        },
{
    let mut c = ctx;
    c.current_user = Some(user);
    match info {
        None => AuthContextStep::Done(c),
        Some(i) => {
            c.current_team_uuid = i.current_team_uuid;
            match i.current_workspace_uuid {
                Some(w) => {
                    c.current_workspace_uuid = Some(w);
                    AuthContextStep::Done(c)
                },
                None => match i.current_team_uuid {
                    Some(t) => AuthContextStep::LookUpTeamWorkspace(c, t),
                    None => {
                        c.current_workspace_uuid = None;
                        AuthContextStep::Done(c)
                    },
                },
            }
        },
    }
}

/// Completes the context with the workspace of the user's current team:
/// that workspace, or none when the team was not found or could not be
/// read.
pub fn auth_context_with_team_workspace(ctx: RequestContext, team_workspace: Option<u128>) -> (r:
    RequestContext)
    ensures
        r == (RequestContext { current_workspace_uuid: team_workspace, ..ctx }),
{
    let mut c = ctx;
    c.current_workspace_uuid = team_workspace;
    c
}

// ------------------------------------------------------------------------
// API key or JWT authentication
// ------------------------------------------------------------------------
/// A step of the middleware that takes an API key or a JWT.
#[derive(Debug, Clone)]
pub enum DualAuthStep {
    /// Let the request through.
    Continue,
    /// Answer with this status and message.
    Reject(u16, &'static str),
    /// Validate this key id and secret.
    ValidateApiKey(String, String),
    /// Verify this bearer token.
    VerifyToken(String),
}

/// A step of the middleware, as plain values.
pub enum DualAuthDecision {
    Continue,
    Reject(u16, Seq<char>),
    ValidateApiKey(Seq<char>, Seq<char>),
    VerifyToken(Seq<char>),
}

impl View for DualAuthStep {
    type V = DualAuthDecision;

    open spec fn view(&self) -> DualAuthDecision {
        match self {
            DualAuthStep::Continue => DualAuthDecision::Continue,
            DualAuthStep::Reject(c, m) => DualAuthDecision::Reject(*c, m@),
            DualAuthStep::ValidateApiKey(k, s) => DualAuthDecision::ValidateApiKey(k@, s@),
            DualAuthStep::VerifyToken(t) => DualAuthDecision::VerifyToken(t@),
        }
    }
}

/// `OPTIONS` requests and whitelisted routes pass. An `X-API-KEY` header,
/// when present, decides alone: `key_id:key_secret` is validated next, any
/// other form is refused. Without it, an `Authorization: Bearer <token>`
/// header is needed, whose token is verified next.
///
/// `api_key` is `None` when there is no `X-API-KEY` header, `Some(None)`
/// when it is not visible ASCII.
pub open spec fn spec_dual_auth(
    method: Seq<char>,
    path: Seq<char>,
    whitelists: Seq<Seq<char>>,
    api_key: Option<Option<Seq<char>>>,
    authorization: Option<Seq<char>>,
) -> DualAuthDecision {
    if method == "OPTIONS"@ {
        DualAuthDecision::Continue
    } else if spec_whitelisted(whitelists, method, path) {
        DualAuthDecision::Continue
    } else {
        match api_key {
            Some(Some(k)) => match spec_split_api_key(k) {
                Some((id, secret)) => DualAuthDecision::ValidateApiKey(id, secret),
                None => DualAuthDecision::Reject(UNAUTHORIZED, "Invalid API key format"@),
            },
            Some(None) => DualAuthDecision::Reject(UNAUTHORIZED, "Invalid API key format"@),
            None => match authorization {
                None => DualAuthDecision::Reject(UNAUTHORIZED, "Missing authentication"@),
                Some(h) => match spec_bearer_token(h) {
                    Some(t) => DualAuthDecision::VerifyToken(t),
                    None => DualAuthDecision::Reject(
                        UNAUTHORIZED,
                        "Invalid authorization header format"@,
                    ),
                },
            },
        }
    }
}

pub open spec fn opt_opt_view(o: Option<Option<&str>>) -> Option<Option<Seq<char>>> {
    match o {
        Some(Some(s)) => Some(Some(s@)),
        Some(None) => Some(None),
        None => None,
    }
}

/// The first step of the middleware that takes an API key or a JWT.
pub fn dual_auth(
    method: &str,
    path: &str,
    whitelists: &Vec<String>,
    api_key: Option<Option<&str>>,
    authorization: Option<&str>,
) -> (r: DualAuthStep)
    ensures
        r@ == spec_dual_auth(
            method@,
            path@,
            texts(whitelists@),
            opt_opt_view(api_key),
            opt_str_view(authorization),
        ),
{
    if text_eq(method, "OPTIONS") {
        return DualAuthStep::Continue;
    }
    if is_whitelisted(whitelists, method, path) {
        return DualAuthStep::Continue;
    }
    match api_key {
        Some(Some(k)) => match split_api_key(k) {
            Some((id, secret)) => DualAuthStep::ValidateApiKey(id.to_owned(), secret.to_owned()),
            None => DualAuthStep::Reject(UNAUTHORIZED, "Invalid API key format"),
        },
        Some(None) => DualAuthStep::Reject(UNAUTHORIZED, "Invalid API key format"),
        None => match authorization {
            None => DualAuthStep::Reject(UNAUTHORIZED, "Missing authentication"),
            Some(h) => match bearer_token(h) {
                Some(t) => DualAuthStep::VerifyToken(t.to_owned()),
                None => DualAuthStep::Reject(UNAUTHORIZED, "Invalid authorization header format"),
            },
        },
    }
}

/// What the validation of an API key leads to: a valid key lets the request
/// through (with no user), an unknown or expired key is refused with 401,
/// and a failed lookup answers 500. `validated` is `Ok(true)` for a valid
/// key, `Ok(false)` for none, `Err` when the lookup failed.
pub fn dual_auth_api_key_outcome(validated: Result<bool, ()>) -> (r: DualAuthStep)
    ensures
        r@ == match validated {
            Ok(true) => DualAuthDecision::Continue,
            Ok(false) => DualAuthDecision::Reject(UNAUTHORIZED, "Invalid or expired API key"@),
            Err(_) => DualAuthDecision::Reject(
                INTERNAL_SERVER_ERROR,
                "Authentication service error"@,
            ),
        },
{
    match validated {
        Ok(true) => DualAuthStep::Continue,
        Ok(false) => DualAuthStep::Reject(UNAUTHORIZED, "Invalid or expired API key"),
        Err(_) => DualAuthStep::Reject(INTERNAL_SERVER_ERROR, "Authentication service error"),
    }
}

/// What a verified token leads to: the user whose UUID is the token's
/// subject, or a 401 with the reason.
pub fn dual_auth_token_outcome(verified: Result<String, ()>) -> (r: Result<
    u128,
    (u16, &'static str),
>)
    ensures
        match verified {
            Err(_) => r matches Err((c, m)) && c == UNAUTHORIZED && m@ == "Invalid or expired token"@,
            Ok(s) => match uuid_parse(s@) {
                Some(u) => r == Ok::<u128, (u16, &'static str)>(u),
                None => r matches Err((c, m)) && c == UNAUTHORIZED && m@
                    == "Invalid user identifier"@,
            },
        },
{
    match verified {
        Err(_) => Err((UNAUTHORIZED, "Invalid or expired token")),
        Ok(s) => match parse_uuid(s.as_str()) {
            Some(u) => Ok(u),
            None => Err((UNAUTHORIZED, "Invalid user identifier")),
        },
    }
}

// ------------------------------------------------------------------------
// Administrator permissions
// ------------------------------------------------------------------------
/// The first step of the administrator permission check.
#[derive(Debug, Clone, Copy, PartialEq, Eq)]
pub enum AdminStep {
    /// Let the request through.
    Continue,
    /// Check that this user is an active administrator with a permission
    /// for the route and method.
    CheckPermission(u128),
}

/// `OPTIONS` requests pass; requests authenticated by an API key (with no
/// current user) pass; a user's request is checked.
pub open spec fn spec_admin_permission_check(method: Seq<char>, current_user: Option<u128>) -> AdminStep {
    if method == "OPTIONS"@ {
        AdminStep::Continue
    } else {
        match current_user {
            Some(u) => AdminStep::CheckPermission(u),
            None => AdminStep::Continue,
        }
    }
}

/// The first step of the administrator permission check.
pub fn admin_permission_check(method: &str, current_user: Option<u128>) -> (r: AdminStep)
    ensures
        r == spec_admin_permission_check(method@, current_user),
{
    if text_eq(method, "OPTIONS") {
        return AdminStep::Continue;
    }
    match current_user {
        Some(u) => AdminStep::CheckPermission(u),
        None => AdminStep::Continue,
    }
}

/// What the permission check leads to: through when granted, 403 when
/// denied, 500 when the check failed.
pub fn admin_permission_outcome(check: Result<bool, ()>) -> (r: Result<(), u16>)
    ensures
        r == match check {
            Ok(true) => Ok::<(), u16>(()),
            Ok(false) => Err::<(), u16>(FORBIDDEN),
            Err(_) => Err::<(), u16>(INTERNAL_SERVER_ERROR),
        },
{
    match check {
        Ok(true) => Ok(()),
        Ok(false) => Err(FORBIDDEN),
        Err(_) => Err(INTERNAL_SERVER_ERROR),
    }
}

// ------------------------------------------------------------------------
// Machine codes
// ------------------------------------------------------------------------
/// The machine a request comes from.
#[derive(Debug, Clone)]
pub struct CurrentMachineUser {
    pub machine_code: String,
    pub platform: Option<String>,
    pub user_uuid: Option<u128>,
    pub is_allowed: bool,
}

/// The first step of the machine-code middleware.
#[derive(Debug, Clone)]
pub enum MachineAuthStep {
    /// The machine is known.
    Done(CurrentMachineUser),
    /// Look the machine up by its code.
    LookUpMachine,
}

/// After the blacklist check of a machine code: a blacklisted machine is
/// recorded as not allowed (the request still goes on); a machine that is
/// not blacklisted is looked up; when the check failed, the machine is
/// recorded as allowed with nothing else known.
pub fn machine_auth(machine_code: String, blacklisted: Result<bool, ()>) -> (r: MachineAuthStep)
    ensures
        match blacklisted {
            Ok(true) => r matches MachineAuthStep::Done(m) && m.machine_code == machine_code
                && m.platform is None && m.user_uuid is None && !m.is_allowed,
            Ok(false) => r is LookUpMachine,
            Err(_) => r matches MachineAuthStep::Done(m) && m.machine_code == machine_code
                && m.platform is None && m.user_uuid is None && m.is_allowed,
        },
{
    match blacklisted {
        Ok(true) => MachineAuthStep::Done(
            CurrentMachineUser {
                machine_code,
                platform: None,
                user_uuid: None,
                is_allowed: false,
            },
        ),
        Ok(false) => MachineAuthStep::LookUpMachine,
        Err(_) => MachineAuthStep::Done(
            CurrentMachineUser { machine_code, platform: None, user_uuid: None, is_allowed: true },
        ),
    }
}

/// After the lookup of a machine that is not blacklisted: it is allowed,
/// with the platform and user of the machine found, or with none when it
/// was not found.
pub fn machine_auth_after_lookup(machine_code: String, machine: Result<MachineUser, ()>) -> (r:
    CurrentMachineUser)
    ensures
        r.machine_code == machine_code,
        r.is_allowed,
        match machine {
            Ok(m) => r.platform == m.platform && r.user_uuid == m.user_uuid,
            Err(_) => r.platform is None && r.user_uuid is None,
        },
{
    match machine {
        Ok(m) => CurrentMachineUser {
            machine_code,
            platform: m.platform,
            user_uuid: m.user_uuid,
            is_allowed: true,
        },
        Err(_) => CurrentMachineUser {
            machine_code,
            platform: None,
            user_uuid: None,
            is_allowed: true,
        },
    }
}

/// The context of a request once its machine is known: it records the
/// machine and keeps the rest.
pub fn context_with_machine(ctx: RequestContext, machine: CurrentMachineUser) -> (r:
    RequestContext)
    ensures
        r == (RequestContext { current_machine_user: Some(machine), ..ctx }),
{
    let mut c = ctx;
    c.current_machine_user = Some(machine);
    c
}

// ------------------------------------------------------------------------
// Laws
// ------------------------------------------------------------------------
/// An `OPTIONS` request passes every middleware, whatever it carries.
pub proof fn lemma_options_always_pass(
    path: Seq<char>,
    whitelists: Seq<Seq<char>>,
    api_key: Option<Option<Seq<char>>>,
    authorization: Option<Seq<char>>,
    current_user: Option<u128>,
)
    ensures
        spec_auth("OPTIONS"@, path, whitelists, authorization) is Continue,
        spec_dual_auth("OPTIONS"@, path, whitelists, api_key, authorization) is Continue,
        spec_admin_permission_check("OPTIONS"@, current_user) == AdminStep::Continue,
{
}

/// A whitelisted route passes both authentication middlewares without any
/// credential.
pub proof fn lemma_whitelisted_routes_pass(
    method: Seq<char>,
    path: Seq<char>,
    whitelists: Seq<Seq<char>>,
    api_key: Option<Option<Seq<char>>>,
    authorization: Option<Seq<char>>,
)
    requires
        whitelists.contains(spec_whitelist_key(method, path)),
    ensures
        spec_auth(method, path, whitelists, authorization) is Continue,
        spec_dual_auth(method, path, whitelists, api_key, authorization) is Continue,
{
}

/// When an `X-API-KEY` header is present, the `Authorization` header plays
/// no part in the decision.
pub proof fn lemma_api_key_takes_precedence(
    method: Seq<char>,
    path: Seq<char>,
    whitelists: Seq<Seq<char>>,
    api_key: Option<Seq<char>>,
    authorization1: Option<Seq<char>>,
    authorization2: Option<Seq<char>>,
)
    ensures
        spec_dual_auth(method, path, whitelists, Some(api_key), authorization1) == spec_dual_auth(
            method,
            path,
            whitelists,
            Some(api_key),
            authorization2,
        ),
{
}

/// Without an `X-API-KEY` header the two authentication middlewares decide
/// alike: both let the request through, both verify the same bearer token,
/// or both refuse it with 401.
pub proof fn lemma_dual_auth_without_key_agrees_with_auth(
    method: Seq<char>,
    path: Seq<char>,
    whitelists: Seq<Seq<char>>,
    authorization: Option<Seq<char>>,
)
    ensures
        match spec_auth(method, path, whitelists, authorization) {
            AuthDecision::Continue => spec_dual_auth(
                method,
                path,
                whitelists,
                None,
                authorization,
            ) is Continue,
            AuthDecision::VerifyToken(t) => spec_dual_auth(
                method,
                path,
                whitelists,
                None,
                authorization,
            ) == DualAuthDecision::VerifyToken(t),
            AuthDecision::Unauthorized => spec_dual_auth(
                method,
                path,
                whitelists,
                None,
                authorization,
            ) matches DualAuthDecision::Reject(code, _) && code == UNAUTHORIZED,
        },
{
}

/// A request let through without a user (one authenticated by an API key)
/// passes the administrator check; a user's request other than `OPTIONS` is
/// checked for that user.
pub proof fn lemma_admin_check_only_for_users(method: Seq<char>, current_user: Option<u128>)
    ensures
        current_user is None ==> spec_admin_permission_check(method, current_user)
            == AdminStep::Continue,
        current_user is Some && method != "OPTIONS"@ ==> spec_admin_permission_check(
            method,
            current_user,
        ) == AdminStep::CheckPermission(current_user.unwrap()),
{
}

/// A key made by `create_api_key`, presented as `key_id:key_secret` on a
/// route that is neither whitelisted nor asked with `OPTIONS`, is validated
/// with exactly that key id and secret.
pub proof fn lemma_created_key_is_validated(
    key_id: Seq<char>,
    secret: Seq<char>,
    method: Seq<char>,
    path: Seq<char>,
    whitelists: Seq<Seq<char>>,
    authorization: Option<Seq<char>>,
)
    requires
        crate::models::apikey::is_api_key_id(key_id),
        crate::models::apikey::is_api_secret(secret),
        method != "OPTIONS"@,
        !whitelists.contains(spec_whitelist_key(method, path)),
    ensures
        spec_dual_auth(
            method,
            path,
            whitelists,
            Some(Some(key_id + seq![':'] + secret)),
            authorization,
        ) == DualAuthDecision::ValidateApiKey(key_id, secret),
{
    crate::models::apikey::lemma_credentials_lack_colon(key_id, secret);
    lemma_api_key_header_round_trip(key_id, secret);
}

} // verus!
