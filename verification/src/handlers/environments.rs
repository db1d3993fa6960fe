//! Environment handlers: the workspace and team a request needs, the
//! detail of an environment, and the answers of batch operations.
use vstd::prelude::*;

use crate::entitys::CreateResponse;
use crate::handlers::reply::Reply;
use crate::text::{decimal, nat_decimal};

verus! {

pub open spec fn workspace_missing_text() -> Seq<char> {
    "请先选择工作空间"@
}

pub open spec fn team_missing_text() -> Seq<char> {
    "请先选择团队"@
}

/// A request about environments, groups or tags needs the user's current
/// workspace and current team; the workspace is asked for first.
pub fn require_workspace_and_team(workspace: Option<u128>, team: Option<u128>) -> (r: Result<
    (u128, u128),
    &'static str,
>)
    ensures
        match (workspace, team) {
            (Some(w), Some(t)) => r == Ok::<(u128, u128), &'static str>((w, t)),
            (None, _) => r matches Err(m) && m@ == workspace_missing_text(),
            (Some(_), None) => r matches Err(m) && m@ == team_missing_text(),
        },
{
    match workspace {
        None => Err("请先选择工作空间"),
        Some(w) => match team {
            None => Err("请先选择团队"),
            Some(t) => Ok((w, t)),
        },
    }
}

/// The answers of a batch creation: one per created environment, in order.
pub fn batch_create_responses(env_uuids: &Vec<u128>) -> (r: Vec<CreateResponse>)
    ensures
        r@.len() == env_uuids@.len(),
        forall|i: int| 0 <= i < r@.len() ==> (#[trigger] r@[i]).uuid == env_uuids@[i],
{
    let mut out: Vec<CreateResponse> = Vec::new();
    let n = env_uuids.len();
    let mut i: usize = 0;
    while i < n
        invariant
            n == env_uuids@.len(),
            i <= n,
            out@.len() == i,
            forall|j: int| 0 <= j < i ==> (#[trigger] out@[j]).uuid == env_uuids@[j],
        decreases n - i,
    {
        out.push(CreateResponse { uuid: env_uuids[i] });
        i = i + 1;
    }
    out
}

/// `批量创建 {count} 个环境`, the audit note of a batch creation.
pub open spec fn spec_batch_create_note(count: nat) -> Seq<char> {
    "批量创建 "@ + decimal(count as int) + " 个环境"@
}

/// `批量删除 {count} 个环境`, the audit note of a batch deletion.
pub open spec fn spec_batch_delete_note(count: nat) -> Seq<char> {
    "批量删除 "@ + decimal(count as int) + " 个环境"@
}

/// The audit note of a batch creation of `count` environments.
pub fn batch_create_note(count: u64) -> (r: String)
    ensures
        r@ == spec_batch_create_note(count as nat),
{
    let mut s = String::from_str("批量创建 ");
    s.append(nat_decimal(count).as_str());
    s.append(" 个环境");
    s
}

/// The audit note of a batch deletion of `count` environments.
pub fn batch_delete_note(count: u64) -> (r: String)
    ensures
        r@ == spec_batch_delete_note(count as nat),
{
    let mut s = String::from_str("批量删除 ");
    s.append(nat_decimal(count).as_str());
    s.append(" 个环境");
    s
}

/// The detail of an environment: the environment, its configuration when it
/// could be read, its tags, its accounts, and its group and proxy when it has
/// them and they could be read.
#[derive(Debug, Clone)]
pub struct EnvironmentDetailResponse<E, C, T, A, G, P> {
    pub environment: E,
    pub config: Option<C>,
    pub tags: Vec<T>,
    pub accounts: Vec<A>,
    pub group: Option<G>,
    pub proxy: Option<P>,
}

/// The detail of an environment (`获取成功`), from what the services gave,
/// once the workspace and team are known: the environment and its tags are
/// needed (their failure fails the request, the environment's first); the
/// configuration, the accounts, the group and the proxy are shown when they
/// could be read. `group` and `proxy` are `None` when the environment has
/// none, so that none was looked up.
pub fn environment_detail<E, C, T, A, G, P>(
    environment: Result<E, String>,
    config: Result<C, ()>,
    tags: Result<Vec<T>, String>,
    accounts: Result<Vec<A>, ()>,
    group: Option<Result<G, ()>>,
    proxy: Option<Result<P, ()>>,
) -> (r: Result<Reply<EnvironmentDetailResponse<E, C, T, A, G, P>>, String>)
    ensures
        match (environment, tags) {
            (Err(e), _) => r == Err::<Reply<EnvironmentDetailResponse<E, C, T, A, G, P>>, String>(e),
            (Ok(_), Err(e)) => r == Err::<Reply<EnvironmentDetailResponse<E, C, T, A, G, P>>, String>(
                e,
            ),
            (Ok(env), Ok(ts)) => r matches Ok(reply) && reply.message@ == "获取成功"@
                && reply.data.environment == env && reply.data.config == match config {
                Ok(c) => Some(c),
                Err(_) => None,
            } && reply.data.tags == ts && reply.data.accounts@ == match accounts {
                Ok(a) => a@,
                Err(_) => Seq::<A>::empty(),
            } && reply.data.group == match group {
                Some(Ok(g)) => Some(g),
                _ => None,
            } && reply.data.proxy == match proxy {
                Some(Ok(p)) => Some(p),
                _ => None,
            },
        },
{
    let environment = match environment {
        Ok(e) => e,
        Err(e) => {
            return Err(e);
        },
    };
    let tags = match tags {
        Ok(t) => t,
        Err(e) => {
            return Err(e);
        },
    };
    let config = match config {
        Ok(c) => Some(c),
        Err(_) => None,
    };
    let accounts = match accounts {
        Ok(a) => a,
        Err(_) => Vec::new(),
    };
    let group = match group {
        Some(Ok(g)) => Some(g),
        _ => None,
    };
    let proxy = match proxy {
        Some(Ok(p)) => Some(p),
        _ => None,
    };
    Ok(
        Reply {
            message: "获取成功",
            data: EnvironmentDetailResponse { environment, config, tags, accounts, group, proxy },
        },
    )
}

} // verus!
