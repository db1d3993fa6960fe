//! Syncing workspace events.
use vstd::prelude::*;

use crate::dto::events::WorkspaceEvent;
use crate::handlers::reply::Reply;
use crate::text::opt_string_view;

verus! {

/// Sync the events after the last one the client has seen.
#[derive(Debug, Clone)]
pub struct SyncEventsRequest {
    pub last_event_id: Option<String>,
}

/// The events since the last one seen, whether the client must reload
/// everything instead, and the id of the newest event returned.
#[derive(Debug, Clone)]
pub struct SyncEventsResponse {
    pub events: Vec<WorkspaceEvent>,
    pub full_refresh: bool,
    pub latest_event_id: Option<String>,
}

/// The message of a sync without a current workspace.
pub fn no_workspace_message() -> (r: &'static str)
    ensures
        r@ == "未选择工作空间"@,
{
    "未选择工作空间"
}

/// The message of a sync whose events could not be read.
pub fn events_unavailable_message() -> (r: &'static str)
    ensures
        r@ == "获取事件失败"@,
{
    "获取事件失败"
}

/// A sync needs the workspace the user has selected.
pub fn sync_events_workspace(current_workspace: Option<u128>) -> (r: Result<u128, &'static str>)
    ensures
        match current_workspace {
            Some(w) => r == Ok::<u128, &'static str>(w),
            None => r matches Err(m) && m@ == "未选择工作空间"@,
        },
{
    match current_workspace {
        Some(w) => Ok(w),
        None => Err(no_workspace_message()),
    }
}

/// The client named a last event but no event follows it: the event may
/// have expired (events are kept 72 hours), which the store is asked next.
pub open spec fn spec_needs_existence_check(
    last_event_id: Option<Seq<char>>,
    event_count: nat,
) -> bool {
    match last_event_id {
        Some(id) => id.len() > 0 && event_count == 0,
        None => false,
    }
}

/// Whether the store must be asked if the last event still exists.
pub fn sync_needs_existence_check(req: &SyncEventsRequest, event_count: usize) -> (r: bool)
    ensures
        r == spec_needs_existence_check(opt_string_view(req.last_event_id), event_count as nat),
{
    match &req.last_event_id {
        Some(id) => !id.as_str().is_empty() && event_count == 0,
        None => false,
    }
}

/// The answer of a sync, given the events read since the last one seen
/// (`Err` when they could not be read) and, when the existence of the last
/// event was checked, the answer of that check (`Err` when the check
/// failed). Unreadable events fail the sync with `获取事件失败`; otherwise
/// the sync succeeds (`同步成功`) with the events, whether the client must
/// reload everything (only when the check was due and found that the last
/// event no longer exists), and the id of the newest event returned.
pub fn sync_events_handler(
    req: &SyncEventsRequest,
    events: Result<Vec<WorkspaceEvent>, ()>,
    last_event_exists: Option<Result<bool, ()>>,
) -> (r: Result<Reply<SyncEventsResponse>, &'static str>)
    ensures
        match events {
            Err(_) => r matches Err(m) && m@ == "获取事件失败"@,
            Ok(evs) => r matches Ok(reply) && reply.message@ == "同步成功"@ && reply.data.events
                == evs && reply.data.full_refresh == (spec_needs_existence_check(
                opt_string_view(req.last_event_id),
                evs@.len(),
            ) && last_event_exists == Some(Ok::<bool, ()>(false))) && reply.data.latest_event_id
                == if evs@.len() == 0 {
                None::<String>
            } else {
                Some(evs@.last().event_id)
            },
        },
{
    let events = match events {
        Ok(evs) => evs,
        Err(_) => {
            return Err(events_unavailable_message());
        },
    };
    let needs_check = sync_needs_existence_check(req, events.len());
    let full_refresh = if needs_check {
        match last_event_exists {
            Some(Ok(exists)) => !exists,
            Some(Err(_)) => false,
            None => false,
        }
    } else {
        false
    };
    let latest_event_id = if events.len() == 0 {
        None
    } else {
        Some(events[events.len() - 1].event_id.clone())
    };
    Ok(
        Reply {
            message: "同步成功",
            data: SyncEventsResponse { events, full_refresh, latest_event_id },
        },
    )
}

/// A client is told to reload everything only if it named a last event,
/// no newer event was found, and that event no longer exists.
pub proof fn lemma_full_refresh_only_when_lost(
    last_event_id: Option<Seq<char>>,
    event_count: nat,
    last_event_exists: Option<Result<bool, ()>>,
)
    requires
        spec_needs_existence_check(last_event_id, event_count) && last_event_exists == Some(
            Ok::<bool, ()>(false),
        ),
    ensures
        last_event_id matches Some(id) && id.len() > 0,
        event_count == 0,
{
}

} // verus!
