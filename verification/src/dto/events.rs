//! Workspace events: what changed in a workspace, for clients to resync.
use vstd::prelude::*;

use crate::clock::now_timestamp;

verus! {

/// What happened to an entity.
#[derive(Debug, Clone, Copy, PartialEq, Eq)]
pub enum EventType {
    Created,
    Updated,
    Deleted,
    BatchDeleted,
    Moved,
    TagsAssigned,
    TagsRemoved,
}

/// The kind of entity an event is about.
#[derive(Debug, Clone, Copy, PartialEq, Eq)]
pub enum EntityType {
    Environment,
    Group,
    Tag,
    Proxy,
    Account,
}

/// An event of a workspace. `event_id` is given by the event stream when
/// the event is stored; `created_at` is in milliseconds since the Unix epoch.
#[derive(Debug, Clone)]
pub struct WorkspaceEvent {
    pub event_id: String,
    pub workspace_uuid: u128,
    pub event_type: EventType,
    pub entity_type: EntityType,
    pub entity_id: Option<u128>,
    pub affected_apis: Vec<String>,
    pub payload: Option<serde_json::Value>,
    pub created_at: i64,
}

/// The instant `secs` seconds and `nanos` nanoseconds after the Unix epoch,
/// in whole milliseconds (the nanoseconds cut to milliseconds), as chrono's
/// `timestamp_millis` gives it.
pub open spec fn millis_since_epoch(secs: i64, nanos: u32) -> int {
    secs * 1000 + nanos / 1_000_000
}

impl WorkspaceEvent {
    /// A new event created at the given instant (milliseconds since the
    /// Unix epoch): no id yet, no payload.
    pub fn new_at(
        workspace_uuid: u128,
        event_type: EventType,
        entity_type: EntityType,
        entity_id: Option<u128>,
        affected_apis: Vec<String>,
        created_at: i64,
    ) -> (e: WorkspaceEvent)
        ensures
            e.event_id@ == Seq::<char>::empty(),
            e.workspace_uuid == workspace_uuid,
            e.event_type == event_type,
            e.entity_type == entity_type,
            e.entity_id == entity_id,
            e.affected_apis == affected_apis,
            e.payload is None,
            e.created_at == created_at,
    {
        WorkspaceEvent {
            event_id: String::new(),
            workspace_uuid,
            event_type,
            entity_type,
            entity_id,
            affected_apis,
            payload: None,
            created_at,
        }
    }

    /// A new event created now: no id yet, no payload, and as creation time
    /// the instant the clock gave, in milliseconds since the Unix epoch.
    pub fn new(
        workspace_uuid: u128,
        event_type: EventType,
        entity_type: EntityType,
        entity_id: Option<u128>,
        affected_apis: Vec<String>,
    ) -> (e: WorkspaceEvent)
        ensures
            e.event_id@ == Seq::<char>::empty(),
            e.workspace_uuid == workspace_uuid,
            e.event_type == event_type,
            e.entity_type == entity_type,
            e.entity_id == entity_id,
            e.affected_apis == affected_apis,
            e.payload is None,
            e.created_at >= 0,
            exists|secs: i64, nanos: u32|
                0 <= secs < 9_000_000_000_000 && nanos < 2_000_000_000 && e.created_at
                    == #[trigger] millis_since_epoch(secs, nanos),
    {
        let (secs, nanos) = now_timestamp();
        let millis = secs * 1000 + (nanos / 1_000_000) as i64;
        assert(millis == millis_since_epoch(secs, nanos));
        Self::new_at(workspace_uuid, event_type, entity_type, entity_id, affected_apis, millis)
    }

    /// The same event carrying the given payload.
    pub fn with_payload(self, payload: serde_json::Value) -> (e: WorkspaceEvent)
        ensures
            e == (WorkspaceEvent { payload: Some(payload), ..self }),
    {
        let mut e = self;
        e.payload = Some(payload);
        e
    }
}

/// An instant's milliseconds fall within its second: outside a leap second
/// they are the second's thousand plus the whole milliseconds of the
/// nanoseconds, so the millisecond count grows with the instant and divides
/// back to the second.
pub proof fn lemma_millis_within_second(secs: i64, nanos: u32)
    requires
        nanos < 1_000_000_000,
    ensures
        secs * 1000 <= millis_since_epoch(secs, nanos) < secs * 1000 + 1000,
        millis_since_epoch(secs, nanos) / 1000 == secs,
        millis_since_epoch(secs, nanos) * 1_000_000 <= secs * 1_000_000_000 + nanos
            < millis_since_epoch(secs, nanos) * 1_000_000 + 1_000_000,
{
    let m = nanos / 1_000_000;
    assert(m * 1_000_000 <= nanos < m * 1_000_000 + 1_000_000);
    assert(millis_since_epoch(secs, nanos) * 1_000_000 == secs * 1_000_000_000 + m * 1_000_000)
        by (nonlinear_arith)
        requires
            millis_since_epoch(secs, nanos) == secs * 1000 + m,
    ;
}

} // verus!
