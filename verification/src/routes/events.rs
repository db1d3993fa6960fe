//! The routes of the workspace event service.
use vstd::prelude::*;

use crate::routes::route::{
    groups_view, lemma_groups_view_push, Handler, MetaRoute, RequestMethod, RouteGroup,
    RouteItem,
};

verus! {

/// `/events`: `/sync` by `POST`, served by the event sync.
pub open spec fn spec_event_routes() -> (
    Seq<char>,
    Seq<(Seq<char>, RequestMethod, Handler)>,
) {
    ("/events"@, seq![("/sync"@, RequestMethod::POST, Handler::SyncEvents)])
}

/// Adds the group of the event service.
pub fn register_routes(meta_route: &mut MetaRoute)
    ensures
        final(meta_route).prefix == old(meta_route).prefix,
        groups_view(final(meta_route).routes@) == groups_view(old(meta_route).routes@).push(
            spec_event_routes(),
        ),
{
    let mut events_route = RouteGroup::new("/events");
    events_route.add_route_item(RouteItem::new("/sync", RequestMethod::POST, Handler::SyncEvents));
    assert(events_route@ =~~= spec_event_routes());
    proof {
        lemma_groups_view_push(meta_route.routes@, events_route);
    }
    meta_route.add_route_group(events_route);
}

} // verus!
