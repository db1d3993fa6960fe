//! The routes of the RPA workflow service.
use vstd::prelude::*;

use crate::routes::route::{
    groups_view, lemma_groups_view_push, Handler, MetaRoute, RequestMethod, RouteGroup,
    RouteItem,
};

verus! {

/// `/rpa`: task management, task operations and run records, all by `POST`,
/// each served by its handler.
pub open spec fn spec_rpa_routes() -> (
    Seq<char>,
    Seq<(Seq<char>, RequestMethod, Handler)>,
) {
    (
        "/rpa"@,
        seq![
            ("/tasks"@, RequestMethod::POST, Handler::GetRpaTasks),
            ("/tasks/detail"@, RequestMethod::POST, Handler::GetRpaTask),
            ("/tasks/create"@, RequestMethod::POST, Handler::CreateRpaTask),
            ("/tasks/update"@, RequestMethod::POST, Handler::UpdateRpaTask),
            ("/tasks/delete"@, RequestMethod::POST, Handler::DeleteRpaTask),
            ("/tasks/batch-delete"@, RequestMethod::POST, Handler::BatchDeleteRpaTasks),
            ("/tasks/run"@, RequestMethod::POST, Handler::RunRpaTask),
            ("/tasks/stop"@, RequestMethod::POST, Handler::StopRpaTask),
            ("/tasks/duplicate"@, RequestMethod::POST, Handler::DuplicateRpaTask),
            ("/tasks/export"@, RequestMethod::POST, Handler::ExportRpaTask),
            ("/runs"@, RequestMethod::POST, Handler::GetRpaRuns),
            ("/runs/detail"@, RequestMethod::POST, Handler::GetRpaRun),
        ],
    )
}

/// Adds the group of the RPA service.
pub fn register_routes(meta_route: &mut MetaRoute)
    ensures
        final(meta_route).prefix == old(meta_route).prefix,
        groups_view(final(meta_route).routes@) == groups_view(old(meta_route).routes@).push(
            spec_rpa_routes(),
        ),
{
    let mut rpa_route = RouteGroup::new("/rpa");
    rpa_route.add_route_item(RouteItem::post("/tasks", Handler::GetRpaTasks));
    rpa_route.add_route_item(RouteItem::post("/tasks/detail", Handler::GetRpaTask));
    rpa_route.add_route_item(RouteItem::post("/tasks/create", Handler::CreateRpaTask));
    rpa_route.add_route_item(RouteItem::post("/tasks/update", Handler::UpdateRpaTask));
    rpa_route.add_route_item(RouteItem::post("/tasks/delete", Handler::DeleteRpaTask));
    rpa_route.add_route_item(RouteItem::post("/tasks/batch-delete", Handler::BatchDeleteRpaTasks));
    rpa_route.add_route_item(RouteItem::post("/tasks/run", Handler::RunRpaTask));
    rpa_route.add_route_item(RouteItem::post("/tasks/stop", Handler::StopRpaTask));
    rpa_route.add_route_item(RouteItem::post("/tasks/duplicate", Handler::DuplicateRpaTask));
    rpa_route.add_route_item(RouteItem::post("/tasks/export", Handler::ExportRpaTask));
    rpa_route.add_route_item(RouteItem::post("/runs", Handler::GetRpaRuns));
    rpa_route.add_route_item(RouteItem::post("/runs/detail", Handler::GetRpaRun));
    assert(rpa_route@ =~~= spec_rpa_routes());
    proof {
        lemma_groups_view_push(meta_route.routes@, rpa_route);
    }
    meta_route.add_route_group(rpa_route);
}

} // verus!
