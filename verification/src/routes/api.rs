//! The routes of the API-key service.
use vstd::prelude::*;

use crate::routes::route::{
    groups_view, lemma_groups_view_push, Handler, MetaRoute, RequestMethod, RouteGroup,
    RouteItem,
};

verus! {

/// `/api-keys`: list, create, update and revoke, all by `POST`, each served
/// by its handler.
pub open spec fn spec_api_routes() -> (
    Seq<char>,
    Seq<(Seq<char>, RequestMethod, Handler)>,
) {
    (
        "/api-keys"@,
        seq![
            ("/list"@, RequestMethod::POST, Handler::GetApiKeys),
            ("/create"@, RequestMethod::POST, Handler::CreateApiKey),
            ("/update"@, RequestMethod::POST, Handler::UpdateApiKey),
            ("/revoke"@, RequestMethod::POST, Handler::RevokeApiKey),
        ],
    )
}

/// Adds the group of the API-key service.
pub fn register_routes(meta_route: &mut MetaRoute)
    ensures
        final(meta_route).prefix == old(meta_route).prefix,
        groups_view(final(meta_route).routes@) == groups_view(old(meta_route).routes@).push(
            spec_api_routes(),
        ),
{
    let mut api_route = RouteGroup::new("/api-keys");
    api_route.add_route_item(RouteItem::post("/list", Handler::GetApiKeys));
    api_route.add_route_item(RouteItem::post("/create", Handler::CreateApiKey));
    api_route.add_route_item(RouteItem::post("/update", Handler::UpdateApiKey));
    api_route.add_route_item(RouteItem::post("/revoke", Handler::RevokeApiKey));
    assert(api_route@ =~~= spec_api_routes());
    proof {
        lemma_groups_view_push(meta_route.routes@, api_route);
    }
    meta_route.add_route_group(api_route);
}

} // verus!
