//! Routes, grouped under prefixes, under the prefix of the whole API.
use vstd::prelude::*;

verus! {

/// The HTTP method of a route.
#[allow(non_camel_case_types, clippy::upper_case_acronyms)]
#[derive(Debug, Clone, Copy, PartialEq, Eq)]
pub enum RequestMethod {
    GET,
    POST,
    PUT,
    DELETE,
    PATCH,
}

/// The handler that serves a route.
#[derive(Debug, Clone, Copy, PartialEq, Eq)]
pub enum Handler {
    GetApiKeys,
    CreateApiKey,
    UpdateApiKey,
    RevokeApiKey,
    SyncEvents,
    GetRpaTasks,
    GetRpaTask,
    CreateRpaTask,
    UpdateRpaTask,
    DeleteRpaTask,
    BatchDeleteRpaTasks,
    RunRpaTask,
    StopRpaTask,
    DuplicateRpaTask,
    ExportRpaTask,
    GetRpaRuns,
    GetRpaRun,
}

/// A route: a path within its group, a method, and the handler that serves
/// it.
#[derive(Debug, Clone)]
pub struct RouteItem {
    pub path: String,
    pub method: RequestMethod,
    pub handler: Handler,
}

/// The routes under one prefix, in the order they were added.
#[derive(Debug, Clone)]
pub struct RouteGroup {
    pub prefix: String,
    pub routes: Vec<RouteItem>,
}

/// All route groups under the prefix of the whole API.
#[derive(Debug, Clone)]
pub struct MetaRoute {
    pub prefix: String,
    pub routes: Vec<RouteGroup>,
}

impl View for RouteItem {
    type V = (Seq<char>, RequestMethod, Handler);

    open spec fn view(&self) -> (Seq<char>, RequestMethod, Handler) {
        (self.path@, self.method, self.handler)
    }
}

impl View for RouteGroup {
    type V = (Seq<char>, Seq<(Seq<char>, RequestMethod, Handler)>);

    open spec fn view(&self) -> (Seq<char>, Seq<(Seq<char>, RequestMethod, Handler)>) {
        (self.prefix@, self.routes@.map_values(|r: RouteItem| r@))
    }
}

/// What each group holds.
pub open spec fn groups_view(groups: Seq<RouteGroup>) -> Seq<
    (Seq<char>, Seq<(Seq<char>, RequestMethod, Handler)>),
> {
    groups.map_values(|g: RouteGroup| g@)
}

impl RouteItem {
    /// A route with the given path, method and handler.
    pub fn new(path: &str, method: RequestMethod, handler: Handler) -> (r: RouteItem)
        ensures
            r@ == (path@, method, handler),
    {
        RouteItem { path: String::from_str(path), method, handler }
    }

    /// A `POST` route with the given path and handler.
    pub fn post(path: &str, handler: Handler) -> (r: RouteItem)
        ensures
            r@ == (path@, RequestMethod::POST, handler),
    {
        RouteItem { path: String::from_str(path), method: RequestMethod::POST, handler }
    }
}

impl RouteGroup {
    /// An empty group under a prefix.
    pub fn new(prefix: &str) -> (r: RouteGroup)
        ensures
            r@ == (prefix@, Seq::<(Seq<char>, RequestMethod, Handler)>::empty()),
    {
        let r = RouteGroup { prefix: String::from_str(prefix), routes: Vec::new() };
        assert(r@.1 =~= Seq::<(Seq<char>, RequestMethod, Handler)>::empty());
        r
    }

    /// Adds a route at the end of the group.
    pub fn add_route_item(&mut self, item: RouteItem)
        ensures
            final(self)@ == (old(self)@.0, old(self)@.1.push(item@)),
    {
        let ghost before = self.routes@;
        self.routes.push(item);
        assert(self.routes@.map_values(|r: RouteItem| r@) =~= before.map_values(
            |r: RouteItem| r@,
        ).push(item@));
    }
}

impl MetaRoute {
    /// No groups yet, under the prefix of the whole API.
    pub fn new(prefix: String) -> (r: MetaRoute)
        ensures
            r.prefix == prefix,
            r.routes@.len() == 0,
    {
        MetaRoute { prefix, routes: Vec::new() }
    }

    /// Adds a group at the end.
    pub fn add_route_group(&mut self, group: RouteGroup)
        ensures
            final(self).prefix == old(self).prefix,
            final(self).routes@ == old(self).routes@.push(group),
    {
        self.routes.push(group);
    }
}

/// Adding a group keeps the groups before it and adds what it holds.
pub proof fn lemma_groups_view_push(groups: Seq<RouteGroup>, g: RouteGroup)
    ensures
        groups_view(groups.push(g)) == groups_view(groups).push(g@),
{
    assert(groups_view(groups.push(g)) =~= groups_view(groups).push(g@));
}

} // verus!
