//! Console administrators and permissions: the permission each route
//! stands for, and the default windows of the administrator lists.
use vstd::prelude::*;

use crate::routes::route::{groups_view, Handler, MetaRoute, RequestMethod};

verus! {

/// Default page size of the administrator list.
pub const ADMIN_LIST_DEFAULT_LIMIT: i64 = 50;

/// Default page size of the permission list (in effect, all of them).
pub const PERMISSION_LIST_DEFAULT_LIMIT: i64 = 9999;

/// The limit and offset of a list: the given ones, else the default limit
/// and no offset.
pub fn list_window(limit: Option<i64>, offset: Option<i64>, default_limit: i64) -> (r: (i64, i64))
    ensures
        r.0 == match limit {
            Some(l) => l,
            None => default_limit,
        },
        r.1 == match offset {
            Some(o) => o,
            None => 0,
        },
{
    let l = match limit {
        Some(l) => l,
        None => default_limit,
    };
    let o = match offset {
        Some(o) => o,
        None => 0,
    };
    (l, o)
}

/// The name of a method, in capitals.
pub open spec fn spec_method_name(m: RequestMethod) -> Seq<char> {
    match m {
        RequestMethod::GET => "GET"@,
        RequestMethod::POST => "POST"@,
        RequestMethod::PUT => "PUT"@,
        RequestMethod::DELETE => "DELETE"@,
        RequestMethod::PATCH => "PATCH"@,
    }
}

/// The name of a method, in capitals.
pub fn method_name(m: RequestMethod) -> (r: &'static str)
    ensures
        r@ == spec_method_name(m),
{
    match m {
        RequestMethod::GET => "GET",
        RequestMethod::POST => "POST",
        RequestMethod::PUT => "PUT",
        RequestMethod::DELETE => "DELETE",
        RequestMethod::PATCH => "PATCH",
    }
}

/// The permission of one route: its full path (API prefix, group prefix,
/// route path), its method, and the description `METHOD full-path`.
pub open spec fn route_permission(
    api_prefix: Seq<char>,
    group_prefix: Seq<char>,
    item: (Seq<char>, RequestMethod, Handler),
) -> (Seq<char>, Seq<char>, Option<Seq<char>>) {
    let full = api_prefix + group_prefix + item.0;
    let m = spec_method_name(item.1);
    (full, m, Some(m + " "@ + full))
}

/// The permissions of the routes of one group, in order.
pub open spec fn group_permissions(
    api_prefix: Seq<char>,
    group: (Seq<char>, Seq<(Seq<char>, RequestMethod, Handler)>),
) -> Seq<(Seq<char>, Seq<char>, Option<Seq<char>>)> {
    group.1.map_values(|it: (Seq<char>, RequestMethod, Handler)| route_permission(api_prefix, group.0, it))
}

/// The permissions of all routes, group by group, in order.
pub open spec fn route_permissions(
    api_prefix: Seq<char>,
    groups: Seq<(Seq<char>, Seq<(Seq<char>, RequestMethod, Handler)>)>,
) -> Seq<(Seq<char>, Seq<char>, Option<Seq<char>>)>
    decreases groups.len(),
{
    if groups.len() == 0 {
        Seq::empty()
    } else {
        route_permissions(api_prefix, groups.drop_last()) + group_permissions(
            api_prefix,
            groups.last(),
        )
    }
}

/// What each permission holds.
pub open spec fn permission_views(v: Seq<(String, String, Option<String>)>) -> Seq<
    (Seq<char>, Seq<char>, Option<Seq<char>>),
> {
    v.map_values(
        |p: (String, String, Option<String>)|
            (
                p.0@,
                p.1@,
                match p.2 {
                    Some(d) => Some(d@),
                    None => None,
                },
            ),
    )
}

/// The permissions that the routes of the API stand for: one per route,
/// group by group and in the order of the routes, each as
/// `(full path, METHOD, Some("METHOD full path"))`.
pub fn sync_route_permissions(meta_route: &MetaRoute) -> (r: Vec<(String, String, Option<String>)>)
    ensures
        permission_views(r@) == route_permissions(
            meta_route.prefix@,
            groups_view(meta_route.routes@),
        ),
{
    let mut out: Vec<(String, String, Option<String>)> = Vec::new();
    let ghost api = meta_route.prefix@;
    let ghost gs = groups_view(meta_route.routes@);
    let ng = meta_route.routes.len();
    let mut g: usize = 0;
    while g < ng
        invariant
            ng == meta_route.routes@.len(),
            gs == groups_view(meta_route.routes@),
            api == meta_route.prefix@,
            g <= ng,
            permission_views(out@) == route_permissions(api, gs.take(g as int)),
        decreases ng - g,
    {
        let group = &meta_route.routes[g];
        let ghost gv = group@;
        assert(gv == gs[g as int]);
        let ghost base = permission_views(out@);
        let ni = group.routes.len();
        let mut i: usize = 0;
        while i < ni
            invariant
                ni == group.routes@.len(),
                gv == group@,
                api == meta_route.prefix@,
                i <= ni,
                permission_views(out@) == base + group_permissions(api, gv).take(i as int),
            decreases ni - i,
        {
            let item = &group.routes[i];
            let method = method_name(item.method);
            let mut full = meta_route.prefix.clone();
            full.append(group.prefix.as_str());
            full.append(item.path.as_str());
            let mut description = String::from_str(method);
            description.append(" ");
            description.append(full.as_str());
            let ghost before = out@;
            let entry = (full, String::from_str(method), Some(description));
            assert(gv.1[i as int] == item@);
            out.push(entry);
            assert(permission_views(out@) =~= permission_views(before).push(
                route_permission(api, gv.0, gv.1[i as int]),
            ));
            assert(group_permissions(api, gv).take(i + 1) =~= group_permissions(api, gv).take(
                i as int,
            ).push(route_permission(api, gv.0, gv.1[i as int])));
            i = i + 1;
        }
        assert(group_permissions(api, gv).take(ni as int) =~= group_permissions(api, gv));
        assert(gs.take(g + 1).drop_last() =~= gs.take(g as int));
        assert(gs.take(g + 1).last() == gv);
        g = g + 1;
    }
    assert(gs.take(ng as int) =~= gs);
    out
}

/// Whether a route's permission must be recorded, given the count of the
/// permissions already recorded for its path and method (`None` when the
/// count gave no row): only when there is none.
pub fn permission_missing(existing: Option<i64>) -> (r: bool)
    ensures
        r == match existing {
            Some(n) => n == 0,
            None => true,
        },
{
    match existing {
        Some(n) => n == 0,
        None => true,
    }
}

/// Whether an administrator may call a route, given the count of the
/// matching grants (`None` when the count gave no row): only when there is
/// at least one.
pub fn admin_permission_granted(count: Option<i64>) -> (r: bool)
    ensures
        r == match count {
            Some(n) => n > 0,
            None => false,
        },
{
    match count {
        Some(n) => n > 0,
        None => false,
    }
}

} // verus!
