use vstd::prelude::*;
use crate::envelope::{JsonReply, Rejection};
use crate::router::{
    bindings, bindings_upto, is_param, pair_texts, pattern_matches, segment_matches,
    segments_match_upto, Method, RouteMatch, Router,
};
use crate::text::{free_of, lemma_split_joined, lemma_split_single, split};

verus! {

/// The operations that the API offers, one per route.
#[derive(Clone, Copy, Debug, PartialEq, Eq, Structural)]
pub enum Endpoint {
    Health,
    ListUsers,
    CreateUser,
    GetUser,
    UpdateUser,
    DeleteUser,
    CacheGet,
    CacheSet,
    FileGet,
    FileUpload,
    Compute,
    Index,
}

/// Where a request goes: the operation, with the path parameter that it
/// works on, or the answer for a request that no route takes.
#[derive(Clone, Debug, PartialEq, Eq)]
pub enum Dispatch {
    Health,
    ListUsers,
    CreateUser,
    GetUser { id: String },
    UpdateUser { id: String },
    DeleteUser { id: String },
    CacheGet { key: String },
    CacheSet { key: String },
    FileGet { key: String },
    FileUpload { key: String },
    Compute,
    Index,
    NotFound(JsonReply<()>),
}

impl Dispatch {
    /// The operation that the request goes to, if a route took it.
    pub open spec fn endpoint(self) -> Option<Endpoint> {
        match self {
            Dispatch::Health => Some(Endpoint::Health),
            Dispatch::ListUsers => Some(Endpoint::ListUsers),
            Dispatch::CreateUser => Some(Endpoint::CreateUser),
            Dispatch::GetUser { .. } => Some(Endpoint::GetUser),
            Dispatch::UpdateUser { .. } => Some(Endpoint::UpdateUser),
            Dispatch::DeleteUser { .. } => Some(Endpoint::DeleteUser),
            Dispatch::CacheGet { .. } => Some(Endpoint::CacheGet),
            Dispatch::CacheSet { .. } => Some(Endpoint::CacheSet),
            Dispatch::FileGet { .. } => Some(Endpoint::FileGet),
            Dispatch::FileUpload { .. } => Some(Endpoint::FileUpload),
            Dispatch::Compute => Some(Endpoint::Compute),
            Dispatch::Index => Some(Endpoint::Index),
            Dispatch::NotFound(_) => None,
        }
    }

    /// The path parameter that the operation works on, if it has one.
    pub open spec fn param(self) -> Option<Seq<char>> {
        match self {
            Dispatch::GetUser { id } => Some(id@),
            Dispatch::UpdateUser { id } => Some(id@),
            Dispatch::DeleteUser { id } => Some(id@),
            Dispatch::CacheGet { key } => Some(key@),
            Dispatch::CacheSet { key } => Some(key@),
            Dispatch::FileGet { key } => Some(key@),
            Dispatch::FileUpload { key } => Some(key@),
            _ => None,
        }
    }
}

/// The path is `/` followed by `name`.
pub open spec fn is_top(parts: Seq<Seq<char>>, name: Seq<char>) -> bool {
    parts.len() == 2 && parts[0].len() == 0 && parts[1] == name
}

/// The path is `/api/` followed by `name`.
pub open spec fn is_collection(parts: Seq<Seq<char>>, name: Seq<char>) -> bool {
    parts.len() == 3 && parts[0].len() == 0 && parts[1] == "api"@ && parts[2] == name
}

/// The path is `/api/`, `name`, `/` and one more segment that is not empty.
pub open spec fn is_item(parts: Seq<Seq<char>>, name: Seq<char>) -> bool {
    parts.len() == 4 && parts[0].len() == 0 && parts[1] == "api"@ && parts[2] == name
        && parts[3].len() > 0
}

/// The operation that a request with `method` and `path` goes to, with the
/// path parameter that it works on; `None` for a request that no route takes.
pub open spec fn route_of(method: Method, path: Seq<char>) -> Option<
    (Endpoint, Option<Seq<char>>),
> {
    let parts = split(path, '/');
    if method == Method::Get && is_top(parts, "health"@) {
        Some((Endpoint::Health, None))
    } else if method == Method::Get && is_collection(parts, "users"@) {
        Some((Endpoint::ListUsers, None))
    } else if method == Method::Post && is_collection(parts, "users"@) {
        Some((Endpoint::CreateUser, None))
    } else if method == Method::Get && is_item(parts, "users"@) {
        Some((Endpoint::GetUser, Some(parts[3])))
    } else if method == Method::Put && is_item(parts, "users"@) {
        Some((Endpoint::UpdateUser, Some(parts[3])))
    } else if method == Method::Delete && is_item(parts, "users"@) {
        Some((Endpoint::DeleteUser, Some(parts[3])))
    } else if method == Method::Get && is_item(parts, "cached"@) {
        Some((Endpoint::CacheGet, Some(parts[3])))
    } else if method == Method::Put && is_item(parts, "cached"@) {
        Some((Endpoint::CacheSet, Some(parts[3])))
    } else if method == Method::Get && is_item(parts, "files"@) {
        Some((Endpoint::FileGet, Some(parts[3])))
    } else if method == Method::Put && is_item(parts, "files"@) {
        Some((Endpoint::FileUpload, Some(parts[3])))
    } else if method == Method::Post && is_collection(parts, "compute"@) {
        Some((Endpoint::Compute, None))
    } else if method == Method::Get && is_top(parts, ""@) {
        Some((Endpoint::Index, None))
    } else {
        None
    }
}

/// The routes of the API, in the order of their registration.
pub open spec fn api_table() -> Seq<(Method, Seq<char>, Endpoint)> {
    seq![
        (Method::Get, "/health"@, Endpoint::Health),
        (Method::Get, "/api/users"@, Endpoint::ListUsers),
        (Method::Post, "/api/users"@, Endpoint::CreateUser),
        (Method::Get, "/api/users/:id"@, Endpoint::GetUser),
        (Method::Put, "/api/users/:id"@, Endpoint::UpdateUser),
        (Method::Delete, "/api/users/:id"@, Endpoint::DeleteUser),
        (Method::Get, "/api/cached/:key"@, Endpoint::CacheGet),
        (Method::Put, "/api/cached/:key"@, Endpoint::CacheSet),
        (Method::Get, "/api/files/:key"@, Endpoint::FileGet),
        (Method::Put, "/api/files/:key"@, Endpoint::FileUpload),
        (Method::Post, "/api/compute"@, Endpoint::Compute),
        (Method::Get, "/"@, Endpoint::Index),
    ]
}

/// The registrations of `router` are those of `table`, in the same order.
pub open spec fn holds_table(
    router: Router<Endpoint>,
    table: Seq<(Method, Seq<char>, Endpoint)>,
) -> bool {
    &&& router.routes@.len() == table.len()
    &&& forall|i: int|
        0 <= i < table.len() ==> {
            &&& (#[trigger] router.routes@[i]).method == table[i].0
            &&& router.routes@[i].pattern@ == table[i].1
            &&& router.routes@[i].handler == table[i].2
        }
}

/// The router with the routes of the API.
pub fn api_router() -> (router: Router<Endpoint>)
    ensures
        holds_table(router, api_table()),
{
    Router::new()
        .get("/health", Endpoint::Health)
        .get("/api/users", Endpoint::ListUsers)
        .post("/api/users", Endpoint::CreateUser)
        .get("/api/users/:id", Endpoint::GetUser)
        .put("/api/users/:id", Endpoint::UpdateUser)
        .delete("/api/users/:id", Endpoint::DeleteUser)
        .get("/api/cached/:key", Endpoint::CacheGet)
        .put("/api/cached/:key", Endpoint::CacheSet)
        .get("/api/files/:key", Endpoint::FileGet)
        .put("/api/files/:key", Endpoint::FileUpload)
        .post("/api/compute", Endpoint::Compute)
        .get("/", Endpoint::Index)
}

/// A pattern of one literal segment after the first `/` takes exactly the
/// paths with that segment, and binds nothing.
proof fn lemma_top_pattern(pattern: Seq<char>, name: Seq<char>, path: Seq<char>)
    requires
        split(pattern, '/') == seq![Seq::<char>::empty(), name],
        !is_param(name),
    ensures
        pattern_matches(pattern, path) <==> is_top(split(path, '/'), name),
        bindings(pattern, path).len() == 0,
{
    let segments = split(pattern, '/');
    let parts = split(path, '/');
    reveal_with_fuel(bindings_upto, 3);
    if pattern_matches(pattern, path) {
        assert(segment_matches(segments[0], parts[0]));
        assert(segment_matches(segments[1], parts[1]));
        assert(parts[0] =~= Seq::<char>::empty());
    }
    if is_top(parts, name) {
        assert(parts[0] =~= Seq::<char>::empty());
        assert(segments_match_upto(segments, parts, 2));
    }
}

/// A pattern of `api` and one more literal segment takes exactly the paths
/// with these two segments, and binds nothing.
proof fn lemma_collection_pattern(pattern: Seq<char>, name: Seq<char>, path: Seq<char>)
    requires
        split(pattern, '/') == seq![Seq::<char>::empty(), "api"@, name],
        !is_param(name),
    ensures
        pattern_matches(pattern, path) <==> is_collection(split(path, '/'), name),
        bindings(pattern, path).len() == 0,
{
    let segments = split(pattern, '/');
    let parts = split(path, '/');
    reveal_with_fuel(bindings_upto, 4);
    reveal_strlit("api");
    assert(!is_param("api"@));
    if pattern_matches(pattern, path) {
        assert(segment_matches(segments[0], parts[0]));
        assert(segment_matches(segments[1], parts[1]));
        assert(segment_matches(segments[2], parts[2]));
        assert(parts[0] =~= Seq::<char>::empty());
    }
    if is_collection(parts, name) {
        assert(parts[0] =~= Seq::<char>::empty());
        assert(segments_match_upto(segments, parts, 3));
    }
}

/// A pattern of `api`, a literal segment and a parameter takes exactly the
/// paths with these two segments and a third that is not empty, and binds
/// the parameter to the third.
proof fn lemma_item_pattern(
    pattern: Seq<char>,
    name: Seq<char>,
    holder: Seq<char>,
    path: Seq<char>,
)
    requires
        split(pattern, '/') == seq![Seq::<char>::empty(), "api"@, name, holder],
        !is_param(name),
        is_param(holder),
    ensures
        pattern_matches(pattern, path) <==> is_item(split(path, '/'), name),
        pattern_matches(pattern, path) ==> bindings(pattern, path) == seq![
            (holder.skip(1), split(path, '/')[3]),
        ],
{
    let segments = split(pattern, '/');
    let parts = split(path, '/');
    reveal_with_fuel(bindings_upto, 5);
    reveal_strlit("api");
    assert(!is_param("api"@));
    if pattern_matches(pattern, path) {
        assert(segment_matches(segments[0], parts[0]));
        assert(segment_matches(segments[1], parts[1]));
        assert(segment_matches(segments[2], parts[2]));
        assert(segment_matches(segments[3], parts[3]));
        assert(parts[0] =~= Seq::<char>::empty());
        assert(bindings(pattern, path) =~= seq![(holder.skip(1), parts[3])]);
    }
    if is_item(parts, name) {
        assert(parts[0] =~= Seq::<char>::empty());
        assert(segments_match_upto(segments, parts, 4));
    }
}

/// The segments of `/health`.
proof fn lemma_health_pattern()
    ensures
        split("/health"@, '/') == seq![Seq::<char>::empty(), "health"@],
        !is_param("health"@),
{
    reveal_strlit("/health");
    reveal_strlit("health");
    let a = Seq::<char>::empty();
    let b = "health"@;
    assert("/health"@ == a.push('/') + b);
    assert(free_of(a, '/'));
    assert(free_of(b, '/'));
    lemma_split_single(b, '/');
    lemma_split_joined(a, b, '/');
}

/// The segments of `/`.
proof fn lemma_index_pattern()
    ensures
        split("/"@, '/') == seq![Seq::<char>::empty(), ""@],
        !is_param(""@),
{
    reveal_strlit("/");
    reveal_strlit("");
    let a = Seq::<char>::empty();
    let b = ""@;
    assert("/"@ == a.push('/') + b);
    assert(free_of(a, '/'));
    assert(free_of(b, '/'));
    lemma_split_single(b, '/');
    lemma_split_joined(a, b, '/');
}

/// The segments of a pattern that is `/api/` and `name`.
proof fn lemma_collection_segments(pattern: Seq<char>, name: Seq<char>)
    requires
        pattern == Seq::<char>::empty().push('/') + ("api"@.push('/') + name),
        free_of(name, '/'),
    ensures
        split(pattern, '/') == seq![Seq::<char>::empty(), "api"@, name],
{
    reveal_strlit("api");
    let a = Seq::<char>::empty();
    let b = "api"@;
    assert(free_of(a, '/'));
    assert(free_of(b, '/'));
    lemma_split_single(name, '/');
    lemma_split_joined(b, name, '/');
    lemma_split_joined(a, b.push('/') + name, '/');
}

/// The segments of a pattern that is `/api/`, `name`, `/` and `holder`.
proof fn lemma_item_segments(pattern: Seq<char>, name: Seq<char>, holder: Seq<char>)
    requires
        pattern == Seq::<char>::empty().push('/') + ("api"@.push('/') + (name.push('/') + holder)),
        free_of(name, '/'),
        free_of(holder, '/'),
    ensures
        split(pattern, '/') == seq![Seq::<char>::empty(), "api"@, name, holder],
{
    reveal_strlit("api");
    let a = Seq::<char>::empty();
    let b = "api"@;
    assert(free_of(a, '/'));
    assert(free_of(b, '/'));
    lemma_split_single(holder, '/');
    lemma_split_joined(name, holder, '/');
    lemma_split_joined(b, name.push('/') + holder, '/');
    lemma_split_joined(a, b.push('/') + (name.push('/') + holder), '/');
}

/// The segments of the three patterns without a parameter under `/api/`.
proof fn lemma_collection_patterns()
    ensures
        split("/api/users"@, '/') == seq![Seq::<char>::empty(), "api"@, "users"@],
        split("/api/compute"@, '/') == seq![Seq::<char>::empty(), "api"@, "compute"@],
        !is_param("users"@),
        !is_param("compute"@),
{
    reveal_strlit("api");
    reveal_strlit("users");
    reveal_strlit("compute");
    reveal_strlit("/api/users");
    reveal_strlit("/api/compute");
    assert("/api/users"@ == Seq::<char>::empty().push('/') + ("api"@.push('/') + "users"@));
    assert("/api/compute"@ == Seq::<char>::empty().push('/') + ("api"@.push('/') + "compute"@));
    assert(free_of("users"@, '/'));
    assert(free_of("compute"@, '/'));
    lemma_collection_segments("/api/users"@, "users"@);
    lemma_collection_segments("/api/compute"@, "compute"@);
}

/// The segments of the three patterns with a parameter.
proof fn lemma_item_patterns()
    ensures
        split("/api/users/:id"@, '/') == seq![Seq::<char>::empty(), "api"@, "users"@, ":id"@],
        split("/api/cached/:key"@, '/') == seq![Seq::<char>::empty(), "api"@, "cached"@, ":key"@],
        split("/api/files/:key"@, '/') == seq![Seq::<char>::empty(), "api"@, "files"@, ":key"@],
        !is_param("users"@),
        !is_param("cached"@),
        !is_param("files"@),
        is_param(":id"@),
        is_param(":key"@),
        ":id"@.skip(1) == "id"@,
        ":key"@.skip(1) == "key"@,
{
    reveal_strlit("api");
    reveal_strlit("users");
    reveal_strlit("cached");
    reveal_strlit("files");
    reveal_strlit(":id");
    reveal_strlit(":key");
    reveal_strlit("id");
    reveal_strlit("key");
    reveal_strlit("/api/users/:id");
    reveal_strlit("/api/cached/:key");
    reveal_strlit("/api/files/:key");
    let root = Seq::<char>::empty().push('/');
    assert("/api/users/:id"@ == root + ("api"@.push('/') + ("users"@.push('/') + ":id"@)));
    assert("/api/cached/:key"@ == root + ("api"@.push('/') + ("cached"@.push('/') + ":key"@)));
    assert("/api/files/:key"@ == root + ("api"@.push('/') + ("files"@.push('/') + ":key"@)));
    assert(free_of("users"@, '/'));
    assert(free_of("cached"@, '/'));
    assert(free_of("files"@, '/'));
    assert(free_of(":id"@, '/'));
    assert(free_of(":key"@, '/'));
    lemma_item_segments("/api/users/:id"@, "users"@, ":id"@);
    lemma_item_segments("/api/cached/:key"@, "cached"@, ":key"@);
    lemma_item_segments("/api/files/:key"@, "files"@, ":key"@);
    assert(":id"@.skip(1) == "id"@);
    assert(":key"@.skip(1) == "key"@);
}

/// The name of the path parameter that an operation works on, if it has one.
pub open spec fn param_name(endpoint: Endpoint) -> Option<Seq<char>> {
    match endpoint {
        Endpoint::GetUser | Endpoint::UpdateUser | Endpoint::DeleteUser => Some("id"@),
        Endpoint::CacheGet | Endpoint::CacheSet | Endpoint::FileGet | Endpoint::FileUpload => Some(
            "key"@,
        ),
        _ => None,
    }
}

/// What the first registration that takes a request comes to, for a router
/// with the routes of the API: the operation that `route_of` gives, and its
/// parameter as the only binding. Where no registration takes the request,
/// `route_of` gives none.
pub proof fn lemma_table_routes(
    router: Router<Endpoint>,
    method: Method,
    path: Seq<char>,
    found: Option<int>,
)
    requires
        holds_table(router, api_table()),
        match found {
            None => router.none_takes_before(method, path, 12),
            Some(k) => 0 <= k < 12 && router.routes@[k].takes(method, path)
                && router.none_takes_before(method, path, k),
        },
    ensures
        match found {
            None => route_of(method, path) is None,
            Some(k) => {
                let endpoint = router.routes@[k].handler;
                let bound = bindings(router.routes@[k].pattern@, path);
                &&& route_of(method, path) matches Some((routed, param))
                &&& routed == endpoint
                &&& match param_name(endpoint) {
                    Some(name) => bound.len() == 1 && bound[0] == (name, param->0)
                        && param is Some,
                    None => bound.len() == 0 && param is None,
                }
            },
        },
{
    lemma_health_pattern();
    lemma_index_pattern();
    lemma_collection_patterns();
    lemma_item_patterns();
    lemma_top_pattern("/health"@, "health"@, path);
    lemma_top_pattern("/"@, ""@, path);
    lemma_collection_pattern("/api/users"@, "users"@, path);
    lemma_collection_pattern("/api/compute"@, "compute"@, path);
    lemma_item_pattern("/api/users/:id"@, "users"@, ":id"@, path);
    lemma_item_pattern("/api/cached/:key"@, "cached"@, ":key"@, path);
    lemma_item_pattern("/api/files/:key"@, "files"@, ":key"@, path);
    // Each registration holds the pattern that the table gives it.
    let table = api_table();
    let routes = router.routes@;
    assert(routes[0].takes(method, path) <==> method == Method::Get && is_top(
        split(path, '/'),
        "health"@,
    ));
    assert(routes[1].pattern@ == table[1].1);
    assert(routes[2].pattern@ == table[2].1);
    assert(routes[3].pattern@ == table[3].1);
    assert(routes[4].pattern@ == table[4].1);
    assert(routes[5].pattern@ == table[5].1);
    assert(routes[6].pattern@ == table[6].1);
    assert(routes[7].pattern@ == table[7].1);
    assert(routes[8].pattern@ == table[8].1);
    assert(routes[9].pattern@ == table[9].1);
    assert(routes[10].pattern@ == table[10].1);
    assert(routes[11].pattern@ == table[11].1);
}

/// The value of the only path parameter of a match.
fn bound_value(found: &RouteMatch, name: &str) -> (value: String)
    requires
        pair_texts(found.params@).len() == 1,
        pair_texts(found.params@)[0].0 == name@,
    ensures
        value@ == pair_texts(found.params@)[0].1,
{
    assert(found.params@.last() == found.params@[0]);
    assert(pair_texts(found.params@)[0] == (found.params@[0].0@, found.params@[0].1@));
    found.param(name).unwrap().clone()
}

/// Routes a request: the first route of the API that takes `method` and
/// `path` decides the operation, and the path parameter that the operation
/// works on comes with it. A request that no route takes is answered with
/// 404.
pub fn fetch(method: Method, path: &str) -> (out: Dispatch)
    ensures
        match route_of(method, path@) {
            Some((endpoint, param)) => out.endpoint() == Some(endpoint) && out.param() == param,
            None => out matches Dispatch::NotFound(reply) && reply.is_rejection(
                Rejection::NotFound,
            ),
        },
{
    let router = api_router();
    match router.resolve(method, path) {
        None => {
            proof {
                lemma_table_routes(router, method, path@, None);
            }
            Dispatch::NotFound(JsonReply::rejected(&Rejection::NotFound))
        },
        Some(found) => {
            proof {
                lemma_table_routes(router, method, path@, Some(found.index as int));
            }
            match router.routes[found.index].handler {
                Endpoint::Health => Dispatch::Health,
                Endpoint::ListUsers => Dispatch::ListUsers,
                Endpoint::CreateUser => Dispatch::CreateUser,
                Endpoint::GetUser => Dispatch::GetUser { id: bound_value(&found, "id") },
                Endpoint::UpdateUser => Dispatch::UpdateUser { id: bound_value(&found, "id") },
                Endpoint::DeleteUser => Dispatch::DeleteUser { id: bound_value(&found, "id") },
                Endpoint::CacheGet => Dispatch::CacheGet { key: bound_value(&found, "key") },
                Endpoint::CacheSet => Dispatch::CacheSet { key: bound_value(&found, "key") },
                Endpoint::FileGet => Dispatch::FileGet { key: bound_value(&found, "key") },
                Endpoint::FileUpload => Dispatch::FileUpload { key: bound_value(&found, "key") },
                Endpoint::Compute => Dispatch::Compute,
                Endpoint::Index => Dispatch::Index,
            }
        },
    }
}

} // verus!
