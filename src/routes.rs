//! The documents of the two routes, for a process started at a given instant
//! and a request served at another.

use vstd::prelude::*;
use crate::clock::{
    compute_uptime, elapsed_seconds, human_text, lemma_uptime_nonnegative, utc_text_of,
    Timestamp, CLOCK_LAYOUT,
};
use crate::info::{endpoint_list, route_table, routes_distinct, RequestInfo, ServiceInfo, SystemInfo};
use crate::json::{
    build_health_response, build_root_response, describes_endpoints, describes_request,
    describes_system, elements, is_object_with, is_text, keys, member, JsonValue,
};

verus! {

/// The text held by a string value (empty for any other value).
pub open spec fn text_of(v: JsonValue) -> Seq<char> {
    match v {
        JsonValue::Str(s) => s@,
        _ => Seq::empty(),
    }
}

/// The (path, method) of a route object.
pub open spec fn route_key(e: JsonValue) -> (Seq<char>, Seq<char>) {
    (text_of(member(e, 0)), text_of(member(e, 1)))
}

/// The runtime object of a request served at `now` by a process started at
/// `start`.
pub open spec fn runtime_at(v: JsonValue, start: Timestamp, now: Timestamp) -> bool {
    &&& is_object_with(v, seq!["uptime_seconds"@, "uptime_human"@, "current_time"@, "timezone"@])
    &&& member(v, 0) == JsonValue::Int(elapsed_seconds(start, now) as i64)
    &&& is_text(member(v, 1), human_text(elapsed_seconds(start, now)))
    &&& is_text(member(v, 2), utc_text_of(now.secs as int, CLOCK_LAYOUT@))
    &&& is_text(member(v, 3), "UTC"@)
}

/// The service object of this service.
pub open spec fn this_service(v: JsonValue) -> bool {
    &&& is_object_with(v, seq!["name"@, "version"@, "description"@, "framework"@])
    &&& is_text(member(v, 0), "devops-info-service"@)
    &&& is_text(member(v, 1), "1.0.0"@)
    &&& is_text(member(v, 2), "DevOps course info service"@)
    &&& is_text(member(v, 3), "Actix-web"@)
}

/// The root document served at `now` by a process started at `start`.
pub open spec fn root_document(
    v: JsonValue,
    start: Timestamp,
    now: Timestamp,
    system: SystemInfo,
    request: RequestInfo,
) -> bool {
    &&& is_object_with(v, seq!["service"@, "system"@, "runtime"@, "request"@, "endpoints"@])
    &&& this_service(member(v, 0))
    &&& describes_system(member(v, 1), system)
    &&& runtime_at(member(v, 2), start, now)
    &&& describes_request(member(v, 3), request)
    &&& describes_endpoints(member(v, 4), route_table())
}

/// The health document served at `now` by a process started at `start`.
pub open spec fn health_document(v: JsonValue, start: Timestamp, now: Timestamp) -> bool {
    &&& is_object_with(v, seq!["status"@, "timestamp"@, "uptime_seconds"@])
    &&& is_text(member(v, 0), "healthy"@)
    &&& is_text(member(v, 1), utc_text_of(now.secs as int, CLOCK_LAYOUT@))
    &&& member(v, 2) == JsonValue::Int(elapsed_seconds(start, now) as i64)
}

/// The document of `GET /`.
pub fn root_response(start: &Timestamp, now: &Timestamp, system: &SystemInfo, request: &RequestInfo) -> (r: JsonValue)
    requires
        start.wf(),
        now.wf(),
    ensures
        root_document(r, *start, *now, *system, *request),
{
    let service = ServiceInfo::current();
    let runtime = compute_uptime(start, now);
    let endpoints = endpoint_list();
    build_root_response(request, &service, system, &runtime, &endpoints)
}

/// The document of `GET /health`.
pub fn health_response(start: &Timestamp, now: &Timestamp) -> (r: JsonValue)
    requires
        start.wf(),
        now.wf(),
    ensures
        health_document(r, *start, *now),
{
    let runtime = compute_uptime(start, now);
    build_health_response(&runtime)
}

/// A health document has exactly the keys "status", "timestamp" and
/// "uptime_seconds", its status is "healthy", and its uptime is a
/// non-negative integer, whatever the clock reads.
pub proof fn lemma_health_document_shape(v: JsonValue, start: Timestamp, now: Timestamp)
    requires
        start.wf(),
        now.wf(),
        health_document(v, start, now),
    ensures
        keys(v) == seq!["status"@, "timestamp"@, "uptime_seconds"@],
        text_of(member(v, 0)) == "healthy"@,
        member(v, 2) matches JsonValue::Int(n) && n >= 0,
{
    lemma_uptime_nonnegative(start, now);
}

/// The routes listed by a root document are two, and no two of them share a
/// path and a method.
pub proof fn lemma_root_routes_distinct(
    v: JsonValue,
    start: Timestamp,
    now: Timestamp,
    system: SystemInfo,
    request: RequestInfo,
)
    requires
        root_document(v, start, now, system, request),
    ensures
        elements(member(v, 4)).len() == 2,
        forall|i: int, j: int|
            0 <= i < 2 && 0 <= j < 2 && i != j ==> route_key(#[trigger] elements(member(v, 4))[i])
                != route_key(#[trigger] elements(member(v, 4))[j]),
{
    assert(describes_endpoints(member(v, 4), route_table()));
    assert("/"@ != "/health"@) by {
        reveal_strlit("/");
        reveal_strlit("/health");
        assert("/"@.len() != "/health"@.len());
    }
    assert(routes_distinct(route_table()));
}

} // verus!
