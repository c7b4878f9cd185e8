//! A JSON value model and the two status documents built from the records.

use vstd::prelude::*;
use crate::clock::RuntimeInfo;
use crate::info::{endpoint_view, Endpoint, RequestInfo, ServiceInfo, SystemInfo};

verus! {

/// A JSON value: a string, a signed or unsigned integer, an array, or an
/// object whose members keep their order.
pub enum JsonValue {
    Str(String),
    Int(i64),
    UInt(u64),
    Array(Vec<JsonValue>),
    Object(Vec<(String, JsonValue)>),
}

/// The members of an object (none for any other value).
pub open spec fn members(v: JsonValue) -> Seq<(String, JsonValue)> {
    match v {
        JsonValue::Object(m) => m@,
        _ => Seq::empty(),
    }
}

/// The keys of an object, in order.
pub open spec fn keys(v: JsonValue) -> Seq<Seq<char>> {
    members(v).map_values(|m: (String, JsonValue)| m.0@)
}

/// The value of the `i`-th member of an object.
pub open spec fn member(v: JsonValue, i: int) -> JsonValue {
    members(v)[i].1
}

/// The elements of an array (none for any other value).
pub open spec fn elements(v: JsonValue) -> Seq<JsonValue> {
    match v {
        JsonValue::Array(a) => a@,
        _ => Seq::empty(),
    }
}

/// The value is the string `s`.
pub open spec fn is_text(v: JsonValue, s: Seq<char>) -> bool {
    v matches JsonValue::Str(x) && x@ == s
}

/// The value is an object with exactly these keys, in this order.
pub open spec fn is_object_with(v: JsonValue, ks: Seq<Seq<char>>) -> bool {
    v is Object && keys(v) == ks
}

/// The value holds the service's description.
pub open spec fn describes_service(v: JsonValue, s: ServiceInfo) -> bool {
    &&& is_object_with(v, seq!["name"@, "version"@, "description"@, "framework"@])
    &&& is_text(member(v, 0), s.name@)
    &&& is_text(member(v, 1), s.version@)
    &&& is_text(member(v, 2), s.description@)
    &&& is_text(member(v, 3), s.framework@)
}

/// The value holds the host facts.
pub open spec fn describes_system(v: JsonValue, s: SystemInfo) -> bool {
    &&& is_object_with(
        v,
        seq![
            "hostname"@,
            "platform"@,
            "platform_version"@,
            "architecture"@,
            "cpu_count"@,
            "rust_version"@,
        ],
    )
    &&& is_text(member(v, 0), s.hostname@)
    &&& is_text(member(v, 1), s.platform@)
    &&& is_text(member(v, 2), s.platform_version@)
    &&& is_text(member(v, 3), s.architecture@)
    &&& member(v, 4) == JsonValue::UInt(s.cpu_count as u64)
    &&& is_text(member(v, 5), s.rust_version@)
}

/// The value holds the runtime record.
pub open spec fn describes_runtime(v: JsonValue, r: RuntimeInfo) -> bool {
    &&& is_object_with(v, seq!["uptime_seconds"@, "uptime_human"@, "current_time"@, "timezone"@])
    &&& member(v, 0) == JsonValue::Int(r.uptime_seconds)
    &&& is_text(member(v, 1), r.uptime_human@)
    &&& is_text(member(v, 2), r.current_time@)
    &&& is_text(member(v, 3), r.timezone@)
}

/// The value holds the request facts.
pub open spec fn describes_request(v: JsonValue, r: RequestInfo) -> bool {
    &&& is_object_with(v, seq!["client_ip"@, "user_agent"@, "method"@, "path"@])
    &&& is_text(member(v, 0), r.client_ip@)
    &&& is_text(member(v, 1), r.user_agent@)
    &&& is_text(member(v, 2), r.method@)
    &&& is_text(member(v, 3), r.path@)
}

/// The value holds one route.
pub open spec fn describes_endpoint(v: JsonValue, e: (Seq<char>, Seq<char>, Seq<char>)) -> bool {
    &&& is_object_with(v, seq!["path"@, "method"@, "description"@])
    &&& is_text(member(v, 0), e.0)
    &&& is_text(member(v, 1), e.1)
    &&& is_text(member(v, 2), e.2)
}

/// The value is an array holding the routes, in order.
pub open spec fn describes_endpoints(v: JsonValue, es: Seq<(Seq<char>, Seq<char>, Seq<char>)>) -> bool {
    &&& v is Array
    &&& elements(v).len() == es.len()
    &&& forall|i: int| 0 <= i < es.len() ==> describes_endpoint(#[trigger] elements(v)[i], es[i])
}

/// The value is the root document for these records.
pub open spec fn describes_root(
    v: JsonValue,
    request: RequestInfo,
    service: ServiceInfo,
    system: SystemInfo,
    runtime: RuntimeInfo,
    endpoints: Seq<(Seq<char>, Seq<char>, Seq<char>)>,
) -> bool {
    &&& is_object_with(v, seq!["service"@, "system"@, "runtime"@, "request"@, "endpoints"@])
    &&& describes_service(member(v, 0), service)
    &&& describes_system(member(v, 1), system)
    &&& describes_runtime(member(v, 2), runtime)
    &&& describes_request(member(v, 3), request)
    &&& describes_endpoints(member(v, 4), endpoints)
}

/// The value is the health document for this runtime record.
pub open spec fn describes_health(v: JsonValue, runtime: RuntimeInfo) -> bool {
    &&& is_object_with(v, seq!["status"@, "timestamp"@, "uptime_seconds"@])
    &&& is_text(member(v, 0), "healthy"@)
    &&& is_text(member(v, 1), runtime.current_time@)
    &&& member(v, 2) == JsonValue::Int(runtime.uptime_seconds)
}

fn text(s: &String) -> (r: JsonValue)
    ensures
        is_text(r, s@),
{
    JsonValue::Str(s.clone())
}

fn literal(s: &str) -> (r: JsonValue)
    ensures
        is_text(r, s@),
{
    JsonValue::Str(String::from_str(s))
}

fn entry(k: &str, v: JsonValue) -> (r: (String, JsonValue))
    ensures
        r.0@ == k@,
        r.1 == v,
{
    (String::from_str(k), v)
}

/// The object for the service's description.
pub fn service_json(s: &ServiceInfo) -> (r: JsonValue)
    ensures
        describes_service(r, *s),
{
    let m = vec![
        entry("name", text(&s.name)),
        entry("version", text(&s.version)),
        entry("description", text(&s.description)),
        entry("framework", text(&s.framework)),
    ];
    let r = JsonValue::Object(m);
    assert(keys(r) =~= seq!["name"@, "version"@, "description"@, "framework"@]);
    r
}

/// The object for the host facts.
pub fn system_json(s: &SystemInfo) -> (r: JsonValue)
    ensures
        describes_system(r, *s),
{
    let m = vec![
        entry("hostname", text(&s.hostname)),
        entry("platform", text(&s.platform)),
        entry("platform_version", text(&s.platform_version)),
        entry("architecture", text(&s.architecture)),
        entry("cpu_count", JsonValue::UInt(s.cpu_count as u64)),
        entry("rust_version", text(&s.rust_version)),
    ];
    let r = JsonValue::Object(m);
    assert(keys(r) =~= seq![
        "hostname"@,
        "platform"@,
        "platform_version"@,
        "architecture"@,
        "cpu_count"@,
        "rust_version"@,
    ]);
    r
}

/// The object for the runtime record.
pub fn runtime_json(rt: &RuntimeInfo) -> (r: JsonValue)
    ensures
        describes_runtime(r, *rt),
{
    let m = vec![
        entry("uptime_seconds", JsonValue::Int(rt.uptime_seconds)),
        entry("uptime_human", text(&rt.uptime_human)),
        entry("current_time", text(&rt.current_time)),
        entry("timezone", text(&rt.timezone)),
    ];
    let r = JsonValue::Object(m);
    assert(keys(r) =~= seq!["uptime_seconds"@, "uptime_human"@, "current_time"@, "timezone"@]);
    r
}

/// The object for the request facts.
pub fn request_json(q: &RequestInfo) -> (r: JsonValue)
    ensures
        describes_request(r, *q),
{
    let m = vec![
        entry("client_ip", text(&q.client_ip)),
        entry("user_agent", text(&q.user_agent)),
        entry("method", text(&q.method)),
        entry("path", text(&q.path)),
    ];
    let r = JsonValue::Object(m);
    assert(keys(r) =~= seq!["client_ip"@, "user_agent"@, "method"@, "path"@]);
    r
}

/// The object for one route.
pub fn endpoint_json(e: &Endpoint) -> (r: JsonValue)
    ensures
        describes_endpoint(r, endpoint_view(*e)),
{
    let m = vec![
        entry("path", text(&e.path)),
        entry("method", text(&e.method)),
        entry("description", text(&e.description)),
    ];
    let r = JsonValue::Object(m);
    assert(keys(r) =~= seq!["path"@, "method"@, "description"@]);
    r
}

/// The array of routes, in order.
pub fn endpoints_json(es: &Vec<Endpoint>) -> (r: JsonValue)
    ensures
        describes_endpoints(r, es@.map_values(|e: Endpoint| endpoint_view(e))),
{
    let mut out: Vec<JsonValue> = Vec::new();
    let mut i: usize = 0;
    while i < es.len()
        invariant
            i <= es@.len(),
            out@.len() == i,
            forall|j: int| 0 <= j < i ==> describes_endpoint(#[trigger] out@[j], endpoint_view(es@[j])),
        decreases es@.len() - i,
    {
        out.push(endpoint_json(&es[i]));
        i = i + 1;
    }
    JsonValue::Array(out)
}

/// The root document: the service, host, runtime and request records and the
/// routes, under "service", "system", "runtime", "request" and "endpoints".
pub fn build_root_response(
    request: &RequestInfo,
    service: &ServiceInfo,
    system: &SystemInfo,
    runtime: &RuntimeInfo,
    endpoints: &Vec<Endpoint>,
) -> (r: JsonValue)
    ensures
        describes_root(
            r,
            *request,
            *service,
            *system,
            *runtime,
            endpoints@.map_values(|e: Endpoint| endpoint_view(e)),
        ),
{
    let m = vec![
        entry("service", service_json(service)),
        entry("system", system_json(system)),
        entry("runtime", runtime_json(runtime)),
        entry("request", request_json(request)),
        entry("endpoints", endpoints_json(endpoints)),
    ];
    let r = JsonValue::Object(m);
    assert(keys(r) =~= seq!["service"@, "system"@, "runtime"@, "request"@, "endpoints"@]);
    r
}

/// The health document: status "healthy", the current time, and the uptime.
pub fn build_health_response(runtime: &RuntimeInfo) -> (r: JsonValue)
    ensures
        describes_health(r, *runtime),
{
    let m = vec![
        entry("status", literal("healthy")),
        entry("timestamp", text(&runtime.current_time)),
        entry("uptime_seconds", JsonValue::Int(runtime.uptime_seconds)),
    ];
    let r = JsonValue::Object(m);
    assert(keys(r) =~= seq!["status"@, "timestamp"@, "uptime_seconds"@]);
    r
}

} // verus!
