use devops_info::clock::{compute_uptime, runtime_info, Timestamp};
use devops_info::info::{endpoint_list, RequestInfo, ServiceInfo, SystemInfo};
use devops_info::json::{
    build_health_response, endpoints_json, request_json, runtime_json, service_json, system_json,
    JsonValue,
};
use devops_info::routes::{health_response, root_response};

const START: i64 = 1_770_894_000;

fn at(secs: i64, nanos: u32) -> Timestamp {
    Timestamp::new(secs, nanos).unwrap()
}

fn get<'a>(v: &'a JsonValue, key: &str) -> &'a JsonValue {
    match v {
        JsonValue::Object(m) => &m.iter().find(|(k, _)| k == key).unwrap().1,
        _ => panic!("not an object"),
    }
}

fn keys(v: &JsonValue) -> Vec<String> {
    match v {
        JsonValue::Object(m) => m.iter().map(|(k, _)| k.clone()).collect(),
        _ => panic!("not an object"),
    }
}

fn text(v: &JsonValue) -> &str {
    match v {
        JsonValue::Str(s) => s.as_str(),
        _ => panic!("not a string"),
    }
}

fn is_string(v: &JsonValue) -> bool {
    matches!(v, JsonValue::Str(_))
}

fn is_number(v: &JsonValue) -> bool {
    matches!(v, JsonValue::Int(_) | JsonValue::UInt(_))
}

fn as_u64(v: &JsonValue) -> Option<u64> {
    match v {
        JsonValue::Int(n) if *n >= 0 => Some(*n as u64),
        JsonValue::UInt(n) => Some(*n),
        _ => None,
    }
}

fn elements(v: &JsonValue) -> &Vec<JsonValue> {
    match v {
        JsonValue::Array(a) => a,
        _ => panic!("not an array"),
    }
}

fn sample_system() -> SystemInfo {
    SystemInfo::from_lookups(
        Some("test-host".to_string()),
        Some("Linux".to_string()),
        Some("5.10.0".to_string()),
        "x86_64".to_string(),
        Some(4),
        Some("1.75.0".to_string()),
    )
}

fn sample_request(agent: Option<&str>) -> RequestInfo {
    RequestInfo::from_parts(
        Some("127.0.0.1".to_string()),
        agent.map(|a| a.to_string()),
        "GET".to_string(),
        "/".to_string(),
    )
}

#[test]
fn test_root_endpoint_exists() {
    let doc = root_response(&at(START, 0), &at(START, 0), &sample_system(), &sample_request(None));
    assert_eq!(keys(&doc), vec!["service", "system", "runtime", "request", "endpoints"]);
}

#[test]
fn test_healthcheck_structure() {
    let runtime = runtime_info(&at(START, 0), &at(START + 3600, 0), "2026-02-12 12:00:00".to_string());
    let health_response = build_health_response(&runtime);

    assert_eq!(text(get(&health_response, "status")), "healthy");
    assert!(is_string(get(&health_response, "timestamp")));
    assert!(is_number(get(&health_response, "uptime_seconds")));
    assert_eq!(as_u64(get(&health_response, "uptime_seconds")), Some(3600));
}

#[test]
fn test_endpoint_response_format() {
    let doc = endpoints_json(&endpoint_list());
    let endpoints = elements(&doc);

    assert_eq!(endpoints.len(), 2);
    assert_eq!(text(get(&endpoints[0], "path")), "/");
    assert_eq!(text(get(&endpoints[0], "method")), "GET");
    assert_eq!(text(get(&endpoints[1], "path")), "/health");
    assert_eq!(text(get(&endpoints[1], "description")), "Health check");
}

#[test]
fn test_system_info_structure() {
    let system_info = system_json(&sample_system());

    assert!(is_string(get(&system_info, "hostname")));
    assert!(is_string(get(&system_info, "platform")));
    assert!(is_number(get(&system_info, "cpu_count")));
    assert!(as_u64(get(&system_info, "cpu_count")).unwrap() > 0);
    assert_eq!(text(get(&system_info, "hostname")), "test-host");
    assert_eq!(text(get(&system_info, "rust_version")), "1.75.0");
}

#[test]
fn test_service_info_structure() {
    let service_info = service_json(&ServiceInfo::current());

    assert_eq!(text(get(&service_info, "name")), "devops-info-service");
    assert_eq!(text(get(&service_info, "framework")), "Actix-web");
    assert!(is_string(get(&service_info, "version")));
    assert!(!text(get(&service_info, "version")).is_empty());
    assert_eq!(text(get(&service_info, "description")), "DevOps course info service");
}

#[test]
fn test_runtime_info_structure() {
    let runtime = runtime_json(&runtime_info(
        &at(START, 0),
        &at(START + 3600, 0),
        "2026-02-12 12:00:00".to_string(),
    ));

    assert!(is_number(get(&runtime, "uptime_seconds")));
    assert_eq!(as_u64(get(&runtime, "uptime_seconds")), Some(3600));
    assert_eq!(text(get(&runtime, "uptime_human")), "1 hours, 0 minutes");
    assert!(is_string(get(&runtime, "current_time")));
    assert_eq!(text(get(&runtime, "timezone")), "UTC");
}

#[test]
fn test_no_duplicate_endpoints() {
    let endpoints = endpoint_list();

    let mut seen = std::collections::HashSet::new();
    for endpoint in endpoints {
        let key = format!("{} {}", endpoint.method, endpoint.path);
        assert!(seen.insert(key.clone()), "Duplicate endpoint found: {}", key);
    }
    assert!(seen.contains("GET /"));
    assert!(seen.contains("GET /health"));
}

#[test]
fn health_after_one_hour() {
    let doc = health_response(&at(START, 250_000_000), &at(START + 3600, 250_000_000));
    assert_eq!(keys(&doc), vec!["status", "timestamp", "uptime_seconds"]);
    assert_eq!(text(get(&doc, "status")), "healthy");
    assert_eq!(text(get(&doc, "timestamp")), "2026-02-12 12:00:00");
    assert!(matches!(get(&doc, "uptime_seconds"), JsonValue::Int(3600)));
}

#[test]
fn health_uptime_never_negative() {
    let doc = health_response(&at(START, 0), &at(START - 60, 0));
    assert!(matches!(get(&doc, "uptime_seconds"), JsonValue::Int(0)));
}

#[test]
fn root_reports_user_agent() {
    let now = at(START + 5400, 0);
    let with = root_response(&at(START, 0), &now, &sample_system(), &sample_request(Some("curl/8.0")));
    assert_eq!(text(get(get(&with, "request"), "user_agent")), "curl/8.0");
    let without = root_response(&at(START, 0), &now, &sample_system(), &sample_request(None));
    assert_eq!(text(get(get(&without, "request"), "user_agent")), "unknown");
    assert_eq!(text(get(get(&without, "runtime"), "uptime_human")), "1 hours, 30 minutes");
    assert_eq!(text(get(get(&without, "runtime"), "current_time")), "2026-02-12 12:30:00");
}

#[test]
fn root_lists_two_distinct_routes() {
    let doc = root_response(&at(START, 0), &at(START, 0), &sample_system(), &sample_request(None));
    let eps = elements(get(&doc, "endpoints"));
    assert_eq!(eps.len(), 2);
    let a = (text(get(&eps[0], "path")), text(get(&eps[0], "method")));
    let b = (text(get(&eps[1], "path")), text(get(&eps[1], "method")));
    assert_ne!(a, b);
    assert_eq!(
        text(get(&eps[0], "description")),
        "System and service info about the server"
    );
}

#[test]
fn request_defaults_when_missing() {
    let r = RequestInfo::from_parts(None, None, "GET".to_string(), "/health".to_string());
    let doc = request_json(&r);
    assert_eq!(text(get(&doc, "client_ip")), "unknown");
    assert_eq!(text(get(&doc, "user_agent")), "unknown");
    assert_eq!(text(get(&doc, "method")), "GET");
    assert_eq!(text(get(&doc, "path")), "/health");
}

#[test]
fn failed_lookups_fall_back() {
    let s = SystemInfo::from_lookups(None, None, None, "aarch64".to_string(), None, None);
    assert_eq!(s.hostname, "");
    assert_eq!(s.platform, "");
    assert_eq!(s.platform_version, "");
    assert_eq!(s.architecture, "aarch64");
    assert_eq!(s.cpu_count, 1);
    assert_eq!(s.rust_version, "unknown");
    let doc = system_json(&s);
    assert!(matches!(get(&doc, "cpu_count"), JsonValue::UInt(1)));
}

#[test]
fn current_time_is_rendered_by_clock() {
    let r = compute_uptime(&at(0, 0), &at(1_770_897_600, 999_999_999));
    assert_eq!(r.current_time, "2026-02-12 12:00:00");
    let r = compute_uptime(&at(0, 0), &at(0, 0));
    assert_eq!(r.current_time, "1970-01-01 00:00:00");
}
