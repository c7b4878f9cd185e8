//! The records that the status documents are made of: the service's own
//! description, host facts with their fallbacks, per-request facts, and the
//! table of routes.

use vstd::prelude::*;

verus! {

/// The service's fixed description.
pub struct ServiceInfo {
    pub name: String,
    pub version: String,
    pub description: String,
    pub framework: String,
}

impl ServiceInfo {
    /// The description of this service.
    pub fn current() -> (r: ServiceInfo)
        ensures
            r.name@ == "devops-info-service"@,
            r.version@ == "1.0.0"@,
            r.description@ == "DevOps course info service"@,
            r.framework@ == "Actix-web"@,
    {
        ServiceInfo {
            name: String::from_str("devops-info-service"),
            version: String::from_str("1.0.0"),
            description: String::from_str("DevOps course info service"),
            framework: String::from_str("Actix-web"),
        }
    }
}

/// Facts about the host the service runs on.
pub struct SystemInfo {
    pub hostname: String,
    pub platform: String,
    pub platform_version: String,
    pub architecture: String,
    pub cpu_count: usize,
    pub rust_version: String,
}

/// The text of a lookup that may have failed, with a fallback.
pub open spec fn text_or(v: Option<String>, fallback: Seq<char>) -> Seq<char> {
    match v {
        Some(s) => s@,
        None => fallback,
    }
}

fn string_or(v: Option<String>, fallback: &str) -> (r: String)
    ensures
        r@ == text_or(v, fallback@),
{
    match v {
        Some(s) => s,
        None => String::from_str(fallback),
    }
}

impl SystemInfo {
    /// Assembles the host facts from lookups that may each have failed: a
    /// failed hostname, platform or platform version becomes "", a failed CPU
    /// count becomes 1, and a failed toolchain version becomes "unknown".
    pub fn from_lookups(
        hostname: Option<String>,
        platform: Option<String>,
        platform_version: Option<String>,
        architecture: String,
        cpu_count: Option<u32>,
        rust_version: Option<String>,
    ) -> (r: SystemInfo)
        ensures
            r.hostname@ == text_or(hostname, ""@),
            r.platform@ == text_or(platform, ""@),
            r.platform_version@ == text_or(platform_version, ""@),
            r.architecture@ == architecture@,
            r.cpu_count == (match cpu_count {
                Some(n) => n as usize,
                None => 1usize,
            }),
            r.rust_version@ == text_or(rust_version, "unknown"@),
    {
        SystemInfo {
            hostname: string_or(hostname, ""),
            platform: string_or(platform, ""),
            platform_version: string_or(platform_version, ""),
            architecture,
            cpu_count: match cpu_count {
                Some(n) => n as usize,
                None => 1,
            },
            rust_version: string_or(rust_version, "unknown"),
        }
    }
}

/// Facts about one inbound request.
pub struct RequestInfo {
    pub client_ip: String,
    pub user_agent: String,
    pub method: String,
    pub path: String,
}

impl RequestInfo {
    /// Assembles the request facts; a missing client address or a missing or
    /// unreadable `User-Agent` header becomes "unknown".
    pub fn from_parts(client_ip: Option<String>, user_agent: Option<String>, method: String, path: String) -> (r: RequestInfo)
        ensures
            r.client_ip@ == text_or(client_ip, "unknown"@),
            r.user_agent@ == text_or(user_agent, "unknown"@),
            r.method@ == method@,
            r.path@ == path@,
    {
        RequestInfo {
            client_ip: string_or(client_ip, "unknown"),
            user_agent: string_or(user_agent, "unknown"),
            method,
            path,
        }
    }
}

/// One route that the service answers.
pub struct Endpoint {
    pub path: String,
    pub method: String,
    pub description: String,
}

/// The routes of the service as (path, method, description).
pub open spec fn route_table() -> Seq<(Seq<char>, Seq<char>, Seq<char>)> {
    seq![
        ("/"@, "GET"@, "System and service info about the server"@),
        ("/health"@, "GET"@, "Health check"@),
    ]
}

/// The (path, method, description) of an endpoint.
pub open spec fn endpoint_view(e: Endpoint) -> (Seq<char>, Seq<char>, Seq<char>) {
    (e.path@, e.method@, e.description@)
}

/// No two entries share a path and a method.
pub open spec fn routes_distinct(t: Seq<(Seq<char>, Seq<char>, Seq<char>)>) -> bool {
    forall|i: int, j: int|
        0 <= i < t.len() && 0 <= j < t.len() && i != j ==> (#[trigger] t[i]).0 != (#[trigger] t[j]).0
            || t[i].1 != t[j].1
}

/// The routes of the service, in the order they are listed.
pub fn endpoint_list() -> (r: Vec<Endpoint>)
    ensures
        r@.map_values(|e: Endpoint| endpoint_view(e)) == route_table(),
        r@.len() == 2,
        routes_distinct(r@.map_values(|e: Endpoint| endpoint_view(e))),
{
    proof {
        reveal_strlit("/");
        reveal_strlit("/health");
    }
    let mut v: Vec<Endpoint> = Vec::new();
    v.push(Endpoint {
        path: String::from_str("/"),
        method: String::from_str("GET"),
        description: String::from_str("System and service info about the server"),
    });
    v.push(Endpoint {
        path: String::from_str("/health"),
        method: String::from_str("GET"),
        description: String::from_str("Health check"),
    });
    assert(v@.map_values(|e: Endpoint| endpoint_view(e)) =~= route_table());
    assert("/"@ != "/health"@) by {
        assert("/"@.len() != "/health"@.len());
    }
    v
}

} // verus!
