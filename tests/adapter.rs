use fgp_neon::text::decimal_string;
use fgp_neon::api::{check_status, ping_outcome, select_endpoint, table_schema_query, HttpMethod, NeonClient};
use fgp_neon::error::NeonError;
use fgp_neon::models::Endpoint;

fn client() -> NeonClient {
    NeonClient::new("key".to_string(), "org".to_string()).ok().unwrap()
}

fn ep(id: &str, host: &str, branch: &str) -> Endpoint {
    Endpoint { id: id.to_string(), host: host.to_string(), branch_id: branch.to_string() }
}

fn header<'a>(h: &'a [(String, String)], name: &str) -> Option<&'a str> {
    h.iter().find(|(k, _)| k == name).map(|(_, v)| v.as_str())
}

#[test]
fn ping_request_asks_for_one_project() {
    let r = client().ping_request();
    assert!(r.method == HttpMethod::Get);
    assert_eq!(r.url, "https://console.neon.tech/api/v2/projects?org_id=org&limit=1");
    assert_eq!(header(&r.headers, "Authorization"), Some("Bearer key"));
    assert_eq!(header(&r.headers, "Accept"), Some("application/json"));
}

#[test]
fn ping_outcome_follows_status() {
    assert!(ping_outcome(200));
    assert!(ping_outcome(204));
    assert!(!ping_outcome(301));
    assert!(!ping_outcome(401));
    assert!(!ping_outcome(503));
}

#[test]
fn list_projects_request_with_limit() {
    let c = client();
    assert_eq!(c.list_projects_request(Some(3)).url, "https://console.neon.tech/api/v2/projects?org_id=org&limit=3");
    assert_eq!(c.list_projects_request(None).url, "https://console.neon.tech/api/v2/projects?org_id=org&limit=10");
    assert_eq!(c.list_projects_request(Some(-5)).url, "https://console.neon.tech/api/v2/projects?org_id=org&limit=-5");
}

#[test]
fn resource_paths() {
    let c = client();
    assert_eq!(c.get_project_request("p").url, "https://console.neon.tech/api/v2/projects/p");
    assert_eq!(c.list_branches_request("p").url, "https://console.neon.tech/api/v2/projects/p/branches");
    assert_eq!(
        c.list_databases_request("p", "b").url,
        "https://console.neon.tech/api/v2/projects/p/branches/b/databases"
    );
    assert_eq!(c.endpoints_request("p").url, "https://console.neon.tech/api/v2/projects/p/endpoints");
    assert_eq!(c.user_request().url, "https://console.neon.tech/api/v2/users/me");
    let d = c.delete_branch_request("p", "b");
    assert!(d.method == HttpMethod::Delete);
    assert_eq!(d.url, "https://console.neon.tech/api/v2/projects/p/branches/b");
}

#[test]
fn create_branch_body_holds_given_fields() {
    let c = client();
    let r = c.create_branch_request("p", Some("dev"), Some("br_main"));
    assert!(r.method == HttpMethod::Post);
    assert_eq!(r.body.as_deref(), Some("{\"branch\":{\"name\":\"dev\",\"parent_id\":\"br_main\"}}"));
    assert_eq!(header(&r.headers, "Content-Type"), Some("application/json"));
    let r = c.create_branch_request("p", None, None);
    assert_eq!(r.body.as_deref(), Some("{\"branch\":{}}"));
}

#[test]
fn connection_string_request_path() {
    let r = client().connection_string_request("p", Some("b"), None, true);
    assert_eq!(
        r.url,
        "https://console.neon.tech/api/v2/projects/p/connection_uri?database_name=neondb&role_name=neondb_owner&pooled=true&branch_id=b"
    );
}

#[test]
fn sql_goes_to_the_endpoint_of_the_branch() {
    let eps = vec![ep("e1", "h1", "br_y"), ep("e2", "h2", "br_x")];
    let r = client().sql_request(&eps, "br_x", "d", "select 1").ok().unwrap();
    assert!(r.method == HttpMethod::Post);
    assert_eq!(r.url, "https://h2/sql");
    assert_eq!(r.body.as_deref(), Some("{\"query\":\"select 1\",\"params\":[]}"));
    assert_eq!(header(&r.headers, "Neon-Connection-String"), Some("postgres://neondb_owner:key@h2/d"));
    assert_eq!(header(&r.headers, "Content-Type"), Some("application/json"));
}

#[test]
fn sql_body_escapes_the_query() {
    let eps = vec![ep("e1", "h1", "b")];
    let r = client().sql_request(&eps, "b", "d", "select \"x\"").ok().unwrap();
    assert_eq!(r.body.as_deref(), Some("{\"query\":\"select \\\"x\\\"\",\"params\":[]}"));
}

#[test]
fn sql_without_endpoint_is_not_found() {
    let eps = vec![ep("e1", "h1", "br_y")];
    match client().sql_request(&eps, "br_x", "d", "select 1") {
        Err(NeonError::NotFound(m)) => assert_eq!(m, "No endpoint found for branch br_x"),
        _ => panic!("expected not found"),
    }
}

#[test]
fn first_matching_endpoint_wins() {
    let eps = vec![ep("e1", "h1", "a"), ep("e2", "h2", "b"), ep("e3", "h3", "b")];
    assert_eq!(select_endpoint(&eps, "b"), Some(1));
    assert_eq!(select_endpoint(&eps, "c"), None);
    assert_eq!(select_endpoint(&Vec::new(), "a"), None);
}

#[test]
fn schema_query_doubles_apostrophes() {
    let q = table_schema_query("O'Brien");
    assert!(q.contains("table_name = 'O''Brien'"));
    assert!(q.ends_with("' ORDER BY ordinal_position"));
}

#[test]
fn non_success_status_is_remote_error() {
    assert_eq!(check_status(200, "ok".to_string()).ok(), Some("ok".to_string()));
    match check_status(404, "{\"code\":\"x\",\"message\":\"gone\"}".to_string()) {
        Err(NeonError::Remote { status, body }) => {
            assert_eq!(status, 404);
            assert_eq!(body, "{\"code\":\"x\",\"message\":\"gone\"}");
        },
        _ => panic!("expected a remote error"),
    }
}

#[test]
fn error_messages_carry_kind_prefix() {
    let e = NeonError::Remote { status: 500, body: "boom".to_string() };
    assert_eq!(e.message(), "API request failed: 500 - boom");
    assert_eq!(NeonError::UnknownMethod("x".to_string()).message(), "Unknown method: x");
    assert_eq!(
        NeonError::BadRequest("Missing required parameter: a".to_string()).message(),
        "Bad request: Missing required parameter: a"
    );
    assert_eq!(NeonError::NotFound("no endpoint".to_string()).message(), "Not found: no endpoint");
    assert_eq!(NeonError::Config("no key".to_string()).message(), "Configuration error: no key");
    assert_eq!(NeonError::Timeout("30 s".to_string()).message(), "Request timed out: 30 s");
    assert_eq!(NeonError::Transport("dns".to_string()).message(), "Transport error: dns");
    assert_eq!(NeonError::Decode("eof".to_string()).message(), "Failed to parse response: eof");
}

#[test]
fn new_client_pool_settings() {
    assert_eq!(client().pool_settings(), (5, 30));
}

#[test]
fn decimal_strings() {
    assert_eq!(decimal_string(0), "0");
    assert_eq!(decimal_string(1234), "1234");
    assert_eq!(decimal_string(-70), "-70");
    assert_eq!(decimal_string(i64::MIN), "-9223372036854775808");
    assert_eq!(decimal_string(i64::MAX), "9223372036854775807");
}

#[test]
fn sql_body_escapes_control_characters() {
    let eps = vec![ep("e1", "h1", "b")];
    let r = client().sql_request(&eps, "b", "d", "a\nb\u{1}\\/").ok().unwrap();
    assert_eq!(r.body.as_deref(), Some("{\"query\":\"a\\nb\\u0001\\\\/\",\"params\":[]}"));
}
