use fgp_neon::error::NeonError;
use fgp_neon::params::{ParamValue, Params};
use fgp_neon::service::{
    deleted_answer, health_entry, health_report, listing, startup_check, HealthEntry, NeonService, Shape, StartupNote, Step,
};

fn service() -> NeonService {
    NeonService::new("key".to_string(), "org".to_string()).ok().unwrap()
}

fn bag(entries: &[(&str, &str)]) -> Params {
    let mut p = Params::new();
    for (k, v) in entries {
        p.insert(k.to_string(), ParamValue::Str(v.to_string()));
    }
    p
}

#[test]
fn projects_dispatch_fetches_with_limit() {
    let mut p = Params::new();
    p.insert("limit".to_string(), ParamValue::Number(3));
    match service().dispatch("neon.projects", &p) {
        Ok(Step::Fetch { request, shape }) => {
            assert_eq!(request.url, "https://console.neon.tech/api/v2/projects?org_id=org&limit=3");
            assert!(shape == Shape::Projects);
        },
        _ => panic!("expected a fetch"),
    }
}

#[test]
fn sql_dispatch_starts_with_endpoints() {
    let p = bag(&[("project_id", "p"), ("branch_id", "br_x"), ("database", "d"), ("query", "select 1")]);
    match service().dispatch("neon.sql", &p) {
        Ok(Step::Sql { endpoints, branch_id, database, query }) => {
            assert_eq!(endpoints.url, "https://console.neon.tech/api/v2/projects/p/endpoints");
            assert_eq!(branch_id, "br_x");
            assert_eq!(database, "d");
            assert_eq!(query, "select 1");
        },
        _ => panic!("expected the sql path"),
    }
}

#[test]
fn schema_dispatch_interpolates_escaped_table() {
    let p = bag(&[("project_id", "p"), ("branch_id", "b"), ("table", "O'Brien")]);
    match service().dispatch("neon.schema", &p) {
        Ok(Step::Sql { query, database, .. }) => {
            assert!(query.contains("table_name = 'O''Brien'"));
            assert_eq!(database, "neondb");
        },
        _ => panic!("expected the sql path"),
    }
}

#[test]
fn tables_dispatch_runs_catalog_query() {
    let p = bag(&[("project_id", "p"), ("branch_id", "b")]);
    match service().dispatch("tables", &p) {
        Ok(Step::Sql { query, .. }) => {
            assert!(query.contains("pg_catalog.pg_tables"));
            assert!(query.contains("NOT IN ('pg_catalog', 'information_schema')"));
            assert!(query.ends_with("ORDER BY schemaname, tablename"));
        },
        _ => panic!("expected the sql path"),
    }
}

#[test]
fn databases_dispatch_without_branch_makes_no_request() {
    match service().dispatch("neon.databases", &bag(&[("project_id", "p")])) {
        Err(NeonError::BadRequest(m)) => assert_eq!(m, "Missing required parameter: branch_id"),
        _ => panic!("expected a bad request"),
    }
}

#[test]
fn health_dispatch_probes() {
    match service().dispatch("health", &Params::new()) {
        Ok(Step::Probe(r)) => assert_eq!(r.url, "https://console.neon.tech/api/v2/projects?org_id=org&limit=1"),
        _ => panic!("expected a probe"),
    }
}

#[test]
fn delete_branch_dispatch_shapes_deleted() {
    match service().dispatch("neon.delete_branch", &bag(&[("project_id", "p"), ("branch_id", "b")])) {
        Ok(Step::Fetch { shape, .. }) => assert!(shape == Shape::Deleted),
        _ => panic!("expected a fetch"),
    }
}

#[test]
fn unknown_dispatch() {
    assert!(matches!(service().dispatch("unknown", &Params::new()), Err(NeonError::UnknownMethod(_))));
}

#[test]
fn health_report_values() {
    let r = health_report(true, "0.1.0");
    assert_eq!(r.status, "healthy");
    assert!(r.api_connected);
    assert_eq!(r.version, "0.1.0");
    let r = health_report(false, "0.1.0");
    assert_eq!(r.status, "unhealthy");
    assert!(!r.api_connected);
}

#[test]
fn startup_probe_decisions() {
    assert!(matches!(startup_check(Ok(true)), Ok(StartupNote::Verified)));
    assert!(matches!(startup_check(Ok(false)), Ok(StartupNote::Degraded)));
    assert!(matches!(startup_check(Err(NeonError::Transport("refused".to_string()))), Err(NeonError::Transport(_))));
}

#[test]
fn health_check_entries() {
    assert!(matches!(health_entry(&Ok(true)), HealthEntry::Healthy));
    match health_entry(&Ok(false)) {
        HealthEntry::Unhealthy(m) => assert_eq!(m, "API returned error"),
        _ => panic!(),
    }
    match health_entry(&Err(NeonError::Timeout("deadline".to_string()))) {
        HealthEntry::Unhealthy(m) => assert_eq!(m, "Request timed out: deadline"),
        _ => panic!(),
    }
}

#[test]
fn service_name() {
    assert_eq!(service().name(), "neon");
}

#[test]
fn listing_counts_items_in_order() {
    let l = listing(vec!["p1", "p2"]);
    assert_eq!(l.count, 2);
    assert_eq!(l.items, vec!["p1", "p2"]);
    let e: Vec<u8> = Vec::new();
    assert_eq!(listing(e).count, 0);
}

#[test]
fn deleted_answer_is_true() {
    assert!(deleted_answer().deleted);
}

#[test]
fn envelope_keys() {
    assert_eq!(Shape::Projects.envelope_key().as_deref(), Some("projects"));
    assert_eq!(Shape::Databases.envelope_key().as_deref(), Some("databases"));
    assert_eq!(Shape::Project.envelope_key().as_deref(), Some("project"));
    assert_eq!(Shape::Raw.envelope_key(), None);
    assert!(Shape::Branches.is_listing());
    assert!(!Shape::Deleted.is_listing());
}

#[test]
fn new_service_pool_settings() {
    assert_eq!(service().adapter().pool_settings(), (5, 30));
}
