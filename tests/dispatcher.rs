use fgp_neon::dispatch::{method_list, plan, Arg, Call, Kind, Method};
use fgp_neon::error::NeonError;
use fgp_neon::params::{ParamValue, Params};

fn bag(entries: &[(&str, ParamValue)]) -> Params {
    let mut p = Params::new();
    for (k, v) in entries {
        let v = match v {
            ParamValue::Null => ParamValue::Null,
            ParamValue::Bool(b) => ParamValue::Bool(*b),
            ParamValue::Number(n) => ParamValue::Number(*n),
            ParamValue::Str(s) => ParamValue::Str(s.clone()),
            ParamValue::Other => ParamValue::Other,
        };
        p.insert(k.to_string(), v);
    }
    p
}

fn s(v: &str) -> ParamValue {
    ParamValue::Str(v.to_string())
}

fn str_args(call: &Call) -> Vec<Option<String>> {
    call.args
        .iter()
        .map(|a| match a {
            Arg::Str(s) => Some(s.clone()),
            _ => None,
        })
        .collect()
}

fn bad_request(r: Result<Call, NeonError>) -> String {
    match r {
        Err(NeonError::BadRequest(m)) => m,
        Err(_) => panic!("another error"),
        Ok(_) => panic!("accepted"),
    }
}

#[test]
fn projects_limit_defaults_to_ten() {
    let call = plan("neon.projects", &Params::new()).ok().unwrap();
    assert!(call.method == Method::Projects);
    assert!(matches!(call.args[0], Arg::Int(10)));
}

#[test]
fn projects_limit_is_taken_and_narrowed() {
    let call = plan("neon.projects", &bag(&[("limit", ParamValue::Number(3))])).ok().unwrap();
    assert!(matches!(call.args[0], Arg::Int(3)));
    let call = plan("projects", &bag(&[("limit", ParamValue::Number(4294967298))])).ok().unwrap();
    assert!(matches!(call.args[0], Arg::Int(2)));
}

#[test]
fn wrong_kind_optional_takes_default() {
    let call = plan("neon.projects", &bag(&[("limit", s("3"))])).ok().unwrap();
    assert!(matches!(call.args[0], Arg::Int(10)));
}

#[test]
fn sql_arguments_in_declared_order() {
    let p = bag(&[
        ("project_id", s("p")),
        ("branch_id", s("br_x")),
        ("database", s("d")),
        ("query", s("select 1")),
    ]);
    let call = plan("neon.sql", &p).ok().unwrap();
    assert!(call.method == Method::Sql);
    assert_eq!(
        str_args(&call),
        vec![Some("p".to_string()), Some("br_x".to_string()), Some("d".to_string()), Some("select 1".to_string())]
    );
}

#[test]
fn database_defaults_to_neondb() {
    let p = bag(&[("project_id", s("p")), ("branch_id", s("b"))]);
    let call = plan("neon.tables", &p).ok().unwrap();
    assert_eq!(str_args(&call)[2], Some("neondb".to_string()));
}

#[test]
fn databases_missing_branch_id_is_bad_request() {
    let p = bag(&[("project_id", s("p"))]);
    assert_eq!(bad_request(plan("neon.databases", &p)), "Missing required parameter: branch_id");
}

#[test]
fn missing_each_required_parameter_is_named() {
    let full = [("project_id", "p"), ("branch_id", "b"), ("table", "t")];
    for skip in 0..full.len() {
        let entries: Vec<(&str, ParamValue)> =
            full.iter().enumerate().filter(|(i, _)| *i != skip).map(|(_, (k, v))| (*k, s(v))).collect();
        let msg = bad_request(plan("neon.schema", &bag(&entries)));
        assert_eq!(msg, format!("Missing required parameter: {}", full[skip].0));
    }
}

#[test]
fn wrong_kind_required_is_bad_request() {
    let p = bag(&[("project_id", ParamValue::Number(7))]);
    assert_eq!(bad_request(plan("neon.project", &p)), "Missing required parameter: project_id");
}

#[test]
fn unknown_method_is_refused() {
    match plan("unknown", &Params::new()) {
        Err(NeonError::UnknownMethod(n)) => assert_eq!(n, "unknown"),
        _ => panic!("expected an unknown-method error"),
    }
}

#[test]
fn aliases_dispatch_like_canonical_names() {
    let pairs = [
        ("projects", "neon.projects"),
        ("project", "neon.project"),
        ("branches", "neon.branches"),
        ("databases", "neon.databases"),
        ("tables", "neon.tables"),
        ("schema", "neon.schema"),
        ("sql", "neon.sql"),
        ("user", "neon.user"),
        ("create_branch", "neon.create_branch"),
        ("delete_branch", "neon.delete_branch"),
        ("connection_string", "neon.connection_string"),
    ];
    let p = bag(&[("project_id", s("p")), ("branch_id", s("b")), ("query", s("q")), ("table", s("t"))]);
    for (alias, canonical) in pairs {
        let a = plan(alias, &p).ok().unwrap();
        let c = plan(canonical, &p).ok().unwrap();
        assert!(a.method == c.method);
        assert_eq!(str_args(&a), str_args(&c));
    }
}

#[test]
fn extra_parameters_are_ignored() {
    let p = bag(&[("project_id", s("p")), ("extra", ParamValue::Bool(true))]);
    let call = plan("neon.branches", &p).ok().unwrap();
    assert_eq!(call.args.len(), 1);
}

#[test]
fn later_insert_overrides() {
    let p = bag(&[("project_id", s("a")), ("project_id", s("b"))]);
    let call = plan("neon.project", &p).ok().unwrap();
    assert_eq!(str_args(&call), vec![Some("b".to_string())]);
}

#[test]
fn connection_string_optionals() {
    let p = bag(&[("project_id", s("p")), ("pooled", ParamValue::Bool(true))]);
    let call = plan("neon.connection_string", &p).ok().unwrap();
    assert!(matches!(call.args[1], Arg::Absent));
    assert!(matches!(call.args[2], Arg::Absent));
    assert!(matches!(call.args[3], Arg::Bool(true)));
}

#[test]
fn published_list_matches_declarations() {
    let list = method_list();
    assert_eq!(list.len(), 12);
    assert_eq!(list[0].name, "health");
    assert!(list[0].params.is_empty());
    assert_eq!(list[1].name, "neon.projects");
    assert_eq!(list[1].params[0].name, "limit");
    assert!(list[1].params[0].kind == Kind::Int);
    assert!(!list[1].params[0].required);
    assert!(matches!(list[1].params[0].default, Arg::Int(10)));
    assert_eq!(list[11].name, "neon.connection_string");
    assert!(matches!(list[11].params[2].default, Arg::Absent));
    assert!(list.iter().skip(1).all(|m| m.name.starts_with("neon.")));
    let mut names: Vec<&str> = list.iter().map(|m| m.name.as_str()).collect();
    names.sort();
    names.dedup();
    assert_eq!(names.len(), 12);
}

#[test]
fn every_published_method_accepts_its_required_parameters() {
    for info in method_list() {
        let mut p = Params::new();
        for d in &info.params {
            if d.required {
                p.insert(d.name.clone(), s("x"));
            }
        }
        let call = plan(&info.name, &p).ok().unwrap();
        assert_eq!(call.args.len(), info.params.len());
        assert_eq!(call.method.name(), info.name);
    }
}

#[test]
fn given_default_equals_absent() {
    let absent = plan("neon.tables", &bag(&[("project_id", s("p")), ("branch_id", s("b"))])).ok().unwrap();
    let given =
        plan("neon.tables", &bag(&[("project_id", s("p")), ("branch_id", s("b")), ("database", s("neondb"))])).ok().unwrap();
    assert_eq!(str_args(&absent), str_args(&given));
    let absent = plan("neon.projects", &Params::new()).ok().unwrap();
    let given = plan("neon.projects", &bag(&[("limit", ParamValue::Number(10))])).ok().unwrap();
    assert!(matches!((&absent.args[0], &given.args[0]), (Arg::Int(10), Arg::Int(10))));
}
