use vstd::prelude::*;
use vstd::string::*;
use crate::api::{
    branch_path, branches_path, connection_uri_path, control_request, create_branch_body, databases_path,
    endpoints_path, project_path, projects_path, schema_query_head, schema_query_tail, tables_query,
    table_schema_query, tables_query_text, HttpMethod, HttpRequest, NeonClient, RequestView,
};
use crate::dispatch::{decls, plan, plan_of, Arg, ArgView, Call, DeclView, Kind, Method, Plan};
use crate::error::NeonError;
use crate::params::Params;
use crate::text::escape_quotes;

verus! {

/// How the body of a successful control-plane answer becomes the result.
#[derive(Clone, Copy, PartialEq, Eq, Structural, Debug)]
pub enum Shape {
    /// The body as it came.
    Raw,
    /// The `project` field of the body.
    Project,
    /// The `branch` field of the body.
    Branch,
    /// The `projects` list, with its count.
    Projects,
    /// The `branches` list, with its count.
    Branches,
    /// The `databases` list, with its count.
    Databases,
    /// `{"deleted": true}`.
    Deleted,
}

/// The field of the remote's answer that a shape reads; for a list shape it
/// is also the field of the result that carries the list.
pub open spec fn envelope_key_of(shape: Shape) -> Option<Seq<char>> {
    match shape {
        Shape::Raw => None,
        Shape::Project => Some("project"@),
        Shape::Branch => Some("branch"@),
        Shape::Projects => Some("projects"@),
        Shape::Branches => Some("branches"@),
        Shape::Databases => Some("databases"@),
        Shape::Deleted => None,
    }
}

impl Shape {
    /// The field of the remote's answer that the shape reads.
    pub fn envelope_key(&self) -> (r: Option<String>)
        ensures
            match envelope_key_of(*self) {
                Some(k) => r matches Some(s) && s@ == k,
                None => r is None,
            },
    {
        match self {
            Shape::Raw => None,
            Shape::Project => Some(String::from_str("project")),
            Shape::Branch => Some(String::from_str("branch")),
            Shape::Projects => Some(String::from_str("projects")),
            Shape::Branches => Some(String::from_str("branches")),
            Shape::Databases => Some(String::from_str("databases")),
            Shape::Deleted => None,
        }
    }

    /// Whether the result is a list with its count.
    pub fn is_listing(&self) -> (r: bool)
        ensures
            r == (*self == Shape::Projects || *self == Shape::Branches || *self == Shape::Databases),
    {
        matches!(self, Shape::Projects | Shape::Branches | Shape::Databases)
    }
}

/// A list answer: the items in the order the remote gave them, and their count.
pub struct Listing<T> {
    pub items: Vec<T>,
    pub count: usize,
}

/// The list answer for decoded items.
pub fn listing<T>(items: Vec<T>) -> (r: Listing<T>)
    ensures
        r.items@ == items@,
        r.count == items@.len(),
{
    let count = items.len();
    Listing { items, count }
}

/// The answer of a branch deletion.
pub struct Deleted {
    pub deleted: bool,
}

/// The answer once the remote has accepted a deletion: `deleted` is true.
pub fn deleted_answer() -> (r: Deleted)
    ensures
        r.deleted,
{
    Deleted { deleted: true }
}

/// What carrying out a validated call takes.
pub enum Step {
    /// The liveness probe; its status alone decides the answer.
    Probe(HttpRequest),
    /// One control-plane request, whose body is shaped into the result.
    Fetch { request: HttpRequest, shape: Shape },
    /// The two-step SQL path: list the project's endpoints, then run the
    /// query on the first endpoint that serves the branch.
    Sql { endpoints: HttpRequest, branch_id: String, database: String, query: String },
}

/// The mathematical value of a [`Step`].
pub enum StepView {
    Probe(RequestView),
    Fetch(RequestView, Shape),
    Sql(RequestView, Seq<char>, Seq<char>, Seq<char>),
}

impl View for Step {
    type V = StepView;

    open spec fn view(&self) -> StepView {
        match self {
            Step::Probe(r) => StepView::Probe(r@),
            Step::Fetch { request, shape } => StepView::Fetch(request@, *shape),
            Step::Sql { endpoints, branch_id, database, query } => StepView::Sql(endpoints@, branch_id@, database@, query@),
        }
    }
}

/// Whether an argument has the kind that its declaration takes (an optional
/// parameter without default may be absent).
pub open spec fn kind_ok(d: DeclView, a: ArgView) -> bool {
    match a {
        ArgView::Str(_) => d.kind == Kind::Str,
        ArgView::Int(_) => d.kind == Kind::Int,
        ArgView::Bool(_) => d.kind == Kind::Bool,
        ArgView::Absent => !d.required && d.default is Absent,
    }
}

/// Whether a list of arguments fits a method's declarations, one for one.
pub open spec fn well_typed(m: Method, a: Seq<ArgView>) -> bool {
    &&& a.len() == decls(m).len()
    &&& forall|i: int| 0 <= i < a.len() ==> kind_ok(#[trigger] decls(m)[i], a[i])
}

pub open spec fn str_at(a: Seq<ArgView>, i: int) -> Seq<char> {
    match a[i] {
        ArgView::Str(s) => s,
        _ => Seq::empty(),
    }
}

pub open spec fn opt_at(a: Seq<ArgView>, i: int) -> Option<Seq<char>> {
    match a[i] {
        ArgView::Str(s) => Some(s),
        _ => None,
    }
}

pub open spec fn int_at(a: Seq<ArgView>, i: int) -> int {
    match a[i] {
        ArgView::Int(n) => n as int,
        _ => 0,
    }
}

pub open spec fn bool_at(a: Seq<ArgView>, i: int) -> bool {
    match a[i] {
        ArgView::Bool(b) => b,
        _ => false,
    }
}

/// The step that a well-typed call of a method takes, for a client with the
/// given credentials.
pub open spec fn step_of(key: Seq<char>, org: Seq<char>, m: Method, a: Seq<ArgView>) -> StepView {
    let get = |path: Seq<char>| control_request(HttpMethod::Get, key, path, None);
    match m {
        Method::Health => StepView::Probe(get(projects_path(org, 1))),
        Method::Projects => StepView::Fetch(get(projects_path(org, int_at(a, 0))), Shape::Projects),
        Method::Project => StepView::Fetch(get(project_path(str_at(a, 0))), Shape::Project),
        Method::Branches => StepView::Fetch(get(branches_path(str_at(a, 0))), Shape::Branches),
        Method::Databases => StepView::Fetch(get(databases_path(str_at(a, 0), str_at(a, 1))), Shape::Databases),
        Method::Tables => StepView::Sql(get(endpoints_path(str_at(a, 0))), str_at(a, 1), str_at(a, 2), tables_query_text()),
        Method::Schema => StepView::Sql(
            get(endpoints_path(str_at(a, 0))),
            str_at(a, 1),
            str_at(a, 2),
            schema_query_head() + escape_quotes(str_at(a, 3)) + schema_query_tail(),
        ),
        Method::Sql => StepView::Sql(get(endpoints_path(str_at(a, 0))), str_at(a, 1), str_at(a, 2), str_at(a, 3)),
        Method::User => StepView::Fetch(get("/users/me"@), Shape::Raw),
        Method::CreateBranch => StepView::Fetch(
            control_request(
                HttpMethod::Post,
                key,
                branches_path(str_at(a, 0)),
                Some(create_branch_body(opt_at(a, 1), opt_at(a, 2))),
            ),
            Shape::Branch,
        ),
        Method::DeleteBranch => StepView::Fetch(
            control_request(HttpMethod::Delete, key, branch_path(str_at(a, 0), str_at(a, 1)), None),
            Shape::Deleted,
        ),
        Method::ConnectionString => StepView::Fetch(
            get(connection_uri_path(str_at(a, 0), opt_at(a, 1), opt_at(a, 2), bool_at(a, 3))),
            Shape::Raw,
        ),
    }
}

fn kind_fits(d: &crate::dispatch::ParamDecl, a: &Arg) -> (r: bool)
    ensures
        r == kind_ok(d@, a@),
{
    match a {
        Arg::Str(_) => d.kind == Kind::Str,
        Arg::Int(_) => d.kind == Kind::Int,
        Arg::Bool(_) => d.kind == Kind::Bool,
        Arg::Absent => !d.required && matches!(d.default, Arg::Absent),
    }
}

/// Whether a call's arguments fit its method's declarations.
pub fn is_well_typed(call: &Call) -> (r: bool)
    ensures
        r == well_typed(call.method, call.args_view()),
{
    let ds = call.method.params();
    let ghost dv = decls(call.method);
    assert(ds@.len() == dv.len()) by {
        assert(crate::dispatch::decls_of(ds@).len() == ds@.len());
    }
    if ds.len() != call.args.len() {
        return false;
    }
    let mut i: usize = 0;
    while i < ds.len()
        invariant
            i <= ds@.len(),
            ds@.len() == call.args@.len(),
            crate::dispatch::decls_of(ds@) == dv,
            dv == decls(call.method),
            forall|j: int| 0 <= j < i ==> kind_ok(#[trigger] dv[j], call.args_view()[j]),
        decreases ds@.len() - i,
    {
        assert(dv[i as int] == ds@[i as int]@);
        if !kind_fits(&ds[i], &call.args[i]) {
            return false;
        }
        i = i + 1;
    }
    true
}

fn str_arg(args: &Vec<Arg>, i: usize) -> (r: &str)
    requires
        i < args@.len(),
        args@[i as int] is Str,
    ensures
        r@ == str_at(crate::dispatch::args_of(args@), i as int),
{
    match &args[i] {
        Arg::Str(s) => s.as_str(),
        _ => "",
    }
}

fn opt_arg(args: &Vec<Arg>, i: usize) -> (r: Option<&str>)
    requires
        i < args@.len(),
    ensures
        crate::api::opt_view(r) == opt_at(crate::dispatch::args_of(args@), i as int),
{
    match &args[i] {
        Arg::Str(s) => Some(s.as_str()),
        _ => None,
    }
}

/// The daemon's service: the dispatcher in front of the adapter.
pub struct NeonService {
    client: NeonClient,
}

impl NeonService {
    /// A service for the given credentials.
    pub fn new(api_key: String, org_id: String) -> (r: Result<NeonService, NeonError>)
        ensures
            r matches Ok(s) ==> s.client().api_key_view() == api_key@ && s.client().org_id_view() == org_id@,
            r matches Ok(s) ==> s.client().pool_config() == (5usize, 30u64),
            r is Err ==> r matches Err(NeonError::Transport(_)),
    {
        match NeonClient::new(api_key, org_id) {
            Ok(client) => Ok(NeonService { client }),
            Err(e) => Err(e),
        }
    }

    pub closed spec fn client(&self) -> &NeonClient {
        &self.client
    }

    /// The adapter that the service routes to.
    pub fn adapter(&self) -> (r: &NeonClient)
        ensures
            r == self.client(),
    {
        &self.client
    }

    /// The service's name.
    pub fn name(&self) -> (r: String)
        ensures
            r@ == "neon"@,
    {
        String::from_str("neon")
    }

    /// The step that carries out a validated call; a call whose arguments
    /// do not fit its method's declarations is a bad request.
    pub fn step_for(&self, call: &Call) -> (r: Result<Step, NeonError>)
        ensures
            r is Ok <==> well_typed(call.method, call.args_view()),
            r matches Ok(st) ==> st@ == step_of(
                self.client().api_key_view(),
                self.client().org_id_view(),
                call.method,
                call.args_view(),
            ),
            r is Err ==> r matches Err(NeonError::BadRequest(_)),
    {
        if !is_well_typed(call) {
            return Err(NeonError::BadRequest(String::from_str("Arguments do not fit the method")));
        }
        let ghost a = call.args_view();
        let args = &call.args;
        let c = &self.client;
        proof {
            assert forall|i: int| 0 <= i < a.len() implies a[i] == (#[trigger] args@[i])@ by {}
            let ds = decls(call.method);
            if a.len() > 0 {
                assert(kind_ok(ds[0], a[0]));
            }
            if a.len() > 1 {
                assert(kind_ok(ds[1], a[1]));
            }
            if a.len() > 2 {
                assert(kind_ok(ds[2], a[2]));
            }
            if a.len() > 3 {
                assert(kind_ok(ds[3], a[3]));
            }
        }
        let st = match call.method {
            Method::Health => Step::Probe(c.ping_request()),
            Method::Projects => {
                let limit = match &args[0] {
                    Arg::Int(n) => *n,
                    _ => 0,
                };
                Step::Fetch { request: c.list_projects_request(Some(limit)), shape: Shape::Projects }
            },
            Method::Project => Step::Fetch { request: c.get_project_request(str_arg(args, 0)), shape: Shape::Project },
            Method::Branches => Step::Fetch { request: c.list_branches_request(str_arg(args, 0)), shape: Shape::Branches },
            Method::Databases => Step::Fetch {
                request: c.list_databases_request(str_arg(args, 0), str_arg(args, 1)),
                shape: Shape::Databases,
            },
            Method::Tables => Step::Sql {
                endpoints: c.endpoints_request(str_arg(args, 0)),
                branch_id: String::from_str(str_arg(args, 1)),
                database: String::from_str(str_arg(args, 2)),
                query: tables_query(),
            },
            Method::Schema => Step::Sql {
                endpoints: c.endpoints_request(str_arg(args, 0)),
                branch_id: String::from_str(str_arg(args, 1)),
                database: String::from_str(str_arg(args, 2)),
                query: table_schema_query(str_arg(args, 3)),
            },
            Method::Sql => Step::Sql {
                endpoints: c.endpoints_request(str_arg(args, 0)),
                branch_id: String::from_str(str_arg(args, 1)),
                database: String::from_str(str_arg(args, 2)),
                query: String::from_str(str_arg(args, 3)),
            },
            Method::User => Step::Fetch { request: c.user_request(), shape: Shape::Raw },
            Method::CreateBranch => Step::Fetch {
                request: c.create_branch_request(str_arg(args, 0), opt_arg(args, 1), opt_arg(args, 2)),
                shape: Shape::Branch,
            },
            Method::DeleteBranch => Step::Fetch {
                request: c.delete_branch_request(str_arg(args, 0), str_arg(args, 1)),
                shape: Shape::Deleted,
            },
            Method::ConnectionString => {
                let pooled = match &args[3] {
                    Arg::Bool(b) => *b,
                    _ => false,
                };
                Step::Fetch {
                    request: c.connection_string_request(str_arg(args, 0), opt_arg(args, 1), opt_arg(args, 2), pooled),
                    shape: Shape::Raw,
                }
            },
        };
        Ok(st)
    }
}


/// Each required parameter that the bag does not lack has an argument of its kind.
proof fn lemma_ready_args_well_typed(m: Method, p: Seq<(Seq<char>, crate::params::ParamValue)>)
    requires
        crate::dispatch::first_missing(decls(m), p, 0) is None,
    ensures
        well_typed(m, crate::dispatch::args_from(decls(m), p)),
{
    let ds = decls(m);
    lemma_none_missing(ds, p, 0);
    let a = crate::dispatch::args_from(ds, p);
    assert forall|i: int| 0 <= i < a.len() implies kind_ok(#[trigger] ds[i], a[i]) by {
        assert(!crate::dispatch::is_missing(ds[i], p));
        assert(ds[i].default is Absent || (ds[i].default is Str && ds[i].kind == Kind::Str)
            || (ds[i].default is Int && ds[i].kind == Kind::Int) || (ds[i].default is Bool && ds[i].kind == Kind::Bool));
    }
}

proof fn lemma_none_missing(ds: Seq<DeclView>, p: Seq<(Seq<char>, crate::params::ParamValue)>, i: int)
    requires
        0 <= i,
        crate::dispatch::first_missing(ds, p, i) is None,
    ensures
        forall|j: int| i <= j < ds.len() ==> !crate::dispatch::is_missing(#[trigger] ds[j], p),
    decreases ds.len() - i,
{
    if i < ds.len() {
        lemma_none_missing(ds, p, i + 1);
    }
}

impl NeonService {
    /// Dispatches a request: validates the method and its parameters, and
    /// gives the step that carries it out.
    pub fn dispatch(&self, method: &str, params: &Params) -> (r: Result<Step, NeonError>)
        ensures
            match plan_of(method@, params@) {
                Plan::Unknown => r matches Err(NeonError::UnknownMethod(n)) && n@ == method@,
                Plan::Missing(pn) => r matches Err(NeonError::BadRequest(msg)) && msg@ == crate::dispatch::missing_message(pn),
                Plan::Ready(m, args) => r matches Ok(st) && st@ == step_of(
                    self.client().api_key_view(),
                    self.client().org_id_view(),
                    m,
                    args,
                ),
            },
    {
        let call = match plan(method, params) {
            Ok(c) => c,
            Err(e) => return Err(e),
        };
        proof {
            if let Plan::Ready(m, args) = plan_of(method@, params@) {
                lemma_ready_args_well_typed(m, params@);
            }
        }
        self.step_for(&call)
    }
}

/// The answer of the `health` method.
pub struct HealthReport {
    pub status: String,
    pub api_connected: bool,
    pub version: String,
}

/// The health answer from the outcome of the liveness probe: healthy and
/// connected exactly when the probe saw a 2xx status.
pub fn health_report(api_ok: bool, version: &str) -> (r: HealthReport)
    ensures
        r.api_connected == api_ok,
        r.status@ == (if api_ok { "healthy"@ } else { "unhealthy"@ }),
        r.version@ == version@,
{
    let status = if api_ok { String::from_str("healthy") } else { String::from_str("unhealthy") };
    HealthReport { status, api_connected: api_ok, version: String::from_str(version) }
}

/// How the startup probe went, where it does not abort the start.
#[derive(Clone, Copy, PartialEq, Eq, Structural, Debug)]
pub enum StartupNote {
    /// The remote answered with a 2xx status.
    Verified,
    /// The remote answered, with another status: worth a warning only.
    Degraded,
}

/// The decision on the startup probe: a transport failure aborts the start,
/// a non-2xx answer is only a warning.
pub fn startup_check(probe: Result<bool, NeonError>) -> (r: Result<StartupNote, NeonError>)
    ensures
        probe matches Ok(true) ==> r == Ok::<StartupNote, NeonError>(StartupNote::Verified),
        probe matches Ok(false) ==> r == Ok::<StartupNote, NeonError>(StartupNote::Degraded),
        probe matches Err(e) ==> r == Err::<StartupNote, NeonError>(e),
{
    match probe {
        Ok(true) => Ok(StartupNote::Verified),
        Ok(false) => Ok(StartupNote::Degraded),
        Err(e) => Err(e),
    }
}

/// One entry of the per-request health check.
pub enum HealthEntry {
    /// The remote answered with a 2xx status; the caller adds the latency.
    Healthy,
    /// Why the remote is not healthy.
    Unhealthy(String),
}

/// The health-check entry from the outcome of the liveness probe.
pub fn health_entry(probe: &Result<bool, NeonError>) -> (r: HealthEntry)
    ensures
        *probe matches Ok(true) ==> r is Healthy,
        *probe matches Ok(false) ==> r matches HealthEntry::Unhealthy(m) && m@ == "API returned error"@,
        *probe matches Err(e) ==> r matches HealthEntry::Unhealthy(m) && m@ == crate::error::error_message(e),
{
    match probe {
        Ok(true) => HealthEntry::Healthy,
        Ok(false) => HealthEntry::Unhealthy(String::from_str("API returned error")),
        Err(e) => HealthEntry::Unhealthy(e.message()),
    }
}

} // verus!
