use vstd::prelude::*;
use vstd::string::*;
use crate::error::NeonError;
use crate::params::{lookup, ParamValue, Params};

verus! {

/// The operations that the dispatcher routes to.
#[derive(Clone, Copy, PartialEq, Eq, Structural, Debug)]
pub enum Method {
    Health,
    Projects,
    Project,
    Branches,
    Databases,
    Tables,
    Schema,
    Sql,
    User,
    CreateBranch,
    DeleteBranch,
    ConnectionString,
}

/// The JSON kind that a declared parameter takes.
#[derive(Clone, Copy, PartialEq, Eq, Structural, Debug)]
pub enum Kind {
    Str,
    Int,
    Bool,
}

/// A typed argument handed to an adapter operation.
pub enum Arg {
    Str(String),
    Int(i32),
    Bool(bool),
    /// An optional parameter that was not given and has no default.
    Absent,
}

/// The mathematical value of an [`Arg`].
pub enum ArgView {
    Str(Seq<char>),
    Int(i32),
    Bool(bool),
    Absent,
}

impl View for Arg {
    type V = ArgView;

    open spec fn view(&self) -> ArgView {
        match self {
            Arg::Str(s) => ArgView::Str(s@),
            Arg::Int(n) => ArgView::Int(*n),
            Arg::Bool(b) => ArgView::Bool(*b),
            Arg::Absent => ArgView::Absent,
        }
    }
}

/// The declaration of one parameter of a method.
pub struct ParamDecl {
    pub name: String,
    pub kind: Kind,
    pub required: bool,
    pub default: Arg,
}

/// The mathematical value of a [`ParamDecl`].
pub struct DeclView {
    pub name: Seq<char>,
    pub kind: Kind,
    pub required: bool,
    pub default: ArgView,
}

impl View for ParamDecl {
    type V = DeclView;

    open spec fn view(&self) -> DeclView {
        DeclView { name: self.name@, kind: self.kind, required: self.required, default: self.default@ }
    }
}

/// One entry of the published method list.
pub struct MethodInfo {
    pub name: String,
    pub description: String,
    pub params: Vec<ParamDecl>,
}

/// A validated request: the operation and its arguments, in declaration order.
pub struct Call {
    pub method: Method,
    pub args: Vec<Arg>,
}

impl Call {
    pub open spec fn args_view(&self) -> Seq<ArgView> {
        args_of(self.args@)
    }
}

pub open spec fn args_of(v: Seq<Arg>) -> Seq<ArgView> {
    v.map_values(|a: Arg| a@)
}

pub open spec fn decl(name: Seq<char>, kind: Kind, required: bool, default: ArgView) -> DeclView {
    DeclView { name, kind, required, default }
}

pub open spec fn req_str(name: Seq<char>) -> DeclView {
    decl(name, Kind::Str, true, ArgView::Absent)
}

pub open spec fn opt_str(name: Seq<char>) -> DeclView {
    decl(name, Kind::Str, false, ArgView::Absent)
}

pub open spec fn db_decl() -> DeclView {
    decl("database"@, Kind::Str, false, ArgView::Str("neondb"@))
}

/// The declared parameters of each method, in order.
pub open spec fn decls(m: Method) -> Seq<DeclView> {
    match m {
        Method::Health => seq![],
        Method::Projects => seq![decl("limit"@, Kind::Int, false, ArgView::Int(10))],
        Method::Project => seq![req_str("project_id"@)],
        Method::Branches => seq![req_str("project_id"@)],
        Method::Databases => seq![req_str("project_id"@), req_str("branch_id"@)],
        Method::Tables => seq![req_str("project_id"@), req_str("branch_id"@), db_decl()],
        Method::Schema => seq![
            req_str("project_id"@),
            req_str("branch_id"@),
            db_decl(),
            req_str("table"@),
        ],
        Method::Sql => seq![
            req_str("project_id"@),
            req_str("branch_id"@),
            db_decl(),
            req_str("query"@),
        ],
        Method::User => seq![],
        Method::CreateBranch => seq![req_str("project_id"@), opt_str("name"@), opt_str("parent_id"@)],
        Method::DeleteBranch => seq![req_str("project_id"@), req_str("branch_id"@)],
        Method::ConnectionString => seq![
            req_str("project_id"@),
            opt_str("branch_id"@),
            opt_str("database"@),
            decl("pooled"@, Kind::Bool, false, ArgView::Bool(false)),
        ],
    }
}

/// The canonical name of each method.
pub open spec fn canonical_name(m: Method) -> Seq<char> {
    match m {
        Method::Health => "health"@,
        Method::Projects => "neon.projects"@,
        Method::Project => "neon.project"@,
        Method::Branches => "neon.branches"@,
        Method::Databases => "neon.databases"@,
        Method::Tables => "neon.tables"@,
        Method::Schema => "neon.schema"@,
        Method::Sql => "neon.sql"@,
        Method::User => "neon.user"@,
        Method::CreateBranch => "neon.create_branch"@,
        Method::DeleteBranch => "neon.delete_branch"@,
        Method::ConnectionString => "neon.connection_string"@,
    }
}

/// The short alias under which a method is also dispatched, if any.
pub open spec fn alias_name(m: Method) -> Option<Seq<char>> {
    match m {
        Method::Health => None,
        Method::Projects => Some("projects"@),
        Method::Project => Some("project"@),
        Method::Branches => Some("branches"@),
        Method::Databases => Some("databases"@),
        Method::Tables => Some("tables"@),
        Method::Schema => Some("schema"@),
        Method::Sql => Some("sql"@),
        Method::User => Some("user"@),
        Method::CreateBranch => Some("create_branch"@),
        Method::DeleteBranch => Some("delete_branch"@),
        Method::ConnectionString => Some("connection_string"@),
    }
}

/// The method that a name (canonical or alias) selects.
pub open spec fn method_named(name: Seq<char>) -> Option<Method> {
    if name == "health"@ {
        Some(Method::Health)
    } else if name == "projects"@ || name == "neon.projects"@ {
        Some(Method::Projects)
    } else if name == "project"@ || name == "neon.project"@ {
        Some(Method::Project)
    } else if name == "branches"@ || name == "neon.branches"@ {
        Some(Method::Branches)
    } else if name == "databases"@ || name == "neon.databases"@ {
        Some(Method::Databases)
    } else if name == "tables"@ || name == "neon.tables"@ {
        Some(Method::Tables)
    } else if name == "schema"@ || name == "neon.schema"@ {
        Some(Method::Schema)
    } else if name == "sql"@ || name == "neon.sql"@ {
        Some(Method::Sql)
    } else if name == "user"@ || name == "neon.user"@ {
        Some(Method::User)
    } else if name == "create_branch"@ || name == "neon.create_branch"@ {
        Some(Method::CreateBranch)
    } else if name == "delete_branch"@ || name == "neon.delete_branch"@ {
        Some(Method::DeleteBranch)
    } else if name == "connection_string"@ || name == "neon.connection_string"@ {
        Some(Method::ConnectionString)
    } else {
        None
    }
}

/// The methods of the published list, in order.
pub open spec fn published() -> Seq<Method> {
    seq![
        Method::Health,
        Method::Projects,
        Method::Project,
        Method::Branches,
        Method::Databases,
        Method::Tables,
        Method::Schema,
        Method::Sql,
        Method::User,
        Method::CreateBranch,
        Method::DeleteBranch,
        Method::ConnectionString,
    ]
}

/// Whether a parameter value is of the kind that a declaration takes.
pub open spec fn fits(d: DeclView, v: Option<ParamValue>) -> bool {
    match v {
        Some(ParamValue::Str(_)) => d.kind == Kind::Str,
        Some(ParamValue::Number(_)) => d.kind == Kind::Int,
        Some(ParamValue::Bool(_)) => d.kind == Kind::Bool,
        _ => false,
    }
}

/// The argument that a declaration takes from a given value: the value, of
/// the declared kind (an integer narrowed to 32 bits), or else the default.
pub open spec fn arg_from(d: DeclView, v: Option<ParamValue>) -> ArgView {
    match v {
        Some(ParamValue::Str(s)) => if d.kind == Kind::Str { ArgView::Str(s@) } else { d.default },
        Some(ParamValue::Number(n)) => if d.kind == Kind::Int { ArgView::Int(n as i32) } else { d.default },
        Some(ParamValue::Bool(b)) => if d.kind == Kind::Bool { ArgView::Bool(b) } else { d.default },
        _ => d.default,
    }
}

/// Whether the bag lacks a required parameter (or holds one of the wrong kind).
pub open spec fn is_missing(d: DeclView, p: Seq<(Seq<char>, ParamValue)>) -> bool {
    d.required && !fits(d, lookup(p, d.name))
}

/// The first declared parameter, from index `i` on, that the bag lacks.
pub open spec fn first_missing(ds: Seq<DeclView>, p: Seq<(Seq<char>, ParamValue)>, i: int) -> Option<Seq<char>>
    decreases ds.len() - i,
{
    if i < 0 || i >= ds.len() {
        None
    } else if is_missing(ds[i], p) {
        Some(ds[i].name)
    } else {
        first_missing(ds, p, i + 1)
    }
}

/// The arguments that a bag gives to a list of declarations.
pub open spec fn args_from(ds: Seq<DeclView>, p: Seq<(Seq<char>, ParamValue)>) -> Seq<ArgView> {
    ds.map_values(|d: DeclView| arg_from(d, lookup(p, d.name)))
}

pub open spec fn missing_message(name: Seq<char>) -> Seq<char> {
    "Missing required parameter: "@ + name
}

/// What dispatching a method name on a parameter bag yields.
pub enum Plan {
    Unknown,
    Missing(Seq<char>),
    Ready(Method, Seq<ArgView>),
}

pub open spec fn plan_of(name: Seq<char>, p: Seq<(Seq<char>, ParamValue)>) -> Plan {
    match method_named(name) {
        None => Plan::Unknown,
        Some(m) => match first_missing(decls(m), p, 0) {
            Some(n) => Plan::Missing(n),
            None => Plan::Ready(m, args_from(decls(m), p)),
        },
    }
}

/// Whether a result of dispatching agrees with a plan.
pub open spec fn agrees(r: Result<Call, NeonError>, name: Seq<char>, plan: Plan) -> bool {
    match plan {
        Plan::Unknown => r matches Err(NeonError::UnknownMethod(n)) && n@ == name,
        Plan::Missing(pn) => r matches Err(NeonError::BadRequest(msg)) && msg@ == missing_message(pn),
        Plan::Ready(m, args) => r matches Ok(c) && c.method == m && c.args_view() == args,
    }
}


/// Whether an owned string equals a literal.
fn is_named(s: &String, lit: &str) -> (r: bool)
    ensures
        r == (s@ == lit@),
{
    let t = String::from_str(lit);
    s.eq(&t)
}

fn copy_arg(a: &Arg) -> (r: Arg)
    ensures
        r@ == a@,
{
    match a {
        Arg::Str(s) => Arg::Str(s.clone()),
        Arg::Int(n) => Arg::Int(*n),
        Arg::Bool(b) => Arg::Bool(*b),
        Arg::Absent => Arg::Absent,
    }
}

fn pdecl(name: &str, kind: Kind, required: bool, default: Arg) -> (r: ParamDecl)
    ensures
        r@ == decl(name@, kind, required, default@),
{
    ParamDecl { name: String::from_str(name), kind, required, default }
}

fn req(name: &str) -> (r: ParamDecl)
    ensures
        r@ == req_str(name@),
{
    pdecl(name, Kind::Str, true, Arg::Absent)
}

fn opt(name: &str) -> (r: ParamDecl)
    ensures
        r@ == opt_str(name@),
{
    pdecl(name, Kind::Str, false, Arg::Absent)
}

fn database_decl() -> (r: ParamDecl)
    ensures
        r@ == db_decl(),
{
    pdecl("database", Kind::Str, false, Arg::Str(String::from_str("neondb")))
}

pub open spec fn decls_of(v: Seq<ParamDecl>) -> Seq<DeclView> {
    v.map_values(|d: ParamDecl| d@)
}

impl Method {
    /// The method that a name (canonical or alias) selects.
    pub fn from_name(name: &str) -> (r: Option<Method>)
        ensures
            r == method_named(name@),
    {
        let s = String::from_str(name);
        if is_named(&s, "health") {
            Some(Method::Health)
        } else if is_named(&s, "projects") || is_named(&s, "neon.projects") {
            Some(Method::Projects)
        } else if is_named(&s, "project") || is_named(&s, "neon.project") {
            Some(Method::Project)
        } else if is_named(&s, "branches") || is_named(&s, "neon.branches") {
            Some(Method::Branches)
        } else if is_named(&s, "databases") || is_named(&s, "neon.databases") {
            Some(Method::Databases)
        } else if is_named(&s, "tables") || is_named(&s, "neon.tables") {
            Some(Method::Tables)
        } else if is_named(&s, "schema") || is_named(&s, "neon.schema") {
            Some(Method::Schema)
        } else if is_named(&s, "sql") || is_named(&s, "neon.sql") {
            Some(Method::Sql)
        } else if is_named(&s, "user") || is_named(&s, "neon.user") {
            Some(Method::User)
        } else if is_named(&s, "create_branch") || is_named(&s, "neon.create_branch") {
            Some(Method::CreateBranch)
        } else if is_named(&s, "delete_branch") || is_named(&s, "neon.delete_branch") {
            Some(Method::DeleteBranch)
        } else if is_named(&s, "connection_string") || is_named(&s, "neon.connection_string") {
            Some(Method::ConnectionString)
        } else {
            None
        }
    }

    /// The canonical name of the method.
    pub fn name(&self) -> (r: String)
        ensures
            r@ == canonical_name(*self),
    {
        let lit = match self {
            Method::Health => "health",
            Method::Projects => "neon.projects",
            Method::Project => "neon.project",
            Method::Branches => "neon.branches",
            Method::Databases => "neon.databases",
            Method::Tables => "neon.tables",
            Method::Schema => "neon.schema",
            Method::Sql => "neon.sql",
            Method::User => "neon.user",
            Method::CreateBranch => "neon.create_branch",
            Method::DeleteBranch => "neon.delete_branch",
            Method::ConnectionString => "neon.connection_string",
        };
        String::from_str(lit)
    }

    /// The declared parameters of the method, in order.
    pub fn params(&self) -> (r: Vec<ParamDecl>)
        ensures
            decls_of(r@) == decls(*self),
    {
        let mut v: Vec<ParamDecl> = Vec::new();
        match self {
            Method::Health | Method::User => {},
            Method::Projects => {
                v.push(pdecl("limit", Kind::Int, false, Arg::Int(10)));
            },
            Method::Project | Method::Branches => {
                v.push(req("project_id"));
            },
            Method::Databases | Method::DeleteBranch => {
                v.push(req("project_id"));
                v.push(req("branch_id"));
            },
            Method::Tables => {
                v.push(req("project_id"));
                v.push(req("branch_id"));
                v.push(database_decl());
            },
            Method::Schema => {
                v.push(req("project_id"));
                v.push(req("branch_id"));
                v.push(database_decl());
                v.push(req("table"));
            },
            Method::Sql => {
                v.push(req("project_id"));
                v.push(req("branch_id"));
                v.push(database_decl());
                v.push(req("query"));
            },
            Method::CreateBranch => {
                v.push(req("project_id"));
                v.push(opt("name"));
                v.push(opt("parent_id"));
            },
            Method::ConnectionString => {
                v.push(req("project_id"));
                v.push(opt("branch_id"));
                v.push(opt("database"));
                v.push(pdecl("pooled", Kind::Bool, false, Arg::Bool(false)));
            },
        }
        assert(decls_of(v@) =~= decls(*self));
        v
    }
}

/// The argument that a declaration takes from the bag.
fn take_arg(d: &ParamDecl, params: &Params) -> (r: Arg)
    ensures
        r@ == arg_from(d@, lookup(params@, d.name@)),
{
    match params.get(&d.name) {
        Some(ParamValue::Str(s)) => if d.kind == Kind::Str { Arg::Str(s.clone()) } else { copy_arg(&d.default) },
        Some(ParamValue::Number(n)) => if d.kind == Kind::Int { Arg::Int(*n as i32) } else { copy_arg(&d.default) },
        Some(ParamValue::Bool(b)) => if d.kind == Kind::Bool { Arg::Bool(*b) } else { copy_arg(&d.default) },
        _ => copy_arg(&d.default),
    }
}

/// Whether the bag holds a value of the declared kind for a declaration.
fn holds_fitting(d: &ParamDecl, params: &Params) -> (r: bool)
    ensures
        r == fits(d@, lookup(params@, d.name@)),
{
    match params.get(&d.name) {
        Some(ParamValue::Str(_)) => d.kind == Kind::Str,
        Some(ParamValue::Number(_)) => d.kind == Kind::Int,
        Some(ParamValue::Bool(_)) => d.kind == Kind::Bool,
        _ => false,
    }
}

/// Takes the arguments for a list of declarations from a parameter bag:
/// fails on the first required parameter that is missing or of the wrong
/// kind, and otherwise gives each declaration its value or its default.
pub fn extract_args(decls: &Vec<ParamDecl>, params: &Params) -> (r: Result<Vec<Arg>, NeonError>)
    ensures
        match first_missing(decls_of(decls@), params@, 0) {
            Some(n) => r matches Err(NeonError::BadRequest(msg)) && msg@ == missing_message(n),
            None => r matches Ok(a) && args_of(a@) == args_from(decls_of(decls@), params@),
        },
{
    let ghost ds = decls_of(decls@);
    let mut out: Vec<Arg> = Vec::new();
    let mut i: usize = 0;
    while i < decls.len()
        invariant
            i <= decls@.len(),
            ds == decls_of(decls@),
            ds.len() == decls@.len(),
            first_missing(ds, params@, 0) == first_missing(ds, params@, i as int),
            args_of(out@) == args_from(ds, params@).take(i as int),
        decreases decls@.len() - i,
    {
        let d = &decls[i];
        assert(ds[i as int] == d@);
        if d.required && !holds_fitting(d, params) {
            let mut msg = String::from_str("Missing required parameter: ");
            msg.append(d.name.as_str());
            return Err(NeonError::BadRequest(msg));
        }
        let a = take_arg(d, params);
        let ghost before = out@;
        out.push(a);
        assert(out@ == before.push(a));
        assert(args_of(out@) =~= args_of(before).push(a@));
        assert(args_of(out@) =~= args_from(ds, params@).take(i + 1));
        i = i + 1;
    }
    assert(args_from(ds, params@).take(i as int) =~= args_from(ds, params@));
    Ok(out)
}

/// Validates a request: selects the method by name (canonical or alias) and
/// takes its declared parameters from the bag.
pub fn plan(name: &str, params: &Params) -> (r: Result<Call, NeonError>)
    ensures
        agrees(r, name@, plan_of(name@, params@)),
{
    match Method::from_name(name) {
        None => Err(NeonError::UnknownMethod(String::from_str(name))),
        Some(m) => {
            let ds = m.params();
            match extract_args(&ds, params) {
                Ok(args) => Ok(Call { method: m, args }),
                Err(e) => Err(e),
            }
        },
    }
}


/// The human-readable description of each method.
pub open spec fn description_of(m: Method) -> Seq<char> {
    match m {
        Method::Health => "Check daemon and API health"@,
        Method::Projects => "List all Neon projects"@,
        Method::Project => "Get a specific project"@,
        Method::Branches => "List branches for a project"@,
        Method::Databases => "List databases for a branch"@,
        Method::Tables => "List tables in a database"@,
        Method::Schema => "Get table schema"@,
        Method::Sql => "Run a SQL query"@,
        Method::User => "Get current user info"@,
        Method::CreateBranch => "Create a new branch"@,
        Method::DeleteBranch => "Delete a branch"@,
        Method::ConnectionString => "Get connection string for a branch"@,
    }
}

impl Method {
    /// The human-readable description of the method.
    pub fn description(&self) -> (r: String)
        ensures
            r@ == description_of(*self),
    {
        let lit = match self {
            Method::Health => "Check daemon and API health",
            Method::Projects => "List all Neon projects",
            Method::Project => "Get a specific project",
            Method::Branches => "List branches for a project",
            Method::Databases => "List databases for a branch",
            Method::Tables => "List tables in a database",
            Method::Schema => "Get table schema",
            Method::Sql => "Run a SQL query",
            Method::User => "Get current user info",
            Method::CreateBranch => "Create a new branch",
            Method::DeleteBranch => "Delete a branch",
            Method::ConnectionString => "Get connection string for a branch",
        };
        String::from_str(lit)
    }

    /// The entry of the published list that describes the method.
    pub fn info(&self) -> (r: MethodInfo)
        ensures
            r.name@ == canonical_name(*self),
            r.description@ == description_of(*self),
            decls_of(r.params@) == decls(*self),
    {
        MethodInfo { name: self.name(), description: self.description(), params: self.params() }
    }
}

/// Whether a list entry describes a method: its canonical name, its
/// description and its declared parameters.
pub open spec fn describes(info: MethodInfo, m: Method) -> bool {
    &&& info.name@ == canonical_name(m)
    &&& info.description@ == description_of(m)
    &&& decls_of(info.params@) == decls(m)
}

/// The methods of the published list, in order.
pub fn published_methods() -> (r: Vec<Method>)
    ensures
        r@ == published(),
{
    let mut v: Vec<Method> = Vec::new();
    v.push(Method::Health);
    v.push(Method::Projects);
    v.push(Method::Project);
    v.push(Method::Branches);
    v.push(Method::Databases);
    v.push(Method::Tables);
    v.push(Method::Schema);
    v.push(Method::Sql);
    v.push(Method::User);
    v.push(Method::CreateBranch);
    v.push(Method::DeleteBranch);
    v.push(Method::ConnectionString);
    assert(v@ =~= published());
    v
}

/// The published method list: each canonical method with its description and
/// its parameters (name, kind, required flag, default). The short aliases
/// are dispatched but not listed.
pub fn method_list() -> (r: Vec<MethodInfo>)
    ensures
        r@.len() == 12,
        r@.len() == published().len(),
        forall|i: int| 0 <= i < r@.len() ==> describes(#[trigger] r@[i], published()[i]),
{
    let ms = published_methods();
    let mut out: Vec<MethodInfo> = Vec::new();
    let mut i: usize = 0;
    while i < ms.len()
        invariant
            i <= ms@.len(),
            ms@ == published(),
            out@.len() == i,
            forall|j: int| 0 <= j < i ==> describes(#[trigger] out@[j], published()[j]),
        decreases ms@.len() - i,
    {
        let info = ms[i].info();
        let ghost before = out@;
        out.push(info);
        assert(out@[i as int] == info);
        i = i + 1;
    }
    assert(published().len() == 12);
    out
}

} // verus!
