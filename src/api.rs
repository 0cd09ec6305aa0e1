use vstd::prelude::*;
use vstd::string::*;
use crate::error::NeonError;
use crate::models::Endpoint;
use crate::text::{decimal, decimal_string, escape_quotes, escape_sql_quotes, join2, join3};

verus! {

/// An HTTP client of the `reqwest` crate, with its connection pool.
#[verifier::external_type_specification]
#[verifier::external_body]
pub struct ExHttpClient(reqwest::Client);

/// An error of the `reqwest` crate.
#[verifier::external_type_specification]
#[verifier::external_body]
pub struct ExHttpError(reqwest::Error);

/// The largest number of idle pooled connections kept per host.
pub const POOL_MAX_IDLE_PER_HOST: usize = 5;

/// The deadline of each outbound request, in seconds.
pub const REQUEST_TIMEOUT_SECS: u64 = 30;

/// Relies on `reqwest::ClientBuilder`: `pool_max_idle_per_host`, `timeout`
/// and `build`, which fails only where the TLS backend cannot be set up.
#[verifier::external_body]
fn build_http_client(max_idle: usize, timeout_secs: u64) -> (r: Result<reqwest::Client, reqwest::Error>) {
    reqwest::Client::builder()
        .pool_max_idle_per_host(max_idle)
        .timeout(std::time::Duration::from_secs(timeout_secs))
        .build()
}

/// A lowercase hexadecimal digit.
pub open spec fn hex_digit(d: int) -> char {
    if d < 10 {
        ('0' as int + d) as char
    } else {
        ('a' as int + d - 10) as char
    }
}

/// How JSON writes one character inside a string literal: quote and
/// backslash escaped, control characters below U+0020 in their short form
/// or as `\u00XX`, everything else as is.
pub open spec fn json_escape_char(c: char) -> Seq<char> {
    if c == '"' {
        seq!['\\', '"']
    } else if c == '\\' {
        seq!['\\', '\\']
    } else if c == '\u{8}' {
        seq!['\\', 'b']
    } else if c == '\u{c}' {
        seq!['\\', 'f']
    } else if c == '\n' {
        seq!['\\', 'n']
    } else if c == '\r' {
        seq!['\\', 'r']
    } else if c == '\t' {
        seq!['\\', 't']
    } else if (c as int) < 0x20 {
        seq!['\\', 'u', '0', '0', hex_digit(c as int / 16), hex_digit(c as int % 16)]
    } else {
        seq![c]
    }
}

/// The escaped contents of a JSON string literal.
pub open spec fn json_escaped(s: Seq<char>) -> Seq<char>
    decreases s.len(),
{
    if s.len() == 0 {
        Seq::empty()
    } else {
        json_escaped(s.drop_last()) + json_escape_char(s.last())
    }
}

/// The JSON string literal of a string.
pub open spec fn json_string_of(s: Seq<char>) -> Seq<char> {
    seq!['"'] + json_escaped(s) + seq!['"']
}

/// Relies on `serde_json::Value::from(&str)` and the `Display` impl of
/// `serde_json::Value`, which writes a string value as a quoted and escaped
/// JSON string literal: `format_escaped_str` escapes only quotes,
/// backslashes and control characters below U+0020.
#[verifier::external_body]
pub(crate) fn json_string(s: &str) -> (r: String)
    ensures
        r@ == json_string_of(s@),
{
    serde_json::Value::from(s).to_string()
}

/// The HTTP verbs the adapter uses.
#[derive(Clone, Copy, PartialEq, Eq, Structural, Debug)]
pub enum HttpMethod {
    Get,
    Post,
    Delete,
}

/// One outbound HTTP request, fully described.
pub struct HttpRequest {
    pub method: HttpMethod,
    pub url: String,
    pub headers: Vec<(String, String)>,
    pub body: Option<String>,
}

/// The mathematical value of an [`HttpRequest`].
pub struct RequestView {
    pub method: HttpMethod,
    pub url: Seq<char>,
    pub headers: Seq<(Seq<char>, Seq<char>)>,
    pub body: Option<Seq<char>>,
}

impl View for HttpRequest {
    type V = RequestView;

    open spec fn view(&self) -> RequestView {
        RequestView {
            method: self.method,
            url: self.url@,
            headers: self.headers@.map_values(|h: (String, String)| (h.0@, h.1@)),
            body: match self.body {
                Some(b) => Some(b@),
                None => None,
            },
        }
    }
}

pub open spec fn api_base() -> Seq<char> {
    "https://console.neon.tech/api/v2"@
}

/// An authenticated control-plane request to `path`.
pub open spec fn control_request(method: HttpMethod, api_key: Seq<char>, path: Seq<char>, body: Option<Seq<char>>) -> RequestView {
    RequestView {
        method,
        url: api_base() + path,
        headers: seq![
            ("Authorization"@, "Bearer "@ + api_key),
            ("Accept"@, "application/json"@),
        ] + match body {
            Some(_) => seq![("Content-Type"@, "application/json"@)],
            None => Seq::empty(),
        },
        body,
    }
}

pub open spec fn projects_path(org_id: Seq<char>, limit: int) -> Seq<char> {
    "/projects?org_id="@ + org_id + "&limit="@ + decimal(limit)
}

pub open spec fn project_path(project_id: Seq<char>) -> Seq<char> {
    "/projects/"@ + project_id
}

pub open spec fn branches_path(project_id: Seq<char>) -> Seq<char> {
    "/projects/"@ + project_id + "/branches"@
}

pub open spec fn branch_path(project_id: Seq<char>, branch_id: Seq<char>) -> Seq<char> {
    "/projects/"@ + project_id + "/branches/"@ + branch_id
}

pub open spec fn databases_path(project_id: Seq<char>, branch_id: Seq<char>) -> Seq<char> {
    branch_path(project_id, branch_id) + "/databases"@
}

pub open spec fn endpoints_path(project_id: Seq<char>) -> Seq<char> {
    "/projects/"@ + project_id + "/endpoints"@
}

/// The body of a data-plane SQL request: the query and no parameters.
pub open spec fn sql_body(query: Seq<char>) -> Seq<char> {
    "{\"query\":"@ + json_string_of(query) + ",\"params\":[]}"@
}

/// The data-plane SQL request to a compute endpoint's host.
pub open spec fn sql_request_view(host: Seq<char>, api_key: Seq<char>, database: Seq<char>, query: Seq<char>) -> RequestView {
    RequestView {
        method: HttpMethod::Post,
        url: "https://"@ + host + "/sql"@,
        headers: seq![
            ("Neon-Connection-String"@, "postgres://neondb_owner:"@ + api_key + "@"@ + host + "/"@ + database),
            ("Content-Type"@, "application/json"@),
        ],
        body: Some(sql_body(query)),
    }
}

/// The fields of a branch-creation body, each present where given.
pub open spec fn branch_fields(name: Option<Seq<char>>, parent_id: Option<Seq<char>>) -> Seq<char> {
    match (name, parent_id) {
        (Some(n), Some(p)) => "\"name\":"@ + json_string_of(n) + ",\"parent_id\":"@ + json_string_of(p),
        (Some(n), None) => "\"name\":"@ + json_string_of(n),
        (None, Some(p)) => "\"parent_id\":"@ + json_string_of(p),
        (None, None) => Seq::empty(),
    }
}

pub open spec fn create_branch_body(name: Option<Seq<char>>, parent_id: Option<Seq<char>>) -> Seq<char> {
    "{\"branch\":{"@ + branch_fields(name, parent_id) + "}}"@
}

/// The path that asks for a connection string: the database (`neondb`
/// when absent), the owner role, pooling, and the branch where given.
pub open spec fn connection_uri_path(
    project_id: Seq<char>,
    branch_id: Option<Seq<char>>,
    database: Option<Seq<char>>,
    pooled: bool,
) -> Seq<char> {
    "/projects/"@ + project_id + "/connection_uri?database_name="@ + match database {
        Some(d) => d,
        None => "neondb"@,
    } + "&role_name=neondb_owner&pooled="@ + (if pooled { "true"@ } else { "false"@ }) + match branch_id {
        Some(b) => "&branch_id="@ + b,
        None => Seq::empty(),
    }
}

pub open spec fn opt_view(o: Option<&str>) -> Option<Seq<char>> {
    match o {
        Some(s) => Some(s@),
        None => None,
    }
}

/// The index of the first endpoint, from `i` on, that serves `branch_id`.
pub open spec fn first_endpoint_for(eps: Seq<Endpoint>, branch_id: Seq<char>, i: int) -> Option<int>
    decreases eps.len() - i,
{
    if i < 0 || i >= eps.len() {
        None
    } else if eps[i].branch_id@ == branch_id {
        Some(i)
    } else {
        first_endpoint_for(eps, branch_id, i + 1)
    }
}

proof fn lemma_first_endpoint_in_range(eps: Seq<Endpoint>, branch_id: Seq<char>, i: int)
    requires
        0 <= i,
    ensures
        first_endpoint_for(eps, branch_id, i) matches Some(j) ==> i <= j < eps.len() && eps[j].branch_id@ == branch_id,
    decreases eps.len() - i,
{
    if i < eps.len() {
        lemma_first_endpoint_in_range(eps, branch_id, i + 1);
    }
}

pub open spec fn is_success(status: u16) -> bool {
    200 <= status < 300
}

/// Whether a status is a success (2xx).
pub fn status_is_success(status: u16) -> (r: bool)
    ensures
        r == is_success(status),
{
    200 <= status && status < 300
}

/// The outcome of a liveness probe from the status of the probe request:
/// true exactly on a 2xx status.
pub fn ping_outcome(status: u16) -> (r: bool)
    ensures
        r == is_success(status),
{
    status_is_success(status)
}

/// Passes a 2xx response body on; any other status is a remote error that
/// carries the status and the body verbatim.
pub fn check_status(status: u16, body: String) -> (r: Result<String, NeonError>)
    ensures
        is_success(status) ==> (r matches Ok(b) && b@ == body@),
        !is_success(status) ==> (r matches Err(NeonError::Remote { status: s, body: b }) && s == status && b@ == body@),
{
    if status_is_success(status) {
        Ok(body)
    } else {
        Err(NeonError::Remote { status, body })
    }
}

/// The index of the first endpoint that serves `branch_id`, in the order given.
pub fn select_endpoint(endpoints: &Vec<Endpoint>, branch_id: &str) -> (r: Option<usize>)
    ensures
        r is None <==> first_endpoint_for(endpoints@, branch_id@, 0) is None,
        r matches Some(i) ==> first_endpoint_for(endpoints@, branch_id@, 0) == Some(i as int) && i < endpoints@.len(),
{
    proof {
        lemma_first_endpoint_in_range(endpoints@, branch_id@, 0);
    }
    let wanted = String::from_str(branch_id);
    let mut i: usize = 0;
    while i < endpoints.len()
        invariant
            i <= endpoints@.len(),
            wanted@ == branch_id@,
            first_endpoint_for(endpoints@, branch_id@, 0) == first_endpoint_for(endpoints@, branch_id@, i as int),
        decreases endpoints@.len() - i,
    {
        if endpoints[i].branch_id.eq(&wanted) {
            return Some(i);
        }
        i = i + 1;
    }
    None
}

/// The catalog query that lists the user tables of a database, ordered by
/// schema and then by name.
pub fn tables_query() -> (r: String)
    ensures
        r@ == tables_query_text(),
{
    String::from_str(
        "SELECT schemaname as schema, tablename as name FROM pg_catalog.pg_tables WHERE schemaname NOT IN ('pg_catalog', 'information_schema') ORDER BY schemaname, tablename",
    )
}

pub open spec fn tables_query_text() -> Seq<char> {
    "SELECT schemaname as schema, tablename as name FROM pg_catalog.pg_tables WHERE schemaname NOT IN ('pg_catalog', 'information_schema') ORDER BY schemaname, tablename"@
}

pub open spec fn schema_query_head() -> Seq<char> {
    "SELECT column_name, data_type, is_nullable::boolean, column_default FROM information_schema.columns WHERE table_name = '"@
}

pub open spec fn schema_query_tail() -> Seq<char> {
    "' ORDER BY ordinal_position"@
}

/// The information-schema query for the columns of `table`, in ordinal
/// order; the name is put inside a SQL literal with its apostrophes doubled.
pub fn table_schema_query(table: &str) -> (r: String)
    ensures
        r@ == schema_query_head() + escape_quotes(table@) + schema_query_tail(),
{
    let escaped = escape_sql_quotes(table);
    join3(
        "SELECT column_name, data_type, is_nullable::boolean, column_default FROM information_schema.columns WHERE table_name = '",
        escaped.as_str(),
        "' ORDER BY ordinal_position",
    )
}

/// The adapter to the remote control plane: the credentials and a pooled
/// HTTP client, shared and never changed after construction.
pub struct NeonClient {
    http: reqwest::Client,
    api_key: String,
    org_id: String,
    pool_max_idle: usize,
    timeout_secs: u64,
}

impl NeonClient {
    pub closed spec fn api_key_view(&self) -> Seq<char> {
        self.api_key@
    }

    pub closed spec fn org_id_view(&self) -> Seq<char> {
        self.org_id@
    }

    /// The pool bound (idle connections per host) and the per-request
    /// deadline (seconds) that the HTTP client was built with.
    pub closed spec fn pool_config(&self) -> (usize, u64) {
        (self.pool_max_idle, self.timeout_secs)
    }

    /// The pool bound and deadline that the HTTP client was built with.
    pub fn pool_settings(&self) -> (r: (usize, u64))
        ensures
            r == self.pool_config(),
    {
        (self.pool_max_idle, self.timeout_secs)
    }

    /// A client for the given credentials, with a pool of at most five idle
    /// connections per host and a thirty-second deadline on each request.
    /// Fails with a transport error only where the HTTP client cannot be built.
    pub fn new(api_key: String, org_id: String) -> (r: Result<NeonClient, NeonError>)
        ensures
            r matches Ok(c) ==> c.api_key_view() == api_key@ && c.org_id_view() == org_id@,
            r matches Ok(c) ==> c.pool_config() == (5usize, 30u64),
            r is Err ==> r matches Err(NeonError::Transport(_)),
    {
        let pool_max_idle = POOL_MAX_IDLE_PER_HOST;
        let timeout_secs = REQUEST_TIMEOUT_SECS;
        match build_http_client(pool_max_idle, timeout_secs) {
            Ok(http) => Ok(NeonClient { http, api_key, org_id, pool_max_idle, timeout_secs }),
            Err(_) => Err(NeonError::Transport(String::from_str("Failed to build HTTP client"))),
        }
    }

    /// The pooled HTTP client that carries out the requests.
    pub fn http(&self) -> &reqwest::Client {
        &self.http
    }

    fn control(&self, method: HttpMethod, path: String, body: Option<String>) -> (r: HttpRequest)
        ensures
            r@ == control_request(
                method,
                self.api_key_view(),
                path@,
                match body {
                    Some(b) => Some(b@),
                    None => None,
                },
            ),
    {
        let mut headers: Vec<(String, String)> = Vec::new();
        headers.push((String::from_str("Authorization"), join2("Bearer ", self.api_key.as_str())));
        headers.push((String::from_str("Accept"), String::from_str("application/json")));
        if body.is_some() {
            headers.push((String::from_str("Content-Type"), String::from_str("application/json")));
        }
        let url = join2("https://console.neon.tech/api/v2", path.as_str());
        let r = HttpRequest { method, url, headers, body };
        assert(r@.headers =~= control_request(method, self.api_key_view(), path@, r@.body).headers);
        r
    }

    /// The liveness probe: the first project of the organization.
    pub fn ping_request(&self) -> (r: HttpRequest)
        ensures
            r@ == control_request(HttpMethod::Get, self.api_key_view(), projects_path(self.org_id_view(), 1), None),
    {
        self.list_projects_request(Some(1))
    }

    /// The projects of the organization, at most `limit` of them (ten when absent).
    pub fn list_projects_request(&self, limit: Option<i32>) -> (r: HttpRequest)
        ensures
            r@ == control_request(
                HttpMethod::Get,
                self.api_key_view(),
                projects_path(
                    self.org_id_view(),
                    match limit {
                        Some(n) => n as int,
                        None => 10,
                    },
                ),
                None,
            ),
    {
        let n: i32 = match limit {
            Some(n) => n,
            None => 10,
        };
        let digits = decimal_string(n as i64);
        let mut path = join3("/projects?org_id=", self.org_id.as_str(), "&limit=");
        path.append(digits.as_str());
        self.control(HttpMethod::Get, path, None)
    }

    /// One project.
    pub fn get_project_request(&self, project_id: &str) -> (r: HttpRequest)
        ensures
            r@ == control_request(HttpMethod::Get, self.api_key_view(), project_path(project_id@), None),
    {
        self.control(HttpMethod::Get, join2("/projects/", project_id), None)
    }

    /// The branches of a project.
    pub fn list_branches_request(&self, project_id: &str) -> (r: HttpRequest)
        ensures
            r@ == control_request(HttpMethod::Get, self.api_key_view(), branches_path(project_id@), None),
    {
        self.control(HttpMethod::Get, join3("/projects/", project_id, "/branches"), None)
    }

    fn branch_path_string(project_id: &str, branch_id: &str) -> (r: String)
        ensures
            r@ == branch_path(project_id@, branch_id@),
    {
        let mut p = join3("/projects/", project_id, "/branches/");
        p.append(branch_id);
        p
    }

    /// The databases of a branch.
    pub fn list_databases_request(&self, project_id: &str, branch_id: &str) -> (r: HttpRequest)
        ensures
            r@ == control_request(HttpMethod::Get, self.api_key_view(), databases_path(project_id@, branch_id@), None),
    {
        let mut p = Self::branch_path_string(project_id, branch_id);
        p.append("/databases");
        self.control(HttpMethod::Get, p, None)
    }

    /// The compute endpoints of a project: the first step of running SQL.
    pub fn endpoints_request(&self, project_id: &str) -> (r: HttpRequest)
        ensures
            r@ == control_request(HttpMethod::Get, self.api_key_view(), endpoints_path(project_id@), None),
    {
        self.control(HttpMethod::Get, join3("/projects/", project_id, "/endpoints"), None)
    }

    /// The account of the credentials.
    pub fn user_request(&self) -> (r: HttpRequest)
        ensures
            r@ == control_request(HttpMethod::Get, self.api_key_view(), "/users/me"@, None),
    {
        self.control(HttpMethod::Get, String::from_str("/users/me"), None)
    }

    /// Removes a branch.
    pub fn delete_branch_request(&self, project_id: &str, branch_id: &str) -> (r: HttpRequest)
        ensures
            r@ == control_request(HttpMethod::Delete, self.api_key_view(), branch_path(project_id@, branch_id@), None),
    {
        self.control(HttpMethod::Delete, Self::branch_path_string(project_id, branch_id), None)
    }

    /// Creates a branch, named and parented where given.
    pub fn create_branch_request(&self, project_id: &str, name: Option<&str>, parent_id: Option<&str>) -> (r: HttpRequest)
        ensures
            r@ == control_request(
                HttpMethod::Post,
                self.api_key_view(),
                branches_path(project_id@),
                Some(create_branch_body(opt_view(name), opt_view(parent_id))),
            ),
    {
        let mut body = String::from_str("{\"branch\":{");
        match name {
            Some(n) => {
                body.append("\"name\":");
                let q = json_string(n);
                body.append(q.as_str());
            },
            None => {},
        }
        match parent_id {
            Some(p) => {
                if name.is_some() {
                    body.append(",\"parent_id\":");
                } else {
                    body.append("\"parent_id\":");
                }
                let q = json_string(p);
                body.append(q.as_str());
            },
            None => {},
        }
        body.append("}}");
        assert(body@ =~= create_branch_body(opt_view(name), opt_view(parent_id)));
        self.control(HttpMethod::Post, join3("/projects/", project_id, "/branches"), Some(body))
    }

    /// Asks for a connection string of a project's database.
    pub fn connection_string_request(
        &self,
        project_id: &str,
        branch_id: Option<&str>,
        database: Option<&str>,
        pooled: bool,
    ) -> (r: HttpRequest)
        ensures
            r@ == control_request(
                HttpMethod::Get,
                self.api_key_view(),
                connection_uri_path(project_id@, opt_view(branch_id), opt_view(database), pooled),
                None,
            ),
    {
        let mut path = join3("/projects/", project_id, "/connection_uri?database_name=");
        match database {
            Some(d) => path.append(d),
            None => path.append("neondb"),
        }
        path.append("&role_name=neondb_owner&pooled=");
        if pooled {
            path.append("true");
        } else {
            path.append("false");
        }
        match branch_id {
            Some(b) => {
                path.append("&branch_id=");
                path.append(b);
            },
            None => {},
        }
        assert(path@ =~= connection_uri_path(project_id@, opt_view(branch_id), opt_view(database), pooled));
        self.control(HttpMethod::Get, path, None)
    }

    /// The second step of running SQL, once the project's endpoints are
    /// known: a POST of the query to the host of the first endpoint that
    /// serves the branch. Where none serves it, no request is made and the
    /// result is a not-found error.
    pub fn sql_request(&self, endpoints: &Vec<Endpoint>, branch_id: &str, database: &str, query: &str) -> (r: Result<HttpRequest, NeonError>)
        ensures
            match first_endpoint_for(endpoints@, branch_id@, 0) {
                Some(i) => r matches Ok(req) && req@ == sql_request_view(endpoints@[i].host@, self.api_key_view(), database@, query@),
                None => r matches Err(NeonError::NotFound(msg)) && msg@ == "No endpoint found for branch "@ + branch_id@,
            },
    {
        match select_endpoint(endpoints, branch_id) {
            None => Err(NeonError::NotFound(join2("No endpoint found for branch ", branch_id))),
            Some(i) => {
                let host = endpoints[i].host.as_str();
                let mut conn = join3("postgres://neondb_owner:", self.api_key.as_str(), "@");
                conn.append(host);
                conn.append("/");
                conn.append(database);
                let mut headers: Vec<(String, String)> = Vec::new();
                headers.push((String::from_str("Neon-Connection-String"), conn));
                headers.push((String::from_str("Content-Type"), String::from_str("application/json")));
                let quoted = json_string(query);
                let body = join3("{\"query\":", quoted.as_str(), ",\"params\":[]}");
                let req = HttpRequest { method: HttpMethod::Post, url: join3("https://", host, "/sql"), headers, body: Some(body) };
                let ghost want = sql_request_view(endpoints@[i as int].host@, self.api_key_view(), database@, query@);
                assert(req@.headers =~= want.headers);
                Ok(req)
            },
        }
    }
}

} // verus!
