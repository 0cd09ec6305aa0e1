use vstd::prelude::*;
use vstd::string::*;
use crate::error::NeonError;
use crate::text::{decimal, decimal_string, join2};

verus! {

/// The socket path used when none is given; `~` stands for the home directory.
pub fn default_socket() -> (r: String)
    ensures
        r@ == "~/.fgp/services/neon/daemon.sock"@,
{
    String::from_str("~/.fgp/services/neon/daemon.sock")
}

/// The name that the daemon's process carries.
pub fn process_name() -> (r: String)
    ensures
        r@ == "fgp-neon"@,
{
    String::from_str("fgp-neon")
}

/// The PID file that belongs to a socket: the socket path with `.pid` added.
pub fn pid_file_path(socket_path: &str) -> (r: String)
    ensures
        r@ == socket_path@ + ".pid"@,
{
    join2(socket_path, ".pid")
}

/// The message when no credentials exist; it points at the auth command.
pub open spec fn missing_credentials_message() -> Seq<char> {
    "No NEON_API_KEY set and neonctl credentials not found. Run `neonctl auth` first."@
}

/// The message when the organization id is not set.
pub open spec fn missing_org_message() -> Seq<char> {
    "NEON_ORG_ID environment variable not set. Run `neonctl orgs list` to find your org_id."@
}

/// The API key: the environment's value where set, else the token of the
/// credentials file; with neither, a configuration error.
pub fn choose_api_key(env_key: Option<String>, file_token: Option<String>) -> (r: Result<String, NeonError>)
    ensures
        env_key matches Some(k) ==> (r matches Ok(v) && v@ == k@),
        (env_key is None && file_token is Some) ==> (r matches Ok(v) && v@ == file_token->Some_0@),
        env_key is None && file_token is None ==> (r matches Err(NeonError::Config(m)) && m@ == missing_credentials_message()),
{
    match env_key {
        Some(k) => Ok(k),
        None => match file_token {
            Some(t) => Ok(t),
            None => Err(NeonError::Config(String::from_str(
                "No NEON_API_KEY set and neonctl credentials not found. Run `neonctl auth` first.",
            ))),
        },
    }
}

/// The organization id, which the environment must supply.
pub fn require_org_id(env_org: Option<String>) -> (r: Result<String, NeonError>)
    ensures
        env_org matches Some(o) ==> (r matches Ok(v) && v@ == o@),
        env_org is None ==> (r matches Err(NeonError::Config(m)) && m@ == missing_org_message()),
{
    match env_org {
        Some(o) => Ok(o),
        None => Err(NeonError::Config(String::from_str(
            "NEON_ORG_ID environment variable not set. Run `neonctl orgs list` to find your org_id.",
        ))),
    }
}

/// The lines printed when the daemon starts.
pub fn start_lines(socket_path: &str, org_id: &str) -> (r: Vec<String>)
    ensures
        r@.len() == 3,
        r@[0]@ == "Starting fgp-neon daemon..."@,
        r@[1]@ == "Socket: "@ + socket_path@,
        r@[2]@ == "Org ID: "@ + org_id@,
{
    let mut v: Vec<String> = Vec::new();
    v.push(String::from_str("Starting fgp-neon daemon..."));
    v.push(join2("Socket: ", socket_path));
    v.push(join2("Org ID: ", org_id));
    v
}

/// Whether a character has the Unicode `White_Space` property.
pub open spec fn is_white_space(c: char) -> bool {
    ('\u{9}' <= c && c <= '\u{d}') || c == ' ' || c == '\u{85}' || c == '\u{a0}' || c == '\u{1680}'
        || ('\u{2000}' <= c && c <= '\u{200a}') || c == '\u{2028}' || c == '\u{2029}' || c == '\u{202f}'
        || c == '\u{205f}' || c == '\u{3000}'
}

/// A string without its leading white space.
pub open spec fn trim_start(s: Seq<char>) -> Seq<char>
    decreases s.len(),
{
    if s.len() > 0 && is_white_space(s[0]) {
        trim_start(s.drop_first())
    } else {
        s
    }
}

/// A string without its trailing white space.
pub open spec fn trim_end(s: Seq<char>) -> Seq<char>
    decreases s.len(),
{
    if s.len() > 0 && is_white_space(s.last()) {
        trim_end(s.drop_last())
    } else {
        s
    }
}

/// A string without leading and trailing white space.
pub open spec fn trimmed_of(s: Seq<char>) -> Seq<char> {
    trim_end(trim_start(s))
}

/// Relies on `str::trim`: the string without leading and trailing
/// characters of the Unicode `White_Space` property.
#[verifier::external_body]
fn trim_text(s: &str) -> (r: &str)
    ensures
        r@ == trimmed_of(s@),
{
    s.trim()
}

/// The value of a run of decimal digits.
pub open spec fn digits_value(s: Seq<char>) -> int
    decreases s.len(),
{
    if s.len() == 0 {
        0
    } else {
        digits_value(s.drop_last()) * 10 + (s.last() as int - '0' as int)
    }
}

pub open spec fn all_digits(s: Seq<char>) -> bool {
    forall|i: int| 0 <= i < s.len() ==> '0' <= #[trigger] s[i] && s[i] <= '9'
}

/// What `str::parse::<i32>` reads: an optional `+` or `-` sign followed by
/// one or more decimal digits, whose value fits in an `i32`.
pub open spec fn parsed_i32_of(s: Seq<char>) -> Option<i32> {
    let negative = s.len() > 0 && s[0] == '-';
    let body = if s.len() > 0 && (s[0] == '-' || s[0] == '+') { s.drop_first() } else { s };
    let v = if negative { -digits_value(body) } else { digits_value(body) };
    if body.len() > 0 && all_digits(body) && i32::MIN <= v <= i32::MAX {
        Some(v as i32)
    } else {
        None
    }
}

/// Relies on `<i32 as FromStr>::from_str`: an optional sign followed by
/// decimal digits, and nothing else, whose value is in range.
#[verifier::external_body]
fn parse_i32(s: &str) -> (r: Option<i32>)
    ensures
        r == parsed_i32_of(s@),
{
    s.parse::<i32>().ok()
}

/// Whether `needle` occurs in `hay` as a contiguous run.
pub open spec fn occurs_in(hay: Seq<char>, needle: Seq<char>) -> bool {
    exists|i: int| 0 <= i && i + needle.len() <= hay.len() && #[trigger] hay.subrange(i, i + needle.len()) == needle
}

/// Whether `needle` occurs in `hay`.
pub fn contains_text(hay: &str, needle: &str) -> (r: bool)
    ensures
        r == occurs_in(hay@, needle@),
{
    let hl = hay.unicode_len();
    let nl = needle.unicode_len();
    if nl > hl {
        return false;
    }
    let want = String::from_str(needle);
    let limit = hl - nl;
    let mut i: usize = 0;
    loop
        invariant
            hl == hay@.len(),
            nl == needle@.len(),
            limit == hl - nl,
            i <= limit,
            want@ == needle@,
            forall|j: int| 0 <= j < i ==> #[trigger] hay@.subrange(j, j + nl) != needle@,
        decreases limit - i,
    {
        let piece = String::from_str(hay.substring_char(i, i + nl));
        if piece.eq(&want) {
            return true;
        }
        if i == limit {
            proof {
                assert forall|j: int| 0 <= j && j + needle@.len() <= hay@.len() implies #[trigger] hay@.subrange(j, j + needle@.len()) != needle@ by {
                    if j < i {
                    } else {
                        assert(j == i);
                    }
                }
            }
            return false;
        }
        i = i + 1;
    }
}

/// Whether the command name that `ps -p <pid> -o comm=` printed is that of
/// the expected process: the trimmed output contains the expected name.
pub fn comm_matches(ps_output: &str, expected: &str) -> (r: bool)
    ensures
        r == occurs_in(trimmed_of(ps_output@), expected@),
{
    contains_text(trim_text(ps_output), expected)
}

/// Why `stop` gives up.
pub enum StopError {
    /// The PID file does not hold a decimal PID.
    InvalidPid,
    /// The PID belongs to another program, which is not signalled.
    UnexpectedProcess(i32),
}

impl StopError {
    /// The message printed for the error.
    pub fn message(&self) -> (r: String)
        ensures
            *self is InvalidPid ==> r@ == "Invalid PID in file"@,
            *self matches StopError::UnexpectedProcess(pid) ==> r@ == "Refusing to stop PID "@ + decimal(pid as int) + ": unexpected process"@,
    {
        match self {
            StopError::InvalidPid => String::from_str("Invalid PID in file"),
            StopError::UnexpectedProcess(pid) => {
                let mut r = String::from_str("Refusing to stop PID ");
                let digits = decimal_string(*pid as i64);
                r.append(digits.as_str());
                r.append(": unexpected process");
                r
            },
        }
    }
}

/// The PID that a PID file holds, surrounded by whitespace or not.
pub fn parse_pid(text: &str) -> (r: Result<i32, StopError>)
    ensures
        parsed_i32_of(trimmed_of(text@)) matches Some(p) ==> r == Ok::<i32, StopError>(p),
        parsed_i32_of(trimmed_of(text@)) is None ==> r matches Err(StopError::InvalidPid),
{
    match parse_i32(trim_text(text)) {
        Some(p) => Ok(p),
        None => Err(StopError::InvalidPid),
    }
}

/// Whether `ps` printed a command name that contains the daemon's name.
pub open spec fn names_daemon(ps_output: Option<&str>) -> bool {
    match ps_output {
        Some(out) => occurs_in(trimmed_of(out@), "fgp-neon"@),
        None => false,
    }
}

/// The process that `stop` may signal: only one whose command name, as `ps`
/// printed it, contains the daemon's name. Where `ps` gave nothing, or named
/// another program, the PID is refused.
pub fn stop_target(pid: i32, ps_output: Option<&str>) -> (r: Result<i32, StopError>)
    ensures
        names_daemon(ps_output) ==> r == Ok::<i32, StopError>(pid),
        !names_daemon(ps_output) ==> (r matches Err(StopError::UnexpectedProcess(p)) && p == pid),
{
    match ps_output {
        Some(out) => {
            if comm_matches(out, "fgp-neon") {
                Ok(pid)
            } else {
                Err(StopError::UnexpectedProcess(pid))
            }
        },
        None => Err(StopError::UnexpectedProcess(pid)),
    }
}

/// The single request line that `status` sends: a `health` call.
pub fn status_request_line() -> (r: String)
    ensures
        r@ == "{\"id\":\"status\",\"v\":1,\"method\":\"health\",\"params\":{}}"@,
{
    String::from_str("{\"id\":\"status\",\"v\":1,\"method\":\"health\",\"params\":{}}")
}

/// What `status` found at the socket.
pub enum SocketProbe {
    /// No socket file.
    Absent,
    /// The file exists but a connection failed, for the reason given.
    Unreachable(String),
    /// The daemon answered with this line.
    Answered(String),
}

/// The lines that `status` prints; it exits successfully in every case.
pub fn status_lines(socket_path: &str, probe: &SocketProbe) -> (r: Vec<String>)
    ensures
        *probe is Absent ==> r@.len() == 2 && r@[0]@ == "Status: NOT RUNNING"@
            && r@[1]@ == "Socket "@ + socket_path@ + " does not exist"@,
        *probe matches SocketProbe::Unreachable(e) ==> r@.len() == 2 && r@[0]@ == "Status: NOT RESPONDING"@
            && r@[1]@ == "Socket exists but connection failed: "@ + e@,
        *probe matches SocketProbe::Answered(line) ==> r@.len() == 3 && r@[0]@ == "Status: RUNNING"@
            && r@[1]@ == "Socket: "@ + socket_path@ && r@[2]@ == "Health: "@ + trimmed_of(line@),
{
    let mut v: Vec<String> = Vec::new();
    match probe {
        SocketProbe::Absent => {
            v.push(String::from_str("Status: NOT RUNNING"));
            let mut l = join2("Socket ", socket_path);
            l.append(" does not exist");
            v.push(l);
        },
        SocketProbe::Unreachable(e) => {
            v.push(String::from_str("Status: NOT RESPONDING"));
            v.push(join2("Socket exists but connection failed: ", e.as_str()));
        },
        SocketProbe::Answered(line) => {
            v.push(String::from_str("Status: RUNNING"));
            v.push(join2("Socket: ", socket_path));
            v.push(join2("Health: ", trim_text(line.as_str())));
        },
    }
    v
}

} // verus!
