use vstd::prelude::*;
use crate::dispatch::{Kind, alias_name, arg_from, args_from, canonical_name, decls, is_missing, first_missing, method_named, missing_message, plan_of, DeclView, Method, Plan};
use crate::params::{lookup, ParamValue};

verus! {

/// Whether a bag holds every required parameter of a method, of its kind.
pub open spec fn valid_params(m: Method, p: Seq<(Seq<char>, ParamValue)>) -> bool {
    forall|i: int| 0 <= i < decls(m).len() ==> !is_missing(#[trigger] decls(m)[i], p)
}

/// The lengths and the distinguishing characters of the method names.
proof fn lemma_method_name_chars()
    ensures
        "health"@.len() == 6,
        "health"@[0] == 'h',
        "projects"@.len() == 8,
        "projects"@[0] == 'p',
        "neon.projects"@.len() == 13,
        "neon.projects"@[0] == 'n',
        "neon.projects"@[5] == 'p',
        "project"@.len() == 7,
        "project"@[0] == 'p',
        "neon.project"@.len() == 12,
        "neon.project"@[0] == 'n',
        "neon.project"@[5] == 'p',
        "branches"@.len() == 8,
        "branches"@[0] == 'b',
        "neon.branches"@.len() == 13,
        "neon.branches"@[0] == 'n',
        "neon.branches"@[5] == 'b',
        "databases"@.len() == 9,
        "databases"@[0] == 'd',
        "neon.databases"@.len() == 14,
        "neon.databases"@[0] == 'n',
        "neon.databases"@[5] == 'd',
        "tables"@.len() == 6,
        "tables"@[0] == 't',
        "neon.tables"@.len() == 11,
        "neon.tables"@[0] == 'n',
        "neon.tables"@[5] == 't',
        "schema"@.len() == 6,
        "schema"@[0] == 's',
        "neon.schema"@.len() == 11,
        "neon.schema"@[0] == 'n',
        "neon.schema"@[5] == 's',
        "sql"@.len() == 3,
        "sql"@[0] == 's',
        "neon.sql"@.len() == 8,
        "neon.sql"@[0] == 'n',
        "neon.sql"@[5] == 's',
        "user"@.len() == 4,
        "user"@[0] == 'u',
        "neon.user"@.len() == 9,
        "neon.user"@[0] == 'n',
        "neon.user"@[5] == 'u',
        "create_branch"@.len() == 13,
        "create_branch"@[0] == 'c',
        "neon.create_branch"@.len() == 18,
        "neon.create_branch"@[0] == 'n',
        "neon.create_branch"@[5] == 'c',
        "delete_branch"@.len() == 13,
        "delete_branch"@[0] == 'd',
        "neon.delete_branch"@.len() == 18,
        "neon.delete_branch"@[0] == 'n',
        "neon.delete_branch"@[5] == 'd',
        "connection_string"@.len() == 17,
        "connection_string"@[0] == 'c',
        "neon.connection_string"@.len() == 22,
        "neon.connection_string"@[0] == 'n',
        "neon.connection_string"@[5] == 'c',
{
    reveal_strlit("health");
    reveal_strlit("projects");
    reveal_strlit("neon.projects");
    reveal_strlit("project");
    reveal_strlit("neon.project");
    reveal_strlit("branches");
    reveal_strlit("neon.branches");
    reveal_strlit("databases");
    reveal_strlit("neon.databases");
    reveal_strlit("tables");
    reveal_strlit("neon.tables");
    reveal_strlit("schema");
    reveal_strlit("neon.schema");
    reveal_strlit("sql");
    reveal_strlit("neon.sql");
    reveal_strlit("user");
    reveal_strlit("neon.user");
    reveal_strlit("create_branch");
    reveal_strlit("neon.create_branch");
    reveal_strlit("delete_branch");
    reveal_strlit("neon.delete_branch");
    reveal_strlit("connection_string");
    reveal_strlit("neon.connection_string");
}

proof fn lemma_canonical_selects(m: Method)
    ensures
        method_named(canonical_name(m)) == Some(m),
        alias_name(m) is Some ==> method_named(alias_name(m).unwrap()) == Some(m),
{
    lemma_method_name_chars();
    match m {
        Method::Health => {},
        Method::Projects => {},
        Method::Project => {},
        Method::Branches => {},
        Method::Databases => {},
        Method::Tables => {},
        Method::Schema => {},
        Method::Sql => {},
        Method::User => {},
        Method::CreateBranch => {},
        Method::DeleteBranch => {},
        Method::ConnectionString => {},
    }
}

proof fn lemma_none_missing_from(ds: Seq<DeclView>, p: Seq<(Seq<char>, ParamValue)>, i: int)
    requires
        0 <= i,
        forall|j: int| i <= j < ds.len() ==> !is_missing(#[trigger] ds[j], p),
    ensures
        first_missing(ds, p, i) == None::<Seq<char>>,
    decreases ds.len() - i,
{
    if i < ds.len() {
        lemma_none_missing_from(ds, p, i + 1);
    }
}

proof fn lemma_missing_at(ds: Seq<DeclView>, p: Seq<(Seq<char>, ParamValue)>, i: int, k: int)
    requires
        0 <= i <= k < ds.len(),
        forall|j: int| i <= j < k ==> !is_missing(#[trigger] ds[j], p),
        is_missing(ds[k], p),
    ensures
        first_missing(ds, p, i) == Some(ds[k].name),
    decreases k - i,
{
    if i < k {
        lemma_missing_at(ds, p, i + 1, k);
    }
}

proof fn lemma_distinct_names(m: Method, i: int, j: int)
    requires
        0 <= i < j < decls(m).len(),
    ensures
        decls(m)[i].name != decls(m)[j].name,
{
    reveal_strlit("limit");
    assert("limit"@[0] == 'l');
    assert("limit"@.len() == 5);
    reveal_strlit("project_id");
    assert("project_id"@[0] == 'p');
    assert("project_id"@.len() == 10);
    reveal_strlit("branch_id");
    assert("branch_id"@[0] == 'b');
    assert("branch_id"@.len() == 9);
    reveal_strlit("database");
    assert("database"@[0] == 'd');
    assert("database"@.len() == 8);
    reveal_strlit("table");
    assert("table"@[0] == 't');
    assert("table"@.len() == 5);
    reveal_strlit("query");
    assert("query"@[0] == 'q');
    assert("query"@.len() == 5);
    reveal_strlit("name");
    assert("name"@[0] == 'n');
    assert("name"@.len() == 4);
    reveal_strlit("parent_id");
    assert("parent_id"@[0] == 'p');
    assert("parent_id"@.len() == 9);
    reveal_strlit("pooled");
    assert("pooled"@[0] == 'p');
    assert("pooled"@.len() == 6);
    assert(j <= 3);
    if i == 0 {
        if j == 1 {} else if j == 2 {} else {}
    } else if i == 1 {
        if j == 2 {} else {}
    } else {}
}

/// Dispatching a method by its canonical name on a bag that holds every
/// required parameter reaches that method's operation, with one argument per
/// declared parameter, in declaration order: the given value of the declared
/// kind, or else the declared default.
pub proof fn law_valid_params_reach_operation(m: Method, p: Seq<(Seq<char>, ParamValue)>)
    requires
        valid_params(m, p),
    ensures
        plan_of(canonical_name(m), p) == Plan::Ready(m, args_from(decls(m), p)),
        args_from(decls(m), p).len() == decls(m).len(),
        forall|i: int|
            0 <= i < decls(m).len() ==> #[trigger] args_from(decls(m), p)[i] == arg_from(
                decls(m)[i],
                lookup(p, decls(m)[i].name),
            ),
{
    lemma_canonical_selects(m);
    lemma_none_missing_from(decls(m), p, 0);
}

/// Taking one required parameter out of a bag that holds all of them makes
/// dispatch fail with a bad-request error that names that parameter.
pub proof fn law_missing_required_param_is_named(
    m: Method,
    p: Seq<(Seq<char>, ParamValue)>,
    q: Seq<(Seq<char>, ParamValue)>,
    k: int,
)
    requires
        valid_params(m, p),
        0 <= k < decls(m).len(),
        decls(m)[k].required,
        lookup(q, decls(m)[k].name) is None,
        forall|n: Seq<char>| n != decls(m)[k].name ==> lookup(q, n) == lookup(p, n),
    ensures
        plan_of(canonical_name(m), q) == Plan::Missing(decls(m)[k].name),
        missing_message(decls(m)[k].name) == "Missing required parameter: "@ + decls(m)[k].name,
{
    lemma_canonical_selects(m);
    let ds = decls(m);
    assert forall|j: int| 0 <= j < k implies !is_missing(#[trigger] ds[j], q) by {
        lemma_distinct_names(m, j, k);
        assert(ds[j].name != ds[k].name);
        assert(lookup(q, ds[j].name) == lookup(p, ds[j].name));
        assert(!is_missing(ds[j], p));
    }
    lemma_missing_at(ds, q, 0, k);
}

/// A name that is neither a canonical name nor an alias is refused as an
/// unknown method, whatever the parameters.
pub proof fn law_unknown_method(p: Seq<(Seq<char>, ParamValue)>)
    ensures
        plan_of("unknown"@, p) == Plan::Unknown,
{
    lemma_method_name_chars();
    reveal_strlit("unknown");
    assert("unknown"@[0] == 'u');
    assert("unknown"@.len() == 7);

}

/// A method's alias dispatches exactly as its canonical name does, on every
/// parameter bag.
pub proof fn law_alias_same_as_canonical(m: Method, p: Seq<(Seq<char>, ParamValue)>)
    requires
        alias_name(m) is Some,
    ensures
        plan_of(alias_name(m).unwrap(), p) == plan_of(canonical_name(m), p),
{
    lemma_canonical_selects(m);
}

proof fn lemma_same_missing_from(
    m: Method,
    p: Seq<(Seq<char>, ParamValue)>,
    q: Seq<(Seq<char>, ParamValue)>,
    k: int,
    i: int,
)
    requires
        0 <= k < decls(m).len(),
        0 <= i,
        !decls(m)[k].required,
        forall|n: Seq<char>| n != decls(m)[k].name ==> lookup(q, n) == lookup(p, n),
    ensures
        first_missing(decls(m), q, i) == first_missing(decls(m), p, i),
    decreases decls(m).len() - i,
{
    let ds = decls(m);
    if i < ds.len() {
        if i != k {
            if i < k {
                lemma_distinct_names(m, i, k);
            } else {
                lemma_distinct_names(m, k, i);
            }
            assert(lookup(q, ds[i].name) == lookup(p, ds[i].name));
        }
        lemma_same_missing_from(m, p, q, k, i + 1);
    }
}

/// The parameter names of every method are unique.
pub proof fn law_parameter_names_unique(m: Method, i: int, j: int)
    requires
        0 <= i < decls(m).len(),
        0 <= j < decls(m).len(),
        i != j,
    ensures
        decls(m)[i].name != decls(m)[j].name,
{
    if i < j {
        lemma_distinct_names(m, i, j);
    } else {
        lemma_distinct_names(m, j, i);
    }
}

/// Every declaration is well formed: a required parameter has no default,
/// and a default is of the declared kind.
pub proof fn law_declaration_defaults(m: Method, i: int)
    requires
        0 <= i < decls(m).len(),
    ensures
        decls(m)[i].required ==> decls(m)[i].default is Absent,
        decls(m)[i].default is Str ==> decls(m)[i].kind == Kind::Str,
        decls(m)[i].default is Int ==> decls(m)[i].kind == Kind::Int,
        decls(m)[i].default is Bool ==> decls(m)[i].kind == Kind::Bool,
{
}

/// Giving an optional parameter, which the bag did not hold, a value that
/// yields its declared default changes nothing: dispatch makes the same plan
/// as with the parameter absent.
pub proof fn law_default_same_as_absent(
    m: Method,
    p: Seq<(Seq<char>, ParamValue)>,
    q: Seq<(Seq<char>, ParamValue)>,
    k: int,
)
    requires
        0 <= k < decls(m).len(),
        !decls(m)[k].required,
        lookup(p, decls(m)[k].name) is None,
        lookup(q, decls(m)[k].name) is Some,
        arg_from(decls(m)[k], lookup(q, decls(m)[k].name)) == decls(m)[k].default,
        forall|n: Seq<char>| n != decls(m)[k].name ==> lookup(q, n) == lookup(p, n),
    ensures
        plan_of(canonical_name(m), q) == plan_of(canonical_name(m), p),
{
    lemma_canonical_selects(m);
    lemma_same_missing_from(m, p, q, k, 0);
    let ds = decls(m);
    assert forall|j: int| 0 <= j < ds.len() implies #[trigger] args_from(ds, q)[j] == args_from(ds, p)[j] by {
        if j != k {
            if j < k {
                lemma_distinct_names(m, j, k);
            } else {
                lemma_distinct_names(m, k, j);
            }
        }
    }
    assert(args_from(ds, q) =~= args_from(ds, p));
}

} // verus!
