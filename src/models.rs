use vstd::prelude::*;

verus! {

/// A project of the control plane.
pub struct Project {
    pub id: String,
    pub name: String,
    pub region_id: Option<String>,
    pub platform_id: Option<String>,
    pub pg_version: Option<i32>,
    pub created_at: Option<String>,
    pub updated_at: Option<String>,
}

/// A branch of a project; `parent_id` is absent on the root branch.
pub struct Branch {
    pub id: String,
    pub project_id: String,
    pub name: String,
    pub parent_id: Option<String>,
    pub created_at: Option<String>,
    pub updated_at: Option<String>,
    pub current_state: Option<String>,
}

/// A database of a branch.
pub struct Database {
    pub id: i64,
    pub branch_id: String,
    pub name: String,
    pub owner_name: String,
    pub created_at: Option<String>,
    pub updated_at: Option<String>,
}

/// A table as the catalog lists it.
pub struct TableInfo {
    pub schema: String,
    pub name: String,
    pub row_count: Option<i64>,
}

/// A column of a table, as the information schema describes it.
pub struct ColumnInfo {
    pub column_name: String,
    pub data_type: String,
    pub is_nullable: bool,
    pub column_default: Option<String>,
}

/// A compute endpoint: the host that serves SQL for a branch.
pub struct Endpoint {
    pub id: String,
    pub host: String,
    pub branch_id: String,
}

/// The result of a SQL query: column names and rows of JSON values.
pub struct QueryResult {
    pub columns: Vec<String>,
    pub rows: Vec<Vec<serde_json::Value>>,
    pub row_count: i64,
}

/// A list response of the control plane, unwrapped from its envelope.
pub struct ListResponse<T> {
    pub items: Vec<T>,
}

/// The error body that the control plane sends with a failing status.
pub struct ApiError {
    pub code: String,
    pub message: String,
}

/// A JSON value, carried through unread.
#[verifier::external_type_specification]
#[verifier::external_body]
pub struct ExJsonValue(serde_json::Value);

} // verus!
