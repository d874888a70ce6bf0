use vstd::prelude::*;
use crate::text::{to_uppercase, uppercase};

verus! {

/// A value bound to a numbered placeholder of a statement.
#[derive(Clone, Debug, PartialEq, Eq)]
pub enum SqlParam {
    Bool(bool),
    Text(String),
}

/// Mathematical value of a bound value.
pub enum SqlParamView {
    Bool(bool),
    Text(Seq<char>),
}

impl View for SqlParam {
    type V = SqlParamView;

    open spec fn view(&self) -> SqlParamView {
        match self {
            SqlParam::Bool(b) => SqlParamView::Bool(*b),
            SqlParam::Text(t) => SqlParamView::Text(t@),
        }
    }
}

/// A statement with its values for `$1`, `$2`, ... in order.
#[derive(Clone, Debug, PartialEq, Eq)]
pub struct SqlQuery {
    pub sql: String,
    pub params: Vec<SqlParam>,
}

/// Mathematical value of a statement.
pub struct SqlQueryView {
    pub sql: Seq<char>,
    pub params: Seq<SqlParamView>,
}

impl View for SqlQuery {
    type V = SqlQueryView;

    open spec fn view(&self) -> SqlQueryView {
        SqlQueryView { sql: self.sql@, params: self.params@.map_values(|p: SqlParam| p@) }
    }
}

/// Looks up a unit among the registered biometric units; unit ids are stored in upper case.
pub open spec fn spec_check_unit_is_valid(unit_id: Seq<char>) -> SqlQueryView {
    SqlQueryView {
        sql: "SELECT 1 FROM biometric WHERE (unit_id=$1)"@,
        params: seq![SqlParamView::Text(uppercase(unit_id))],
    }
}

/// Sets the online flag of a unit.
pub open spec fn spec_update_unit_state(unit_id: Seq<char>, unit_state: bool) -> SqlQueryView {
    SqlQueryView {
        sql: "UPDATE biometric SET online=$1 WHERE unit_id=$2"@,
        params: seq![SqlParamView::Bool(unit_state), SqlParamView::Text(uppercase(unit_id))],
    }
}

/// The lookup of the unit stored under the id `stored_id` (already in upper case).
pub fn unit_lookup(stored_id: String) -> (q: SqlQuery)
    ensures
        q@ == (SqlQueryView {
            sql: "SELECT 1 FROM biometric WHERE (unit_id=$1)"@,
            params: seq![SqlParamView::Text(stored_id@)],
        }),
{
    let ghost id = stored_id@;
    let mut params: Vec<SqlParam> = Vec::new();
    params.push(SqlParam::Text(stored_id));
    assert(params@.map_values(|p: SqlParam| p@) =~= seq![SqlParamView::Text(id)]);
    SqlQuery { sql: String::from_str("SELECT 1 FROM biometric WHERE (unit_id=$1)"), params }
}

/// Sets the online flag of the unit stored under `stored_id` (already in upper case).
pub fn unit_state_change(stored_id: String, unit_state: bool) -> (q: SqlQuery)
    ensures
        q@ == (SqlQueryView {
            sql: "UPDATE biometric SET online=$1 WHERE unit_id=$2"@,
            params: seq![SqlParamView::Bool(unit_state), SqlParamView::Text(stored_id@)],
        }),
{
    let ghost id = stored_id@;
    let mut params: Vec<SqlParam> = Vec::new();
    params.push(SqlParam::Bool(unit_state));
    params.push(SqlParam::Text(stored_id));
    assert(params@.map_values(|p: SqlParam| p@) =~= seq![SqlParamView::Bool(unit_state), SqlParamView::Text(id)]);
    SqlQuery { sql: String::from_str("UPDATE biometric SET online=$1 WHERE unit_id=$2"), params }
}

/// The statement that tells whether `unit_id` is a registered unit.
pub fn check_unit_is_valid(unit_id: String) -> (q: SqlQuery)
    ensures
        q@ == spec_check_unit_is_valid(unit_id@),
{
    unit_lookup(to_uppercase(unit_id.as_str()))
}

/// The statement that marks `unit_id` online (`true`) or offline (`false`).
pub fn update_unit_state(unit_id: String, unit_state: bool) -> (q: SqlQuery)
    ensures
        q@ == spec_update_unit_state(unit_id@, unit_state),
{
    unit_state_change(to_uppercase(unit_id.as_str()), unit_state)
}

/// A statement found or changed its unit when it touched exactly one row.
pub fn touched_one_row(rows_affected: u64) -> (found: bool)
    ensures
        found == (rows_affected == 1),
{
    rows_affected == 1
}

} // verus!
