//! The three `/todo` handlers and the greeting route.
//!
//! Each handler turns the outcome of one store operation into the response
//! the client sees. The store operation itself is I/O and is performed by
//! the surrounding binary, which reports back either the operation's result
//! or the stage at which it failed; the mapping from that outcome to the
//! exact response body is decided, and proved, here.

use vstd::prelude::*;
use vstd::string::StringExecFns;

use crate::decimal::spec_digits;
use crate::decimal::usize_to_decimal;
use crate::types::StatusMessage;
use crate::types::ToDoItem;
use crate::types::ToDoList;

verus! {

/// The stage at which reading the full list failed.
pub enum ListFailure {
    /// The store connection could not be opened.
    Connection,
    /// The select statement could not be prepared.
    Preparation,
    /// The prepared statement could not be queried.
    Query,
    /// The returned rows could not all be collected.
    Collection,
}

/// The stage at which an insert or delete statement failed.
pub enum ExecFailure {
    /// The store connection could not be opened.
    Connection,
    /// The statement could not be prepared.
    Preparation,
    /// The statement could not be executed.
    Execution,
}

/// The greeting served at the root path.
pub fn index() -> (r: &'static str)
    ensures
        r@ == "Hello, world!"@,
{
    "Hello, world!"
}

/// Builds the response to `GET /todo` from the outcome of the select.
///
/// A successful read returns the collected items unchanged; each failure
/// stage maps to its fixed error string.
pub fn fetch_all_todos(outcome: Result<Vec<ToDoItem>, ListFailure>) -> (r: Result<
    ToDoList,
    String,
>)
    ensures
        (outcome matches Ok(items) ==> (r matches Ok(l) && l.items == items)),
        (outcome matches Err(ListFailure::Connection) ==> (r matches Err(e) && e@
            == "Failed to connect to database"@)),
        (outcome matches Err(ListFailure::Preparation) ==> (r matches Err(e) && e@
            == "Failed to prepare query"@)),
        (outcome matches Err(ListFailure::Query) ==> (r matches Err(e) && e@
            == "Failed to fetch todo items"@)),
        (outcome matches Err(ListFailure::Collection) ==> (r matches Err(e) && e@
            == "Could not collect items"@)),
{
    match outcome {
        Ok(items) => Ok(ToDoList { items }),
        Err(ListFailure::Connection) => Err(String::from_str("Failed to connect to database")),
        Err(ListFailure::Preparation) => Err(String::from_str("Failed to prepare query")),
        Err(ListFailure::Query) => Err(String::from_str("Failed to fetch todo items")),
        Err(ListFailure::Collection) => Err(String::from_str("Could not collect items")),
    }
}

/// Builds the response to `POST /todo` from the outcome of the insert.
///
/// A successful insert of `n` rows answers with the exact text
/// `"<n> rows inserted!"`; each failure stage maps to its fixed error string.
pub fn add_todo_item(outcome: Result<usize, ExecFailure>) -> (r: Result<StatusMessage, String>)
    ensures
        (outcome matches Ok(n) ==> (r matches Ok(m) && m@ == spec_digits(n as nat)
            + " rows inserted!"@)),
        (outcome matches Err(ExecFailure::Connection) ==> (r matches Err(e) && e@
            == "Failed to connect to database"@)),
        (outcome matches Err(ExecFailure::Preparation) ==> (r matches Err(e) && e@
            == "Failed to prepare query"@)),
        (outcome matches Err(ExecFailure::Execution) ==> (r matches Err(e) && e@
            == "Failed to fetch todo items"@)),
{
    match outcome {
        Ok(n) => {
            let mut message = usize_to_decimal(n);
            message.append(" rows inserted!");
            Ok(StatusMessage { message })
        },
        Err(ExecFailure::Connection) => Err(String::from_str("Failed to connect to database")),
        Err(ExecFailure::Preparation) => Err(String::from_str("Failed to prepare query")),
        Err(ExecFailure::Execution) => Err(String::from_str("Failed to fetch todo items")),
    }
}

/// Builds the response to `DELETE /todo/{id}` from the outcome of the delete.
///
/// A delete that touched `n` rows answers with the exact text
/// `"<n> rows deleted!"` — a delete of a missing identifier touches zero
/// rows and is still a success; each failure stage maps to its fixed error
/// string.
pub fn remove_todo_item(outcome: Result<usize, ExecFailure>) -> (r: Result<StatusMessage, String>)
    ensures
        (outcome matches Ok(n) ==> (r matches Ok(m) && m@ == spec_digits(n as nat)
            + " rows deleted!"@)),
        (outcome matches Err(ExecFailure::Connection) ==> (r matches Err(e) && e@
            == "Failed to connect to database"@)),
        (outcome matches Err(ExecFailure::Preparation) ==> (r matches Err(e) && e@
            == "Failed to prepare query"@)),
        (outcome matches Err(ExecFailure::Execution) ==> (r matches Err(e) && e@
            == "Failed to delete todo item"@)),
{
    match outcome {
        Ok(n) => {
            let mut message = usize_to_decimal(n);
            message.append(" rows deleted!");
            Ok(StatusMessage { message })
        },
        Err(ExecFailure::Connection) => Err(String::from_str("Failed to connect to database")),
        Err(ExecFailure::Preparation) => Err(String::from_str("Failed to prepare query")),
        Err(ExecFailure::Execution) => Err(String::from_str("Failed to delete todo item")),
    }
}

} // verus!
