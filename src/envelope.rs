//! Request envelopes: one JSON object per database operation.
use vstd::prelude::*;
use crate::json::{Json, Scalar, members, encodes_rows, arguments_to_json};

verus! {

/// The `i`-th member of the object `r` is named `key` and holds the string `val`.
pub open spec fn text_member(r: Json, i: int, key: Seq<char>, val: Seq<char>) -> bool {
    &&& 0 <= i < members(r).len()
    &&& members(r)[i].0@ == key
    &&& match members(r)[i].1 {
        Json::Str(s) => s@ == val,
        _ => false,
    }
}

/// `r` is an object with exactly `n` members.
pub open spec fn object_of_len(r: Json, n: int) -> bool {
    r is Object && members(r).len() == n
}

fn member(key: &str, val: &str) -> (m: (String, Json))
    ensures
        m.0@ == key@,
        m.1 matches Json::Str(s) && s@ == val@,
{
    (key.to_owned(), Json::Str(val.to_owned()))
}

/// The envelope that asks the server to create or open the database `db_name`
/// of type `db_type` at `db_path`.
pub fn initialize_request(db_path: &str, db_type: &str, db_name: &str) -> (r: Json)
    ensures
        object_of_len(r, 4),
        text_member(r, 0, "db-path"@, db_path@),
        text_member(r, 1, "db-type"@, db_type@),
        text_member(r, 2, "db-name"@, db_name@),
        text_member(r, 3, "sql"@, "initialize"@),
{
    Json::Object(
        vec![
            member("db-path", db_path),
            member("db-type", db_type),
            member("db-name", db_name),
            member("sql", "initialize"),
        ],
    )
}

/// The envelope that carries the control verb `verb` for the database at
/// `db_path`, outside any transaction.
fn control_request(db_path: &str, verb: &str) -> (r: Json)
    ensures
        object_of_len(r, 2),
        text_member(r, 0, "db-path"@, db_path@),
        text_member(r, 1, "sql"@, verb@),
{
    Json::Object(vec![member("db-path", db_path), member("sql", verb)])
}

/// The envelope that carries the control verb `verb` for the transaction
/// `txn_handle` on the database at `db_path`.
fn transaction_request(db_path: &str, txn_handle: &str, verb: &str) -> (r: Json)
    ensures
        object_of_len(r, 3),
        text_member(r, 0, "db-path"@, db_path@),
        text_member(r, 1, "txn-handle"@, txn_handle@),
        text_member(r, 2, "sql"@, verb@),
{
    Json::Object(
        vec![member("db-path", db_path), member("txn-handle", txn_handle), member("sql", verb)],
    )
}

/// The envelope that opens a transaction on the database at `db_path`.
pub fn begin_request(db_path: &str) -> (r: Json)
    ensures
        object_of_len(r, 2),
        text_member(r, 0, "db-path"@, db_path@),
        text_member(r, 1, "sql"@, "begin"@),
{
    control_request(db_path, "begin")
}

/// The envelope that closes the database at `db_path`.
pub fn close_request(db_path: &str) -> (r: Json)
    ensures
        object_of_len(r, 2),
        text_member(r, 0, "db-path"@, db_path@),
        text_member(r, 1, "sql"@, "close"@),
{
    control_request(db_path, "close")
}

/// The envelope that commits the transaction `txn_handle`.
pub fn commit_request(db_path: &str, txn_handle: &str) -> (r: Json)
    ensures
        object_of_len(r, 3),
        text_member(r, 0, "db-path"@, db_path@),
        text_member(r, 1, "txn-handle"@, txn_handle@),
        text_member(r, 2, "sql"@, "commit"@),
{
    transaction_request(db_path, txn_handle, "commit")
}

/// The envelope that rolls back the transaction `txn_handle`.
pub fn rollback_request(db_path: &str, txn_handle: &str) -> (r: Json)
    ensures
        object_of_len(r, 3),
        text_member(r, 0, "db-path"@, db_path@),
        text_member(r, 1, "txn-handle"@, txn_handle@),
        text_member(r, 2, "sql"@, "rollback"@),
{
    transaction_request(db_path, txn_handle, "rollback")
}

/// Some member of the object `r` is named `key`.
pub open spec fn has_member(r: Json, key: Seq<char>) -> bool {
    exists|i: int| 0 <= i < members(r).len() && #[trigger] members(r)[i].0@ == key
}

/// Number of members that `execute_request` writes for these optional parts.
pub open spec fn execute_len(has_handle: bool, has_arguments: bool) -> int {
    2 + (if has_handle { 1int } else { 0 }) + (if has_arguments { 1int } else { 0 })
}

/// The envelope that runs the statement `sql` on the database at `db_path`:
/// inside the transaction `txn_handle` when one is given (else in autocommit),
/// and once per row of `arguments` when a batch is given.
///
/// Members, in order: `db-path`, `sql`, then `txn-handle` if given, then
/// `arguments` if given.
pub fn execute_request(
    db_path: &str,
    txn_handle: Option<&str>,
    sql: &str,
    arguments: Option<&Vec<Vec<Scalar>>>,
) -> (r: Json)
    ensures
        object_of_len(r, execute_len(txn_handle is Some, arguments is Some)),
        text_member(r, 0, "db-path"@, db_path@),
        text_member(r, 1, "sql"@, sql@),
        txn_handle matches Some(h) ==> text_member(r, 2, "txn-handle"@, h@),
        txn_handle is None ==> !has_member(r, "txn-handle"@),
        arguments matches Some(a) ==> {
            let i = members(r).len() - 1;
            &&& members(r)[i].0@ == "arguments"@
            &&& encodes_rows(members(r)[i].1, a@)
        },
{
    let mut fields: Vec<(String, Json)> = vec![member("db-path", db_path), member("sql", sql)];
    match txn_handle {
        Some(h) => {
            fields.push(member("txn-handle", h));
        },
        None => {},
    }
    match arguments {
        Some(a) => {
            fields.push(("arguments".to_owned(), arguments_to_json(a)));
        },
        None => {},
    }
    proof {
        if txn_handle is None {
            reveal_strlit("txn-handle");
            reveal_strlit("db-path");
            reveal_strlit("sql");
            reveal_strlit("arguments");
            assert forall|i: int| 0 <= i < fields@.len() implies #[trigger] fields@[i].0@
                != "txn-handle"@ by {
                assert(fields@[i].0@.len() != "txn-handle"@.len());
            }
        }
    }
    Json::Object(fields)
}

} // verus!
