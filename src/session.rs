//! The little state a client carries between calls: the database path and,
//! inside a transaction, the handle the server issued for it.
use vstd::prelude::*;
use crate::envelope::{
    begin_request, close_request, commit_request, execute_len, has_member, execute_request,
    initialize_request, object_of_len, rollback_request, text_member,
};
use crate::json::{Json, Scalar, encodes_rows, members};
use crate::reply::SyncLiteDBResult;

verus! {

/// One client's view of one database: its path, and the handle of the open
/// transaction if there is one.
pub struct Session {
    db_path: String,
    txn_handle: Option<String>,
}

impl Session {
    pub closed spec fn path(&self) -> Seq<char> {
        self.db_path@
    }

    /// The handle of the open transaction, if any.
    pub closed spec fn handle(&self) -> Option<Seq<char>> {
        match self.txn_handle {
            Some(h) => Some(h@),
            None => None,
        }
    }

    /// A session on the database at `db_path`, with no transaction open.
    pub fn new(db_path: &str) -> (s: Session)
        ensures
            s.path() == db_path@,
            s.handle() is None,
    {
        Session { db_path: db_path.to_owned(), txn_handle: None }
    }

    pub fn db_path(&self) -> (r: &str)
        ensures
            r@ == self.path(),
    {
        self.db_path.as_str()
    }

    /// The handle of the open transaction, if any.
    pub fn txn_handle(&self) -> (r: Option<&str>)
        ensures
            r is Some <==> self.handle() is Some,
            r matches Some(h) ==> self.handle() == Some(h@),
    {
        match &self.txn_handle {
            Some(h) => Some(h.as_str()),
            None => None,
        }
    }

    /// The envelope that initializes this session's database.
    pub fn initialize_request(&self, db_type: &str, db_name: &str) -> (r: Json)
        ensures
            object_of_len(r, 4),
            text_member(r, 0, "db-path"@, self.path()),
            text_member(r, 1, "db-type"@, db_type@),
            text_member(r, 2, "db-name"@, db_name@),
            text_member(r, 3, "sql"@, "initialize"@),
    {
        initialize_request(self.db_path.as_str(), db_type, db_name)
    }

    /// The envelope that opens a transaction.
    pub fn begin_request(&self) -> (r: Json)
        ensures
            object_of_len(r, 2),
            text_member(r, 0, "db-path"@, self.path()),
            text_member(r, 1, "sql"@, "begin"@),
    {
        begin_request(self.db_path.as_str())
    }

    /// Takes in the outcome of a `begin`: a successful one that carries a
    /// handle opens the transaction under that handle; any other leaves the
    /// session as it was.
    pub fn accept_begin(&mut self, outcome: &SyncLiteDBResult)
        ensures
            final(self).path() == old(self).path(),
            final(self).handle() == if outcome.result && outcome.txn_handle is Some {
                Some(outcome.txn_handle->Some_0@)
            } else {
                old(self).handle()
            },
    {
        if outcome.result {
            match &outcome.txn_handle {
                Some(h) => {
                    self.txn_handle = Some(h.clone());
                },
                None => {},
            }
        }
    }

    /// The envelope that runs `sql`, inside the open transaction if there is
    /// one and in autocommit otherwise.
    pub fn execute_request(&self, sql: &str, arguments: Option<&Vec<Vec<Scalar>>>) -> (r: Json)
        ensures
            object_of_len(r, execute_len(self.handle() is Some, arguments is Some)),
            text_member(r, 0, "db-path"@, self.path()),
            text_member(r, 1, "sql"@, sql@),
            self.handle() matches Some(h) ==> text_member(r, 2, "txn-handle"@, h),
            self.handle() is None ==> !has_member(r, "txn-handle"@),
            arguments matches Some(a) ==> {
                let i = members(r).len() - 1;
                &&& members(r)[i].0@ == "arguments"@
                &&& encodes_rows(members(r)[i].1, a@)
            },
    {
        let handle = match &self.txn_handle {
            Some(h) => Some(h.as_str()),
            None => None,
        };
        execute_request(self.db_path.as_str(), handle, sql, arguments)
    }

    /// The envelope that commits the open transaction, or `None` when no
    /// transaction is open. The handle is retired either way: whatever the
    /// server answers, this session never sends it again.
    pub fn commit_request(&mut self) -> (r: Option<Json>)
        ensures
            final(self).path() == old(self).path(),
            final(self).handle() is None,
            r is Some <==> old(self).handle() is Some,
            old(self).handle() matches Some(h) ==> (r matches Some(j) && {
                &&& object_of_len(j, 3)
                &&& text_member(j, 0, "db-path"@, old(self).path())
                &&& text_member(j, 1, "txn-handle"@, h)
                &&& text_member(j, 2, "sql"@, "commit"@)
            }),
    {
        match self.txn_handle.take() {
            Some(h) => Some(commit_request(self.db_path.as_str(), h.as_str())),
            None => None,
        }
    }

    /// The envelope that rolls back the open transaction, or `None` when no
    /// transaction is open. The handle is retired either way.
    pub fn rollback_request(&mut self) -> (r: Option<Json>)
        ensures
            final(self).path() == old(self).path(),
            final(self).handle() is None,
            r is Some <==> old(self).handle() is Some,
            old(self).handle() matches Some(h) ==> (r matches Some(j) && {
                &&& object_of_len(j, 3)
                &&& text_member(j, 0, "db-path"@, old(self).path())
                &&& text_member(j, 1, "txn-handle"@, h)
                &&& text_member(j, 2, "sql"@, "rollback"@)
            }),
    {
        match self.txn_handle.take() {
            Some(h) => Some(rollback_request(self.db_path.as_str(), h.as_str())),
            None => None,
        }
    }

    /// The envelope that closes this session's database.
    pub fn close_request(&self) -> (r: Json)
        ensures
            object_of_len(r, 2),
            text_member(r, 0, "db-path"@, self.path()),
            text_member(r, 1, "sql"@, "close"@),
    {
        close_request(self.db_path.as_str())
    }
}

} // verus!
