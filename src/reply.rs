//! Interpreting the server's replies: transport failures, protocol violations
//! and application outcomes stay apart.
use vstd::prelude::*;
use crate::json::{Json, members, lookup, find_key};

verus! {

/// Why an operation produced no outcome at all.
///
/// An application-level failure is not an error: it is a `SyncLiteDBResult`
/// whose `result` is false.
#[derive(Debug, PartialEq)]
pub enum ClientError {
    /// The request was not answered with a 2xx status and a JSON body; holds the
    /// raw diagnostic text.
    Transport(String),
    /// A 2xx JSON reply lacked a required field or held it with the wrong type;
    /// holds the name of that field.
    Protocol(String),
}

/// The outcome of one operation, as the server reported it.
#[derive(Debug, PartialEq)]
pub struct SyncLiteDBResult {
    pub result: bool,
    pub message: String,
    pub result_set: Option<Json>,
    pub txn_handle: Option<String>,
}

/// An HTTP status in the 2xx range.
pub open spec fn success_status(status: u16) -> bool {
    200 <= status <= 299
}

/// The member `key` of the reply object, if any (the first one so named).
pub open spec fn field(reply: Json, key: Seq<char>) -> Option<Json> {
    lookup(members(reply), key)
}

/// The member `key` of the reply when it holds a boolean.
pub open spec fn bool_field(reply: Json, key: Seq<char>) -> Option<bool> {
    match field(reply, key) {
        Some(Json::Bool(b)) => Some(b),
        _ => None,
    }
}

/// The member `key` of the reply when it holds a string.
pub open spec fn text_field(reply: Json, key: Seq<char>) -> Option<Seq<char>> {
    match field(reply, key) {
        Some(Json::Str(s)) => Some(s@),
        _ => None,
    }
}

/// The reply carries both required members with their types.
pub open spec fn well_formed(reply: Json) -> bool {
    bool_field(reply, "result"@) is Some && text_field(reply, "message"@) is Some
}

/// `e` is the protocol violation that names the first required member that is
/// missing or mistyped in `reply`.
pub open spec fn protocol_error_for(reply: Json, e: ClientError) -> bool {
    match e {
        ClientError::Protocol(name) => if bool_field(reply, "result"@) is None {
            name@ == "result"@
        } else {
            name@ == "message"@
        },
        _ => false,
    }
}

/// `r` holds the `result` and `message` members of `reply`.
pub open spec fn reports(r: SyncLiteDBResult, reply: Json) -> bool {
    &&& bool_field(reply, "result"@) == Some(r.result)
    &&& text_field(reply, "message"@) == Some(r.message@)
}

/// Whether an HTTP status is a 2xx success.
pub fn is_success(status: u16) -> (r: bool)
    ensures
        r == success_status(status),
{
    200 <= status && status <= 299
}

/// Turns what the transport brought back into the reply document.
///
/// `body` is the JSON body for a 2xx status, or else the diagnostic text: the
/// decoding error for a 2xx status, the raw body for any other status. Any
/// status outside 2xx is a transport failure, never an application outcome.
pub fn process_reply(status: u16, body: Result<Json, String>) -> (r: Result<Json, ClientError>)
    ensures
        r is Ok <==> success_status(status) && body is Ok,
        success_status(status) && body is Ok ==> r == Ok::<Json, ClientError>(body->Ok_0),
        !success_status(status) ==> r is Err && r->Err_0 is Transport,
        body matches Err(text) ==> (r matches Err(ClientError::Transport(t)) && t@ == text@),
        !success_status(status) && body is Ok ==> (r matches Err(ClientError::Transport(t)) && t@
            == "Unknown error"@),
{
    if is_success(status) {
        match body {
            Ok(j) => Ok(j),
            Err(e) => Err(ClientError::Transport(e)),
        }
    } else {
        match body {
            Ok(_) => Err(ClientError::Transport("Unknown error".to_owned())),
            Err(text) => Err(ClientError::Transport(text)),
        }
    }
}

fn text_key(s: &str) -> (r: String)
    ensures
        r@ == s@,
{
    s.to_owned()
}

/// The `result` and `message` members of a reply.
pub fn read_status(reply: &Json) -> (r: Result<(bool, String), ClientError>)
    ensures
        r is Ok <==> well_formed(*reply),
        r matches Ok((b, m)) ==> (bool_field(*reply, "result"@) == Some(b) && text_field(
            *reply,
            "message"@,
        ) == Some(m@)),
        r matches Err(e) ==> protocol_error_for(*reply, e),
{
    let empty: Vec<(String, Json)> = Vec::new();
    let fields = match reply {
        Json::Object(f) => f,
        _ => &empty,
    };
    assert(fields@ == members(*reply));
    let result_key = text_key("result");
    let result = match find_key(fields, &result_key) {
        Some(i) => match &fields[i].1 {
            Json::Bool(b) => *b,
            _ => {
                return Err(ClientError::Protocol(result_key));
            },
        },
        None => {
            return Err(ClientError::Protocol(result_key));
        },
    };
    let message_key = text_key("message");
    let message = match find_key(fields, &message_key) {
        Some(i) => match &fields[i].1 {
            Json::Str(s) => s.clone(),
            _ => {
                return Err(ClientError::Protocol(message_key));
            },
        },
        None => {
            return Err(ClientError::Protocol(message_key));
        },
    };
    Ok((result, message))
}

/// A `begin` reply that reports success carries a non-empty `txn-handle` string.
pub open spec fn begin_well_formed(reply: Json) -> bool {
    &&& well_formed(reply)
    &&& bool_field(reply, "result"@) == Some(true) ==> (text_field(reply, "txn-handle"@) matches Some(
        h,
    ) && h.len() > 0)
}

/// The outcome of an `initialize`, `commit`, `rollback` or `close` request: the
/// reply's `result` and `message`, with no handle and no result set.
pub fn status_result(reply: Json) -> (r: Result<SyncLiteDBResult, ClientError>)
    ensures
        r is Ok <==> well_formed(reply),
        r matches Ok(o) ==> (reports(o, reply) && o.result_set is None && o.txn_handle is None),
        r matches Err(e) ==> protocol_error_for(reply, e),
{
    match read_status(&reply) {
        Ok((result, message)) => Ok(SyncLiteDBResult { result, message, result_set: None, txn_handle: None }),
        Err(e) => Err(e),
    }
}

/// The outcome of a `begin` request.
///
/// On success the handle is the reply's non-empty `txn-handle`; a success
/// without one is a protocol violation. On failure no handle is kept, whatever
/// the reply held.
pub fn begin_result(reply: Json) -> (r: Result<SyncLiteDBResult, ClientError>)
    ensures
        r is Ok <==> begin_well_formed(reply),
        r matches Ok(o) ==> {
            &&& reports(o, reply)
            &&& o.result_set is None
            &&& o.result ==> (o.txn_handle matches Some(h) && text_field(reply, "txn-handle"@) == Some(
                h@,
            ) && h@.len() > 0)
            &&& !o.result ==> o.txn_handle is None
        },
        r matches Err(e) ==> if well_formed(reply) {
            e matches ClientError::Protocol(name) && name@ == "txn-handle"@
        } else {
            protocol_error_for(reply, e)
        },
{
    let (result, message) = match read_status(&reply) {
        Ok(st) => st,
        Err(e) => {
            return Err(e);
        },
    };
    if !result {
        return Ok(SyncLiteDBResult { result, message, result_set: None, txn_handle: None });
    }
    let empty: Vec<(String, Json)> = Vec::new();
    let fields = match &reply {
        Json::Object(f) => f,
        _ => &empty,
    };
    assert(fields@ == members(reply));
    let handle_key = text_key("txn-handle");
    match find_key(fields, &handle_key) {
        Some(i) => match &fields[i].1 {
            Json::Str(h) => {
                if !h.as_str().is_empty() {
                    return Ok(
                        SyncLiteDBResult {
                            result,
                            message,
                            result_set: None,
                            txn_handle: Some(h.clone()),
                        },
                    );
                }
            },
            _ => {},
        },
        None => {},
    }
    Err(ClientError::Protocol(handle_key))
}

/// The outcome of a statement: the reply's `result` and `message`, and its
/// `resultset` member exactly as sent when there is one.
pub fn execute_result(reply: Json) -> (r: Result<SyncLiteDBResult, ClientError>)
    ensures
        r is Ok <==> well_formed(reply),
        r matches Ok(o) ==> {
            &&& reports(o, reply)
            &&& o.txn_handle is None
            &&& o.result_set == field(reply, "resultset"@)
        },
        r matches Err(e) ==> protocol_error_for(reply, e),
{
    let (result, message) = match read_status(&reply) {
        Ok(st) => st,
        Err(e) => {
            return Err(e);
        },
    };
    let result_set = match reply {
        Json::Object(mut fields) => {
            let key = text_key("resultset");
            match find_key(&fields, &key) {
                Some(i) => Some(fields.remove(i).1),
                None => None,
            }
        },
        _ => None,
    };
    Ok(SyncLiteDBResult { result, message, result_set, txn_handle: None })
}

} // verus!
