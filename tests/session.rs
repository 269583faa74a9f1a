use synclite_db::json::{Json, Scalar};
use synclite_db::reply::SyncLiteDBResult;
use synclite_db::session::Session;

fn s(t: &str) -> Json {
    Json::Str(t.to_string())
}

fn obj(members: Vec<(&str, Json)>) -> Json {
    Json::Object(members.into_iter().map(|(k, v)| (k.to_string(), v)).collect())
}

fn begun(result: bool, handle: Option<&str>) -> SyncLiteDBResult {
    SyncLiteDBResult {
        result,
        message: "begin".to_string(),
        result_set: None,
        txn_handle: handle.map(|h| h.to_string()),
    }
}

#[test]
fn new_session_has_no_transaction() {
    let session = Session::new("/tmp/testdb.db");
    assert_eq!(session.db_path(), "/tmp/testdb.db");
    assert_eq!(session.txn_handle(), None);
    assert_eq!(
        session.initialize_request("DUCKDB", "testdb"),
        obj(vec![
            ("db-path", s("/tmp/testdb.db")),
            ("db-type", s("DUCKDB")),
            ("db-name", s("testdb")),
            ("sql", s("initialize")),
        ])
    );
    assert_eq!(session.begin_request(), obj(vec![("db-path", s("/tmp/testdb.db")), ("sql", s("begin"))]));
    assert_eq!(session.close_request(), obj(vec![("db-path", s("/tmp/testdb.db")), ("sql", s("close"))]));
}

#[test]
fn successful_begin_opens_the_transaction() {
    let mut session = Session::new("p.db");
    session.accept_begin(&begun(true, Some("T1")));
    assert_eq!(session.txn_handle(), Some("T1"));
    let args = vec![vec![Scalar::Int(1), Scalar::Text("one".to_string())]];
    assert_eq!(
        session.execute_request("insert into t1 (a, b) values(?, ?)", Some(&args)),
        obj(vec![
            ("db-path", s("p.db")),
            ("sql", s("insert into t1 (a, b) values(?, ?)")),
            ("txn-handle", s("T1")),
            ("arguments", Json::Array(vec![Json::Array(vec![Json::Int(1), s("one")])])),
        ])
    );
}

#[test]
fn failed_begin_leaves_the_session_unchanged() {
    let mut session = Session::new("p.db");
    session.accept_begin(&begun(false, Some("T9")));
    assert_eq!(session.txn_handle(), None);
    session.accept_begin(&begun(true, Some("T1")));
    session.accept_begin(&begun(false, None));
    assert_eq!(session.txn_handle(), Some("T1"));
}

#[test]
fn commit_retires_the_handle() {
    let mut session = Session::new("p.db");
    session.accept_begin(&begun(true, Some("T1")));
    assert_eq!(
        session.commit_request(),
        Some(obj(vec![("db-path", s("p.db")), ("txn-handle", s("T1")), ("sql", s("commit"))]))
    );
    assert_eq!(session.txn_handle(), None);
    assert_eq!(session.commit_request(), None);
    assert_eq!(
        session.execute_request("select a, b from t1", None),
        obj(vec![("db-path", s("p.db")), ("sql", s("select a, b from t1"))])
    );
}

#[test]
fn rollback_retires_the_handle() {
    let mut session = Session::new("p.db");
    assert_eq!(session.rollback_request(), None);
    session.accept_begin(&begun(true, Some("T2")));
    assert_eq!(
        session.rollback_request(),
        Some(obj(vec![("db-path", s("p.db")), ("txn-handle", s("T2")), ("sql", s("rollback"))]))
    );
    assert_eq!(session.txn_handle(), None);
    assert_eq!(session.rollback_request(), None);
}
