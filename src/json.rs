//! A JSON document model that the protocol logic reads and builds.
use vstd::prelude::*;

verus! {

/// A JSON value.
///
/// Integers that fit in an `i64` are held as `Int`; every other number is kept
/// as the decimal text it was written with.
#[derive(Debug, PartialEq)]
pub enum Json {
    Null,
    Bool(bool),
    Int(i64),
    Number(String),
    Str(String),
    Array(Vec<Json>),
    Object(Vec<(String, Json)>),
}

/// The members of an object, in order; empty for any other value.
pub open spec fn members(j: Json) -> Seq<(String, Json)> {
    match j {
        Json::Object(m) => m@,
        _ => Seq::empty(),
    }
}

/// `i` is the first position of `fields` whose name is `key`.
pub open spec fn first_with_key(fields: Seq<(String, Json)>, key: Seq<char>, i: int) -> bool {
    &&& 0 <= i < fields.len()
    &&& fields[i].0@ == key
    &&& forall|j: int| 0 <= j < i ==> fields[j].0@ != key
}

/// Looks up `key` among the members of `fields`; the first member so named wins.
pub open spec fn lookup(fields: Seq<(String, Json)>, key: Seq<char>) -> Option<Json> {
    if exists|i: int| first_with_key(fields, key, i) {
        Some(fields[choose|i: int| first_with_key(fields, key, i)].1)
    } else {
        None
    }
}

/// Position of the first member of `fields` named `key`.
pub fn find_key(fields: &Vec<(String, Json)>, key: &String) -> (r: Option<usize>)
    ensures
        match r {
            Some(i) => first_with_key(fields@, key@, i as int),
            None => forall|j: int| 0 <= j < fields@.len() ==> fields@[j].0@ != key@,
        },
        r is None <==> lookup(fields@, key@) is None,
        r matches Some(i) ==> lookup(fields@, key@) == Some(fields@[i as int].1),
{
    let mut i: usize = 0;
    while i < fields.len()
        invariant
            i <= fields@.len(),
            forall|j: int| 0 <= j < i ==> fields@[j].0@ != key@,
        decreases fields.len() - i,
    {
        if fields[i].0 == *key {
            assert(first_with_key(fields@, key@, i as int));
            assert forall|k: int| first_with_key(fields@, key@, k) implies k == i by {
                if k < i {
                } else if k > i {
                    assert(fields@[i as int].0@ == key@);
                }
            }
            return Some(i);
        }
        i += 1;
    }
    None
}

/// A scalar bind value for one placeholder of a prepared statement.
#[derive(Debug, PartialEq)]
pub enum Scalar {
    Null,
    Bool(bool),
    Int(i64),
    Text(String),
}

/// `j` is the JSON form of the scalar `s`.
pub open spec fn encodes_scalar(j: Json, s: Scalar) -> bool {
    match (j, s) {
        (Json::Null, Scalar::Null) => true,
        (Json::Bool(a), Scalar::Bool(b)) => a == b,
        (Json::Int(a), Scalar::Int(b)) => a == b,
        (Json::Str(a), Scalar::Text(b)) => a@ == b@,
        _ => false,
    }
}

/// `j` is a JSON array holding, in order, the JSON forms of `row`.
pub open spec fn encodes_row(j: Json, row: Seq<Scalar>) -> bool {
    match j {
        Json::Array(items) => {
            &&& items@.len() == row.len()
            &&& forall|k: int| 0 <= k < row.len() ==> encodes_scalar(#[trigger] items@[k], row[k])
        },
        _ => false,
    }
}

/// `j` is a JSON array of arrays holding, row by row and in order, the JSON forms of `rows`.
pub open spec fn encodes_rows(j: Json, rows: Seq<Vec<Scalar>>) -> bool {
    match j {
        Json::Array(items) => {
            &&& items@.len() == rows.len()
            &&& forall|i: int| 0 <= i < rows.len() ==> encodes_row(#[trigger] items@[i], rows[i]@)
        },
        _ => false,
    }
}

/// Two scalars hold the same value.
pub open spec fn same_scalar(a: Scalar, b: Scalar) -> bool {
    match (a, b) {
        (Scalar::Null, Scalar::Null) => true,
        (Scalar::Bool(x), Scalar::Bool(y)) => x == y,
        (Scalar::Int(x), Scalar::Int(y)) => x == y,
        (Scalar::Text(x), Scalar::Text(y)) => x@ == y@,
        _ => false,
    }
}

/// Two batches hold the same rows, with the same values at the same positions.
pub open spec fn same_rows(a: Seq<Vec<Scalar>>, b: Seq<Vec<Scalar>>) -> bool {
    &&& a.len() == b.len()
    &&& forall|i: int| 0 <= i < a.len() ==> #[trigger] a[i]@.len() == b[i]@.len()
    &&& forall|i: int, k: int|
        0 <= i < a.len() && 0 <= k < a[i]@.len() ==> same_scalar(#[trigger] a[i]@[k], b[i]@[k])
}

/// The JSON form of a scalar.
pub fn scalar_to_json(s: &Scalar) -> (r: Json)
    ensures
        encodes_scalar(r, *s),
{
    match s {
        Scalar::Null => Json::Null,
        Scalar::Bool(b) => Json::Bool(*b),
        Scalar::Int(n) => Json::Int(*n),
        Scalar::Text(t) => Json::Str(t.clone()),
    }
}

/// The JSON form of a row of bind values: an array, in order.
pub fn row_to_json(row: &Vec<Scalar>) -> (r: Json)
    ensures
        encodes_row(r, row@),
{
    let mut items: Vec<Json> = Vec::new();
    let mut k: usize = 0;
    while k < row.len()
        invariant
            k <= row@.len(),
            items@.len() == k,
            forall|m: int| 0 <= m < k ==> encodes_scalar(#[trigger] items@[m], row@[m]),
        decreases row.len() - k,
    {
        items.push(scalar_to_json(&row[k]));
        k += 1;
    }
    Json::Array(items)
}

/// The JSON form of a batch of bind rows: an array of arrays, in order.
pub fn arguments_to_json(rows: &Vec<Vec<Scalar>>) -> (r: Json)
    ensures
        encodes_rows(r, rows@),
{
    let mut items: Vec<Json> = Vec::new();
    let mut i: usize = 0;
    while i < rows.len()
        invariant
            i <= rows@.len(),
            items@.len() == i,
            forall|m: int| 0 <= m < i ==> encodes_row(#[trigger] items@[m], rows@[m]@),
        decreases rows.len() - i,
    {
        items.push(row_to_json(&rows[i]));
        i += 1;
    }
    Json::Array(items)
}

/// Batch arguments survive encoding position by position: the JSON array of
/// arrays that carries a batch determines every row and every value in it, so
/// two batches with the same encoding hold the same values in the same order.
pub proof fn lemma_arguments_positional(j: Json, a: Seq<Vec<Scalar>>, b: Seq<Vec<Scalar>>)
    requires
        encodes_rows(j, a),
        encodes_rows(j, b),
    ensures
        same_rows(a, b),
{
    let items = match j {
        Json::Array(items) => items@,
        _ => Seq::empty(),
    };
    assert forall|i: int| 0 <= i < a.len() implies #[trigger] a[i]@.len() == b[i]@.len() by {
        assert(encodes_row(items[i], a[i]@));
        assert(encodes_row(items[i], b[i]@));
    }
    assert forall|i: int, k: int| 0 <= i < a.len() && 0 <= k < a[i]@.len() implies same_scalar(
        #[trigger] a[i]@[k],
        b[i]@[k],
    ) by {
        assert(encodes_row(items[i], a[i]@));
        assert(encodes_row(items[i], b[i]@));
        let row = match items[i] {
            Json::Array(r) => r@,
            _ => Seq::empty(),
        };
        assert(encodes_scalar(row[k], a[i]@[k]));
        assert(encodes_scalar(row[k], b[i]@[k]));
    }
}

} // verus!
