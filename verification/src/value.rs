//! Record identities and the values that can be bound to a query parameter.
use vstd::prelude::*;

verus! {

/// The identity of a stored record: the table it lives in and its key
/// within that table. Two identities are the same when both parts are.
#[derive(Clone, Debug, PartialEq, Eq, Hash)]
pub struct RecordId {
    pub table: String,
    pub key: String,
}

impl RecordId {
    /// The identity of the record `key` of `table`.
    pub fn new(table: &str, key: &str) -> (r: RecordId)
        ensures
            r.table@ == table@,
            r.key@ == key@,
    {
        RecordId { table: String::from_str(table), key: String::from_str(key) }
    }
}

/// A value bound to a named query parameter. It travels beside the query
/// text and is never written into it.
#[derive(Clone, Debug, PartialEq, Eq)]
pub enum Value {
    Null,
    Bool(bool),
    Int(i64),
    Text(String),
    Record(RecordId),
}

impl Value {
    /// The text value that holds a copy of `s`.
    pub fn text(s: &str) -> (r: Value)
        ensures
            r matches Value::Text(t) && t@ == s@,
    {
        Value::Text(String::from_str(s))
    }
}

impl From<bool> for Value {
    fn from(v: bool) -> (r: Value) {
        Value::Bool(v)
    }
}

impl vstd::std_specs::convert::FromSpecImpl<bool> for Value {
    open spec fn obeys_from_spec() -> bool {
        true
    }

    open spec fn from_spec(v: bool) -> Value {
        Value::Bool(v)
    }
}

impl From<i64> for Value {
    fn from(v: i64) -> (r: Value) {
        Value::Int(v)
    }
}

impl vstd::std_specs::convert::FromSpecImpl<i64> for Value {
    open spec fn obeys_from_spec() -> bool {
        true
    }

    open spec fn from_spec(v: i64) -> Value {
        Value::Int(v)
    }
}

impl From<String> for Value {
    fn from(v: String) -> (r: Value) {
        Value::Text(v)
    }
}

impl vstd::std_specs::convert::FromSpecImpl<String> for Value {
    open spec fn obeys_from_spec() -> bool {
        true
    }

    open spec fn from_spec(v: String) -> Value {
        Value::Text(v)
    }
}

impl From<RecordId> for Value {
    fn from(v: RecordId) -> (r: Value) {
        Value::Record(v)
    }
}

impl vstd::std_specs::convert::FromSpecImpl<RecordId> for Value {
    open spec fn obeys_from_spec() -> bool {
        true
    }

    open spec fn from_spec(v: RecordId) -> Value {
        Value::Record(v)
    }
}

} // verus!
