//! What a persistable type must offer, and the storage requests that its
//! operations come down to.
use vstd::prelude::*;
use crate::error::{Missing, SormError};
use crate::query::{bound, QueryBuilder, QueryModel, Statement};
use crate::text::{lower, to_lower};
use crate::value::{RecordId, Value};

verus! {

/// A request for the storage service about one table or one record.
#[derive(Debug, PartialEq, Eq)]
pub enum Command {
    /// Read every record of a table.
    SelectAll { table: String },
    /// Read the record `key` of a table.
    Select { table: String, key: String },
    /// Store the entity's whole payload as a new record of a table; the
    /// service assigns the identity.
    Create { table: String },
    /// Replace the whole content of the record `id` by the entity's payload.
    Update { id: RecordId },
    /// Remove the record `id`.
    Delete { id: RecordId },
    /// Remove the record `key` of a table.
    DeleteByKey { table: String, key: String },
}

/// A type bound to the table that holds an edge of the graph.
pub trait SormRelation: Sized {
    /// The table that records of this type are stored in.
    fn table_name() -> &'static str;
}

/// A type whose values are stored as records of one table.
pub trait SormEntity: Sized {
    /// The table that records of this type are stored in.
    fn table_name() -> &'static str;

    /// The identity of this value if it has been stored, else nothing.
    fn id(&self) -> Option<RecordId>;

    /// The request that reads the record `key` of this type's table: the
    /// table is one that `table_name` gave.
    fn find(key: &str) -> (r: Command)
        ensures
            exists|t: &'static str| #[trigger]
                call_ensures(Self::table_name, (), t) && selects_one(r, t@, key@),
    {
        find_command(Self::table_name(), key)
    }

    /// The request that reads every record of this type's table, unbounded:
    /// the table is one that `table_name` gave.
    fn all() -> (r: Command)
        ensures
            exists|t: &'static str| #[trigger]
                call_ensures(Self::table_name, (), t) && selects_all(r, t@),
    {
        all_command(Self::table_name())
    }

    /// The request that stores this value, decided from a table that
    /// `table_name` gave and an identity that `id` gave for this value: a
    /// create in that table when the identity is absent, a whole-record
    /// update of exactly that identity when it is present.
    fn save(&self) -> (r: Command)
        ensures
            exists|t: &'static str, i: Option<RecordId>|
                {
                    &&& #[trigger] call_ensures(Self::table_name, (), t)
                    &&& #[trigger] call_ensures(Self::id, (self,), i)
                    &&& stores(r, t@, i)
                },
    {
        save_command(Self::table_name(), self.id())
    }

    /// A fresh query on this type's table: the source is a table that
    /// `table_name` gave, and nothing else is set.
    fn query() -> (r: QueryBuilder)
        ensures
            exists|t: &'static str| #[trigger]
                call_ensures(Self::table_name, (), t) && r@ == QueryModel::fresh(t@),
    {
        QueryBuilder::new(Self::table_name())
    }

    /// The request that removes this value's record, decided from an
    /// identity that `id` gave for this value: the removal of exactly that
    /// record, or the precondition failure when the identity is absent.
    fn delete(&self) -> (r: Result<Command, SormError>)
        ensures
            exists|i: Option<RecordId>| #[trigger]
                call_ensures(Self::id, (self,), i) && r == removal(i),
    {
        delete_command(self.id())
    }

    /// The request that removes the record `key` of this type's table: the
    /// table is one that `table_name` gave.
    fn delete_by_id(key: &str) -> (r: Command)
        ensures
            exists|t: &'static str| #[trigger]
                call_ensures(Self::table_name, (), t) && removes_key(r, t@, key@),
    {
        delete_by_id_command(Self::table_name(), key)
    }
}

/// The statement that creates an edge labelled `edge` from the record of
/// `source` to the record of `target`, decided as [`relate_statement`] does
/// from the identities that `id` gave for the two values. It fails only for
/// want of an identity.
pub fn relate<S: SormEntity, T: SormEntity>(source: &S, edge: &str, target: &T) -> (r: Result<
    Statement,
    SormError,
>)
    ensures
        exists|from: Option<RecordId>, to: Option<RecordId>|
            {
                &&& #[trigger] call_ensures(S::id, (source,), from)
                &&& #[trigger] call_ensures(T::id, (target,), to)
                &&& relates(r, from, edge@, to)
            },
{
    relate_statement(source.id(), edge, target.id())
}

/// The table name that a type called `name` gets when it does not
/// choose one: its name in lower case.
pub fn default_table_name(name: &str) -> (r: String)
    ensures
        r@ == lower(name@),
{
    to_lower(name)
}

/// Whether `r` is the request that reads the record `key` of `table`.
pub open spec fn selects_one(r: Command, table: Seq<char>, key: Seq<char>) -> bool {
    r matches Command::Select { table: t, key: k } && t@ == table && k@ == key
}

/// Whether `r` is the request that removes the record `key` of `table`.
pub open spec fn removes_key(r: Command, table: Seq<char>, key: Seq<char>) -> bool {
    r matches Command::DeleteByKey { table: t, key: k } && t@ == table && k@ == key
}

/// What removing an entity whose identity is `id` comes to: the removal of
/// exactly that record, or the precondition failure without an identity.
pub open spec fn removal(id: Option<RecordId>) -> Result<Command, SormError> {
    match id {
        None => Err(SormError::PreconditionFailed(Missing::Identifier)),
        Some(i) => Ok(Command::Delete { id: i }),
    }
}

/// Whether `r` is what relating `from` to `to` under the label `edge` comes
/// to: the failure that names the source when it has no identity, else the
/// one that names the target when that has none, else the edge-creation text
/// with both identities bound as `from` and `to`.
pub open spec fn relates(
    r: Result<Statement, SormError>,
    from: Option<RecordId>,
    edge: Seq<char>,
    to: Option<RecordId>,
) -> bool {
    match (from, to) {
        (None, _) => r == Err::<Statement, SormError>(
            SormError::PreconditionFailed(Missing::Source),
        ),
        (Some(_), None) => r == Err::<Statement, SormError>(
            SormError::PreconditionFailed(Missing::Target),
        ),
        (Some(f), Some(t)) => r matches Ok(s) && s.text@ == relate_text(edge) && bound(s.bindings@)
            == seq![("from"@, Value::Record(f)), ("to"@, Value::Record(t))],
    }
}

/// Whether `r` is the request that reads every record of `table`.
pub open spec fn selects_all(r: Command, table: Seq<char>) -> bool {
    r matches Command::SelectAll { table: t } && t@ == table
}

/// Whether `r` is the request that stores an entity of `table` whose
/// identity is `id`: a create in `table` without an identity, an update of
/// exactly `id` with one.
pub open spec fn stores(r: Command, table: Seq<char>, id: Option<RecordId>) -> bool {
    match id {
        None => r matches Command::Create { table: t } && t@ == table,
        Some(i) => r == (Command::Update { id: i }),
    }
}

/// The text that creates a directed edge labelled `edge` between the records
/// bound as `from` and `to`.
pub open spec fn relate_text(edge: Seq<char>) -> Seq<char> {
    "RELATE $from->"@ + edge + "->$to"@
}

/// The request that reads the record `key` of `table`.
pub fn find_command(table: &str, key: &str) -> (r: Command)
    ensures
        selects_one(r, table@, key@),
{
    Command::Select { table: String::from_str(table), key: String::from_str(key) }
}

/// The request that reads every record of `table`.
pub fn all_command(table: &str) -> (r: Command)
    ensures
        selects_all(r, table@),
{
    Command::SelectAll { table: String::from_str(table) }
}

/// The request that stores an entity of `table` whose identity is `id`: a
/// create in `table` when it has none, a whole-record update of exactly `id`
/// when it has one. Nothing but the presence of the identity decides.
pub fn save_command(table: &str, id: Option<RecordId>) -> (r: Command)
    ensures
        stores(r, table@, id),
{
    match id {
        Some(id) => Command::Update { id },
        None => Command::Create { table: String::from_str(table) },
    }
}

/// The request that removes the entity whose identity is `id`. Without an
/// identity there is nothing to send: the result is the precondition failure.
pub fn delete_command(id: Option<RecordId>) -> (r: Result<Command, SormError>)
    ensures
        r == removal(id),
{
    match id {
        Some(id) => Ok(Command::Delete { id }),
        None => Err(SormError::PreconditionFailed(Missing::Identifier)),
    }
}

/// The request that removes the record `key` of `table`.
pub fn delete_by_id_command(table: &str, key: &str) -> (r: Command)
    ensures
        removes_key(r, table@, key@),
{
    Command::DeleteByKey { table: String::from_str(table), key: String::from_str(key) }
}

/// The statement that creates an edge labelled `edge` from the record `from`
/// to the record `to`. Both identities travel as bound parameters named
/// `from` and `to`. A missing source is reported before a missing target,
/// and in either case no statement is produced.
pub fn relate_statement(from: Option<RecordId>, edge: &str, to: Option<RecordId>) -> (r: Result<
    Statement,
    SormError,
>)
    ensures
        relates(r, from, edge@, to),
{
    match from {
        None => Err(SormError::PreconditionFailed(Missing::Source)),
        Some(source) => match to {
            None => Err(SormError::PreconditionFailed(Missing::Target)),
            Some(target) => {
                let mut text = String::from_str("RELATE $from->");
                text.append(edge);
                text.append("->$to");
                let mut bindings: Vec<(String, Value)> = Vec::new();
                bindings.push((String::from_str("from"), Value::Record(source)));
                bindings.push((String::from_str("to"), Value::Record(target)));
                assert(bound(bindings@) =~= seq![
                    ("from"@, Value::Record(source)),
                    ("to"@, Value::Record(target)),
                ]);
                Ok(Statement { text, bindings })
            },
        },
    }
}

} // verus!
