//! A small object-mapping layer for a graph/document store: entities that
//! know their table and identity, and a fluent builder that compiles
//! predicates, ordering, pagination and eager-fetch directives into one
//! parameterised query.
pub mod entity;
pub mod error;
pub mod query;
pub mod text;
pub mod value;

pub use crate::entity::{
    all_command, default_table_name, delete_by_id_command, delete_command, find_command, relate,
    relate_statement, save_command, Command, SormEntity, SormRelation,
};
pub use crate::error::{Missing, SormError};
pub use crate::query::{QueryBuilder, Statement};
pub use crate::value::{RecordId, Value};
