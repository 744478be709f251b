//! The schema descriptor and its query-text operations.

use vstd::prelude::*;
use crate::sql;

verus! {

/// A PostgreSQL schema, known by its name.
///
/// The value holds nothing but the name and never changes. Every operation
/// on it is a function of the name alone.
#[derive(Debug, Eq, Hash, PartialOrd, Ord)]
pub struct PgSchema {
    namespace: String,
}

impl View for PgSchema {
    type V = Seq<char>;

    /// The schema's name.
    closed spec fn view(&self) -> Seq<char> {
        self.namespace@
    }
}

impl Clone for PgSchema {
    /// A second descriptor of the same schema.
    fn clone(&self) -> (copy: Self)
        ensures
            copy@ == self@,
    {
        PgSchema { namespace: self.namespace.clone() }
    }
}

impl PartialEq for PgSchema {
    /// Two descriptors are equal when they name the same schema.
    fn eq(&self, other: &Self) -> (equal: bool) {
        self.namespace == other.namespace
    }
}

impl vstd::std_specs::cmp::PartialEqSpecImpl for PgSchema {
    open spec fn obeys_eq_spec() -> bool {
        true
    }

    open spec fn eq_spec(&self, other: &Self) -> bool {
        self@ == other@
    }
}

impl PgSchema {
    /// Describes the schema called `namespace`.
    ///
    /// The name is kept as given, whatever characters it holds, and is not
    /// validated: an empty name is taken too. It is later put into query text
    /// as it is, so it must come from a trusted source.
    pub fn new(namespace: &str) -> (schema: Self)
        ensures
            schema@ == namespace@,
    {
        PgSchema { namespace: String::from_str(namespace) }
    }

    /// The query that returns one `CREATE TYPE .. AS ENUM (..)` statement for
    /// each enum type of the schema, with the labels in their sort order, which
    /// is the order in which they were declared.
    pub fn enums(&self) -> (text: String)
        ensures
            text@ == sql::enums_text(self@),
    {
        sql::fill(sql::ENUMS_HEAD, self.namespace.as_str(), sql::ENUMS_TAIL)
    }

    /// The query that returns one `CREATE TYPE .. AS (..)` statement for each
    /// composite type of the schema, with the name and the formatted type of
    /// each attribute in declaration order. Dropped attributes are left out.
    pub fn types(&self) -> (text: String)
        ensures
            text@ == sql::types_text(self@),
    {
        sql::fill(sql::TYPES_HEAD, self.namespace.as_str(), sql::TYPES_TAIL)
    }

    /// The query that returns one `CREATE TABLE .. (..)` statement for each
    /// base table of the schema.
    ///
    /// The columns stand in declaration order. Each has its name, its
    /// formatted type, `NOT NULL` where it is declared so, and then the primary
    /// key, foreign key and unique constraints that it is part of, each written
    /// as the kind of constraint and the column's name in brackets. A table
    /// without a live column is written with an empty list of columns.
    pub fn tables(&self) -> (text: String)
        ensures
            text@ == sql::tables_text(self@),
    {
        let mut text = sql::fill(sql::TABLES_HEAD, self.namespace.as_str(), sql::TABLES_MID);
        text.append(self.namespace.as_str());
        text.append(sql::TABLES_TAIL);
        text
    }

    /// The query that returns one `CREATE VIEW` statement for each view of the
    /// schema, holding the definition as the catalog reconstructs it.
    pub fn views(&self) -> (text: String)
        ensures
            text@ == sql::views_text(self@),
    {
        sql::fill(sql::VIEWS_HEAD, self.namespace.as_str(), sql::VIEWS_TAIL)
    }

    /// The query that returns one `CREATE MATERIALIZED VIEW` statement for each
    /// materialized view of the schema, holding the definition as the catalog
    /// reconstructs it.
    pub fn mviews(&self) -> (text: String)
        ensures
            text@ == sql::mviews_text(self@),
    {
        sql::fill(sql::MVIEWS_HEAD, self.namespace.as_str(), sql::MVIEWS_TAIL)
    }

    /// The query that returns one `CREATE OR REPLACE FUNCTION` statement for
    /// each function of the schema, with its arguments, its result type, the
    /// body as the catalog reconstructs it and the language it is written in.
    pub fn functions(&self) -> (text: String)
        ensures
            text@ == sql::functions_text(self@),
    {
        sql::fill(sql::FUNCTIONS_HEAD, self.namespace.as_str(), sql::FUNCTIONS_TAIL)
    }

    /// The query that returns one `CREATE TRIGGER` statement for each trigger
    /// of the schema that is not internal.
    ///
    /// The statement names the timing, one event and the granularity that the
    /// catalog holds in the bits of the trigger's type: 1 for each row, 2 for
    /// `BEFORE`, 4 for `INSERT`, 8 for `DELETE`, 16 for `UPDATE`, 32 for
    /// `TRUNCATE` and 64 for `INSTEAD OF`. The timing is `AFTER` where neither
    /// of the two timing bits is set. The event is the first of `INSERT`,
    /// `DELETE` and `UPDATE` that the trigger fires on, so a trigger on several
    /// events is written with one of them only, never with a list. A trigger
    /// that fires on none of the three fires on `TRUNCATE` alone and is written
    /// with `TRUNCATE`. The function stands with its own schema and an empty
    /// argument list.
    pub fn triggers(&self) -> (text: String)
        ensures
            text@ == sql::triggers_text(self@),
    {
        sql::fill(sql::TRIGGERS_HEAD, self.namespace.as_str(), sql::TRIGGERS_TAIL)
    }

    /// The query that returns the definition of each index of the schema, as
    /// the catalog gives it, ordered by table name and then by index name.
    pub fn indexes(&self) -> (text: String)
        ensures
            text@ == sql::indexes_text(self@),
    {
        sql::fill(sql::INDEXES_HEAD, self.namespace.as_str(), sql::INDEXES_TAIL)
    }
}

} // verus!
