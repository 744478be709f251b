//! The text of the catalog queries.
//!
//! Each query is fixed text around the schema's name, which stands between
//! single quotes wherever the query compares a catalog column with it. The
//! name is put in as it is: nothing in it is quoted or escaped. Each query
//! returns one column, `sql`, and one row for each object of its kind.

use vstd::prelude::*;

verus! {

/// The text `head`, `name`, `tail`, one after the other.
pub open spec fn splice(head: Seq<char>, name: Seq<char>, tail: Seq<char>) -> Seq<char> {
    head + name + tail
}

/// Builds `head`, `name`, `tail` as one string.
pub(crate) fn fill(head: &str, name: &str, tail: &str) -> (text: String)
    ensures
        text@ == splice(head@, name@, tail@),
{
    let mut text = String::from_str(head);
    text.append(name);
    text.append(tail);
    text
}

/// The query for the enum types, up to the schema's name.
///
/// Its rows are one `CREATE TYPE .. AS ENUM (..)` per enum type, with the
/// labels in their sort order, which is the order of their declaration. A type
/// without labels is written with an empty list.
pub const ENUMS_HEAD: &'static str = "SELECT
      'CREATE TYPE ' || n.nspname || '.' || t.typname || ' AS ENUM (' || COALESCE(string_agg(quote_literal(e.enumlabel), ', ' ORDER BY e.enumsortorder), '') || ');' AS sql
    FROM
      pg_catalog.pg_type t
      JOIN pg_catalog.pg_namespace n ON t.typnamespace = n.oid
      LEFT JOIN pg_catalog.pg_enum e ON t.oid = e.enumtypid
    WHERE
      n.nspname = '";

/// The query for the enum types, after the schema's name.
pub const ENUMS_TAIL: &'static str = "'
      AND t.typtype = 'e'
    GROUP BY
      n.nspname, t.typname;";

/// The query for the enum types of the schema `name`.
pub open spec fn enums_text(name: Seq<char>) -> Seq<char> {
    splice(ENUMS_HEAD@, name, ENUMS_TAIL@)
}

/// The query for the composite types, up to the schema's name.
///
/// Its rows are one `CREATE TYPE .. AS (..)` per composite type, with the name
/// and the formatted type of each attribute, in declaration order. Dropped
/// attributes are left out, and a type without attributes is written with an
/// empty list.
pub const TYPES_HEAD: &'static str = "SELECT
      'CREATE TYPE ' || n.nspname || '.' || t.typname || ' AS (' || COALESCE(string_agg(a.attname || ' ' || pg_catalog.format_type(a.atttypid, a.atttypmod), ', ' ORDER BY a.attnum), '') || ');' AS sql
    FROM
      pg_catalog.pg_type t
      JOIN pg_catalog.pg_namespace n ON t.typnamespace = n.oid
      JOIN pg_catalog.pg_class c ON t.typrelid = c.oid
      LEFT JOIN pg_catalog.pg_attribute a ON t.typrelid = a.attrelid
        AND a.attnum > 0
        AND NOT a.attisdropped
    WHERE
      n.nspname = '";

/// The query for the composite types, after the schema's name.
pub const TYPES_TAIL: &'static str = "'
      AND t.typtype = 'c'
      AND c.relkind = 'c'
    GROUP BY
      n.nspname, t.typname;";

/// The query for the composite types of the schema `name`.
pub open spec fn types_text(name: Seq<char>) -> Seq<char> {
    splice(TYPES_HEAD@, name, TYPES_TAIL@)
}

/// The query for the base tables, up to the first place of the schema's name:
/// it reads each base table with its live columns and their position. A table
/// without a live column is read too.
pub const TABLES_HEAD: &'static str = "WITH table_columns AS (
      SELECT
        n.nspname AS schema_name,
        c.relname AS table_name,
        a.attname AS column_name,
        pg_catalog.format_type(a.atttypid, a.atttypmod) AS column_type,
        a.attnotnull AS is_not_null,
        a.attnum AS column_position
      FROM
        pg_catalog.pg_class c
        JOIN pg_catalog.pg_namespace n ON c.relnamespace = n.oid
        LEFT JOIN pg_catalog.pg_attribute a ON a.attrelid = c.oid
          AND a.attnum > 0
          AND NOT a.attisdropped
      WHERE
        n.nspname = '";

/// The query for the base tables, between the two places of the schema's name:
/// it reads, for each column, the primary key, foreign key and unique
/// constraints that the column is part of, each as its kind and the column in
/// brackets, with a comma between two of them, ordered by their kind and then
/// by their name.
pub const TABLES_MID: &'static str = "'
        AND c.relkind = 'r'
    ),
    column_constraints AS (
      SELECT
        tc.table_schema,
        tc.table_name,
        kcu.column_name,
        string_agg(tc.constraint_type || ' (' || kcu.column_name || ')', ', ' ORDER BY tc.constraint_type, tc.constraint_name) AS constraint_list
      FROM
        information_schema.table_constraints tc
        JOIN information_schema.key_column_usage kcu ON tc.constraint_schema = kcu.constraint_schema
          AND tc.constraint_name = kcu.constraint_name
          AND tc.table_schema = kcu.table_schema
          AND tc.table_name = kcu.table_name
      WHERE
        tc.table_schema = '";

/// The query for the base tables, after the second place of the schema's name.
///
/// Its rows are one `CREATE TABLE` per table. The columns stand in declaration
/// order, each with its formatted type, `NOT NULL` where it is declared so, and
/// its constraints. A table without a live column is written with an empty
/// list.
pub const TABLES_TAIL: &'static str = "'
        AND tc.constraint_type IN ('PRIMARY KEY', 'FOREIGN KEY', 'UNIQUE')
      GROUP BY
        tc.table_schema, tc.table_name, kcu.column_name
    ),
    formatted_columns AS (
      SELECT
        tc.schema_name,
        tc.table_name,
        COALESCE(string_agg(
          tc.column_name || ' ' || tc.column_type
          || (CASE WHEN tc.is_not_null THEN ' NOT NULL' ELSE '' END)
          || (CASE WHEN cc.constraint_list IS NOT NULL THEN ' ' || cc.constraint_list ELSE '' END),
          ', ' ORDER BY tc.column_position
        ), '') AS column_list
      FROM
        table_columns tc
        LEFT JOIN column_constraints cc ON tc.schema_name = cc.table_schema
          AND tc.table_name = cc.table_name
          AND tc.column_name = cc.column_name
      GROUP BY
        tc.schema_name, tc.table_name
    )
    SELECT
      'CREATE TABLE ' || fc.schema_name || '.' || fc.table_name || ' (' || fc.column_list || ');' AS sql
    FROM
      formatted_columns fc;";

/// The query for the base tables of the schema `name`, which holds the name twice.
pub open spec fn tables_text(name: Seq<char>) -> Seq<char> {
    splice(TABLES_HEAD@, name, TABLES_MID@) + name + TABLES_TAIL@
}

/// The query for the views, up to the schema's name.
///
/// Its rows are one `CREATE VIEW` per view, around the definition that the
/// catalog reconstructs.
pub const VIEWS_HEAD: &'static str = "SELECT
      'CREATE VIEW ' || n.nspname || '.' || c.relname || ' AS ' || pg_get_viewdef(c.oid) AS sql
    FROM
      pg_catalog.pg_class c
      JOIN pg_catalog.pg_namespace n ON c.relnamespace = n.oid
    WHERE
      c.relkind = 'v' -- Select views
      AND n.nspname = '";

/// The query for the views, after the schema's name.
pub const VIEWS_TAIL: &'static str = "';";

/// The query for the views of the schema `name`.
pub open spec fn views_text(name: Seq<char>) -> Seq<char> {
    splice(VIEWS_HEAD@, name, VIEWS_TAIL@)
}

/// The query for the materialized views, up to the schema's name.
///
/// Its rows are one `CREATE MATERIALIZED VIEW` per materialized view, around
/// the definition that the catalog reconstructs.
pub const MVIEWS_HEAD: &'static str = "SELECT
        'CREATE MATERIALIZED VIEW ' || n.nspname || '.' || c.relname || ' AS ' || pg_get_viewdef(c.oid) AS sql
      FROM
        pg_catalog.pg_class c
        JOIN pg_catalog.pg_namespace n ON c.relnamespace = n.oid
      WHERE
        c.relkind = 'm' -- Select materialized views
        AND n.nspname = '";

/// The query for the materialized views, after the schema's name.
pub const MVIEWS_TAIL: &'static str = "';";

/// The query for the materialized views of the schema `name`.
pub open spec fn mviews_text(name: Seq<char>) -> Seq<char> {
    splice(MVIEWS_HEAD@, name, MVIEWS_TAIL@)
}

/// The query for the functions, up to the schema's name.
///
/// Its rows are one `CREATE OR REPLACE FUNCTION` per function, with its
/// arguments, its result type, its body and its language.
pub const FUNCTIONS_HEAD: &'static str = "SELECT
      'CREATE OR REPLACE FUNCTION ' || n.nspname || '.' || p.proname || '(' || pg_get_function_arguments(p.oid) || ') RETURNS '
      || pg_get_function_result(p.oid) || ' AS $function_body$ ' || pg_get_functiondef(p.oid) || '$function_body$ LANGUAGE ' || l.lanname || ';' AS sql
    FROM
      pg_catalog.pg_proc p
      JOIN pg_catalog.pg_namespace n ON p.pronamespace = n.oid
      JOIN pg_catalog.pg_language l ON p.prolang = l.oid
    WHERE
      n.nspname = '";

/// The query for the functions, after the schema's name.
pub const FUNCTIONS_TAIL: &'static str = "'
      AND p.prokind = 'f';";

/// The query for the functions of the schema `name`.
pub open spec fn functions_text(name: Seq<char>) -> Seq<char> {
    splice(FUNCTIONS_HEAD@, name, FUNCTIONS_TAIL@)
}

/// The query for the triggers, up to the schema's name.
///
/// Its rows are one `CREATE TRIGGER` per trigger that is not internal. The
/// timing is `BEFORE` or `INSTEAD OF` where the trigger's type has that bit,
/// else `AFTER`. The event is the first of `INSERT`, `DELETE` and `UPDATE` that
/// the trigger fires on, so a trigger on several events is written with one of
/// them; a trigger that fires on none of the three fires on `TRUNCATE` and is
/// written so. The function is written with an empty argument list.
pub const TRIGGERS_HEAD: &'static str = "SELECT
      'CREATE TRIGGER ' || t.tgname
      || ' ' || CASE
        WHEN t.tgtype & 2 > 0 THEN 'BEFORE'
        WHEN t.tgtype & 64 > 0 THEN 'INSTEAD OF'
        ELSE 'AFTER'
      END
      || ' ' || CASE
        WHEN t.tgtype & 4 > 0 THEN 'INSERT'
        WHEN t.tgtype & 8 > 0 THEN 'DELETE'
        WHEN t.tgtype & 16 > 0 THEN 'UPDATE'
        ELSE 'TRUNCATE'
      END
      || ' ON ' || n.nspname || '.' || c.relname
      || ' FOR EACH ' || CASE WHEN t.tgtype & 1 > 0 THEN 'ROW' ELSE 'STATEMENT' END
      || ' EXECUTE FUNCTION ' || np.nspname || '.' || p.proname || '();' AS sql
    FROM
      pg_catalog.pg_trigger t
      JOIN pg_catalog.pg_class c ON t.tgrelid = c.oid
      JOIN pg_catalog.pg_namespace n ON c.relnamespace = n.oid
      JOIN pg_catalog.pg_proc p ON t.tgfoid = p.oid
      JOIN pg_catalog.pg_namespace np ON p.pronamespace = np.oid
    WHERE
      n.nspname = '";

/// The query for the triggers, after the schema's name.
pub const TRIGGERS_TAIL: &'static str = "'
      AND NOT t.tgisinternal;";

/// The query for the triggers of the schema `name`.
pub open spec fn triggers_text(name: Seq<char>) -> Seq<char> {
    splice(TRIGGERS_HEAD@, name, TRIGGERS_TAIL@)
}

/// The query for the indexes, up to the schema's name.
///
/// Its rows are the catalog's own definition of each index, ordered by table
/// name and then by index name.
pub const INDEXES_HEAD: &'static str = "SELECT indexdef || ';' AS sql FROM pg_indexes WHERE schemaname = '";

/// The query for the indexes, after the schema's name.
pub const INDEXES_TAIL: &'static str = "' ORDER BY tablename, indexname;";

/// The query for the indexes of the schema `name`.
pub open spec fn indexes_text(name: Seq<char>) -> Seq<char> {
    splice(INDEXES_HEAD@, name, INDEXES_TAIL@)
}

} // verus!
