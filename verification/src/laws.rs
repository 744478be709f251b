//! What holds of the query text for every schema name.

use vstd::prelude::*;
use crate::pg::PgSchema;
use crate::sql;
use crate::sql::splice;

verus! {

/// The name stands in the text as it is: the text is the first fixed part,
/// then the name, character for character, then the second fixed part, and
/// nothing else. No character of the name is quoted, doubled or left out, a
/// single quote no more than any other.
pub proof fn lemma_name_stands_verbatim(head: Seq<char>, name: Seq<char>, tail: Seq<char>)
    ensures
        splice(head, name, tail).len() == head.len() + name.len() + tail.len(),
        splice(head, name, tail).subrange(0, head.len() as int) == head,
        splice(head, name, tail).subrange(
            head.len() as int,
            (head.len() + name.len()) as int,
        ) == name,
        splice(head, name, tail).subrange(
            (head.len() + name.len()) as int,
            splice(head, name, tail).len() as int,
        ) == tail,
{
    let text = splice(head, name, tail);
    assert(text.subrange(0, head.len() as int) =~= head);
    assert(text.subrange(head.len() as int, (head.len() + name.len()) as int) =~= name);
    assert(text.subrange((head.len() + name.len()) as int, text.len() as int) =~= tail);
}

/// Two names that give the same text around the same fixed parts are the
/// same name: the text of a query tells which schema it asks about.
pub proof fn lemma_text_tells_name(
    head: Seq<char>,
    first: Seq<char>,
    second: Seq<char>,
    tail: Seq<char>,
)
    requires
        splice(head, first, tail) == splice(head, second, tail),
    ensures
        first == second,
{
    lemma_name_stands_verbatim(head, first, tail);
    lemma_name_stands_verbatim(head, second, tail);
}

/// The query for the tables holds the name at both of its places as it is,
/// and is longer than its fixed parts by twice the length of the name.
pub proof fn lemma_tables_text_holds_name_twice(name: Seq<char>)
    ensures
        sql::tables_text(name).len() == sql::TABLES_HEAD@.len() + sql::TABLES_MID@.len()
            + sql::TABLES_TAIL@.len() + 2 * name.len(),
        sql::tables_text(name).subrange(
            sql::TABLES_HEAD@.len() as int,
            (sql::TABLES_HEAD@.len() + name.len()) as int,
        ) == name,
        sql::tables_text(name).subrange(
            (sql::TABLES_HEAD@.len() + name.len() + sql::TABLES_MID@.len()) as int,
            (sql::TABLES_HEAD@.len() + name.len() + sql::TABLES_MID@.len() + name.len()) as int,
        ) == name,
{
    let head = sql::TABLES_HEAD@;
    let mid = sql::TABLES_MID@;
    let text = sql::tables_text(name);
    assert(text.subrange(head.len() as int, (head.len() + name.len()) as int) =~= name);
    assert(text.subrange(
        (head.len() + name.len() + mid.len()) as int,
        (head.len() + name.len() + mid.len() + name.len()) as int,
    ) =~= name);
}

/// Each query tells which schema it asks about: for no kind of object do two
/// different names give the same text.
pub proof fn lemma_queries_tell_schemas_apart(first: Seq<char>, second: Seq<char>)
    ensures
        sql::enums_text(first) == sql::enums_text(second) ==> first == second,
        sql::types_text(first) == sql::types_text(second) ==> first == second,
        sql::tables_text(first) == sql::tables_text(second) ==> first == second,
        sql::views_text(first) == sql::views_text(second) ==> first == second,
        sql::mviews_text(first) == sql::mviews_text(second) ==> first == second,
        sql::functions_text(first) == sql::functions_text(second) ==> first == second,
        sql::triggers_text(first) == sql::triggers_text(second) ==> first == second,
        sql::indexes_text(first) == sql::indexes_text(second) ==> first == second,
{
    if sql::enums_text(first) == sql::enums_text(second) {
        lemma_text_tells_name(sql::ENUMS_HEAD@, first, second, sql::ENUMS_TAIL@);
    }
    if sql::types_text(first) == sql::types_text(second) {
        lemma_text_tells_name(sql::TYPES_HEAD@, first, second, sql::TYPES_TAIL@);
    }
    if sql::tables_text(first) == sql::tables_text(second) {
        lemma_tables_text_holds_name_twice(first);
        lemma_tables_text_holds_name_twice(second);
    }
    if sql::views_text(first) == sql::views_text(second) {
        lemma_text_tells_name(sql::VIEWS_HEAD@, first, second, sql::VIEWS_TAIL@);
    }
    if sql::mviews_text(first) == sql::mviews_text(second) {
        lemma_text_tells_name(sql::MVIEWS_HEAD@, first, second, sql::MVIEWS_TAIL@);
    }
    if sql::functions_text(first) == sql::functions_text(second) {
        lemma_text_tells_name(sql::FUNCTIONS_HEAD@, first, second, sql::FUNCTIONS_TAIL@);
    }
    if sql::triggers_text(first) == sql::triggers_text(second) {
        lemma_text_tells_name(sql::TRIGGERS_HEAD@, first, second, sql::TRIGGERS_TAIL@);
    }
    if sql::indexes_text(first) == sql::indexes_text(second) {
        lemma_text_tells_name(sql::INDEXES_HEAD@, first, second, sql::INDEXES_TAIL@);
    }
}

/// Asking twice gives the same text: whatever two calls of one operation
/// return, on one descriptor or on two of the same schema, the two texts are
/// equal character for character.
pub proof fn lemma_same_schema_same_text(
    one: PgSchema,
    other: PgSchema,
    first: String,
    second: String,
)
    requires
        one@ == other@,
    ensures
        call_ensures(PgSchema::enums, (&one,), first) && call_ensures(
            PgSchema::enums,
            (&other,),
            second,
        ) ==> first@ == second@,
        call_ensures(PgSchema::types, (&one,), first) && call_ensures(
            PgSchema::types,
            (&other,),
            second,
        ) ==> first@ == second@,
        call_ensures(PgSchema::tables, (&one,), first) && call_ensures(
            PgSchema::tables,
            (&other,),
            second,
        ) ==> first@ == second@,
        call_ensures(PgSchema::views, (&one,), first) && call_ensures(
            PgSchema::views,
            (&other,),
            second,
        ) ==> first@ == second@,
        call_ensures(PgSchema::mviews, (&one,), first) && call_ensures(
            PgSchema::mviews,
            (&other,),
            second,
        ) ==> first@ == second@,
        call_ensures(PgSchema::functions, (&one,), first) && call_ensures(
            PgSchema::functions,
            (&other,),
            second,
        ) ==> first@ == second@,
        call_ensures(PgSchema::triggers, (&one,), first) && call_ensures(
            PgSchema::triggers,
            (&other,),
            second,
        ) ==> first@ == second@,
        call_ensures(PgSchema::indexes, (&one,), first) && call_ensures(
            PgSchema::indexes,
            (&other,),
            second,
        ) ==> first@ == second@,
{
}

} // verus!
