//! Placeholders and values: every prepared statement holds as many
//! placeholders as it binds values, as long as no name holds a `?`.

use vstd::prelude::*;
use crate::columns::{kept, names_of, values_of, Columns};
use crate::statement::{
    assignments, delete_text, deleting, insert_text, inserting, marks, select_text,
    selecting_many, selecting_one, upsert_text, upserting,
};
use crate::text::joined;
use crate::value::Value;

verus! {

/// The number of placeholders in a text: of its characters `?`.
pub open spec fn placeholder_count(text: Seq<char>) -> nat
    decreases text.len(),
{
    if text.len() == 0 {
        0
    } else {
        placeholder_count(text.drop_last()) + if text.last() == '?' {
            1nat
        } else {
            0nat
        }
    }
}

/// Whether a text holds no `?`.
pub open spec fn plain(text: Seq<char>) -> bool {
    forall|i: int| 0 <= i < text.len() ==> text[i] != '?'
}

/// Whether every text of a sequence is plain.
pub open spec fn all_plain(texts: Seq<Seq<char>>) -> bool {
    forall|i: int| 0 <= i < texts.len() ==> plain(#[trigger] texts[i])
}

/// The placeholders of two texts in a row are those of the one and those of
/// the other.
pub proof fn lemma_count_of_two(a: Seq<char>, b: Seq<char>)
    ensures
        placeholder_count(a + b) == placeholder_count(a) + placeholder_count(b),
    decreases b.len(),
{
    if b.len() == 0 {
        assert(a + b =~= a);
    } else {
        assert((a + b).drop_last() =~= a + b.drop_last());
        lemma_count_of_two(a, b.drop_last());
    }
}

/// A plain text holds no placeholder.
pub proof fn lemma_count_of_plain(text: Seq<char>)
    requires
        plain(text),
    ensures
        placeholder_count(text) == 0,
    decreases text.len(),
{
    if text.len() > 0 {
        lemma_count_of_plain(text.drop_last());
    }
}

/// Plain texts joined by a plain separator hold no placeholder.
pub proof fn lemma_count_of_joined_plain(parts: Seq<Seq<char>>, sep: Seq<char>)
    requires
        all_plain(parts),
        plain(sep),
    ensures
        placeholder_count(joined(parts, sep)) == 0,
    decreases parts.len(),
{
    if parts.len() == 0 {
    } else if parts.len() == 1 {
        lemma_count_of_plain(parts[0]);
    } else {
        let rest = parts.drop_last();
        assert(all_plain(rest)) by {
            assert forall|i: int| 0 <= i < rest.len() implies plain(#[trigger] rest[i]) by {
                assert(rest[i] == parts[i]);
            }
        }
        lemma_count_of_joined_plain(rest, sep);
        lemma_count_of_plain(sep);
        lemma_count_of_plain(parts.last());
        lemma_count_of_two(joined(rest, sep), sep);
        lemma_count_of_two(joined(rest, sep) + sep, parts.last());
    }
}

/// The comma holds no placeholder, and the mark is one.
proof fn lemma_comma_and_mark()
    ensures
        plain(","@),
        placeholder_count(","@) == 0,
        placeholder_count("?"@) == 1,
{
    reveal_strlit(",");
    reveal_strlit("?");
    lemma_count_of_plain(","@);
    reveal_with_fuel(placeholder_count, 2);
}

/// `count` marks joined by commas hold `count` placeholders.
pub proof fn lemma_count_of_marks(count: nat)
    ensures
        placeholder_count(joined(marks(count), ","@)) == count,
    decreases count,
{
    lemma_comma_and_mark();
    if count == 0 {
    } else if count == 1 {
    } else {
        assert(marks(count).drop_last() =~= marks((count - 1) as nat));
        lemma_count_of_marks((count - 1) as nat);
        let rest = joined(marks((count - 1) as nat), ","@);
        lemma_count_of_two(rest, ","@);
        lemma_count_of_two(rest + ","@, "?"@);
    }
}

/// The assignments of plain columns, joined by commas, hold one placeholder
/// for each column.
pub proof fn lemma_count_of_assignments(columns: Seq<Seq<char>>)
    requires
        all_plain(columns),
    ensures
        placeholder_count(joined(assignments(columns), ","@)) == columns.len(),
    decreases columns.len(),
{
    lemma_comma_and_mark();
    reveal_strlit(" = ?");
    assert(placeholder_count(" = ?"@) == 1) by {
        reveal_with_fuel(placeholder_count, 5);
    }
    if columns.len() > 0 {
        let last = columns.last();
        lemma_count_of_plain(last);
        lemma_count_of_two(last, " = ?"@);
        assert(assignments(columns).last() == last + " = ?"@);
        if columns.len() > 1 {
            let rest = columns.drop_last();
            assert(assignments(columns).drop_last() =~= assignments(rest));
            assert(all_plain(rest)) by {
                assert forall|i: int| 0 <= i < rest.len() implies plain(#[trigger] rest[i]) by {
                    assert(rest[i] == columns[i]);
                }
            }
            lemma_count_of_assignments(rest);
            let before = joined(assignments(rest), ","@);
            lemma_count_of_two(before, ","@);
            lemma_count_of_two(before + ","@, last + " = ?"@);
        }
    }
}

/// The text of an insert of plain columns into a plain table holds one
/// placeholder for each column.
pub proof fn lemma_insert_text_count(table: Seq<char>, columns: Seq<Seq<char>>)
    requires
        plain(table),
        all_plain(columns),
    ensures
        placeholder_count(insert_text(table, columns)) == columns.len(),
{
    lemma_comma_and_mark();
    reveal_strlit("insert into ");
    reveal_strlit(" (");
    reveal_strlit(") values (");
    reveal_strlit(") returning *;");
    let a = "insert into "@;
    let b = a + table;
    let c = b + " ("@;
    let d = c + joined(columns, ","@);
    let e = d + ") values ("@;
    let f = e + joined(marks(columns.len()), ","@);
    lemma_count_of_plain(a);
    lemma_count_of_plain(table);
    lemma_count_of_plain(" ("@);
    lemma_count_of_plain(") values ("@);
    lemma_count_of_plain(") returning *;"@);
    lemma_count_of_joined_plain(columns, ","@);
    lemma_count_of_marks(columns.len());
    lemma_count_of_two(a, table);
    lemma_count_of_two(b, " ("@);
    lemma_count_of_two(c, joined(columns, ","@));
    lemma_count_of_two(d, ") values ("@);
    lemma_count_of_two(e, joined(marks(columns.len()), ","@));
    lemma_count_of_two(f, ") returning *;"@);
}

/// The text of an upsert of plain columns into a plain table, with a plain
/// conflict column, holds two placeholders for each column.
pub proof fn lemma_upsert_text_count(
    table: Seq<char>,
    columns: Seq<Seq<char>>,
    conflict: Seq<char>,
)
    requires
        plain(table),
        all_plain(columns),
        plain(conflict),
    ensures
        placeholder_count(upsert_text(table, columns, conflict)) == 2 * columns.len(),
{
    lemma_comma_and_mark();
    reveal_strlit("insert into ");
    reveal_strlit(" (");
    reveal_strlit(") values (");
    reveal_strlit(") on conflict(");
    reveal_strlit(") do update set ");
    reveal_strlit(" returning *;");
    let a = "insert into "@;
    let b = a + table;
    let c = b + " ("@;
    let d = c + joined(columns, ","@);
    let e = d + ") values ("@;
    let f = e + joined(marks(columns.len()), ","@);
    let g = f + ") on conflict("@;
    let h = g + conflict;
    let i = h + ") do update set "@;
    let j = i + joined(assignments(columns), ","@);
    lemma_count_of_plain(a);
    lemma_count_of_plain(table);
    lemma_count_of_plain(" ("@);
    lemma_count_of_plain(") values ("@);
    lemma_count_of_plain(") on conflict("@);
    lemma_count_of_plain(conflict);
    lemma_count_of_plain(") do update set "@);
    lemma_count_of_plain(" returning *;"@);
    lemma_count_of_joined_plain(columns, ","@);
    lemma_count_of_marks(columns.len());
    lemma_count_of_assignments(columns);
    lemma_count_of_two(a, table);
    lemma_count_of_two(b, " ("@);
    lemma_count_of_two(c, joined(columns, ","@));
    lemma_count_of_two(d, ") values ("@);
    lemma_count_of_two(e, joined(marks(columns.len()), ","@));
    lemma_count_of_two(f, ") on conflict("@);
    lemma_count_of_two(g, conflict);
    lemma_count_of_two(h, ") do update set "@);
    lemma_count_of_two(i, joined(assignments(columns), ","@));
    lemma_count_of_two(j, " returning *;"@);
}

/// The text of a select with plain names holds one placeholder.
pub proof fn lemma_select_text_count(table: Seq<char>, column: Seq<char>, one: bool)
    requires
        plain(table),
        plain(column),
    ensures
        placeholder_count(select_text(table, column, one)) == 1,
{
    reveal_strlit("select * from ");
    reveal_strlit(" where ");
    reveal_strlit(" = ? limit 1;");
    reveal_strlit(" = ?;");
    reveal_strlit(" = ");
    reveal_strlit("?");
    reveal_strlit(" limit 1;");
    reveal_strlit(";");
    let a = "select * from "@;
    let b = a + table;
    let c = b + " where "@;
    let d = c + column;
    let tail = if one {
        " = ? limit 1;"@
    } else {
        " = ?;"@
    };
    let rest = if one {
        " limit 1;"@
    } else {
        ";"@
    };
    assert(tail =~= " = "@ + "?"@ + rest);
    assert(placeholder_count("?"@) == 1) by {
        reveal_with_fuel(placeholder_count, 2);
    }
    lemma_count_of_plain(" = "@);
    lemma_count_of_plain(rest);
    lemma_count_of_two(" = "@, "?"@);
    lemma_count_of_two(" = "@ + "?"@, rest);
    lemma_count_of_plain(a);
    lemma_count_of_plain(table);
    lemma_count_of_plain(" where "@);
    lemma_count_of_plain(column);
    lemma_count_of_two(a, table);
    lemma_count_of_two(b, " where "@);
    lemma_count_of_two(c, column);
    lemma_count_of_two(d, tail);
}

/// The text of a delete with plain names holds one placeholder.
pub proof fn lemma_delete_text_count(table: Seq<char>, column: Seq<char>)
    requires
        plain(table),
        plain(column),
    ensures
        placeholder_count(delete_text(table, column)) == 1,
{
    reveal_strlit("delete from ");
    reveal_strlit(" where ");
    reveal_strlit(" = ? returning *;");
    reveal_strlit(" = ");
    reveal_strlit("?");
    reveal_strlit(" returning *;");
    let a = "delete from "@;
    let b = a + table;
    let c = b + " where "@;
    let d = c + column;
    let tail = " = ? returning *;"@;
    assert(tail =~= " = "@ + "?"@ + " returning *;"@);
    assert(placeholder_count("?"@) == 1) by {
        reveal_with_fuel(placeholder_count, 2);
    }
    lemma_count_of_plain(" = "@);
    lemma_count_of_plain(" returning *;"@);
    lemma_count_of_two(" = "@, "?"@);
    lemma_count_of_two(" = "@ + "?"@, " returning *;"@);
    lemma_count_of_plain(a);
    lemma_count_of_plain(table);
    lemma_count_of_plain(" where "@);
    lemma_count_of_plain(column);
    lemma_count_of_two(a, table);
    lemma_count_of_two(b, " where "@);
    lemma_count_of_two(c, column);
    lemma_count_of_two(d, tail);
}

/// Every statement that is prepared of plain names binds one value for each
/// of its placeholders: the columns of an insert once, those of an upsert
/// twice, the filter value of a select and of a delete once.
pub proof fn lemma_one_value_for_each_placeholder(
    table: Seq<char>,
    columns: Columns,
    skip: Seq<Seq<char>>,
    conflict: Seq<char>,
    column: Seq<char>,
    value: Value,
)
    requires
        plain(table),
        all_plain(names_of(columns)),
        plain(conflict),
        plain(column),
    ensures
        inserting(table, columns, skip) matches Ok(statement) ==> placeholder_count(statement.sql)
            == statement.params.len(),
        upserting(table, columns, skip, conflict) matches Ok(statement) ==> placeholder_count(
            statement.sql,
        ) == statement.params.len(),
        placeholder_count(selecting_one(table, column, value).sql) == selecting_one(
            table,
            column,
            value,
        ).params.len(),
        placeholder_count(selecting_many(table, column, value).sql) == selecting_many(
            table,
            column,
            value,
        ).params.len(),
        placeholder_count(deleting(table, column, value).sql) == deleting(
            table,
            column,
            value,
        ).params.len(),
{
    let written = kept(columns, skip);
    assert(all_plain(names_of(written))) by {
        assert forall|i: int| 0 <= i < names_of(written).len() implies plain(
            #[trigger] names_of(written)[i],
        ) by {
            columns.lemma_filter_contains_rev(crate::columns::unlisted(skip), written[i]);
            let j = choose|j: int| 0 <= j < columns.len() && columns[j] == written[i];
            assert(names_of(columns)[j] == written[i].0);
        }
    }
    lemma_insert_text_count(table, names_of(written));
    lemma_upsert_text_count(table, names_of(written), conflict);
    lemma_select_text_count(table, column, true);
    lemma_select_text_count(table, column, false);
    lemma_delete_text_count(table, column);
}

} // verus!
