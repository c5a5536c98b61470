//! The statement builder and the binding engine: SQL text with positional
//! placeholders, and the values to bind in placeholder order.
//!
//! Table and column names go into the text as they are. They have to come
//! from the program, never from outside input. Only values are parameters.

use vstd::prelude::*;
use vstd::string::*;
use crate::columns::{kept, names_of, values_of, ColumnValueMap, Columns};
use crate::error::{Error, Failure};
use crate::text::{join, joined, slice_texts, texts};
use crate::value::{views, BasicType, Value};

verus! {

/// How many rows the caller reads of what a statement returns.
#[derive(Clone, Copy, Debug, PartialEq, Eq, Structural)]
pub enum Fetch {
    /// Exactly one row; none is the error `RowNotFound`.
    One,
    /// Every row, in the order of the store.
    All,
}

/// A prepared statement: SQL text, and the value for each placeholder of the
/// text, in the order of the placeholders.
#[derive(Debug, PartialEq, Eq)]
pub struct Statement {
    pub sql: String,
    pub params: Vec<BasicType>,
    pub fetch: Fetch,
}

/// The mathematical value that a `Statement` stands for.
pub struct StatementView {
    pub sql: Seq<char>,
    pub params: Seq<Value>,
    pub fetch: Fetch,
}

impl View for Statement {
    type V = StatementView;

    open spec fn view(&self) -> StatementView {
        StatementView { sql: self.sql@, params: views(self.params@), fetch: self.fetch }
    }
}

/// The mathematical value of the outcome of a preparation.
pub open spec fn outcome(prepared: Result<Statement, Error>) -> Result<StatementView, Failure> {
    match prepared {
        Ok(statement) => Ok(statement@),
        Err(e) => Err(e@),
    }
}

/// `count` placeholders.
pub open spec fn marks(count: nat) -> Seq<Seq<char>> {
    Seq::new(count, |i: int| "?"@)
}

/// For each column, the assignment of a placeholder to it.
pub open spec fn assignments(columns: Seq<Seq<char>>) -> Seq<Seq<char>> {
    columns.map_values(|column: Seq<char>| column + " = ?"@)
}

/// The text that inserts a row with the given columns. For the table `t` and
/// the columns `a` and `b` it is
/// `insert into t (a,b) values (?,?) returning *;`.
pub open spec fn insert_text(table: Seq<char>, columns: Seq<Seq<char>>) -> Seq<char> {
    "insert into "@ + table + " ("@ + joined(columns, ","@) + ") values ("@ + joined(
        marks(columns.len()),
        ","@,
    ) + ") returning *;"@
}

/// The text that inserts a row with the given columns or, where a row with
/// the same value in the conflict column is there, sets the columns of that
/// row. For the table `t`, the columns `a` and `b` and the conflict column
/// `k` it is
/// `insert into t (a,b) values (?,?) on conflict(k) do update set a = ?,b = ? returning *;`.
pub open spec fn upsert_text(
    table: Seq<char>,
    columns: Seq<Seq<char>>,
    conflict: Seq<char>,
) -> Seq<char> {
    "insert into "@ + table + " ("@ + joined(columns, ","@) + ") values ("@ + joined(
        marks(columns.len()),
        ","@,
    ) + ") on conflict("@ + conflict + ") do update set "@ + joined(assignments(columns), ","@)
        + " returning *;"@
}

/// The text that selects the rows with a given value in `column`: all of
/// them, or at most one. For the table `t` and the column `c` it is
/// `select * from t where c = ?;` or `select * from t where c = ? limit 1;`.
pub open spec fn select_text(table: Seq<char>, column: Seq<char>, one: bool) -> Seq<char> {
    "select * from "@ + table + " where "@ + column + (if one {
        " = ? limit 1;"@
    } else {
        " = ?;"@
    })
}

/// The text that deletes the rows with a given value in `column` and returns
/// them. For the table `t` and the column `c` it is
/// `delete from t where c = ? returning *;`.
pub open spec fn delete_text(table: Seq<char>, column: Seq<char>) -> Seq<char> {
    "delete from "@ + table + " where "@ + column + " = ? returning *;"@
}

/// `values`, `groups` times in a row.
pub open spec fn repeated(values: Seq<Value>, groups: nat) -> Seq<Value>
    decreases groups,
{
    if groups == 0 {
        Seq::empty()
    } else {
        repeated(values, (groups - 1) as nat) + values
    }
}

/// The insert of an entity: the columns outside the skip-list, in their
/// order, each with a placeholder, and their values in the same order.
/// Without any such column there is no statement.
pub open spec fn inserting(table: Seq<char>, columns: Columns, skip: Seq<Seq<char>>) -> Result<
    StatementView,
    Failure,
> {
    let written = kept(columns, skip);
    if written.len() == 0 {
        Err(Failure::NoColumns)
    } else {
        Ok(
            StatementView {
                sql: insert_text(table, names_of(written)),
                params: values_of(written),
                fetch: Fetch::One,
            },
        )
    }
}

/// The upsert of an entity: as the insert, with the values twice in a row,
/// once for the placeholders of the insert and once for those of the update.
/// Without a conflict column there is no statement.
pub open spec fn upserting(
    table: Seq<char>,
    columns: Columns,
    skip: Seq<Seq<char>>,
    conflict: Seq<char>,
) -> Result<StatementView, Failure> {
    let written = kept(columns, skip);
    if written.len() == 0 {
        Err(Failure::NoColumns)
    } else if conflict.len() == 0 {
        Err(Failure::NoConflictColumn)
    } else {
        Ok(
            StatementView {
                sql: upsert_text(table, names_of(written), conflict),
                params: values_of(written) + values_of(written),
                fetch: Fetch::One,
            },
        )
    }
}

/// The insert of an entity after its extraction: the failure of the
/// extraction where it has failed, else the insert of the extracted columns.
pub open spec fn inserting_extracted(
    table: Seq<char>,
    extraction: Result<Columns, Failure>,
    skip: Seq<Seq<char>>,
) -> Result<StatementView, Failure> {
    match extraction {
        Ok(columns) => inserting(table, columns, skip),
        Err(failure) => Err(failure),
    }
}

/// The upsert of an entity after its extraction: the failure of the
/// extraction where it has failed, else the upsert of the extracted columns.
pub open spec fn upserting_extracted(
    table: Seq<char>,
    extraction: Result<Columns, Failure>,
    skip: Seq<Seq<char>>,
    conflict: Seq<char>,
) -> Result<StatementView, Failure> {
    match extraction {
        Ok(columns) => upserting(table, columns, skip, conflict),
        Err(failure) => Err(failure),
    }
}

/// The select of the one row with `value` in `column`.
pub open spec fn selecting_one(table: Seq<char>, column: Seq<char>, value: Value) -> StatementView {
    StatementView { sql: select_text(table, column, true), params: seq![value], fetch: Fetch::One }
}

/// The select of every row with `value` in `column`.
pub open spec fn selecting_many(
    table: Seq<char>,
    column: Seq<char>,
    value: Value,
) -> StatementView {
    StatementView { sql: select_text(table, column, false), params: seq![value], fetch: Fetch::All }
}

/// The delete of every row with `value` in `column`.
pub open spec fn deleting(table: Seq<char>, column: Seq<char>, value: Value) -> StatementView {
    StatementView { sql: delete_text(table, column), params: seq![value], fetch: Fetch::All }
}

/// `count` placeholders, joined by commas.
fn placeholders(count: usize) -> (text: String)
    ensures
        text@ == joined(marks(count as nat), ","@),
{
    let mut items: Vec<String> = Vec::new();
    let mut i: usize = 0;
    while i < count
        invariant
            i <= count,
            items@.len() == i,
            texts(items@) == marks(i as nat),
        decreases count - i,
    {
        let ghost earlier = items@;
        items.push("?".to_owned());
        proof {
            let now = texts(items@);
            assert forall|k: int| 0 <= k < now.len() implies now[k] == marks((i + 1) as nat)[k] by {
                if k < i {
                    assert(now[k] == texts(earlier)[k]);
                }
            }
            assert(now =~= marks((i + 1) as nat));
        }
        i += 1;
    }
    join(&items, ",")
}

/// For each column an assignment of a placeholder, joined by commas.
fn update_clause(columns: &Vec<String>) -> (text: String)
    ensures
        text@ == joined(assignments(texts(columns@)), ","@),
{
    let mut items: Vec<String> = Vec::new();
    let mut i: usize = 0;
    while i < columns.len()
        invariant
            i <= columns.len(),
            items@.len() == i,
            texts(items@) == assignments(texts(columns@).take(i as int)),
        decreases columns.len() - i,
    {
        let ghost earlier = items@;
        let mut item = columns[i].clone();
        item.append(" = ?");
        items.push(item);
        proof {
            let now = texts(items@);
            let goal = assignments(texts(columns@).take(i + 1));
            assert forall|k: int| 0 <= k < now.len() implies now[k] == goal[k] by {
                if k < i {
                    assert(now[k] == texts(earlier)[k]);
                    assert(goal[k] == assignments(texts(columns@).take(i as int))[k]);
                }
            }
            assert(now =~= goal);
        }
        i += 1;
    }
    assert(texts(columns@).take(columns.len() as int) =~= texts(columns@));
    join(&items, ",")
}

/// The text of an insert into `table` of a row with the given columns.
pub fn insert_sql(table: &str, columns: &Vec<String>) -> (sql: String)
    ensures
        sql@ == insert_text(table@, texts(columns@)),
{
    let mut sql = "insert into ".to_owned();
    sql.append(table);
    sql.append(" (");
    sql.append(join(columns, ",").as_str());
    sql.append(") values (");
    sql.append(placeholders(columns.len()).as_str());
    sql.append(") returning *;");
    sql
}

/// The text of an upsert into `table` of a row with the given columns, with
/// `conflict_col` as the column that decides between insert and update.
pub fn upsert_sql(table: &str, columns: &Vec<String>, conflict_col: &str) -> (sql: String)
    ensures
        sql@ == upsert_text(table@, texts(columns@), conflict_col@),
{
    let mut sql = "insert into ".to_owned();
    sql.append(table);
    sql.append(" (");
    sql.append(join(columns, ",").as_str());
    sql.append(") values (");
    sql.append(placeholders(columns.len()).as_str());
    sql.append(") on conflict(");
    sql.append(conflict_col);
    sql.append(") do update set ");
    sql.append(update_clause(columns).as_str());
    sql.append(" returning *;");
    sql
}

/// The text of a select from `table` of the rows with a given value in
/// `col`: at most one row where `one` is set.
pub fn select_sql(table: &str, col: &str, one: bool) -> (sql: String)
    ensures
        sql@ == select_text(table@, col@, one),
{
    let mut sql = "select * from ".to_owned();
    sql.append(table);
    sql.append(" where ");
    sql.append(col);
    if one {
        sql.append(" = ? limit 1;");
    } else {
        sql.append(" = ?;");
    }
    sql
}

/// The text of a delete from `table` of the rows with a given value in
/// `col`.
pub fn delete_sql(table: &str, col: &str) -> (sql: String)
    ensures
        sql@ == delete_text(table@, col@),
{
    let mut sql = "delete from ".to_owned();
    sql.append(table);
    sql.append(" where ");
    sql.append(col);
    sql.append(" = ? returning *;");
    sql
}

/// The values to bind, in placeholder order, for a statement that names
/// `values` in `groups` groups of placeholders: `values` once for each group,
/// group after group.
pub fn bind_values(values: &Vec<BasicType>, groups: usize) -> (bound: Vec<BasicType>)
    ensures
        views(bound@) == repeated(views(values@), groups as nat),
{
    let mut bound: Vec<BasicType> = Vec::new();
    let mut group: usize = 0;
    while group < groups
        invariant
            group <= groups,
            views(bound@) == repeated(views(values@), group as nat),
        decreases groups - group,
    {
        let ghost done = bound@;
        let mut i: usize = 0;
        while i < values.len()
            invariant
                i <= values.len(),
                bound@.len() == done.len() + i,
                views(bound@) == views(done) + views(values@).take(i as int),
            decreases values.len() - i,
        {
            let ghost earlier = bound@;
            bound.push(values[i].clone());
            proof {
                let now = views(bound@);
                let goal = views(done) + views(values@).take(i + 1);
                assert forall|k: int| 0 <= k < now.len() implies now[k] == goal[k] by {
                    if k < earlier.len() {
                        assert(now[k] == views(earlier)[k]);
                        assert(views(earlier)[k] == (views(done) + views(values@).take(
                            i as int,
                        ))[k]);
                    }
                }
                assert(now =~= goal);
            }
            i += 1;
        }
        assert(views(values@).take(values.len() as int) =~= views(values@));
        group += 1;
    }
    bound
}

/// Prepares the insert of an entity with the given columns into `table`,
/// leaving out the columns that `skip_cols` names.
pub fn prepare_insert(table: &str, columns: &ColumnValueMap, skip_cols: &[&str]) -> (prepared:
    Result<Statement, Error>)
    ensures
        outcome(prepared) == inserting(table@, columns@, slice_texts(skip_cols@)),
{
    let written = columns.without(skip_cols);
    if written.is_empty() {
        return Err(Error::NoColumns);
    }
    let sql = insert_sql(table, &written.names());
    let params = bind_values(&written.values(), 1);
    assert(repeated(values_of(written@), 1) =~= values_of(written@)) by {
        reveal_with_fuel(repeated, 2);
    }
    Ok(Statement { sql, params, fetch: Fetch::One })
}

/// Prepares the upsert of an entity with the given columns into `table`,
/// leaving out the columns that `skip_cols` names, with `conflict_col` as the
/// column that decides between insert and update.
pub fn prepare_upsert(
    table: &str,
    columns: &ColumnValueMap,
    skip_cols: &[&str],
    conflict_col: &str,
) -> (prepared: Result<Statement, Error>)
    ensures
        outcome(prepared) == upserting(table@, columns@, slice_texts(skip_cols@), conflict_col@),
{
    let written = columns.without(skip_cols);
    if written.is_empty() {
        return Err(Error::NoColumns);
    }
    if conflict_col.is_empty() {
        return Err(Error::NoConflictColumn);
    }
    let sql = upsert_sql(table, &written.names(), conflict_col);
    let params = bind_values(&written.values(), 2);
    assert(repeated(values_of(written@), 2) =~= values_of(written@) + values_of(written@)) by {
        reveal_with_fuel(repeated, 3);
    }
    Ok(Statement { sql, params, fetch: Fetch::One })
}

/// Prepares the select from `table` of the one row with `val` in `col`.
pub fn prepare_select_one(table: &str, col: &str, val: BasicType) -> (statement: Statement)
    ensures
        statement@ == selecting_one(table@, col@, val@),
{
    let sql = select_sql(table, col, true);
    let mut params: Vec<BasicType> = Vec::new();
    params.push(val);
    assert(views(params@) =~= seq![val@]);
    Statement { sql, params, fetch: Fetch::One }
}

/// Prepares the select from `table` of every row with `val` in `col`.
pub fn prepare_select_many(table: &str, col: &str, val: BasicType) -> (statement: Statement)
    ensures
        statement@ == selecting_many(table@, col@, val@),
{
    let sql = select_sql(table, col, false);
    let mut params: Vec<BasicType> = Vec::new();
    params.push(val);
    assert(views(params@) =~= seq![val@]);
    Statement { sql, params, fetch: Fetch::All }
}

/// Prepares the delete from `table` of every row with `val` in `col`.
pub fn prepare_delete(table: &str, col: &str, val: BasicType) -> (statement: Statement)
    ensures
        statement@ == deleting(table@, col@, val@),
{
    let sql = delete_sql(table, col);
    let mut params: Vec<BasicType> = Vec::new();
    params.push(val);
    assert(views(params@) =~= seq![val@]);
    Statement { sql, params, fetch: Fetch::All }
}

} // verus!
