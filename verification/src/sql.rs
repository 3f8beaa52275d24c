//! The text of the statements with which records are stored and found.
//!
//! A statement names a table and columns and leaves every value to a numbered
//! parameter, `?1`, `?2` and so on, in the order of the columns.
use vstd::prelude::*;
use vstd::string::*;
use crate::text::{decimal, decimal_string, join, joined};

verus! {

/// What a selection asks for beyond the table.
#[derive(Clone, Debug, PartialEq, Eq)]
pub struct SelectQuery {
    /// The columns that must equal a given value.
    pub where_columns: Vec<String>,
    /// The column to order by.
    pub order_by: Option<String>,
    /// The direction of the order; only `desc`, in any case of letters, is
    /// descending.
    pub order_direction: Option<String>,
    /// The most rows to return, where positive.
    pub limit: Option<i64>,
    /// The rows to skip, where not negative.
    pub offset: Option<i64>,
}

/// The parameter with the given number.
pub open spec fn placeholder(number: nat) -> Seq<char> {
    "?"@ + decimal(number)
}

/// The parameters `?1` to `?count`.
pub open spec fn placeholders(count: nat) -> Seq<Seq<char>> {
    Seq::new(count, |i: int| placeholder((i + 1) as nat))
}

/// The comparison of a column with the parameter of the given number.
pub open spec fn equality(column: Seq<char>, number: nat) -> Seq<char> {
    column + " = "@ + placeholder(number)
}

/// The comparisons of `columns` with the parameters from `first` on, the
/// numbers of two neighbours `step` apart.
pub open spec fn equalities(columns: Seq<Seq<char>>, first: nat, step: nat) -> Seq<Seq<char>> {
    Seq::new(columns.len(), |i: int| equality(columns[i], (first + step * i) as nat))
}

/// The condition that all of `columns` equal their parameters, which are
/// numbered from `first` on, `step` apart. No columns, no condition.
pub open spec fn where_clause(columns: Seq<Seq<char>>, first: nat, step: nat) -> Seq<char> {
    if columns.len() == 0 {
        Seq::empty()
    } else {
        " WHERE "@ + joined(equalities(columns, first, step), " AND "@)
    }
}

/// Whether a direction reads `desc`, whatever the case of its letters.
pub open spec fn is_descending(direction: Seq<char>) -> bool {
    &&& direction.len() == 4
    &&& (direction[0] == 'd' || direction[0] == 'D')
    &&& (direction[1] == 'e' || direction[1] == 'E')
    &&& (direction[2] == 's' || direction[2] == 'S')
    &&& (direction[3] == 'c' || direction[3] == 'C')
}

/// The order of a selection.
pub open spec fn order_clause(order_by: Option<String>, direction: Option<String>) -> Seq<char> {
    match order_by {
        None => Seq::empty(),
        Some(column) => " ORDER BY "@ + column@ + if direction matches Some(d) && is_descending(
            d@,
        ) {
            " DESC"@
        } else {
            " ASC"@
        },
    }
}

/// The limit of a selection.
pub open spec fn limit_clause(limit: Option<i64>) -> Seq<char> {
    match limit {
        Some(rows) if rows > 0 => " LIMIT "@ + decimal(rows as nat),
        _ => Seq::empty(),
    }
}

/// The offset of a selection.
pub open spec fn offset_clause(offset: Option<i64>) -> Seq<char> {
    match offset {
        Some(rows) if rows >= 0 => " OFFSET "@ + decimal(rows as nat),
        _ => Seq::empty(),
    }
}

/// The statement that inserts one record with the given columns.
pub open spec fn insert_statement(table: Seq<char>, columns: Seq<Seq<char>>) -> Seq<char> {
    "INSERT INTO "@ + table + " ("@ + joined(columns, ", "@) + ") VALUES ("@ + joined(
        placeholders(columns.len()),
        ", "@,
    ) + ")"@
}

/// The statement that selects the records that meet `query`.
pub open spec fn select_statement(table: Seq<char>, query: SelectQuery) -> Seq<char> {
    "SELECT * FROM "@ + table + where_clause(query.where_columns.deep_view(), 1, 1) + order_clause(
        query.order_by,
        query.order_direction,
    ) + limit_clause(query.limit) + offset_clause(query.offset)
}

/// The statement that sets `set_columns` in the records in which
/// `where_columns` equal their values. The parameters of the condition start
/// after those of the new values and are numbered two apart, so that a
/// condition on one column takes the next number and one on several columns
/// leaves numbers out.
pub open spec fn update_statement(
    table: Seq<char>,
    set_columns: Seq<Seq<char>>,
    where_columns: Seq<Seq<char>>,
) -> Seq<char> {
    "UPDATE "@ + table + " SET "@ + joined(equalities(set_columns, 1, 1), ", "@) + where_clause(
        where_columns,
        set_columns.len() + 1,
        2,
    )
}

/// The statement that counts the records in which `where_columns` equal
/// their values.
pub open spec fn count_statement(table: Seq<char>, where_columns: Seq<Seq<char>>) -> Seq<char> {
    "SELECT COUNT(*) FROM "@ + table + where_clause(where_columns, 1, 1)
}

/// The statement that deletes the records in which `where_columns` equal
/// their values.
pub open spec fn delete_statement(table: Seq<char>, where_columns: Seq<Seq<char>>) -> Seq<char> {
    "DELETE FROM "@ + table + where_clause(where_columns, 1, 1)
}

fn placeholder_text(number: u128) -> (text: String)
    ensures
        text@ == placeholder(number as nat),
{
    let mut text = String::from_str("?");
    let digits = decimal_string(number);
    text.append(digits.as_str());
    text
}

fn placeholder_texts(count: usize) -> (texts: Vec<String>)
    ensures
        texts.deep_view() == placeholders(count as nat),
{
    let mut texts: Vec<String> = Vec::new();
    let mut at: usize = 0;
    while at < count
        invariant
            at <= count,
            texts@.len() == at,
            forall|i: int| 0 <= i < at ==> texts@[i]@ == placeholder((i + 1) as nat),
        decreases count - at,
    {
        let text = placeholder_text(at as u128 + 1);
        texts.push(text);
        at += 1;
    }
    assert(texts.deep_view() =~= placeholders(count as nat));
    texts
}

fn equality_texts(columns: &Vec<String>, first: u128, step: u128) -> (texts: Vec<String>)
    requires
        first <= usize::MAX + 1,
        step <= 2,
    ensures
        texts.deep_view() == equalities(columns.deep_view(), first as nat, step as nat),
{
    let mut texts: Vec<String> = Vec::new();
    let mut at: usize = 0;
    while at < columns.len()
        invariant
            first <= usize::MAX + 1,
            step <= 2,
            at <= columns@.len(),
            texts@.len() == at,
            forall|i: int|
                0 <= i < at ==> texts@[i]@ == equality(columns@[i]@, (first + step * i) as nat),
        decreases columns@.len() - at,
    {
        let mut text = columns[at].clone();
        text.append(" = ");
        let number = placeholder_text(first + step * (at as u128));
        text.append(number.as_str());
        texts.push(text);
        at += 1;
    }
    assert(texts.deep_view() =~= equalities(columns.deep_view(), first as nat, step as nat));
    texts
}

fn where_text(columns: &Vec<String>, first: u128, step: u128) -> (text: String)
    requires
        first <= usize::MAX + 1,
        step <= 2,
    ensures
        text@ == where_clause(columns.deep_view(), first as nat, step as nat),
{
    if columns.len() == 0 {
        assert(columns.deep_view().len() == 0);
        String::new()
    } else {
        assert(columns.deep_view().len() > 0);
        let mut text = String::from_str(" WHERE ");
        let parts = equality_texts(columns, first, step);
        let conditions = join(&parts, " AND ");
        text.append(conditions.as_str());
        text
    }
}

/// Whether `direction` asks for descending order.
pub fn descending(direction: &String) -> (yes: bool)
    ensures
        yes == is_descending(direction@),
{
    let text = direction.as_str();
    if text.unicode_len() != 4 {
        return false;
    }
    let d = text.get_char(0);
    let e = text.get_char(1);
    let s = text.get_char(2);
    let c = text.get_char(3);
    (d == 'd' || d == 'D') && (e == 'e' || e == 'E') && (s == 's' || s == 'S') && (c == 'c' || c
        == 'C')
}

/// Writes the statement that inserts one record with the given columns.
pub fn insert_sql(table: &String, columns: &Vec<String>) -> (sql: String)
    ensures
        sql@ == insert_statement(table@, columns.deep_view()),
{
    let mut sql = String::from_str("INSERT INTO ");
    sql.append(table.as_str());
    sql.append(" (");
    let names = join(columns, ", ");
    sql.append(names.as_str());
    sql.append(") VALUES (");
    let numbers = placeholder_texts(columns.len());
    assert(columns.deep_view().len() == columns@.len());
    let parameters = join(&numbers, ", ");
    sql.append(parameters.as_str());
    sql.append(")");
    sql
}

/// Writes the statement that selects the records that meet `query`.
pub fn select_sql(table: &String, query: &SelectQuery) -> (sql: String)
    ensures
        sql@ == select_statement(table@, *query),
{
    let mut sql = String::from_str("SELECT * FROM ");
    sql.append(table.as_str());
    let condition = where_text(&query.where_columns, 1, 1);
    sql.append(condition.as_str());
    match &query.order_by {
        Some(column) => {
            sql.append(" ORDER BY ");
            sql.append(column.as_str());
            let down = match &query.order_direction {
                Some(direction) => descending(direction),
                None => false,
            };
            if down {
                sql.append(" DESC");
            } else {
                sql.append(" ASC");
            }
            assert(sql@ =~= "SELECT * FROM "@ + table@ + where_clause(
                query.where_columns.deep_view(),
                1,
                1,
            ) + order_clause(query.order_by, query.order_direction));
        },
        None => {
            assert(sql@ =~= "SELECT * FROM "@ + table@ + where_clause(
                query.where_columns.deep_view(),
                1,
                1,
            ) + order_clause(query.order_by, query.order_direction));
        },
    }
    let ghost ordered = sql@;
    match query.limit {
        Some(rows) => {
            if rows > 0 {
                sql.append(" LIMIT ");
                let number = decimal_string(rows as u128);
                sql.append(number.as_str());
            }
        },
        None => {},
    }
    assert(sql@ =~= ordered + limit_clause(query.limit));
    let ghost limited = sql@;
    match query.offset {
        Some(rows) => {
            if rows >= 0 {
                sql.append(" OFFSET ");
                let number = decimal_string(rows as u128);
                sql.append(number.as_str());
            }
        },
        None => {},
    }
    assert(sql@ =~= limited + offset_clause(query.offset));
    sql
}

/// Writes the statement that sets `set_columns` where `where_columns` match.
pub fn update_sql(table: &String, set_columns: &Vec<String>, where_columns: &Vec<String>) -> (sql:
    String)
    ensures
        sql@ == update_statement(table@, set_columns.deep_view(), where_columns.deep_view()),
{
    let mut sql = String::from_str("UPDATE ");
    sql.append(table.as_str());
    sql.append(" SET ");
    let parts = equality_texts(set_columns, 1, 1);
    let assignments = join(&parts, ", ");
    sql.append(assignments.as_str());
    let condition = where_text(where_columns, set_columns.len() as u128 + 1, 2);
    assert(set_columns.deep_view().len() == set_columns@.len());
    sql.append(condition.as_str());
    sql
}

/// Writes the statement that counts the records in which `where_columns`
/// match.
pub fn count_sql(table: &String, where_columns: &Vec<String>) -> (sql: String)
    ensures
        sql@ == count_statement(table@, where_columns.deep_view()),
{
    let mut sql = String::from_str("SELECT COUNT(*) FROM ");
    sql.append(table.as_str());
    let condition = where_text(where_columns, 1, 1);
    sql.append(condition.as_str());
    sql
}

/// Writes the statement that deletes the records in which `where_columns`
/// match.
pub fn delete_sql(table: &String, where_columns: &Vec<String>) -> (sql: String)
    ensures
        sql@ == delete_statement(table@, where_columns.deep_view()),
{
    let mut sql = String::from_str("DELETE FROM ");
    sql.append(table.as_str());
    let condition = where_text(where_columns, 1, 1);
    sql.append(condition.as_str());
    sql
}

} // verus!
