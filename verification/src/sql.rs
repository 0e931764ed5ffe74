//! SQL statements with their bound parameters, as the library hands them to the database.
use vstd::prelude::*;

verus! {

/// A value bound to a statement parameter.
#[derive(Debug)]
pub enum SqlValue {
    Null,
    Integer(i64),
    Text(String),
}

/// The mathematical value of a [`SqlValue`].
pub enum SqlValueView {
    Null,
    Integer(i64),
    Text(Seq<char>),
}

impl View for SqlValue {
    type V = SqlValueView;

    open spec fn view(&self) -> SqlValueView {
        match self {
            SqlValue::Null => SqlValueView::Null,
            SqlValue::Integer(value) => SqlValueView::Integer(*value),
            SqlValue::Text(text) => SqlValueView::Text(text@),
        }
    }
}

/// A statement's text and the values bound to its parameters, in order.
#[derive(Debug)]
pub struct Statement {
    pub sql: String,
    pub params: Vec<SqlValue>,
}

pub struct StatementView {
    pub sql: Seq<char>,
    pub params: Seq<SqlValueView>,
}

impl View for Statement {
    type V = StatementView;

    open spec fn view(&self) -> StatementView {
        StatementView { sql: self.sql@, params: self.params@.map_values(|value: SqlValue| value@) }
    }
}

/// A statement that changes a row, then one that reads that row back.
#[derive(Debug)]
pub struct WriteThenRead {
    pub write: Statement,
    pub read_back: Statement,
}

pub struct WriteThenReadView {
    pub write: StatementView,
    pub read_back: StatementView,
}

impl View for WriteThenRead {
    type V = WriteThenReadView;

    open spec fn view(&self) -> WriteThenReadView {
        WriteThenReadView { write: self.write@, read_back: self.read_back@ }
    }
}

/// Text bound as is; no text binds SQL `NULL`.
pub open spec fn optional_text(text: Option<Seq<char>>) -> SqlValueView {
    match text {
        Some(t) => SqlValueView::Text(t),
        None => SqlValueView::Null,
    }
}

/// An integer bound as is; no integer binds SQL `NULL`.
pub open spec fn optional_integer(value: Option<i64>) -> SqlValueView {
    match value {
        Some(v) => SqlValueView::Integer(v),
        None => SqlValueView::Null,
    }
}

/// The value binding the text `text`.
pub fn text_value(text: &str) -> (value: SqlValue)
    ensures
        value@ == SqlValueView::Text(text@),
{
    SqlValue::Text(String::from_str(text))
}

/// The value binding `text`, or `NULL` when there is none.
pub fn optional_text_value(text: Option<&str>) -> (value: SqlValue)
    ensures
        value@ == optional_text(text.deep_view()),
{
    match text {
        Some(t) => SqlValue::Text(String::from_str(t)),
        None => SqlValue::Null,
    }
}

/// The value binding `value`, or `NULL` when there is none.
pub fn optional_integer_value(value: Option<i64>) -> (bound: SqlValue)
    ensures
        bound@ == optional_integer(value),
{
    match value {
        Some(v) => SqlValue::Integer(v),
        None => SqlValue::Null,
    }
}

/// A statement with the text `sql` and no parameters.
pub fn plain_statement(sql: &str) -> (statement: Statement)
    ensures
        statement@.sql == sql@,
        statement@.params == Seq::<SqlValueView>::empty(),
{
    let statement = Statement { sql: String::from_str(sql), params: Vec::new() };
    assert(statement@.params =~= Seq::<SqlValueView>::empty());
    statement
}

/// A statement with the text `sql` whose single parameter is the text `key`.
pub fn keyed_statement(sql: &str, key: &str) -> (statement: Statement)
    ensures
        statement@.sql == sql@,
        statement@.params == seq![SqlValueView::Text(key@)],
{
    let mut params: Vec<SqlValue> = Vec::new();
    params.push(text_value(key));
    let statement = Statement { sql: String::from_str(sql), params };
    assert(statement@.params =~= seq![SqlValueView::Text(key@)]);
    statement
}

/// An ASCII decimal digit.
pub open spec fn is_ascii_digit(c: char) -> bool {
    '0' <= c && c <= '9'
}

/// The number of consecutive digits of `sql` from position `i` on.
pub open spec fn digit_run(sql: Seq<char>, i: int) -> nat
    decreases sql.len() - i,
{
    if 0 <= i < sql.len() && is_ascii_digit(sql[i]) {
        1 + digit_run(sql, i + 1)
    } else {
        0
    }
}

/// The decimal number written by the digits of `sql` at positions `start` up to `end`.
pub open spec fn digits_value(sql: Seq<char>, start: int, end: int) -> nat
    decreases end - start,
{
    if end <= start {
        0
    } else {
        digits_value(sql, start, end - 1) * 10 + ((sql[end - 1] as int - '0' as int) as nat)
    }
}

/// The highest parameter index that a statement uses, reading `sql` from position `i` on with
/// `highest` the highest index so far: a `?` followed by digits uses the index they write,
/// a bare `?` uses the index after the highest so far (SQLite's numbering).
pub open spec fn highest_parameter_from(sql: Seq<char>, i: int, highest: nat) -> nat
    decreases sql.len() - i,
{
    if i < 0 || i >= sql.len() {
        highest
    } else if sql[i] == '?' {
        let run = digit_run(sql, i + 1);
        if run == 0 {
            highest_parameter_from(sql, i + 1, highest + 1)
        } else {
            let index = digits_value(sql, i + 1, i + 1 + run);
            let next = if i + 1 + run <= sql.len() { i + 1 + run } else { sql.len() as int };
            highest_parameter_from(sql, next, if index > highest { index } else { highest })
        }
    } else {
        highest_parameter_from(sql, i + 1, highest)
    }
}

/// How many values a statement's text asks to be bound: its highest parameter index.
pub open spec fn parameter_count(sql: Seq<char>) -> nat {
    highest_parameter_from(sql, 0, 0)
}

/// Whether a statement binds exactly as many values as its text asks for.
pub open spec fn binds_all_parameters(statement: StatementView) -> bool {
    statement.params.len() == parameter_count(statement.sql)
}

/// Whether `b` can follow `a` without extending a parameter marker at the end of `a`.
pub open spec fn joins_cleanly(b: Seq<char>) -> bool {
    b.len() == 0 || !is_ascii_digit(b[0])
}

proof fn lemma_digit_run_bounded(sql: Seq<char>, i: int)
    requires
        0 <= i <= sql.len(),
    ensures
        digit_run(sql, i) <= sql.len() - i,
    decreases sql.len() - i,
{
    if i < sql.len() {
        lemma_digit_run_bounded(sql, i + 1);
    }
}

proof fn lemma_digit_run_prefix(a: Seq<char>, b: Seq<char>, i: int)
    requires
        0 <= i <= a.len(),
        joins_cleanly(b),
    ensures
        digit_run(a + b, i) == digit_run(a, i),
    decreases a.len() - i,
{
    if i < a.len() {
        assert((a + b)[i] == a[i]);
        lemma_digit_run_prefix(a, b, i + 1);
    } else if b.len() > 0 {
        assert((a + b)[i] == b[0]);
    }
}

proof fn lemma_digit_run_suffix(a: Seq<char>, b: Seq<char>, j: int)
    requires
        0 <= j <= b.len(),
    ensures
        digit_run(a + b, a.len() + j) == digit_run(b, j),
    decreases b.len() - j,
{
    if j < b.len() {
        assert((a + b)[a.len() + j] == b[j]);
        lemma_digit_run_suffix(a, b, j + 1);
    }
}

proof fn lemma_digits_value_prefix(a: Seq<char>, b: Seq<char>, start: int, end: int)
    requires
        0 <= start,
        end <= a.len(),
    ensures
        digits_value(a + b, start, end) == digits_value(a, start, end),
    decreases end - start,
{
    if start < end {
        assert((a + b)[end - 1] == a[end - 1]);
        lemma_digits_value_prefix(a, b, start, end - 1);
    }
}

proof fn lemma_digits_value_suffix(a: Seq<char>, b: Seq<char>, start: int, end: int)
    requires
        0 <= start,
        end <= b.len(),
    ensures
        digits_value(a + b, a.len() + start, a.len() + end) == digits_value(b, start, end),
    decreases end - start,
{
    if start < end {
        assert((a + b)[a.len() + end - 1] == b[end - 1]);
        lemma_digits_value_suffix(a, b, start, end - 1);
    }
}

proof fn lemma_highest_suffix(a: Seq<char>, b: Seq<char>, j: int, highest: nat)
    requires
        0 <= j <= b.len(),
    ensures
        highest_parameter_from(a + b, a.len() + j, highest) == highest_parameter_from(b, j, highest),
    decreases b.len() - j,
{
    if j < b.len() {
        assert((a + b)[a.len() + j] == b[j]);
        if b[j] == '?' {
            lemma_digit_run_suffix(a, b, j + 1);
            lemma_digit_run_bounded(b, j + 1);
            let run = digit_run(b, j + 1);
            lemma_digits_value_suffix(a, b, j + 1, j + 1 + run);
            if run == 0 {
                lemma_highest_suffix(a, b, j + 1, highest + 1);
            } else {
                let index = digits_value(b, j + 1, j + 1 + run);
                lemma_highest_suffix(a, b, j + 1 + run, if index > highest { index } else { highest });
            }
        } else {
            lemma_highest_suffix(a, b, j + 1, highest);
        }
    }
}

/// Reading `a + b` is reading `a`, then reading `b` from where `a` left off,
/// when `b` does not continue a marker at the end of `a`.
pub proof fn lemma_highest_concat(a: Seq<char>, b: Seq<char>, i: int, highest: nat)
    requires
        0 <= i <= a.len(),
        joins_cleanly(b),
    ensures
        highest_parameter_from(a + b, i, highest) == highest_parameter_from(
            b,
            0,
            highest_parameter_from(a, i, highest),
        ),
    decreases a.len() - i,
{
    if i == a.len() {
        lemma_highest_suffix(a, b, 0, highest);
    } else {
        assert((a + b)[i] == a[i]);
        if a[i] == '?' {
            lemma_digit_run_prefix(a, b, i + 1);
            lemma_digit_run_bounded(a, i + 1);
            let run = digit_run(a, i + 1);
            lemma_digits_value_prefix(a, b, i + 1, i + 1 + run);
            if run == 0 {
                lemma_highest_concat(a, b, i + 1, highest + 1);
            } else {
                let index = digits_value(a, i + 1, i + 1 + run);
                lemma_highest_concat(a, b, i + 1 + run, if index > highest { index } else { highest });
            }
        } else {
            lemma_highest_concat(a, b, i + 1, highest);
        }
    }
}

} // verus!
