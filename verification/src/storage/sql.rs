//! SQL statements as plain data: the text of a statement and the values bound
//! to its `?` placeholders, in order.

use vstd::prelude::*;

verus! {

/// A value bound to a placeholder or read from a column.
#[derive(Debug, Clone)]
pub enum SqlValue {
    Null,
    Integer(i64),
    /// A floating-point column value.  The store never writes one, so only its
    /// presence is kept.
    Real,
    Text(String),
    Blob(Vec<u8>),
}

/// The mathematical content of a [`SqlValue`].
pub enum SqlData {
    Null,
    Integer(int),
    Real,
    Text(Seq<char>),
    Blob(Seq<u8>),
}

impl View for SqlValue {
    type V = SqlData;

    open spec fn view(&self) -> SqlData {
        match self {
            SqlValue::Null => SqlData::Null,
            SqlValue::Integer(i) => SqlData::Integer(*i as int),
            SqlValue::Real => SqlData::Real,
            SqlValue::Text(s) => SqlData::Text(s@),
            SqlValue::Blob(b) => SqlData::Blob(b@),
        }
    }
}

/// The contents of a list of values.
pub open spec fn values_view(values: Seq<SqlValue>) -> Seq<SqlData> {
    Seq::new(values.len(), |i: int| values[i]@)
}

/// What an optional text is bound as: the text, or `NULL`.
pub open spec fn optional_text(value: Option<String>) -> SqlData {
    match value {
        Some(s) => SqlData::Text(s@),
        None => SqlData::Null,
    }
}

/// What an optional integer is bound as: the integer, or `NULL`.
pub open spec fn optional_integer(value: Option<i32>) -> SqlData {
    match value {
        Some(i) => SqlData::Integer(i as int),
        None => SqlData::Null,
    }
}

/// One SQL statement ready to run.
#[derive(Debug, Clone)]
pub struct SqlStatement {
    pub sql: String,
    pub params: Vec<SqlValue>,
}

/// The mathematical content of a [`SqlStatement`].
pub struct SqlStatementData {
    pub sql: Seq<char>,
    pub params: Seq<SqlData>,
}

impl View for SqlStatement {
    type V = SqlStatementData;

    open spec fn view(&self) -> SqlStatementData {
        SqlStatementData { sql: self.sql@, params: values_view(self.params@) }
    }
}

/// Whether a floating-point value is among the values.  The store cannot
/// hand one over to the database.
pub open spec fn binds_real(params: Seq<SqlData>) -> bool {
    exists|i: int| 0 <= i < params.len() && (#[trigger] params[i]) is Real
}

/// Appending one value appends its content.
pub proof fn values_view_push(values: Seq<SqlValue>, value: SqlValue)
    ensures
        values_view(values.push(value)) == values_view(values).push(value@),
{
    assert(values_view(values.push(value)) =~= values_view(values).push(value@));
}

pub fn text_value(s: &str) -> (r: SqlValue)
    ensures
        r@ == SqlData::Text(s@),
{
    SqlValue::Text(s.to_owned())
}

pub fn optional_text_value(value: &Option<String>) -> (r: SqlValue)
    ensures
        r@ == optional_text(*value),
{
    match value {
        Some(s) => SqlValue::Text(s.clone()),
        None => SqlValue::Null,
    }
}

pub fn optional_integer_value(value: Option<i32>) -> (r: SqlValue)
    ensures
        r@ == optional_integer(value),
{
    match value {
        Some(i) => SqlValue::Integer(i as i64),
        None => SqlValue::Null,
    }
}

} // verus!
