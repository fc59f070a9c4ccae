//! SQL value types and the values that travel as bind parameters.

use vstd::prelude::*;

verus! {

/// The value type of an expression or a column.
#[derive(Clone, Copy, PartialEq, Eq, Debug, Structural)]
pub enum SqlType {
    Bool,
    Integer,
    BigInt,
    Text,
}

/// A value handed to the database as a bind parameter, next to the SQL text.
#[derive(Debug, PartialEq, Eq)]
pub enum Value {
    Bool(bool),
    Integer(i32),
    BigInt(i64),
    Text(String),
}

/// The mathematical model of a [`Value`]: text is a sequence of characters.
pub enum ValueView {
    Bool(bool),
    Integer(i32),
    BigInt(i64),
    Text(Seq<char>),
}

impl ValueView {
    /// The SQL type under which the value is bound.
    pub open spec fn sql_type(self) -> SqlType {
        match self {
            ValueView::Bool(_) => SqlType::Bool,
            ValueView::Integer(_) => SqlType::Integer,
            ValueView::BigInt(_) => SqlType::BigInt,
            ValueView::Text(_) => SqlType::Text,
        }
    }
}

impl View for Value {
    type V = ValueView;

    open spec fn view(&self) -> ValueView {
        match *self {
            Value::Bool(b) => ValueView::Bool(b),
            Value::Integer(n) => ValueView::Integer(n),
            Value::BigInt(n) => ValueView::BigInt(n),
            Value::Text(s) => ValueView::Text(s@),
        }
    }
}

impl Clone for Value {
    fn clone(&self) -> (copy: Self)
        ensures
            copy == *self,
    {
        match self {
            Value::Bool(b) => Value::Bool(*b),
            Value::Integer(n) => Value::Integer(*n),
            Value::BigInt(n) => Value::BigInt(*n),
            Value::Text(s) => Value::Text(s.clone()),
        }
    }
}

impl Value {
    /// The SQL type under which the value is bound.
    pub fn sql_type(&self) -> (t: SqlType)
        ensures
            t == self@.sql_type(),
    {
        match self {
            Value::Bool(_) => SqlType::Bool,
            Value::Integer(_) => SqlType::Integer,
            Value::BigInt(_) => SqlType::BigInt,
            Value::Text(_) => SqlType::Text,
        }
    }

    /// A text value holding the characters of `s`.
    pub fn text(s: &str) -> (v: Value)
        ensures
            v@ == ValueView::Text(s@),
    {
        Value::Text(s.to_owned())
    }
}

/// The models of a list of values, in order.
pub open spec fn values_view(values: Seq<Value>) -> Seq<ValueView> {
    values.map_values(|v: Value| v@)
}

} // verus!
