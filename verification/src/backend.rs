//! Backends: the SQL dialects a statement can be rendered for.
//!
//! A backend decides how a bind parameter is written in the SQL text and
//! which operators, functions and clause shapes it can express.

use vstd::prelude::*;
use vstd::string::*;

use crate::expression::{BinaryOp, Function};
use crate::text::{decimal, push_decimal};

verus! {

/// A target dialect.
#[derive(Clone, Copy, PartialEq, Eq, Debug, Structural)]
pub enum Backend {
    Postgres,
    Sqlite,
    Mysql,
}

/// Something a backend may be unable to express.
#[derive(Clone, Copy, PartialEq, Eq, Debug, Structural)]
pub enum Construct {
    Operator(BinaryOp),
    Function(Function),
    /// An offset on a statement that has no limit.
    OffsetWithoutLimit,
}

impl BinaryOp {
    /// The operator as written in SQL.
    pub open spec fn keyword(self) -> Seq<char> {
        match self {
            BinaryOp::Eq => "="@,
            BinaryOp::NotEq => "<>"@,
            BinaryOp::Lt => "<"@,
            BinaryOp::LtEq => "<="@,
            BinaryOp::Gt => ">"@,
            BinaryOp::GtEq => ">="@,
            BinaryOp::And => "AND"@,
            BinaryOp::Or => "OR"@,
            BinaryOp::Like => "LIKE"@,
            BinaryOp::ILike => "ILIKE"@,
        }
    }

    /// The operator as written in SQL.
    pub fn sql(self) -> (s: &'static str)
        ensures
            s@ == self.keyword(),
    {
        match self {
            BinaryOp::Eq => "=",
            BinaryOp::NotEq => "<>",
            BinaryOp::Lt => "<",
            BinaryOp::LtEq => "<=",
            BinaryOp::Gt => ">",
            BinaryOp::GtEq => ">=",
            BinaryOp::And => "AND",
            BinaryOp::Or => "OR",
            BinaryOp::Like => "LIKE",
            BinaryOp::ILike => "ILIKE",
        }
    }
}

impl Function {
    /// The function's name as written in SQL.
    pub open spec fn keyword(self) -> Seq<char> {
        match self {
            Function::Count => "COUNT"@,
            Function::Max => "MAX"@,
            Function::Min => "MIN"@,
            Function::BoolAnd => "BOOL_AND"@,
            Function::Lower => "LOWER"@,
            Function::Upper => "UPPER"@,
        }
    }

    /// The function's name as written in SQL.
    pub fn sql(self) -> (s: &'static str)
        ensures
            s@ == self.keyword(),
    {
        match self {
            Function::Count => "COUNT",
            Function::Max => "MAX",
            Function::Min => "MIN",
            Function::BoolAnd => "BOOL_AND",
            Function::Lower => "LOWER",
            Function::Upper => "UPPER",
        }
    }
}

impl Construct {
    /// A short description of the construct, for error messages.
    pub open spec fn label(self) -> Seq<char> {
        match self {
            Construct::Operator(op) => "operator "@ + op.keyword(),
            Construct::Function(function) => "function "@ + function.keyword(),
            Construct::OffsetWithoutLimit => "OFFSET without LIMIT"@,
        }
    }

    /// A short description of the construct, for error messages.
    pub fn describe(self) -> (s: String)
        ensures
            s@ == self.label(),
    {
        match self {
            Construct::Operator(op) => {
                let mut s = String::from_str("operator ");
                s.append(op.sql());
                s
            },
            Construct::Function(function) => {
                let mut s = String::from_str("function ");
                s.append(function.sql());
                s
            },
            Construct::OffsetWithoutLimit => String::from_str("OFFSET without LIMIT"),
        }
    }
}

impl Backend {
    /// The backend's name.
    pub open spec fn label(self) -> Seq<char> {
        match self {
            Backend::Postgres => "postgres"@,
            Backend::Sqlite => "sqlite"@,
            Backend::Mysql => "mysql"@,
        }
    }

    /// The text that stands for the bind parameter at `position`, counted
    /// from 1 over the whole statement: `$` and the position for Postgres,
    /// `?` for the others.
    pub open spec fn placeholder(self, position: nat) -> Seq<char> {
        match self {
            Backend::Postgres => "$"@ + decimal(position),
            _ => "?"@,
        }
    }

    /// Whether the backend can express `construct`. `ILIKE` and `BOOL_AND`
    /// exist in Postgres only, and only Postgres accepts an offset without a
    /// limit.
    pub open spec fn supports(self, construct: Construct) -> bool {
        match construct {
            Construct::Operator(op) => op != BinaryOp::ILike || self == Backend::Postgres,
            Construct::Function(function) => function != Function::BoolAnd || self
                == Backend::Postgres,
            Construct::OffsetWithoutLimit => self == Backend::Postgres,
        }
    }

    /// The backend's name.
    pub fn name(self) -> (s: &'static str)
        ensures
            s@ == self.label(),
    {
        match self {
            Backend::Postgres => "postgres",
            Backend::Sqlite => "sqlite",
            Backend::Mysql => "mysql",
        }
    }

    /// Whether the backend can express `construct`.
    pub fn can_render(self, construct: Construct) -> (ok: bool)
        ensures
            ok == self.supports(construct),
    {
        match self {
            Backend::Postgres => true,
            _ => match construct {
                Construct::Operator(BinaryOp::ILike) => false,
                Construct::Operator(_) => true,
                Construct::Function(Function::BoolAnd) => false,
                Construct::Function(_) => true,
                Construct::OffsetWithoutLimit => false,
            },
        }
    }

    /// Appends to `out` the text that stands for the bind parameter at
    /// `position`.
    pub fn push_placeholder(self, out: &mut String, position: usize)
        ensures
            final(out)@ == old(out)@ + self.placeholder(position as nat),
    {
        match self {
            Backend::Postgres => {
                out.append("$");
                push_decimal(out, position);
                assert(out@ =~= old(out)@ + ("$"@ + decimal(position as nat)));
            },
            _ => {
                out.append("?");
            },
        }
    }
}

} // verus!
