//! The two kinds of failure: an expression a clause does not accept, and a
//! statement a backend cannot express.

use vstd::prelude::*;
use vstd::string::*;

use crate::backend::{Backend, Construct};
use crate::capability::Capability;
use crate::clause::Slot;

verus! {

impl Capability {
    /// The predicate's name.
    pub open spec fn label(self) -> Seq<char> {
        match self {
            Capability::Typed => "typed"@,
            Capability::BooleanTyped => "boolean-typed"@,
            Capability::NonAggregate => "non-aggregate"@,
            Capability::SelectableFrom => "selectable-from"@,
            Capability::ValidSource => "valid-source"@,
        }
    }

    /// The predicate's name.
    pub fn name(self) -> (s: &'static str)
        ensures
            s@ == self.label(),
    {
        match self {
            Capability::Typed => "typed",
            Capability::BooleanTyped => "boolean-typed",
            Capability::NonAggregate => "non-aggregate",
            Capability::SelectableFrom => "selectable-from",
            Capability::ValidSource => "valid-source",
        }
    }
}

impl Slot {
    /// The slot's name.
    pub open spec fn label(self) -> Seq<char> {
        match self {
            Slot::Select => "select"@,
            Slot::From => "from"@,
            Slot::Distinct => "distinct"@,
            Slot::Where => "where"@,
            Slot::GroupBy => "group-by"@,
            Slot::Order => "order"@,
            Slot::Limit => "limit"@,
            Slot::Offset => "offset"@,
            Slot::With => "with"@,
        }
    }

    /// The slot's name.
    pub fn name(self) -> (s: &'static str)
        ensures
            s@ == self.label(),
    {
        match self {
            Slot::Select => "select",
            Slot::From => "from",
            Slot::Distinct => "distinct",
            Slot::Where => "where",
            Slot::GroupBy => "group-by",
            Slot::Order => "order",
            Slot::Limit => "limit",
            Slot::Offset => "offset",
            Slot::With => "with",
        }
    }
}

/// What was offered to the slot `clause` fails the capability predicate
/// `predicate`.
#[derive(Clone, Copy, PartialEq, Eq, Debug, Structural)]
pub struct ValidityError {
    pub predicate: Capability,
    pub clause: Slot,
}

impl ValidityError {
    /// The message of the error: the predicate's name, then the clause's.
    pub open spec fn text(self) -> Seq<char> {
        self.predicate.label() + " does not hold of what was offered to the clause "@
            + self.clause.label()
    }

    /// The message of the error.
    pub fn message(&self) -> (s: String)
        ensures
            s@ == self.text(),
    {
        let mut s = String::from_str(self.predicate.name());
        s.append(" does not hold of what was offered to the clause ");
        s.append(self.clause.name());
        s
    }
}

/// The backend `backend` cannot express `construct`.
#[derive(Clone, Copy, PartialEq, Eq, Debug, Structural)]
pub struct RenderError {
    pub backend: Backend,
    pub construct: Construct,
}

impl RenderError {
    /// The message of the error: the backend's name, then the construct.
    pub open spec fn text(self) -> Seq<char> {
        "backend "@ + self.backend.label() + " cannot render "@ + self.construct.label()
    }

    /// The message of the error.
    pub fn message(&self) -> (s: String)
        ensures
            s@ == self.text(),
    {
        let mut s = String::from_str("backend ");
        s.append(self.backend.name());
        s.append(" cannot render ");
        let construct = self.construct.describe();
        s.append(construct.as_str());
        s
    }
}

} // verus!
