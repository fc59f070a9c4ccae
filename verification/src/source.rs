//! Sources: the tables a statement selects from.
//!
//! A [`Source`] is a descriptor handed in by the schema layer: a name and the
//! columns it exposes, each with its value type. A [`FromClause`] is a base
//! source together with the aliased sources merged into it; it decides which
//! column references are visible to the other clauses.
//!
//! Names of sources and columns are written into the SQL text as they are.
//! They are meant to come from the schema layer, never from user input.

use vstd::prelude::*;

use crate::expression::{Expr, ExprView};
use crate::types::SqlType;

verus! {

/// One column of a source.
#[derive(Debug, PartialEq, Eq)]
pub struct Column {
    pub name: String,
    pub sql_type: SqlType,
}

/// The mathematical model of a [`Column`].
pub struct ColumnView {
    pub name: Seq<char>,
    pub sql_type: SqlType,
}

impl View for Column {
    type V = ColumnView;

    open spec fn view(&self) -> ColumnView {
        ColumnView { name: self.name@, sql_type: self.sql_type }
    }
}

impl Clone for Column {
    fn clone(&self) -> (copy: Self)
        ensures
            copy == *self,
    {
        Column { name: self.name.clone(), sql_type: self.sql_type }
    }
}

impl Column {
    /// The column `name` holding values of type `sql_type`.
    pub fn new(name: &str, sql_type: SqlType) -> (column: Column)
        ensures
            column@ == (ColumnView { name: name@, sql_type }),
    {
        Column { name: name.to_owned(), sql_type }
    }
}

/// The models of a list of columns, in order.
pub open spec fn columns_view(columns: Seq<Column>) -> Seq<ColumnView> {
    columns.map_values(|c: Column| c@)
}

/// A table: its name and its columns.
#[derive(Debug, PartialEq, Eq)]
pub struct Source {
    pub name: String,
    pub columns: Vec<Column>,
}

/// The mathematical model of a [`Source`].
pub struct SourceView {
    pub name: Seq<char>,
    pub columns: Seq<ColumnView>,
}

impl SourceView {
    /// Whether the source has a column `name` of type `sql_type`.
    pub open spec fn has_column(self, name: Seq<char>, sql_type: SqlType) -> bool {
        self.columns.contains(ColumnView { name, sql_type })
    }

    /// Whether the column at index `i` is the first one called `name`.
    pub open spec fn first_named(self, name: Seq<char>, i: int) -> bool {
        &&& 0 <= i < self.columns.len()
        &&& self.columns[i].name == name
        &&& forall|j: int| 0 <= j < i ==> (#[trigger] self.columns[j]).name != name
    }

    /// A source is valid when no two of its columns share a name.
    pub open spec fn valid(self) -> bool {
        forall|i: int, j: int|
            0 <= i < j < self.columns.len() ==> (#[trigger] self.columns[i]).name
                != (#[trigger] self.columns[j]).name
    }
}

impl View for Source {
    type V = SourceView;

    open spec fn view(&self) -> SourceView {
        SourceView { name: self.name@, columns: columns_view(self.columns@) }
    }
}

impl Clone for Source {
    fn clone(&self) -> (copy: Self)
        ensures
            copy@ == self@,
    {
        let mut columns: Vec<Column> = Vec::new();
        let mut i: usize = 0;
        while i < self.columns.len()
            invariant
                i <= self.columns.len(),
                columns@ == self.columns@.subrange(0, i as int),
            decreases self.columns.len() - i,
        {
            columns.push(self.columns[i].clone());
            i = i + 1;
        }
        assert(columns@ == self.columns@);
        Source { name: self.name.clone(), columns }
    }
}

impl Source {
    /// The table `name` with the given columns.
    pub fn new(name: &str, columns: Vec<Column>) -> (source: Source)
        ensures
            source@ == (SourceView { name: name@, columns: columns_view(columns@) }),
    {
        Source { name: name.to_owned(), columns }
    }

    /// Whether the source has a column `name` of type `sql_type`.
    pub fn has_column(&self, name: &String, sql_type: SqlType) -> (found: bool)
        ensures
            found == self@.has_column(name@, sql_type),
    {
        let ghost wanted = ColumnView { name: name@, sql_type };
        let mut i: usize = 0;
        while i < self.columns.len()
            invariant
                i <= self.columns.len(),
                wanted == (ColumnView { name: name@, sql_type }),
                forall|k: int| 0 <= k < i ==> (#[trigger] self@.columns[k]) != wanted,
            decreases self.columns.len() - i,
        {
            if self.columns[i].name == *name && self.columns[i].sql_type == sql_type {
                assert(self@.columns[i as int] == wanted);
                return true;
            }
            i = i + 1;
        }
        false
    }

    /// The index of the first column called `name`, if there is one.
    pub fn position(&self, name: &String) -> (found: Option<usize>)
        ensures
            match found {
                Some(i) => self@.first_named(name@, i as int),
                None => forall|j: int|
                    0 <= j < self@.columns.len() ==> (#[trigger] self@.columns[j]).name != name@,
            },
    {
        let mut i: usize = 0;
        while i < self.columns.len()
            invariant
                i <= self.columns.len(),
                forall|j: int| 0 <= j < i ==> (#[trigger] self@.columns[j]).name != name@,
            decreases self.columns.len() - i,
        {
            if self.columns[i].name == *name {
                assert(self@.columns[i as int].name == name@);
                return Some(i);
            }
            i = i + 1;
        }
        None
    }

    /// A reference to the first column called `name`, under the source's
    /// own name and with the column's type; `None` if the source has no
    /// column of that name.
    pub fn column(&self, name: &str) -> (found: Option<Expr>)
        ensures
            match found {
                Some(e) => exists|i: int|
                    self@.first_named(name@, i) && e@ == (ExprView::Column {
                        source: self@.name,
                        name: name@,
                        sql_type: (#[trigger] self@.columns[i]).sql_type,
                    }),
                None => forall|j: int|
                    0 <= j < self@.columns.len() ==> (#[trigger] self@.columns[j]).name != name@,
            },
    {
        let name = name.to_owned();
        match self.position(&name) {
            Some(i) => {
                let e = Expr::Column {
                    source: self.name.clone(),
                    name,
                    sql_type: self.columns[i].sql_type,
                };
                assert(self@.first_named(name@, i as int) && e@ == (ExprView::Column {
                    source: self@.name,
                    name: name@,
                    sql_type: self@.columns[i as int].sql_type,
                }));
                Some(e)
            },
            None => None,
        }
    }

    /// Whether no two columns share a name.
    pub fn is_valid(&self) -> (valid: bool)
        ensures
            valid == self@.valid(),
    {
        let n = self.columns.len();
        let mut j: usize = 0;
        while j < n
            invariant
                n == self.columns.len(),
                j <= n,
                forall|a: int, b: int|
                    0 <= a < b < j ==> (#[trigger] self@.columns[a]).name
                        != (#[trigger] self@.columns[b]).name,
            decreases n - j,
        {
            let mut i: usize = 0;
            while i < j
                invariant
                    n == self.columns.len(),
                    i <= j < n,
                    forall|a: int|
                        0 <= a < i ==> (#[trigger] self@.columns[a]).name
                            != self@.columns[j as int].name,
                decreases j - i,
            {
                if self.columns[i].name == self.columns[j].name {
                    assert(self@.columns[i as int].name == self@.columns[j as int].name);
                    return false;
                }
                i = i + 1;
            }
            j = j + 1;
        }
        true
    }
}

/// A source under another name.
#[derive(Debug, PartialEq, Eq)]
pub struct Aliased {
    pub source: Source,
    pub alias: String,
}

/// The mathematical model of an [`Aliased`] source.
pub struct AliasedView {
    pub source: SourceView,
    pub alias: Seq<char>,
}

impl View for Aliased {
    type V = AliasedView;

    open spec fn view(&self) -> AliasedView {
        AliasedView { source: self.source@, alias: self.alias@ }
    }
}

impl Clone for Aliased {
    fn clone(&self) -> (copy: Self)
        ensures
            copy@ == self@,
    {
        Aliased { source: self.source.clone(), alias: self.alias.clone() }
    }
}

impl Aliased {
    /// `source` under the name `alias`.
    pub fn new(source: Source, alias: &str) -> (aliased: Aliased)
        ensures
            aliased@ == (AliasedView { source: source@, alias: alias@ }),
    {
        Aliased { source, alias: alias.to_owned() }
    }

    /// A reference to the first column called `name`, under the alias and
    /// with the column's type; `None` if the source has no column of that
    /// name.
    pub fn column(&self, name: &str) -> (found: Option<Expr>)
        ensures
            match found {
                Some(e) => exists|i: int|
                    self@.source.first_named(name@, i) && e@ == (ExprView::Column {
                        source: self@.alias,
                        name: name@,
                        sql_type: (#[trigger] self@.source.columns[i]).sql_type,
                    }),
                None => forall|j: int|
                    0 <= j < self@.source.columns.len() ==> (
                    #[trigger] self@.source.columns[j]).name != name@,
            },
    {
        let name = name.to_owned();
        match self.source.position(&name) {
            Some(i) => {
                let e = Expr::Column {
                    source: self.alias.clone(),
                    name,
                    sql_type: self.source.columns[i].sql_type,
                };
                assert(self@.source.first_named(name@, i as int) && e@ == (ExprView::Column {
                    source: self@.alias,
                    name: name@,
                    sql_type: self@.source.columns[i as int].sql_type,
                }));
                Some(e)
            },
            None => None,
        }
    }
}

/// The models of a list of aliased sources, in order.
pub open spec fn aliased_view(merged: Seq<Aliased>) -> Seq<AliasedView> {
    merged.map_values(|a: Aliased| a@)
}

/// The content of the from slot: a base source and the aliased sources
/// merged into it, in the order in which they were attached.
#[derive(Debug, PartialEq, Eq)]
pub struct FromClause {
    pub base: Source,
    pub merged: Vec<Aliased>,
}

/// The mathematical model of a [`FromClause`].
pub struct FromView {
    pub base: SourceView,
    pub merged: Seq<AliasedView>,
}

impl FromView {
    /// Whether more than one source is visible.
    pub open spec fn is_joined(self) -> bool {
        self.merged.len() > 0
    }

    /// Whether a column `name` of type `sql_type` is reachable under the
    /// source name `source`: in the base source under its own name, or in a
    /// merged source under its alias.
    pub open spec fn exposes(self, source: Seq<char>, name: Seq<char>, sql_type: SqlType) -> bool {
        ||| (self.base.name == source && self.base.has_column(name, sql_type))
        ||| exists|i: int|
            0 <= i < self.merged.len() && (#[trigger] self.merged[i]).alias == source
                && self.merged[i].source.has_column(name, sql_type)
    }

    /// A composition is valid when each of its sources is valid and no two
    /// of them are visible under the same name.
    pub open spec fn valid(self) -> bool {
        &&& self.base.valid()
        &&& forall|i: int|
            0 <= i < self.merged.len() ==> (#[trigger] self.merged[i]).source.valid()
                && self.merged[i].alias != self.base.name
        &&& forall|i: int, j: int|
            0 <= i < j < self.merged.len() ==> (#[trigger] self.merged[i]).alias
                != (#[trigger] self.merged[j]).alias
    }

    /// Whether `sub` is a valid source under a name that is still free.
    pub open spec fn admits(self, sub: AliasedView) -> bool {
        &&& sub.source.valid()
        &&& sub.alias != self.base.name
        &&& forall|i: int|
            0 <= i < self.merged.len() ==> (#[trigger] self.merged[i]).alias != sub.alias
    }

    /// The composition extended by `sub`.
    pub open spec fn merge(self, sub: AliasedView) -> FromView {
        FromView { base: self.base, merged: self.merged.push(sub) }
    }
}

/// Extending a valid composition keeps it valid exactly when the new source
/// is admitted.
pub proof fn lemma_merge_valid(from: FromView, sub: AliasedView)
    requires
        from.valid(),
    ensures
        from.merge(sub).valid() <==> from.admits(sub),
{
    let after = from.merge(sub);
    let n = from.merged.len() as int;
    assert(after.merged[n] == sub);
    if from.admits(sub) {
        assert forall|i: int| 0 <= i < after.merged.len() implies (
        #[trigger] after.merged[i]).source.valid() && after.merged[i].alias
            != after.base.name by {
            if i < n {
                assert(after.merged[i] == from.merged[i]);
            }
        }
        assert forall|i: int, j: int| 0 <= i < j < after.merged.len() implies (
        #[trigger] after.merged[i]).alias != (#[trigger] after.merged[j]).alias by {
            assert(after.merged[i] == from.merged[i]);
            if j < n {
                assert(after.merged[j] == from.merged[j]);
            }
        }
    }
    if after.valid() {
        assert forall|i: int| 0 <= i < from.merged.len() implies (#[trigger] from.merged[i]).alias
            != sub.alias by {
            assert(after.merged[i] == from.merged[i]);
        }
    }
}

/// Whatever a composition exposes, it still exposes after a merge.
pub proof fn lemma_merge_exposes(
    from: FromView,
    sub: AliasedView,
    source: Seq<char>,
    name: Seq<char>,
    sql_type: SqlType,
)
    requires
        from.exposes(source, name, sql_type),
    ensures
        from.merge(sub).exposes(source, name, sql_type),
{
    let after = from.merge(sub);
    if !(from.base.name == source && from.base.has_column(name, sql_type)) {
        let i = choose|i: int|
            0 <= i < from.merged.len() && (#[trigger] from.merged[i]).alias == source
                && from.merged[i].source.has_column(name, sql_type);
        assert(after.merged[i] == from.merged[i]);
    }
}

impl View for FromClause {
    type V = FromView;

    open spec fn view(&self) -> FromView {
        FromView { base: self.base@, merged: aliased_view(self.merged@) }
    }
}

impl Clone for FromClause {
    fn clone(&self) -> (copy: Self)
        ensures
            copy@ == self@,
    {
        let mut merged: Vec<Aliased> = Vec::new();
        let mut i: usize = 0;
        while i < self.merged.len()
            invariant
                i <= self.merged.len(),
                merged.len() == i,
                forall|k: int| 0 <= k < i ==> (#[trigger] merged[k])@ == self.merged[k]@,
            decreases self.merged.len() - i,
        {
            merged.push(self.merged[i].clone());
            i = i + 1;
        }
        assert(aliased_view(merged@) =~= aliased_view(self.merged@));
        FromClause { base: self.base.clone(), merged }
    }
}

impl FromClause {
    /// The composition of `base` alone.
    pub fn new(base: Source) -> (from: FromClause)
        ensures
            from@ == (FromView { base: base@, merged: Seq::empty() }),
    {
        let from = FromClause { base, merged: Vec::new() };
        assert(from@.merged == Seq::<AliasedView>::empty());
        from
    }

    /// Whether more than one source is visible.
    pub fn is_joined(&self) -> (joined: bool)
        ensures
            joined == self@.is_joined(),
    {
        self.merged.len() > 0
    }

    /// Whether a column `name` of type `sql_type` is reachable under the
    /// source name `source`.
    pub fn exposes(&self, source: &String, name: &String, sql_type: SqlType) -> (found: bool)
        ensures
            found == self@.exposes(source@, name@, sql_type),
    {
        if self.base.name == *source && self.base.has_column(name, sql_type) {
            return true;
        }
        let mut i: usize = 0;
        while i < self.merged.len()
            invariant
                i <= self.merged.len(),
                forall|k: int|
                    0 <= k < i ==> !((#[trigger] self@.merged[k]).alias == source@
                        && self@.merged[k].source.has_column(name@, sql_type)),
            decreases self.merged.len() - i,
        {
            if self.merged[i].alias == *source && self.merged[i].source.has_column(name, sql_type) {
                assert(self@.merged[i as int] == self.merged[i as int]@);
                return true;
            }
            i = i + 1;
        }
        false
    }

    /// Whether `sub` is a valid source under a name that is still free.
    pub fn admits(&self, sub: &Aliased) -> (ok: bool)
        ensures
            ok == self@.admits(sub@),
    {
        if !sub.source.is_valid() || sub.alias == self.base.name {
            return false;
        }
        let mut i: usize = 0;
        while i < self.merged.len()
            invariant
                i <= self.merged.len(),
                forall|k: int| 0 <= k < i ==> (#[trigger] self@.merged[k]).alias != sub@.alias,
            decreases self.merged.len() - i,
        {
            if self.merged[i].alias == sub.alias {
                assert(self@.merged[i as int] == self.merged[i as int]@);
                return false;
            }
            i = i + 1;
        }
        true
    }

    /// The composition extended by `sub`.
    pub fn merge(&self, sub: Aliased) -> (from: FromClause)
        ensures
            from@ == self@.merge(sub@),
    {
        let mut from = self.clone();
        from.merged.push(sub);
        assert(from@.merged == self@.merged.push(sub@));
        from
    }
}

} // verus!
