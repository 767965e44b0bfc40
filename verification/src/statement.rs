//! Statements as they are handed to the database connection: the text and,
//! in order, the values bound to its placeholders `$1`, `$2`, ...

use vstd::prelude::*;
use vstd::string::StringExecFns;
use chrono::NaiveDateTime;

verus! {

/// A value bound to a placeholder of a statement.
#[derive(Debug, PartialEq, Eq)]
pub enum BindValue {
    /// A text.
    Text(String),
    /// A timestamp with time zone, given in UTC.
    Timestamptz(NaiveDateTime),
}

/// A `BindValue` with its text as a sequence of characters.
pub enum BindValueView {
    Text(Seq<char>),
    Timestamptz(NaiveDateTime),
}

impl View for BindValue {
    type V = BindValueView;

    open spec fn view(&self) -> BindValueView {
        match self {
            BindValue::Text(text) => BindValueView::Text(text@),
            BindValue::Timestamptz(at) => BindValueView::Timestamptz(*at),
        }
    }
}

/// A finished statement.
#[derive(Debug, PartialEq, Eq)]
pub struct Statement {
    /// The statement text.
    pub sql: String,
    /// The values for the placeholders, in their order.
    pub params: Vec<BindValue>,
}

/// A `Statement` with its text and its bound texts as sequences of
/// characters.
pub struct StatementView {
    pub sql: Seq<char>,
    pub params: Seq<BindValueView>,
}

/// The views of a list of bound values.
pub open spec fn bind_views(params: Seq<BindValue>) -> Seq<BindValueView> {
    params.map_values(|p: BindValue| p@)
}

impl View for Statement {
    type V = StatementView;

    open spec fn view(&self) -> StatementView {
        StatementView { sql: self.sql@, params: bind_views(self.params@) }
    }
}

/// The views of a list of statements.
pub open spec fn statement_views(statements: Seq<Statement>) -> Seq<StatementView> {
    statements.map_values(|s: Statement| s@)
}

impl Statement {
    /// The statement `sql` with nothing bound.
    pub fn new(sql: String) -> (r: Self)
        ensures
            r@ == (StatementView { sql: sql@, params: Seq::empty() }),
    {
        let r = Statement { sql, params: Vec::new() };
        assert(bind_views(r.params@) == Seq::<BindValueView>::empty());
        r
    }

    /// Binds `text` to the next placeholder.
    pub fn bind_text(self, text: &str) -> (r: Self)
        ensures
            r@ == (StatementView {
                sql: self@.sql,
                params: self@.params.push(BindValueView::Text(text@)),
            }),
    {
        let mut r = self;
        let value = BindValue::Text(String::from_str(text));
        assert(bind_views(r.params@.push(value)) == bind_views(r.params@).push(value@));
        r.params.push(value);
        r
    }

    /// Binds the point in time `at` to the next placeholder.
    pub fn bind_timestamptz(self, at: NaiveDateTime) -> (r: Self)
        ensures
            r@ == (StatementView {
                sql: self@.sql,
                params: self@.params.push(BindValueView::Timestamptz(at)),
            }),
    {
        let mut r = self;
        let value = BindValue::Timestamptz(at);
        assert(bind_views(r.params@.push(value)) == bind_views(r.params@).push(value@));
        r.params.push(value);
        r
    }
}

} // verus!
