//! Continuous aggregates: materialized views that the database keeps up to
//! date, and the policy by which it refreshes them.
//!
//! The view name is validated and stands quoted in the statement text. The
//! query that defines the view is taken as it is given: whoever supplies it
//! answers for it. The intervals of the refresh policy are read from their
//! texts, and their canonical writing stands in the statement text.

use vstd::prelude::*;
use vstd::string::StringExecFns;
use crate::schema::error::ValidationError;
use crate::schema::error::ValidationErrorView;
use crate::schema::identifier::identifier_verdict;
use crate::schema::identifier::quote_identifier;
use crate::schema::identifier::SqlIdentifier;
use crate::schema::interval::interval_sql;
use crate::schema::interval::interval_verdict;
use crate::schema::interval::IntervalView;
use crate::schema::interval::TimeInterval;
use crate::statement::statement_views;
use crate::statement::BindValueView;
use crate::statement::Statement;
use crate::statement::StatementView;

verus! {

/// What a continuous aggregate is made from.
#[derive(Debug, Clone)]
pub struct ContinuousAggregateConfig {
    /// The name of the view.
    pub view_name: String,
    /// The query that defines the view. It is not validated.
    pub query: String,
    /// The text of the interval at which the refresh is scheduled, if any.
    pub refresh_lag: Option<String>,
    /// The text of the interval that ends the refresh window, if a refresh
    /// policy is wanted.
    pub refresh_interval: Option<String>,
}

/// A `ContinuousAggregateConfig` with its texts as sequences of characters.
pub struct ContinuousAggregateView {
    pub view_name: Seq<char>,
    pub query: Seq<char>,
    pub refresh_lag: Option<Seq<char>>,
    pub refresh_interval: Option<Seq<char>>,
}

/// The characters of a text that may be absent.
pub open spec fn optional_text(text: Option<String>) -> Option<Seq<char>> {
    match text {
        Some(t) => Some(t@),
        None => None,
    }
}

impl View for ContinuousAggregateConfig {
    type V = ContinuousAggregateView;

    open spec fn view(&self) -> ContinuousAggregateView {
        ContinuousAggregateView {
            view_name: self.view_name@,
            query: self.query@,
            refresh_lag: optional_text(self.refresh_lag),
            refresh_interval: optional_text(self.refresh_interval),
        }
    }
}

/// The statement that creates the view `view_name` from `query`.
pub open spec fn create_view_statement(view_name: Seq<char>, query: Seq<char>) -> StatementView {
    StatementView {
        sql: "CREATE MATERIALIZED VIEW "@ + quote_identifier(view_name)
            + " WITH (timescaledb.continuous) AS "@ + query + ";"@,
        params: Seq::empty(),
    }
}

/// The part of the refresh policy that schedules it, where a schedule is
/// given.
pub open spec fn schedule_clause(lag: Option<IntervalView>) -> Seq<char> {
    match lag {
        Some(l) => ", schedule_interval => "@ + interval_sql(l),
        None => Seq::empty(),
    }
}

/// The statement that gives the view `view_name` its refresh policy.
pub open spec fn refresh_policy_statement(
    view_name: Seq<char>,
    interval: IntervalView,
    lag: Option<IntervalView>,
) -> StatementView {
    StatementView {
        sql: "SELECT add_continuous_aggregate_policy($1, start_offset => NULL, "@
            + "end_offset => "@ + interval_sql(interval) + schedule_clause(lag) + ");"@,
        params: seq![BindValueView::Text(view_name)],
    }
}

/// What reading the schedule of a refresh policy gives: no schedule where no
/// text is given, the interval where the text is one, else the error.
pub open spec fn lag_verdict(lag: Option<Seq<char>>) -> Result<
    Option<IntervalView>,
    ValidationErrorView,
> {
    match lag {
        None => Ok(None),
        Some(text) => match interval_verdict(text) {
            Ok(interval) => Ok(Some(interval)),
            Err(e) => Err(e),
        },
    }
}

/// The statements that set up the continuous aggregate `config`, in the order
/// in which they are to run, or the first error that validation finds. The
/// view name is checked first, then the refresh interval, then the schedule.
/// Without a refresh interval there is no refresh policy, and the schedule is
/// not looked at.
pub open spec fn continuous_aggregate_statements(config: ContinuousAggregateView) -> Result<
    Seq<StatementView>,
    ValidationErrorView,
> {
    match identifier_verdict(config.view_name) {
        Err(e) => Err(e),
        Ok(_) => match config.refresh_interval {
            None => Ok(seq![create_view_statement(config.view_name, config.query)]),
            Some(text) => match interval_verdict(text) {
                Err(e) => Err(e),
                Ok(interval) => match lag_verdict(config.refresh_lag) {
                    Err(e) => Err(e),
                    Ok(lag) => Ok(
                        seq![
                            create_view_statement(config.view_name, config.query),
                            refresh_policy_statement(config.view_name, interval, lag),
                        ],
                    ),
                },
            },
        },
    }
}

impl ContinuousAggregateConfig {
    /// The continuous aggregate `view_name` over `query`, without a refresh
    /// policy.
    pub fn new(view_name: &str, query: &str) -> (r: Self)
        ensures
            r@ == (ContinuousAggregateView {
                view_name: view_name@,
                query: query@,
                refresh_lag: None,
                refresh_interval: None,
            }),
    {
        ContinuousAggregateConfig {
            view_name: String::from_str(view_name),
            query: String::from_str(query),
            refresh_lag: None,
            refresh_interval: None,
        }
    }

    /// The same continuous aggregate with `lag` as the text of its schedule.
    pub fn with_refresh_lag(self, lag: &str) -> (r: Self)
        ensures
            r@ == (ContinuousAggregateView { refresh_lag: Some(lag@), ..self@ }),
    {
        let mut r = self;
        r.refresh_lag = Some(String::from_str(lag));
        r
    }

    /// The same continuous aggregate with `interval` as the text of its
    /// refresh interval.
    pub fn with_refresh_interval(self, interval: &str) -> (r: Self)
        ensures
            r@ == (ContinuousAggregateView { refresh_interval: Some(interval@), ..self@ }),
    {
        let mut r = self;
        r.refresh_interval = Some(String::from_str(interval));
        r
    }

    /// The statements that create the continuous aggregate, in the order in
    /// which they are to run: the view, then its refresh policy where a
    /// refresh interval is set. Every text is validated before any statement
    /// is made.
    pub fn create(&self) -> (r: Result<Vec<Statement>, ValidationError>)
        ensures
            match r {
                Ok(statements) => continuous_aggregate_statements(self@) == Ok::<
                    Seq<StatementView>,
                    ValidationErrorView,
                >(statement_views(statements@)),
                Err(e) => continuous_aggregate_statements(self@) == Err::<
                    Seq<StatementView>,
                    ValidationErrorView,
                >(e@),
            },
    {
        let view_identifier = match SqlIdentifier::new(self.view_name.as_str()) {
            Ok(id) => id,
            Err(e) => {
                return Err(e);
            },
        };
        let mut create_sql = String::from_str("CREATE MATERIALIZED VIEW ");
        create_sql.append(view_identifier.escaped().as_str());
        create_sql.append(" WITH (timescaledb.continuous) AS ");
        create_sql.append(self.query.as_str());
        create_sql.append(";");
        let create = Statement::new(create_sql);
        let mut statements: Vec<Statement> = Vec::new();
        match &self.refresh_interval {
            None => {
                proof {
                    assert(statement_views(statements@.push(create)) == seq![create@]);
                }
                statements.push(create);
            },
            Some(interval_text) => {
                let interval = match TimeInterval::from_string(interval_text.as_str()) {
                    Ok(interval) => interval,
                    Err(e) => {
                        return Err(e);
                    },
                };
                let mut refresh_sql = String::from_str(
                    "SELECT add_continuous_aggregate_policy($1, start_offset => NULL, ",
                );
                refresh_sql.append("end_offset => ");
                refresh_sql.append(interval.to_sql().as_str());
                let ghost head = refresh_sql@;
                let ghost lag_view: Option<IntervalView> = None;
                match &self.refresh_lag {
                    None => {},
                    Some(lag_text) => {
                        let lag = match TimeInterval::from_string(lag_text.as_str()) {
                            Ok(lag) => lag,
                            Err(e) => {
                                return Err(e);
                            },
                        };
                        refresh_sql.append(", schedule_interval => ");
                        refresh_sql.append(lag.to_sql().as_str());
                        proof {
                            lag_view = Some(lag@);
                        }
                    },
                }
                refresh_sql.append(");");
                let refresh = Statement::new(refresh_sql).bind_text(self.view_name.as_str());
                proof {
                    assert(lag_verdict(self@.refresh_lag) == Ok::<
                        Option<IntervalView>,
                        ValidationErrorView,
                    >(lag_view));
                    assert(refresh@.sql == head + schedule_clause(lag_view) + ");"@);
                    assert(refresh@.params == seq![BindValueView::Text(self.view_name@)]);
                    assert(refresh@ == refresh_policy_statement(
                        self.view_name@,
                        interval@,
                        lag_view,
                    ));
                    assert(statement_views(statements@.push(create).push(refresh)) == seq![
                        create@,
                        refresh@,
                    ]);
                }
                statements.push(create);
                statements.push(refresh);
            },
        }
        Ok(statements)
    }
}

} // verus!
