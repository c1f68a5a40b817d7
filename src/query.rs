use vstd::prelude::*;
use crate::text::join;

verus! {

/// A read query, immutable once built.
#[derive(Clone, Debug)]
pub struct Query {
    text: String,
}

impl View for Query {
    type V = Seq<char>;

    closed spec fn view(&self) -> Seq<char> {
        self.text@
    }
}

impl Query {
    pub fn from_text(text: String) -> (r: Query)
        ensures
            r@ == text@,
    {
        Query { text }
    }

    /// The text of the query.
    pub fn as_str(&self) -> (r: &str)
        ensures
            r@ == self@,
    {
        self.text.as_str()
    }
}

/// Why a query could not be built.
#[derive(Clone, Copy, Debug, PartialEq, Eq, Structural)]
pub enum QueryBuildError {
    /// The lower time bound is outside the range of representable instants.
    TimeOutOfRange,
}

/// One predicate of a query's filter.
pub enum Filter {
    /// Records at or after the instant with this RFC 3339 text.
    TimeFrom(Seq<char>),
    /// No records of the setup phase.
    ExcludeSetup,
    /// No records of the teardown phase.
    ExcludeTeardown,
}

pub open spec fn filter_text(f: Filter) -> Seq<char> {
    match f {
        Filter::TimeFrom(t) => "time >= '"@ + t + "'"@,
        Filter::ExcludeSetup => "group!='::setup'"@,
        Filter::ExcludeTeardown => "group!='::teardown'"@,
    }
}

/// The filter clause: nothing where there is no predicate, else the
/// predicates joined by `AND` after `WHERE`.
pub open spec fn where_clause(filters: Seq<Filter>) -> Seq<char> {
    if filters.len() == 0 {
        Seq::empty()
    } else {
        " WHERE "@ + join(filters.map_values(|f: Filter| filter_text(f)), " AND "@)
    }
}

/// The text of a query projecting `fields` from the series
/// `database.retention_policy.series`, filtered by `filters`.
pub open spec fn query_text(
    database: Seq<char>,
    retention_policy: Seq<char>,
    series: Seq<char>,
    fields: Seq<Seq<char>>,
    filters: Seq<Filter>,
) -> Seq<char> {
    "SELECT "@ + join(fields, ", "@) + " FROM "@ + database + "."@ + retention_policy + "."@
        + series + where_clause(filters)
}

} // verus!
