use vstd::prelude::*;
use crate::export::{csv_lines, decoded_rows, export_document, row_views};
use crate::metrics::{FieldKind, K6Metric, MetricDescriptor};
use crate::query::Filter;
use crate::report::K6Report;
use crate::export::MetricError;
use crate::run::{accounts_for, error_description, failed_names, MetricEntry};
use crate::text::{column_count, csv_line, csv_line_columns, join};
use crate::timestamp::{minutes_before, rfc3339_of};

verus! {

proof fn decoded_rows_width(kinds: Seq<FieldKind>, raws: Seq<Seq<Option<Seq<char>>>>)
    requires
        decoded_rows(kinds, raws) is Ok,
    ensures
        decoded_rows(kinds, raws)->Ok_0.len() == raws.len(),
        forall|i: int|
            0 <= i < raws.len() ==> (#[trigger] decoded_rows(kinds, raws)->Ok_0[i]).len()
                == kinds.len(),
    decreases raws.len(),
{
    if raws.len() > 0 {
        decoded_rows_width(kinds, raws.drop_last());
        let last = raws.last();
        assert(last.len() == kinds.len());
    }
}

/// The CSV document of a metric starts with a header line of the metric's
/// field names in order, and then holds one line per row of the series; the
/// header and every row line have exactly as many columns as the metric has
/// fields.
pub proof fn csv_rows_match_header(metric: MetricDescriptor, raws: Seq<Seq<Option<Seq<char>>>>)
    requires
        metric.fields@.len() > 0,
        export_document(metric, raws) is Ok,
    ensures
        decoded_rows(metric.field_kinds(), raws) matches Ok(rows) && {
            &&& export_document(metric, raws)->Ok_0 == csv_line(metric.field_names())
                + csv_lines(rows)
            &&& rows.len() == raws.len()
            &&& column_count(csv_line(metric.field_names())) == metric.fields@.len()
            &&& forall|i: int|
                0 <= i < rows.len() ==> column_count(csv_line(#[trigger] rows[i]))
                    == metric.fields@.len()
        },
{
    let rows = decoded_rows(metric.field_kinds(), raws)->Ok_0;
    decoded_rows_width(metric.field_kinds(), raws);
    csv_line_columns(metric.field_names());
    assert forall|i: int| 0 <= i < rows.len() implies column_count(csv_line(#[trigger] rows[i]))
        == metric.fields@.len() by {
        csv_line_columns(rows[i]);
    }
}

/// Without a time window, no query of the session holds a time predicate.
pub proof fn no_window_no_time_predicate(session: K6Report, applies_exclusion_filters: bool)
    requires
        session.from is None,
    ensures
        forall|i: int|
            0 <= i < session.filters(applies_exclusion_filters).len() ==> !(#[trigger] session.filters(
                applies_exclusion_filters,
            )[i] is TimeFrom),
{
    let f = session.filters(applies_exclusion_filters);
    assert forall|i: int| 0 <= i < f.len() implies !(#[trigger] f[i] is TimeFrom) by {
        assert(session.time_filters().len() == 0);
    }
}

/// With a window of `m` minutes, every query of the session starts its filter
/// with one and the same time predicate: the RFC 3339 text of `invoked_at`
/// less `m` minutes. It is the only time predicate.
pub proof fn window_predicate_is_shared(session: K6Report, m: u64)
    requires
        session.from == Some(m),
        session.query_buildable(),
    ensures
        forall|a: bool|
            #![trigger session.filters(a)]
            session.filters(a)[0] == Filter::TimeFrom(
                rfc3339_of(
                    minutes_before(session.invoked_at.seconds as int, m as int),
                    session.invoked_at.nanos as int,
                )->Some_0,
            ) && forall|i: int|
                1 <= i < session.filters(a).len() ==> !(#[trigger] session.filters(a)[i] is TimeFrom),
{
}

/// A series to which the exclusions do not apply never gets a setup or
/// teardown predicate, whatever the session's flags.
pub proof fn exclusions_need_applicability(session: K6Report)
    ensures
        session.filters(false) == session.time_filters(),
        forall|i: int|
            0 <= i < session.filters(false).len() ==> (#[trigger] session.filters(false)[i] is TimeFrom),
{
    assert(session.filters(false) =~= session.time_filters());
}

/// For a series to which the exclusions do not apply, the query is the one
/// that a session with both exclusion flags off builds: the flags change
/// nothing of it, nor whether it can be built.
pub proof fn flags_ignored_without_applicability<M: K6Metric>(
    session: K6Report,
    flags_off: K6Report,
    metric: &M,
)
    requires
        !metric.applies_exclusion_filters_spec(),
        flags_off.invoked_at == session.invoked_at,
        flags_off.database@ == session.database@,
        flags_off.retention_policy_name@ == session.retention_policy_name@,
        flags_off.from == session.from,
        !flags_off.exclude_setup_steps,
        !flags_off.exclude_teardown_steps,
    ensures
        session.query_buildable() == flags_off.query_buildable(),
        session.query_for(metric) == flags_off.query_for(metric),
{
    assert(session.filters(false) =~= flags_off.filters(false));
}

/// Where no predicate applies, the query has no filter clause at all.
pub proof fn no_predicate_no_where<M: K6Metric>(session: K6Report, metric: &M)
    requires
        session.filters(metric.applies_exclusion_filters_spec()).len() == 0,
    ensures
        session.query_for(metric) == "SELECT "@ + join(metric.query_fields_spec(), ", "@)
            + " FROM "@ + session.database@ + "."@ + session.retention_policy_name@ + "."@
            + metric.table_name_spec(),
{
}

/// Two sessions that share database, retention policy, start instant, window
/// and flags build the same query for every metric, and answers with the same
/// rows give the same CSV document: a second run gives the same files.
pub proof fn rerun_gives_same_output(
    first: K6Report,
    second: K6Report,
    metric: MetricDescriptor,
    first_rows: Seq<Vec<Option<String>>>,
    second_rows: Seq<Vec<Option<String>>>,
)
    requires
        row_views(first_rows) == row_views(second_rows),
        first.invoked_at == second.invoked_at,
        first.database@ == second.database@,
        first.retention_policy_name@ == second.retention_policy_name@,
        first.from == second.from,
        first.exclude_setup_steps == second.exclude_setup_steps,
        first.exclude_teardown_steps == second.exclude_teardown_steps,
    ensures
        first.query_buildable() == second.query_buildable(),
        first.query_for(&metric) == second.query_for(&metric),
        export_document(metric, row_views(first_rows)) == export_document(
            metric,
            row_views(second_rows),
        ),
{
    assert(first.filters(metric.applies_exclusion_filters) =~= second.filters(
        metric.applies_exclusion_filters,
    ));
}

/// Where exactly one metric of a run failed, the run's failures are that
/// metric alone.
pub proof fn single_failure_is_isolated(entries: Seq<MetricEntry>, k: int)
    requires
        0 <= k < entries.len(),
        entries[k].failure is Some,
        forall|i: int| 0 <= i < entries.len() && i != k ==> (#[trigger] entries[i]).failure is None,
    ensures
        failed_names(entries) == seq![entries[k].metric@],
    decreases entries.len(),
{
    if k == entries.len() - 1 {
        none_failed(entries.drop_last());
    } else {
        single_failure_is_isolated(entries.drop_last(), k);
    }
}

proof fn none_failed(entries: Seq<MetricEntry>)
    requires
        forall|i: int| 0 <= i < entries.len() ==> (#[trigger] entries[i]).failure is None,
    ensures
        failed_names(entries) == Seq::<Seq<char>>::empty(),
    decreases entries.len(),
{
    if entries.len() > 0 {
        none_failed(entries.drop_last());
    }
}

/// A run over `n` metrics in which only the metric at `k` failed holds `n`
/// entries, one per metric in order: the one at `k` records the cause of its
/// failure, every other one a completion, and `k`'s metric is the run's only
/// failure. `ExtractionRun::from_outcomes` gives a run that accounts for its
/// outcomes in this sense.
pub proof fn only_failed_metric_is_reported(
    entries: Seq<MetricEntry>,
    names: Seq<Seq<char>>,
    outcomes: Seq<Result<(), MetricError>>,
    k: int,
)
    requires
        accounts_for(entries, names, outcomes),
        0 <= k < outcomes.len(),
        outcomes[k] is Err,
        forall|i: int| 0 <= i < outcomes.len() && i != k ==> (#[trigger] outcomes[i]) is Ok,
    ensures
        entries.len() == names.len(),
        entries[k].metric@ == names[k],
        entries[k].failure matches Some(reason) && reason@ == error_description(
            outcomes[k]->Err_0,
        ),
        forall|i: int|
            0 <= i < entries.len() && i != k ==> (#[trigger] entries[i]).metric@ == names[i]
                && entries[i].failure is None,
        failed_names(entries) == seq![names[k]],
{
    assert(entries[k].metric@ == names[k]);
    assert forall|i: int| 0 <= i < entries.len() && i != k implies (#[trigger] entries[i]).metric@
        == names[i] && entries[i].failure is None by {
        assert(outcomes[i] is Ok);
    }
    single_failure_is_isolated(entries, k);
}

} // verus!
