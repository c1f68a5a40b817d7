use vstd::prelude::*;
use crate::export::MetricError;

verus! {

/// What became of one metric in a run.
#[derive(Clone, Debug)]
pub struct MetricEntry {
    pub metric: String,
    /// Why its export failed; `None` where it completed.
    pub failure: Option<String>,
}

/// How a whole run ended.
#[derive(Clone, Debug)]
pub enum RunStatus {
    /// Every metric was attempted; `failed` of them could not be exported.
    Finished { failed: usize },
    /// A condition that no metric could get past stopped the run.
    Aborted(String),
}

/// The outcomes of an extraction run so far, one entry per metric in the
/// order they were attempted.
#[derive(Clone, Debug)]
pub struct ExtractionRun {
    pub entries: Vec<MetricEntry>,
}

/// The names of the metrics among `entries` that failed, in order.
pub open spec fn failed_names(entries: Seq<MetricEntry>) -> Seq<Seq<char>>
    decreases entries.len(),
{
    if entries.len() == 0 {
        Seq::empty()
    } else {
        let prev = failed_names(entries.drop_last());
        if entries.last().failure is Some {
            prev.push(entries.last().metric@)
        } else {
            prev
        }
    }
}

pub open spec fn completed_line(metric: Seq<char>) -> Seq<char> {
    "export for `"@ + metric + "` completed"@
}

pub open spec fn failed_line(metric: Seq<char>, reason: Seq<char>) -> Seq<char> {
    "export for `"@ + metric + "` failed: "@ + reason
}

pub open spec fn entry_line(e: MetricEntry) -> Seq<char> {
    match e.failure {
        Some(reason) => failed_line(e.metric@, reason@),
        None => completed_line(e.metric@),
    }
}

/// The description of a metric's failure in the run's log.
pub open spec fn error_description(e: MetricError) -> Seq<char> {
    match e {
        MetricError::Query(_) => "the lower time bound is out of range"@,
        MetricError::Execution(m) => "the query failed: "@ + m@,
        MetricError::Decode { .. } => "a row could not be decoded"@,
        MetricError::Write(m) => "the file could not be written: "@ + m@,
    }
}

/// Whether `entries` account, one for one and in order, for the metrics
/// `names` and their outcomes: a completion for each success and the
/// description of the error for each failure.
pub open spec fn accounts_for(
    entries: Seq<MetricEntry>,
    names: Seq<Seq<char>>,
    outcomes: Seq<Result<(), MetricError>>,
) -> bool {
    &&& entries.len() == names.len()
    &&& entries.len() == outcomes.len()
    &&& forall|i: int|
        0 <= i < entries.len() ==> {
            &&& (#[trigger] entries[i]).metric@ == names[i]
            &&& match outcomes[i] {
                Ok(()) => entries[i].failure is None,
                Err(e) => entries[i].failure matches Some(reason) && reason@ == error_description(
                    e,
                ),
            }
        }
}

pub open spec fn outcome_names(outcomes: Seq<(String, Result<(), MetricError>)>) -> Seq<Seq<char>> {
    outcomes.map_values(|o: (String, Result<(), MetricError>)| o.0@)
}

pub open spec fn outcome_results(outcomes: Seq<(String, Result<(), MetricError>)>) -> Seq<
    Result<(), MetricError>,
> {
    outcomes.map_values(|o: (String, Result<(), MetricError>)| o.1)
}

impl MetricError {
    /// A short description of the failure for the run's log.
    pub fn describe(&self) -> (r: String)
        ensures
            r@ == error_description(*self),
    {
        match self {
            MetricError::Query(_) => String::from_str("the lower time bound is out of range"),
            MetricError::Execution(m) => {
                let mut r = String::from_str("the query failed: ");
                r.append(m.as_str());
                r
            },
            MetricError::Decode { .. } => String::from_str("a row could not be decoded"),
            MetricError::Write(m) => {
                let mut r = String::from_str("the file could not be written: ");
                r.append(m.as_str());
                r
            },
        }
    }
}

impl MetricEntry {
    /// The status line of this entry.
    pub fn status_line(&self) -> (r: String)
        ensures
            r@ == entry_line(*self),
    {
        let mut r = String::from_str("export for `");
        r.append(self.metric.as_str());
        match &self.failure {
            Some(reason) => {
                r.append("` failed: ");
                r.append(reason.as_str());
            },
            None => {
                r.append("` completed");
            },
        }
        r
    }
}

impl ExtractionRun {
    /// A run in which no metric has been attempted yet.
    pub fn new() -> (r: ExtractionRun)
        ensures
            r.entries@.len() == 0,
    {
        ExtractionRun { entries: Vec::new() }
    }

    /// Records the outcome of one metric and returns its status line. A
    /// failure is recorded and the run goes on.
    pub fn record(&mut self, metric: &str, outcome: &Result<(), MetricError>) -> (line: String)
        ensures
            final(self).entries@.len() == old(self).entries@.len() + 1,
            final(self).entries@.drop_last() == old(self).entries@,
            final(self).entries@.last().metric@ == metric@,
            match outcome {
                Ok(()) => final(self).entries@.last().failure is None,
                Err(e) => final(self).entries@.last().failure matches Some(reason) && reason@
                    == error_description(*e),
            },
            line@ == entry_line(final(self).entries@.last()),
    {
        let failure = match outcome {
            Ok(()) => None,
            Err(e) => Some(e.describe()),
        };
        let entry = MetricEntry { metric: String::from_str(metric), failure };
        let line = entry.status_line();
        self.entries.push(entry);
        proof {
            assert(self.entries@.drop_last() =~= old(self).entries@);
        }
        line
    }

    /// The run that records `outcomes`, each a metric's name and what became
    /// of its export, in the order given.
    pub fn from_outcomes(outcomes: &Vec<(String, Result<(), MetricError>)>) -> (r: ExtractionRun)
        ensures
            accounts_for(r.entries@, outcome_names(outcomes@), outcome_results(outcomes@)),
    {
        let mut run = ExtractionRun::new();
        let mut i: usize = 0;
        while i < outcomes.len()
            invariant
                i <= outcomes@.len(),
                accounts_for(
                    run.entries@,
                    outcome_names(outcomes@.subrange(0, i as int)),
                    outcome_results(outcomes@.subrange(0, i as int)),
                ),
            decreases outcomes@.len() - i,
        {
            let ghost before = run;
            let (name, outcome) = &outcomes[i];
            run.record(name.as_str(), outcome);
            proof {
                record_keeps_account(
                    before,
                    run,
                    outcome_names(outcomes@.subrange(0, i as int)),
                    outcome_results(outcomes@.subrange(0, i as int)),
                    name@,
                    *outcome,
                );
                assert(outcome_names(outcomes@.subrange(0, i as int + 1)) =~= outcome_names(
                    outcomes@.subrange(0, i as int),
                ).push(name@));
                assert(outcome_results(outcomes@.subrange(0, i as int + 1)) =~= outcome_results(
                    outcomes@.subrange(0, i as int),
                ).push(*outcome));
            }
            i = i + 1;
        }
        proof {
            assert(outcomes@.subrange(0, outcomes@.len() as int) =~= outcomes@);
        }
        run
    }

    /// The names of the metrics that failed, in the order attempted.
    pub fn failed_metrics(&self) -> (r: Vec<String>)
        ensures
            r@.map_values(|s: String| s@) == failed_names(self.entries@),
    {
        let mut r: Vec<String> = Vec::new();
        let mut i: usize = 0;
        while i < self.entries.len()
            invariant
                i <= self.entries@.len(),
                r@.map_values(|s: String| s@) == failed_names(self.entries@.subrange(0, i as int)),
            decreases self.entries@.len() - i,
        {
            let ghost prev = r@.map_values(|s: String| s@);
            proof {
                let sub = self.entries@.subrange(0, i as int + 1);
                assert(sub.drop_last() =~= self.entries@.subrange(0, i as int));
            }
            if self.entries[i].failure.is_some() {
                r.push(self.entries[i].metric.clone());
                proof {
                    assert(r@.map_values(|s: String| s@) =~= prev.push(self.entries@[i as int].metric@));
                }
            }
            i = i + 1;
        }
        proof {
            assert(self.entries@.subrange(0, self.entries@.len() as int) =~= self.entries@);
        }
        r
    }

    /// How the run ended: aborted by `fatal` where there is one, else
    /// finished, whatever number of metrics failed.
    pub fn finish(&self, fatal: Option<String>) -> (r: RunStatus)
        ensures
            match fatal {
                Some(reason) => r matches RunStatus::Aborted(m) && m@ == reason@,
                None => r matches RunStatus::Finished { failed } && failed == failed_names(
                    self.entries@,
                ).len(),
            },
    {
        match fatal {
            Some(reason) => RunStatus::Aborted(reason),
            None => {
                let failed = self.failed_metrics();
                RunStatus::Finished { failed: failed.len() }
            },
        }
    }
}

/// Recording one more outcome keeps the run's account of its metrics.
pub proof fn record_keeps_account(
    before: ExtractionRun,
    after: ExtractionRun,
    names: Seq<Seq<char>>,
    outcomes: Seq<Result<(), MetricError>>,
    metric: Seq<char>,
    outcome: Result<(), MetricError>,
)
    requires
        accounts_for(before.entries@, names, outcomes),
        after.entries@.len() == before.entries@.len() + 1,
        after.entries@.drop_last() == before.entries@,
        after.entries@.last().metric@ == metric,
        match outcome {
            Ok(()) => after.entries@.last().failure is None,
            Err(e) => after.entries@.last().failure matches Some(reason) && reason@
                == error_description(e),
        },
    ensures
        accounts_for(after.entries@, names.push(metric), outcomes.push(outcome)),
{
    let n = before.entries@.len() as int;
    assert forall|i: int| 0 <= i < after.entries@.len() implies {
        &&& (#[trigger] after.entries@[i]).metric@ == names.push(metric)[i]
        &&& match outcomes.push(outcome)[i] {
            Ok(()) => after.entries@[i].failure is None,
            Err(e) => after.entries@[i].failure matches Some(reason) && reason@ == error_description(
                e,
            ),
        }
    } by {
        if i < n {
            assert(after.entries@[i] == after.entries@.drop_last()[i]);
        }
    }
}

} // verus!
