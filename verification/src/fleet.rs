use crate::error::PipelineError;
use crate::error::PipelineFailure;
use vstd::prelude::*;

verus! {

/// How the pipeline of one year ended.
#[derive(Debug, PartialEq, Eq)]
pub struct YearOutcome {
    pub year: u16,
    pub result: Result<(), PipelineError>,
}

/// A year whose pipeline failed, and why.
#[derive(Debug, PartialEq, Eq)]
pub struct YearFailure {
    pub year: u16,
    pub cause: PipelineError,
}

/// The years that failed, after every year has been processed.
#[derive(Debug, PartialEq, Eq)]
pub struct AggregateError {
    pub failures: Vec<YearFailure>,
}

impl View for YearOutcome {
    type V = (u16, Option<PipelineFailure>);

    /// The year, and the failure if there was one.
    open spec fn view(&self) -> (u16, Option<PipelineFailure>) {
        match self.result {
            Ok(_) => (self.year, None),
            Err(cause) => (self.year, Some(cause@)),
        }
    }
}

impl View for YearFailure {
    type V = (u16, PipelineFailure);

    open spec fn view(&self) -> (u16, PipelineFailure) {
        (self.year, self.cause@)
    }
}

/// The views of a list of outcomes.
pub open spec fn outcome_views(outcomes: Seq<YearOutcome>) -> Seq<(u16, Option<PipelineFailure>)> {
    outcomes.map_values(|o: YearOutcome| o@)
}

/// The views of a list of failures.
pub open spec fn failure_views(failures: Seq<YearFailure>) -> Seq<(u16, PipelineFailure)> {
    failures.map_values(|f: YearFailure| f@)
}

/// The failure that an outcome holds, with its year.
pub open spec fn failure_of(outcome: (u16, Option<PipelineFailure>)) -> Option<
    (u16, PipelineFailure),
> {
    match outcome.1 {
        Some(cause) => Some((outcome.0, cause)),
        None => None,
    }
}

/// The failures among `outcomes`, in the order of the outcomes.
pub open spec fn failures_of(outcomes: Seq<(u16, Option<PipelineFailure>)>) -> Seq<
    (u16, PipelineFailure),
> {
    outcomes.filter_map(|o: (u16, Option<PipelineFailure>)| failure_of(o))
}

/// Sums up the outcomes of all years: fine when none failed, else every
/// failed year with its cause, in the order given.
pub fn aggregate(outcomes: Vec<YearOutcome>) -> (r: Result<(), AggregateError>)
    ensures
        match r {
            Ok(_) => failures_of(outcome_views(outcomes@)).len() == 0,
            Err(e) => e.failures@.len() > 0 && failure_views(e.failures@) == failures_of(
                outcome_views(outcomes@),
            ),
        },
{
    let ghost all = outcome_views(outcomes@);
    let mut failures: Vec<YearFailure> = Vec::new();
    assert(all.take(0) =~= Seq::empty());
    for outcome in it: outcomes.into_iter()
        invariant
            outcome_views(it.seq()) == all,
            failure_views(failures@) == failures_of(all.take(it.index() as int)),
    {
        let ghost done = it.index() as int;
        assert(all.take(done + 1).drop_last() =~= all.take(done));
        assert(all.take(done + 1).last() == outcome@);
        match outcome.result {
            Ok(_) => {},
            Err(cause) => {
                failures.push(YearFailure { year: outcome.year, cause });
                assert(failure_views(failures@) =~= failures_of(all.take(done))
                    + seq![(outcome.year, cause@)]);
            },
        }
    }
    assert(all.take(all.len() as int) =~= all);
    if failures.len() == 0 {
        Ok(())
    } else {
        Err(AggregateError { failures })
    }
}

/// A year that failed is reported, with its own cause, whatever became of
/// the other years.
pub proof fn law_every_failed_year_is_reported(
    outcomes: Seq<(u16, Option<PipelineFailure>)>,
    i: int,
)
    requires
        0 <= i < outcomes.len(),
        outcomes[i].1 is Some,
    ensures
        failures_of(outcomes).contains((outcomes[i].0, outcomes[i].1->Some_0)),
    decreases outcomes.len(),
{
    let reported = failures_of(outcomes);
    let before = failures_of(outcomes.drop_last());
    if i == outcomes.len() - 1 {
        assert(reported =~= before + seq![(outcomes[i].0, outcomes[i].1->Some_0)]);
        assert(reported[reported.len() - 1] == (outcomes[i].0, outcomes[i].1->Some_0));
    } else {
        law_every_failed_year_is_reported(outcomes.drop_last(), i);
        let at = choose|at: int|
            0 <= at < before.len() && before[at] == (outcomes[i].0, outcomes[i].1->Some_0);
        assert(reported[at] == before[at]);
    }
}

/// Whatever is reported is the failure of one of the years: a year that
/// succeeded is never reported, and no cause is made up.
pub proof fn law_only_failed_years_are_reported(
    outcomes: Seq<(u16, Option<PipelineFailure>)>,
    j: int,
)
    requires
        0 <= j < failures_of(outcomes).len(),
    ensures
        exists|i: int|
            0 <= i < outcomes.len() && #[trigger] outcomes[i] == (
                failures_of(outcomes)[j].0,
                Some(failures_of(outcomes)[j].1),
            ),
    decreases outcomes.len(),
{
    let reported = failures_of(outcomes);
    let before = failures_of(outcomes.drop_last());
    let last = outcomes.len() - 1;
    if outcomes.len() > 0 {
        if outcomes[last].1 is Some && j == reported.len() - 1 {
            assert(reported =~= before + seq![(outcomes[last].0, outcomes[last].1->Some_0)]);
            assert(outcomes[last] == (reported[j].0, Some(reported[j].1)));
        } else {
            assert(reported[j] == before[j]);
            law_only_failed_years_are_reported(outcomes.drop_last(), j);
            let i = choose|i: int|
                0 <= i < outcomes.drop_last().len() && #[trigger] outcomes.drop_last()[i] == (
                    before[j].0,
                    Some(before[j].1),
                );
            assert(outcomes[i] == outcomes.drop_last()[i]);
        }
    }
}

} // verus!
