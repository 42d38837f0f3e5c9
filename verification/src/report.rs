use vstd::prelude::*;
use vstd::string::StringExecFns;
use crate::execute::{TaskResult, TaskResultV};

verus! {

/// One decimal digit as a character.
pub open spec fn spec_digit(d: nat) -> char {
    if d == 0 {
        '0'
    } else if d == 1 {
        '1'
    } else if d == 2 {
        '2'
    } else if d == 3 {
        '3'
    } else if d == 4 {
        '4'
    } else if d == 5 {
        '5'
    } else if d == 6 {
        '6'
    } else if d == 7 {
        '7'
    } else if d == 8 {
        '8'
    } else {
        '9'
    }
}

/// The decimal numeral for a number, most significant digit first, with no
/// leading zero except for the number zero itself.
pub open spec fn spec_decimal(n: nat) -> Seq<char>
    decreases n,
{
    if n < 10 {
        seq![spec_digit(n)]
    } else {
        spec_decimal(n / 10) + seq![spec_digit(n % 10)]
    }
}

fn digit_string(d: u64) -> (s: String)
    requires
        d < 10,
    ensures
        s@ == seq![spec_digit(d as nat)],
{
    let lit: &str = if d == 0 {
        "0"
    } else if d == 1 {
        "1"
    } else if d == 2 {
        "2"
    } else if d == 3 {
        "3"
    } else if d == 4 {
        "4"
    } else if d == 5 {
        "5"
    } else if d == 6 {
        "6"
    } else if d == 7 {
        "7"
    } else if d == 8 {
        "8"
    } else {
        "9"
    };
    proof {
        reveal_strlit("0");
        reveal_strlit("1");
        reveal_strlit("2");
        reveal_strlit("3");
        reveal_strlit("4");
        reveal_strlit("5");
        reveal_strlit("6");
        reveal_strlit("7");
        reveal_strlit("8");
        reveal_strlit("9");
        assert(lit@ =~= seq![spec_digit(d as nat)]);
    }
    lit.to_owned()
}

/// Writes a count as its decimal numeral.
pub fn format_u64(n: u64) -> (s: String)
    ensures
        s@ == spec_decimal(n as nat),
    decreases n,
{
    if n < 10 {
        digit_string(n)
    } else {
        let high = format_u64(n / 10);
        let low = digit_string(n % 10);
        let r = high.concat(low.as_str());
        proof {
            assert(r@ =~= spec_decimal(n as nat));
        }
        r
    }
}

/// Whether one task's result is a failure.
pub open spec fn spec_is_failure(r: TaskResultV) -> bool {
    r is Failure
}

/// How many of the ordered results are failures.
pub open spec fn spec_failure_count(results: Seq<TaskResultV>) -> nat
    decreases results.len(),
{
    if results.len() == 0 {
        0
    } else {
        spec_failure_count(results.drop_last()) + if spec_is_failure(results.last()) {
            1nat
        } else {
            0nat
        }
    }
}

/// The summary error message of a failed run: it states exactly how many
/// updates failed.
pub open spec fn spec_summary_message(failure_count: nat) -> Seq<char> {
    spec_decimal(failure_count) + " update(s) have failed"@
}

/// The whole run folded to one outcome: success when no task failed,
/// otherwise the failure count together with the summary message
/// stating it.
#[derive(Debug, PartialEq)]
pub enum RunOutcome {
    Success,
    Failure { failure_count: u64, message: String },
}

/// Spec-level image of a [`RunOutcome`].
pub enum RunOutcomeV {
    Success,
    Failure { failure_count: nat, message: Seq<char> },
}

impl View for RunOutcome {
    type V = RunOutcomeV;

    open spec fn view(&self) -> RunOutcomeV {
        match self {
            RunOutcome::Success => RunOutcomeV::Success,
            RunOutcome::Failure { failure_count, message } => RunOutcomeV::Failure {
                failure_count: *failure_count as nat,
                message: message@,
            },
        }
    }
}

/// The outcome owed for a given failure count: success exactly when the
/// count is zero, otherwise a failure stating the count.
pub open spec fn spec_outcome_of_count(failure_count: nat) -> RunOutcomeV {
    if failure_count == 0 {
        RunOutcomeV::Success
    } else {
        RunOutcomeV::Failure {
            failure_count,
            message: spec_summary_message(failure_count),
        }
    }
}

/// The outcome owed for a sequence of task results.
pub open spec fn spec_run_outcome(results: Seq<TaskResultV>) -> RunOutcomeV {
    spec_outcome_of_count(spec_failure_count(results))
}

/// One reporting step: the count grows by one exactly on a failed task.
/// The notifier's answer for the mirrored message is taken alongside and
/// has, by definition, no bearing on the count: notification is
/// best-effort.
pub open spec fn spec_observe(failures: nat, result: TaskResultV, notify_failed: bool) -> nat {
    failures + if spec_is_failure(result) {
        1nat
    } else {
        0nat
    }
}

/// The count after reporting a whole sequence of results, with the
/// notifier's answer recorded for each in turn.
pub open spec fn spec_observe_all(
    failures: nat,
    results: Seq<TaskResultV>,
    notify: Seq<bool>,
) -> nat
    decreases results.len(),
{
    if results.len() == 0 {
        failures
    } else {
        spec_observe_all(
            spec_observe(
                failures,
                results[0],
                if notify.len() > 0 {
                    notify[0]
                } else {
                    false
                },
            ),
            results.drop_first(),
            notify.drop_first(),
        )
    }
}

/// Folds task results one at a time, in execution order, as the run
/// reports them.
#[derive(Debug)]
pub struct Reporter {
    pub failures: u64,
}

impl Reporter {
    /// A reporter that has seen no result yet.
    pub fn new() -> (r: Reporter)
        ensures
            r.failures == 0,
    {
        Reporter { failures: 0 }
    }

    /// Takes one task's result together with the notifier's answer for the
    /// mirrored message; only the result moves the count.
    pub fn observe(&mut self, result: &TaskResult, notify_failed: bool)
        requires
            old(self).failures < u64::MAX,
        ensures
            final(self).failures as nat == spec_observe(
                old(self).failures as nat,
                result@,
                notify_failed,
            ),
    {
        match result {
            TaskResult::Failure { .. } => {
                self.failures = self.failures + 1;
            },
            TaskResult::Success { .. } => {},
        }
    }

    /// The outcome after every result was reported: success exactly when
    /// no task failed, otherwise the count and the summary message
    /// stating it.
    pub fn outcome(&self) -> (r: RunOutcome)
        ensures
            r@ == spec_outcome_of_count(self.failures as nat),
    {
        if self.failures == 0 {
            RunOutcome::Success
        } else {
            let message = format_u64(self.failures).concat(" update(s) have failed");
            RunOutcome::Failure { failure_count: self.failures, message }
        }
    }
}

/// Folds an ordered sequence of task results into the run outcome in one
/// call: the failure count is the number of failed tasks, the run succeeds
/// exactly when it is zero, and otherwise the summary message states
/// the count.
pub fn aggregate(results: &Vec<TaskResult>) -> (r: RunOutcome)
    ensures
        r@ == spec_run_outcome(results.deep_view()),
{
    let ghost all = results.deep_view();
    let mut reporter = Reporter::new();
    let mut i: usize = 0;
    proof {
        assert(all.take(0) =~= Seq::<TaskResultV>::empty());
    }
    while i < results.len()
        invariant
            i <= results.len(),
            all == results.deep_view(),
            all.len() == results.len(),
            reporter.failures <= i,
            reporter.failures as nat == spec_failure_count(all.take(i as int)),
        decreases results.len() - i,
    {
        proof {
            assert(all.take(i as int + 1).drop_last() =~= all.take(i as int));
            assert(all.take(i as int + 1).last() == all[i as int]);
        }
        reporter.observe(&results[i], false);
        i += 1;
    }
    proof {
        assert(all.take(results.len() as int) =~= all);
    }
    reporter.outcome()
}

proof fn lemma_failure_count_split(results: Seq<TaskResultV>)
    requires
        results.len() > 0,
    ensures
        spec_failure_count(results) == spec_failure_count(results.drop_first()) + (
        if spec_is_failure(results[0]) {
            1nat
        } else {
            0nat
        }),
    decreases results.len(),
{
    if results.len() == 1 {
        assert(results.drop_first() =~= Seq::<TaskResultV>::empty());
        assert(results.drop_last() =~= Seq::<TaskResultV>::empty());
        assert(results.last() == results[0]);
    } else {
        lemma_failure_count_split(results.drop_last());
        assert(results.drop_last()[0] == results[0]);
        assert(results.drop_last().drop_first() =~= results.drop_first().drop_last());
        assert(results.drop_first().last() == results.last());
        assert(results.drop_first().len() > 0);
        assert(spec_failure_count(results.drop_first()) == spec_failure_count(
            results.drop_first().drop_last(),
        ) + (
        if spec_is_failure(results.drop_first().last()) {
            1nat
        } else {
            0nat
        }));
        assert(spec_failure_count(results) == spec_failure_count(results.drop_last()) + (
        if spec_is_failure(results.last()) {
            1nat
        } else {
            0nat
        }));
        assert(spec_failure_count(results.drop_last()) == spec_failure_count(
            results.drop_first().drop_last(),
        ) + (
        if spec_is_failure(results[0]) {
            1nat
        } else {
            0nat
        }));
    }
}

proof fn lemma_observe_all_counts(failures: nat, results: Seq<TaskResultV>, notify: Seq<bool>)
    ensures
        spec_observe_all(failures, results, notify) == failures + spec_failure_count(results),
    decreases results.len(),
{
    if results.len() > 0 {
        let first_notify = if notify.len() > 0 {
            notify[0]
        } else {
            false
        };
        lemma_observe_all_counts(
            spec_observe(failures, results[0], first_notify),
            results.drop_first(),
            notify.drop_first(),
        );
        lemma_failure_count_split(results);
    }
}

/// Notifier isolation: reporting the same results under any two notifier
/// behaviours — every send failing, none, or any mix — leaves the same
/// count, namely the number of failed tasks, and therefore the same run
/// outcome. A failing notifier send never changes either.
pub proof fn lemma_notifier_isolation(
    results: Seq<TaskResultV>,
    notify_a: Seq<bool>,
    notify_b: Seq<bool>,
)
    ensures
        spec_observe_all(0, results, notify_a) == spec_failure_count(results),
        spec_observe_all(0, results, notify_a) == spec_observe_all(0, results, notify_b),
        spec_outcome_of_count(spec_observe_all(0, results, notify_a)) == spec_run_outcome(results),
{
    lemma_observe_all_counts(0, results, notify_a);
    lemma_observe_all_counts(0, results, notify_b);
}

/// Partial failure aggregation: when any task failed, the run outcome is a
/// failure whose count is exactly the number of failed tasks and whose
/// summary message states that count.
pub proof fn lemma_partial_failure_aggregation(results: Seq<TaskResultV>)
    requires
        spec_failure_count(results) > 0,
    ensures
        spec_run_outcome(results) == (RunOutcomeV::Failure {
            failure_count: spec_failure_count(results),
            message: spec_summary_message(spec_failure_count(results)),
        }),
{
}

/// Empty plan is success: with no planned task there is no task result,
/// and the run outcome is success.
pub proof fn lemma_empty_plan_is_success()
    ensures
        spec_run_outcome(Seq::<TaskResultV>::empty()) == RunOutcomeV::Success,
{
}

} // verus!
