//! Service discovery: ask until at least one handle is there.
//!
//! A query that finds nothing is no error and is repeated after a fixed
//! pause, without limit. A query that fails is fatal.

use vstd::prelude::*;

verus! {

/// The pause between two discovery attempts, in milliseconds.
pub const RETRY_INTERVAL_MS: u64 = 10;

/// What one discovery query came back with.
#[derive(Clone, Copy, PartialEq, Eq, Structural, Debug)]
pub enum QueryOutcome {
    /// The query itself failed.
    Failed,
    /// The query returned this many handles, in the middleware's order.
    Handles(usize),
}

/// What follows from one discovery query.
#[derive(Clone, Copy, PartialEq, Eq, Structural, Debug)]
pub enum Verdict {
    /// Give up: the query failed.
    Abort,
    /// Nothing found yet: print the notice, pause, ask again.
    Retry { pause_ms: u64 },
    /// Go on with the handle at position `chosen` of the `found` handles.
    Proceed { chosen: usize, found: usize },
}

/// The rule for one query: the first handle of a non-empty answer is
/// taken, an empty answer is retried, a failure ends the run.
pub open spec fn spec_judge(outcome: QueryOutcome) -> Verdict {
    match outcome {
        QueryOutcome::Failed => Verdict::Abort,
        QueryOutcome::Handles(found) => if found == 0 {
            Verdict::Retry { pause_ms: RETRY_INTERVAL_MS }
        } else {
            Verdict::Proceed { chosen: 0, found }
        },
    }
}

/// Decides what follows from one discovery query.
pub fn judge(outcome: QueryOutcome) -> (verdict: Verdict)
    ensures
        verdict == spec_judge(outcome),
{
    match outcome {
        QueryOutcome::Failed => Verdict::Abort,
        QueryOutcome::Handles(found) => {
            if found == 0 {
                Verdict::Retry { pause_ms: RETRY_INTERVAL_MS }
            } else {
                Verdict::Proceed { chosen: 0, found }
            }
        },
    }
}

/// What [`discover`] promises of its result for the given answers.
pub open spec fn describes(answers: Seq<QueryOutcome>, run: Discovery) -> bool {
    &&& run.retries <= answers.len()
    &&& forall|j: int| 0 <= j < run.retries ==> answers[j] == QueryOutcome::Handles(0)
    &&& run.retries < answers.len() ==> answers[run.retries as int] != QueryOutcome::Handles(0)
        && run.end == Some(spec_judge(answers[run.retries as int]))
    &&& run.retries == answers.len() ==> run.end is None
}

/// How a discovery went against a given series of answers.
#[derive(Clone, Copy, PartialEq, Eq, Structural, Debug)]
pub struct Discovery {
    /// The number of attempts that found nothing and were retried.
    pub retries: usize,
    /// How it ended, or `None` where every answer in the series was
    /// empty and discovery would go on asking.
    pub end: Option<Verdict>,
}

/// Runs discovery against the answers that successive queries give.
/// Every empty answer before the first non-empty or failed one costs a
/// retry; that first other answer decides, and later ones are never asked
/// for.
pub fn discover(answers: &Vec<QueryOutcome>) -> (run: Discovery)
    ensures
        describes(answers@, run),
        run.end matches Some(verdict) ==> !(verdict is Retry),
        run.end matches Some(Verdict::Proceed { chosen, found }) ==> chosen < found,
{
    let mut retries: usize = 0;
    while retries < answers.len()
        invariant
            retries <= answers@.len(),
            forall|j: int| 0 <= j < retries ==> answers@[j] == QueryOutcome::Handles(0),
        decreases answers@.len() - retries,
    {
        let verdict = judge(answers[retries]);
        match verdict {
            Verdict::Retry { pause_ms: _ } => {
                retries = retries + 1;
            },
            _ => {
                return Discovery { retries, end: Some(verdict) };
            },
        }
    }
    Discovery { retries, end: None }
}

/// Discovery never hands an empty result on: whenever the rule says to
/// proceed, the answer held at least one handle, and the one taken is the
/// first. An empty answer is always retried after the fixed pause.
pub proof fn proceeds_only_with_a_handle(outcome: QueryOutcome)
    ensures
        spec_judge(outcome) is Proceed <==> (outcome matches QueryOutcome::Handles(n) && n > 0),
        spec_judge(outcome) matches Verdict::Proceed { chosen, found } ==> chosen == 0 && found > 0
            && outcome == QueryOutcome::Handles(found),
        outcome == QueryOutcome::Handles(0) <==> spec_judge(outcome) == (Verdict::Retry {
            pause_ms: RETRY_INTERVAL_MS,
        }),
        outcome is Failed <==> spec_judge(outcome) is Abort,
{
}

/// Against answers that are empty `k` times and then hold `n > 0`
/// handles, discovery retries exactly `k` times and then proceeds with
/// the first of the `n`, whatever answers would have followed.
pub proof fn succeeds_at_first_handle(answers: Seq<QueryOutcome>, k: nat, n: usize, run: Discovery)
    requires
        k < answers.len(),
        n > 0,
        forall|j: int| 0 <= j < k ==> answers[j] == QueryOutcome::Handles(0),
        answers[k as int] == QueryOutcome::Handles(n),
        describes(answers, run),
    ensures
        run.retries == k,
        run.end == Some(Verdict::Proceed { chosen: 0, found: n }),
{
    if run.retries < k {
        assert(answers[run.retries as int] == QueryOutcome::Handles(0));
    } else if run.retries > k {
        assert(answers[k as int] == QueryOutcome::Handles(0));
    }
}

/// The choice among the handles does not depend on how many there are:
/// two non-empty answers lead to the same position, the first.
pub proof fn choice_is_the_first(n: usize, m: usize)
    requires
        n > 0,
        m > 0,
    ensures
        spec_judge(QueryOutcome::Handles(n))->chosen == spec_judge(QueryOutcome::Handles(m))->chosen,
        spec_judge(QueryOutcome::Handles(n))->chosen == 0,
{
}

/// The same answers give the same run: the contract of [`discover`]
/// leaves nothing open.
pub proof fn discovery_is_determined(answers: Seq<QueryOutcome>, a: Discovery, b: Discovery)
    requires
        describes(answers, a),
        describes(answers, b),
    ensures
        a == b,
{
    if a.retries < b.retries {
        assert(answers[a.retries as int] == QueryOutcome::Handles(0));
    } else if b.retries < a.retries {
        assert(answers[b.retries as int] == QueryOutcome::Handles(0));
    }
}

} // verus!
