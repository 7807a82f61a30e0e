//! Consumption of samples, bounded by a count or unbounded.
//!
//! The consumer never pulls by itself. It says whether another sample is
//! wanted; the driver pulls one from the stream and reports either the
//! sample or the end of the stream.

use crate::lines::{notice_text, sample_line, spec_sample_line, Notice};
use crate::payload::{shown_text, MapApiLanesStamped};
use vstd::prelude::*;

verus! {

/// How many samples a consumer takes before it stops by itself.
#[derive(Clone, Copy, PartialEq, Eq, Structural, Debug)]
pub enum ConsumptionPolicy {
    /// Take samples until the stream ends.
    Unbounded,
    /// Take at most this many samples; the number is never zero.
    Bounded(usize),
}

impl ConsumptionPolicy {
    /// A count of zero means no limit.
    pub open spec fn spec_from_count(count: usize) -> Self {
        if count == 0 {
            ConsumptionPolicy::Unbounded
        } else {
            ConsumptionPolicy::Bounded(count)
        }
    }

    /// Whether one more sample may be taken after `consumed` of them.
    pub open spec fn admits(self, consumed: nat) -> bool {
        match self {
            ConsumptionPolicy::Unbounded => true,
            ConsumptionPolicy::Bounded(limit) => consumed < limit,
        }
    }

    /// The policy for a configured cycle count.
    pub fn from_count(count: usize) -> (policy: Self)
        ensures
            policy == Self::spec_from_count(count),
    {
        if count == 0 {
            ConsumptionPolicy::Unbounded
        } else {
            ConsumptionPolicy::Bounded(count)
        }
    }
}

/// The mathematical state of a consumer.
pub struct ConsumerModel {
    pub policy: ConsumptionPolicy,
    /// Samples taken so far; also the index of the next sample.
    pub consumed: nat,
    /// Whether the stream has reported its end.
    pub ended: bool,
}

impl ConsumerModel {
    /// The state before the first pull.
    pub open spec fn start(count: usize) -> Self {
        ConsumerModel {
            policy: ConsumptionPolicy::spec_from_count(count),
            consumed: 0,
            ended: false,
        }
    }

    /// A bounded policy has a positive limit that is never exceeded.
    pub open spec fn wf(self) -> bool {
        match self.policy {
            ConsumptionPolicy::Unbounded => true,
            ConsumptionPolicy::Bounded(limit) => 0 < limit && self.consumed <= limit,
        }
    }

    /// Whether the driver has to pull another sample.
    pub open spec fn wants_pull(self) -> bool {
        !self.ended && self.policy.admits(self.consumed)
    }

    /// The state after one sample was delivered.
    pub open spec fn after_sample(self) -> Self {
        ConsumerModel { consumed: self.consumed + 1, ..self }
    }

    /// The state after `n` samples were delivered.
    pub open spec fn after_samples(self, n: nat) -> Self
        decreases n,
    {
        if n == 0 {
            self
        } else {
            self.after_samples((n - 1) as nat).after_sample()
        }
    }

    /// The state after the stream reported its end.
    pub open spec fn after_end(self) -> Self {
        ConsumerModel { ended: true, ..self }
    }

    /// How many samples are taken from a stream that delivers `available`
    /// samples and then ends.
    pub open spec fn yields(self, available: nat) -> nat
        decreases available,
    {
        if available > 0 && self.wants_pull() {
            1 + self.after_sample().yields((available - 1) as nat)
        } else {
            0
        }
    }
}

/// The running state of one consumption: the policy, the running index
/// and whether the stream has ended.
pub struct Consumer {
    policy: ConsumptionPolicy,
    consumed: usize,
    ended: bool,
}

impl View for Consumer {
    type V = ConsumerModel;

    closed spec fn view(&self) -> ConsumerModel {
        ConsumerModel { policy: self.policy, consumed: self.consumed as nat, ended: self.ended }
    }
}

impl Consumer {
    /// A consumer for the configured cycle count, zero meaning no limit.
    pub fn new(count: usize) -> (consumer: Self)
        ensures
            consumer@ == ConsumerModel::start(count),
            consumer@.wf(),
            consumer@.wants_pull(),
    {
        Consumer { policy: ConsumptionPolicy::from_count(count), consumed: 0, ended: false }
    }

    /// The number of samples taken so far, which is the index that the
    /// next sample gets.
    pub fn consumed(&self) -> (n: usize)
        ensures
            n == self@.consumed,
    {
        self.consumed
    }

    /// Whether another sample has to be pulled. Once this is false the
    /// driver prints the unsubscribing notice and is done.
    pub fn wants_pull(&self) -> (wanted: bool)
        ensures
            wanted == self@.wants_pull(),
    {
        if self.ended {
            false
        } else {
            match self.policy {
                ConsumptionPolicy::Unbounded => true,
                ConsumptionPolicy::Bounded(limit) => self.consumed < limit,
            }
        }
    }

    /// Takes one delivered sample and returns the line to print for it.
    /// The index advances by one whether or not the payload is text.
    ///
    /// To be called only for a sample that was pulled because
    /// [`Consumer::wants_pull`] said so, and while the index still fits
    /// the machine word.
    pub fn on_sample(&mut self, payload: &MapApiLanesStamped) -> (line: String)
        requires
            old(self)@.wants_pull(),
            old(self)@.consumed < usize::MAX,
        ensures
            final(self)@ == old(self)@.after_sample(),
            line@ == spec_sample_line(old(self)@.consumed, shown_text(payload@)),
    {
        let line = sample_line(self.consumed, payload.display_text());
        self.consumed = self.consumed + 1;
        line
    }

    /// Records that the stream has no more samples.
    pub fn on_end(&mut self)
        ensures
            final(self)@ == old(self)@.after_end(),
            !final(self)@.wants_pull(),
    {
        self.ended = true;
    }
}

/// Runs a whole consumption over a stream that delivers `samples` in
/// order and then ends, and returns everything that is printed, in order:
/// one line for each sample taken, then the unsubscribing notice. Line
/// `i` carries index `i` and the text of sample `i`; samples beyond the
/// count are never pulled.
pub fn consume_all(samples: &Vec<MapApiLanesStamped>, count: usize) -> (printed: Vec<String>)
    ensures
        printed@.len() == ConsumerModel::start(count).yields(samples@.len()) + 1,
        count > 0 ==> printed@.len() == vstd::math::min(count as int, samples@.len() as int) + 1,
        count == 0 ==> printed@.len() == samples@.len() + 1,
        forall|i: int|
            0 <= i < printed@.len() - 1 ==> (#[trigger] printed@[i])@ == spec_sample_line(
                i as nat,
                shown_text(samples@[i]@),
            ),
        printed@[printed@.len() - 1]@ == notice_text(Notice::Unsubscribing),
{
    let mut consumer = Consumer::new(count);
    let mut printed: Vec<String> = Vec::new();
    let mut i: usize = 0;
    while i < samples.len() && consumer.wants_pull()
        invariant
            i <= samples@.len(),
            printed@.len() == i,
            consumer@.policy == ConsumptionPolicy::spec_from_count(count),
            consumer@.consumed == i,
            !consumer@.ended,
            i + consumer@.yields((samples@.len() - i) as nat) == ConsumerModel::start(count).yields(
                samples@.len(),
            ),
            forall|j: int|
                0 <= j < printed@.len() ==> (#[trigger] printed@[j])@ == spec_sample_line(
                    j as nat,
                    shown_text(samples@[j]@),
                ),
        decreases samples@.len() - i,
    {
        let line = consumer.on_sample(&samples[i]);
        printed.push(line);
        i = i + 1;
    }
    if consumer.wants_pull() {
        consumer.on_end();
    }
    printed.push(String::from_str(Notice::Unsubscribing.text()));
    proof {
        if count > 0 {
            yield_of_bounded(count, samples@.len());
        } else {
            yield_of_unbounded(samples@.len());
        }
    }
    printed
}

proof fn bounded_yield_from(state: ConsumerModel, available: nat)
    requires
        state.policy is Bounded,
        state.wf(),
        !state.ended,
    ensures
        state.yields(available) == vstd::math::min(
            state.policy->Bounded_0 - state.consumed,
            available as int,
        ),
    decreases available,
{
    if available > 0 && state.wants_pull() {
        bounded_yield_from(state.after_sample(), (available - 1) as nat);
    }
}

proof fn unbounded_yield_from(state: ConsumerModel, available: nat)
    requires
        state.policy is Unbounded,
        !state.ended,
    ensures
        state.yields(available) == available,
    decreases available,
{
    if available > 0 {
        unbounded_yield_from(state.after_sample(), (available - 1) as nat);
    }
}

/// With a positive count, exactly the smaller of the count and the
/// number of samples delivered before the end is taken.
pub proof fn yield_of_bounded(count: usize, available: nat)
    requires
        count > 0,
    ensures
        ConsumerModel::start(count).yields(available) == vstd::math::min(
            count as int,
            available as int,
        ),
{
    bounded_yield_from(ConsumerModel::start(count), available);
}

/// With a count of zero every sample delivered before the end is taken.
pub proof fn yield_of_unbounded(available: nat)
    ensures
        ConsumerModel::start(0).yields(available) == available,
{
    unbounded_yield_from(ConsumerModel::start(0), available);
}

/// The index of a sample is the number of samples taken before it: after
/// `n` deliveries the next index is `n`, whatever the count.
pub proof fn indices_have_no_gaps(count: usize, n: nat)
    ensures
        ConsumerModel::start(count).after_samples(n).consumed == n,
        ConsumerModel::start(count).after_samples(n).policy == ConsumerModel::start(count).policy,
        !ConsumerModel::start(count).after_samples(n).ended,
    decreases n,
{
    if n > 0 {
        indices_have_no_gaps(count, (n - 1) as nat);
    }
}

/// With a count of zero the consumer wants another sample after any
/// number of deliveries, and stops wanting one only when the stream
/// reports its end.
pub proof fn unbounded_stops_only_at_end(n: nat)
    ensures
        ConsumerModel::start(0).after_samples(n).wants_pull(),
        !ConsumerModel::start(0).after_samples(n).after_end().wants_pull(),
{
    indices_have_no_gaps(0, n);
}

/// With a positive count the consumer wants another sample exactly while
/// fewer than `count` were delivered.
pub proof fn bounded_stops_at_count(count: usize, n: nat)
    requires
        count > 0,
    ensures
        ConsumerModel::start(count).after_samples(n).wants_pull() <==> n < count,
{
    indices_have_no_gaps(count, n);
}

/// Well-formedness is kept by every delivery that was asked for, and by
/// the end of the stream.
pub proof fn steps_keep_wf(state: ConsumerModel)
    requires
        state.wf(),
    ensures
        state.wants_pull() ==> state.after_sample().wf(),
        state.after_end().wf(),
{
}

} // verus!
