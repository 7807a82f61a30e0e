//! The ordered sequence of a run: initialise the middleware, resolve the
//! instance name, discover, bind a proxy, subscribe, turn the
//! subscription into a stream, consume.
//!
//! The session performs none of these steps. It hands the driver one
//! command at a time and takes back how the command went. A failed step
//! ends the run; no step is ever repeated but the discovery query.

use crate::discovery::{judge, spec_judge, QueryOutcome, Verdict};
use crate::lines::Notice;
use vstd::prelude::*;

verus! {

/// The queue depth asked for when subscribing: one buffered sample, the
/// newest.
pub const QUEUE_DEPTH: usize = 1;

/// The logical name of the service instance.
pub fn instance_name() -> (name: &'static str)
    ensures
        name@ == "xpad/cp60/MapApiLanesStamped"@,
{
    "xpad/cp60/MapApiLanesStamped"
}

/// The step at which a run was given up.
#[derive(Clone, Copy, PartialEq, Eq, Structural, Debug)]
pub enum Fatal {
    Initialization,
    InstanceSpecifierCreation,
    InstanceSpecifierResolution,
    ProxyCreation,
    Subscription,
    StreamConversion,
}

/// The message that names the failed step.
pub open spec fn fatal_text(fatal: Fatal) -> Seq<char> {
    match fatal {
        Fatal::Initialization => "Middleware initialization failed"@,
        Fatal::InstanceSpecifierCreation => "Instance specifier creation failed"@,
        Fatal::InstanceSpecifierResolution => "Instance specifier resolution failed"@,
        Fatal::ProxyCreation => "Failed to create the proxy"@,
        Fatal::Subscription => "Failed to subscribe"@,
        Fatal::StreamConversion => "Failed to convert to stream"@,
    }
}

impl Fatal {
    /// The message to report before the process ends.
    pub fn message(&self) -> (r: &'static str)
        ensures
            r@ == fatal_text(*self),
    {
        match self {
            Fatal::Initialization => "Middleware initialization failed",
            Fatal::InstanceSpecifierCreation => "Instance specifier creation failed",
            Fatal::InstanceSpecifierResolution => "Instance specifier resolution failed",
            Fatal::ProxyCreation => "Failed to create the proxy",
            Fatal::Subscription => "Failed to subscribe",
            Fatal::StreamConversion => "Failed to convert to stream",
        }
    }
}

/// The step that is under way, or how the run ended.
#[derive(Clone, Copy, PartialEq, Eq, Structural, Debug)]
pub enum Stage {
    Initializing,
    ResolvingName,
    Discovering,
    Binding,
    Subscribing,
    Streamifying,
    Consuming,
    Finished,
    Aborted(Fatal),
}

/// How the command that was under way went.
#[derive(Clone, Copy, PartialEq, Eq, Structural, Debug)]
pub enum Event {
    /// The step succeeded.
    Succeeded,
    /// The step failed.
    Failed,
    /// The discovery query returned this many handles.
    Found(usize),
}

/// What the driver does next.
#[derive(Clone, Copy, PartialEq, Eq, Structural, Debug)]
pub enum Command {
    /// Initialise the middleware from the manifest.
    Initialize,
    /// Construct the instance specifier from [`instance_name`].
    ResolveName,
    /// Ask the middleware for the handles of the instance.
    Query,
    /// Pause for so many milliseconds, then ask again.
    PauseThenQuery { pause_ms: u64 },
    /// Construct the proxy from the handle at this position.
    Bind { handle: usize },
    /// Subscribe to the event with this queue depth.
    Subscribe { queue_depth: usize },
    /// Turn the subscription into a stream.
    Streamify,
    /// Consume samples: `count` of them, or without limit where it is 0.
    Consume { count: usize },
    /// End the process with success.
    Exit,
    /// Report the failure and end the process.
    Abort(Fatal),
}

/// One answer of the session: a notice to print first, if any, then the
/// command to perform.
#[derive(Clone, Copy, PartialEq, Eq, Structural, Debug)]
pub struct Directive {
    pub notice: Option<Notice>,
    pub command: Command,
}

/// The position of a stage in the sequence. Both ends of a run come last.
pub open spec fn rank(stage: Stage) -> nat {
    match stage {
        Stage::Initializing => 0,
        Stage::ResolvingName => 1,
        Stage::Discovering => 2,
        Stage::Binding => 3,
        Stage::Subscribing => 4,
        Stage::Streamifying => 5,
        Stage::Consuming => 6,
        Stage::Finished => 7,
        Stage::Aborted(_) => 7,
    }
}

/// The failure that belongs to each step that can fail.
pub open spec fn failure_of(stage: Stage) -> Fatal {
    match stage {
        Stage::Initializing => Fatal::Initialization,
        Stage::ResolvingName => Fatal::InstanceSpecifierCreation,
        Stage::Discovering => Fatal::InstanceSpecifierResolution,
        Stage::Binding => Fatal::ProxyCreation,
        Stage::Subscribing => Fatal::Subscription,
        _ => Fatal::StreamConversion,
    }
}

/// Which events can follow the command of a stage. Discovery reports a
/// number of handles or a failure; consumption cannot fail; a run that
/// has ended takes no event.
pub open spec fn accepts(stage: Stage, event: Event) -> bool {
    match stage {
        Stage::Finished | Stage::Aborted(_) => false,
        Stage::Discovering => event is Found || event is Failed,
        Stage::Consuming => event is Succeeded,
        _ => event is Succeeded || event is Failed,
    }
}

/// The stage after an accepted event.
pub open spec fn next_stage(stage: Stage, event: Event) -> Stage {
    match event {
        Event::Failed => Stage::Aborted(failure_of(stage)),
        Event::Found(found) => if found == 0 {
            Stage::Discovering
        } else {
            Stage::Binding
        },
        Event::Succeeded => match stage {
            Stage::Initializing => Stage::ResolvingName,
            Stage::ResolvingName => Stage::Discovering,
            Stage::Binding => Stage::Subscribing,
            Stage::Subscribing => Stage::Streamifying,
            Stage::Streamifying => Stage::Consuming,
            _ => Stage::Finished,
        },
    }
}

/// The command that opens a stage. Discovery is opened by a plain query;
/// a repeated query, after a pause, is given by [`directive_for`].
pub open spec fn command_of(stage: Stage, count: usize) -> Command {
    match stage {
        Stage::Initializing => Command::Initialize,
        Stage::ResolvingName => Command::ResolveName,
        Stage::Discovering => Command::Query,
        Stage::Binding => Command::Bind { handle: 0 },
        Stage::Subscribing => Command::Subscribe { queue_depth: QUEUE_DEPTH },
        Stage::Streamifying => Command::Streamify,
        Stage::Consuming => Command::Consume { count },
        Stage::Finished => Command::Exit,
        Stage::Aborted(fatal) => Command::Abort(fatal),
    }
}

/// The directive that answers an accepted event.
pub open spec fn directive_for(stage: Stage, event: Event, count: usize) -> Directive {
    let next = next_stage(stage, event);
    if stage is Discovering && next is Discovering {
        Directive {
            notice: Some(Notice::NoServiceFound),
            command: Command::PauseThenQuery { pause_ms: crate::discovery::RETRY_INTERVAL_MS },
        }
    } else if stage is Discovering && event is Found {
        Directive {
            notice: None,
            command: Command::Bind { handle: spec_judge(QueryOutcome::Handles(event->0))->chosen },
        }
    } else if stage is ResolvingName && next is Discovering {
        Directive { notice: Some(Notice::ReceiveMode), command: Command::Query }
    } else if stage is Subscribing && next is Streamifying {
        Directive { notice: Some(Notice::Subscribed), command: Command::Streamify }
    } else {
        Directive { notice: None, command: command_of(next, count) }
    }
}

/// One run from start to end.
pub struct Session {
    stage: Stage,
    count: usize,
}

impl Session {
    /// The step that is under way.
    pub closed spec fn spec_stage(&self) -> Stage {
        self.stage
    }

    /// The configured cycle count, handed to consumption unchanged.
    pub closed spec fn spec_count(&self) -> usize {
        self.count
    }

    /// A new run and its first directive: to initialise the middleware.
    pub fn start(count: usize) -> (begun: (Self, Directive))
        ensures
            begun.0.spec_stage() == Stage::Initializing,
            begun.0.spec_count() == count,
            begun.1 == (Directive { notice: None, command: Command::Initialize }),
    {
        (
            Session { stage: Stage::Initializing, count },
            Directive { notice: None, command: Command::Initialize },
        )
    }

    /// The step that is under way, or how the run ended.
    pub fn stage(&self) -> (stage: Stage)
        ensures
            stage == self.spec_stage(),
    {
        self.stage
    }

    /// The configured cycle count.
    pub fn count(&self) -> (count: usize)
        ensures
            count == self.spec_count(),
    {
        self.count
    }

    /// Takes the outcome of the command under way and says what to do
    /// next. An event that cannot follow that command is refused with
    /// `None`, and the session stays as it was.
    pub fn advance(&mut self, event: Event) -> (directive: Option<Directive>)
        ensures
            final(self).spec_count() == old(self).spec_count(),
            accepts(old(self).spec_stage(), event) ==> final(self).spec_stage() == next_stage(
                old(self).spec_stage(),
                event,
            ) && directive == Some(
                directive_for(old(self).spec_stage(), event, old(self).spec_count()),
            ),
            !accepts(old(self).spec_stage(), event) ==> directive is None
                && final(self).spec_stage() == old(self).spec_stage(),
    {
        match (self.stage, event) {
            (Stage::Finished, _) | (Stage::Aborted(_), _) => None,
            (Stage::Discovering, Event::Succeeded) => None,
            (Stage::Discovering, Event::Found(found)) => {
                match judge(QueryOutcome::Handles(found)) {
                    Verdict::Retry { pause_ms } => Some(
                        Directive {
                            notice: Some(Notice::NoServiceFound),
                            command: Command::PauseThenQuery { pause_ms },
                        },
                    ),
                    Verdict::Proceed { chosen, found: _ } => {
                        self.stage = Stage::Binding;
                        Some(Directive { notice: None, command: Command::Bind { handle: chosen } })
                    },
                    Verdict::Abort => None,
                }
            },
            (_, Event::Found(_)) => None,
            (Stage::Consuming, Event::Failed) => None,
            (stage, Event::Failed) => {
                let fatal = match stage {
                    Stage::Initializing => Fatal::Initialization,
                    Stage::ResolvingName => Fatal::InstanceSpecifierCreation,
                    Stage::Discovering => Fatal::InstanceSpecifierResolution,
                    Stage::Binding => Fatal::ProxyCreation,
                    Stage::Subscribing => Fatal::Subscription,
                    _ => Fatal::StreamConversion,
                };
                self.stage = Stage::Aborted(fatal);
                Some(Directive { notice: None, command: Command::Abort(fatal) })
            },
            (Stage::Initializing, Event::Succeeded) => {
                self.stage = Stage::ResolvingName;
                Some(Directive { notice: None, command: Command::ResolveName })
            },
            (Stage::ResolvingName, Event::Succeeded) => {
                self.stage = Stage::Discovering;
                Some(Directive { notice: Some(Notice::ReceiveMode), command: Command::Query })
            },
            (Stage::Binding, Event::Succeeded) => {
                self.stage = Stage::Subscribing;
                Some(
                    Directive {
                        notice: None,
                        command: Command::Subscribe { queue_depth: QUEUE_DEPTH },
                    },
                )
            },
            (Stage::Subscribing, Event::Succeeded) => {
                self.stage = Stage::Streamifying;
                Some(Directive { notice: Some(Notice::Subscribed), command: Command::Streamify })
            },
            (Stage::Streamifying, Event::Succeeded) => {
                self.stage = Stage::Consuming;
                Some(Directive { notice: None, command: Command::Consume { count: self.count } })
            },
            (Stage::Consuming, Event::Succeeded) => {
                self.stage = Stage::Finished;
                Some(Directive { notice: None, command: Command::Exit })
            },
        }
    }
}

/// The stage reached from `stage` by a series of events, refused ones
/// leaving it where it is.
pub open spec fn stage_after(stage: Stage, events: Seq<Event>) -> Stage
    decreases events.len(),
{
    if events.len() == 0 {
        stage
    } else {
        let before = stage_after(stage, events.drop_last());
        if accepts(before, events.last()) {
            next_stage(before, events.last())
        } else {
            before
        }
    }
}

/// A run never goes back: whatever events arrive, the stage reached is
/// not before the stage left, and a run that has ended stays as it ended.
pub proof fn never_goes_back(stage: Stage, events: Seq<Event>)
    ensures
        rank(stage) <= rank(stage_after(stage, events)),
        (stage is Finished || stage is Aborted) ==> stage_after(stage, events) == stage,
    decreases events.len(),
{
    if events.len() > 0 {
        never_goes_back(stage, events.drop_last());
    }
}

/// Only an empty discovery answer leaves the stage where it is; every
/// other accepted event moves the run strictly forward.
pub proof fn only_discovery_repeats(stage: Stage, event: Event)
    requires
        accepts(stage, event),
    ensures
        next_stage(stage, event) == stage <==> (stage is Discovering && event == Event::Found(0)),
        next_stage(stage, event) != stage ==> rank(stage) < rank(next_stage(stage, event)),
{
}

/// A failure ends the run with the failure of the step that was under
/// way, and the directive says to abort with it.
pub proof fn failure_is_fatal(stage: Stage, count: usize)
    requires
        accepts(stage, Event::Failed),
    ensures
        next_stage(stage, Event::Failed) == Stage::Aborted(failure_of(stage)),
        directive_for(stage, Event::Failed, count) == (Directive {
            notice: None,
            command: Command::Abort(failure_of(stage)),
        }),
{
}

/// The subscription is asked for only after discovery is over: the
/// subscribe command answers nothing but a successful binding, and
/// binding is entered from discovery alone, with a handle found.
pub proof fn subscription_follows_discovery(stage: Stage, event: Event, count: usize)
    requires
        accepts(stage, event),
    ensures
        directive_for(stage, event, count).command is Subscribe ==> stage is Binding && event
            is Succeeded,
        directive_for(stage, event, count).command == (Command::Subscribe {
            queue_depth: QUEUE_DEPTH,
        }) <==> directive_for(stage, event, count).command is Subscribe,
        next_stage(stage, event) is Binding <==> (stage is Discovering && event is Found
            && event->0 > 0),
        directive_for(stage, event, count).command is Bind <==> next_stage(stage, event) is Binding,
        directive_for(stage, event, count).command matches Command::Bind { handle } ==> handle == 0,
{
}

} // verus!
