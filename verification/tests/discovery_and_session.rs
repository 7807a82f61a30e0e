use ipc_bridge_client::discovery::{discover, judge, Discovery, QueryOutcome, Verdict, RETRY_INTERVAL_MS};
use ipc_bridge_client::lines::Notice;
use ipc_bridge_client::session::{
    instance_name, Command, Directive, Event, Fatal, Session, Stage, QUEUE_DEPTH,
};

fn plain(command: Command) -> Option<Directive> {
    Some(Directive { notice: None, command })
}

fn session_at(stage: Stage, count: usize) -> Session {
    let (mut session, _) = Session::start(count);
    let path = [
        Event::Succeeded,
        Event::Succeeded,
        Event::Found(1),
        Event::Succeeded,
        Event::Succeeded,
        Event::Succeeded,
        Event::Succeeded,
    ];
    for event in path {
        if session.stage() == stage {
            break;
        }
        assert!(session.advance(event).is_some());
    }
    assert_eq!(session.stage(), stage);
    session
}

#[test]
fn retry_interval_is_ten_milliseconds() {
    assert_eq!(RETRY_INTERVAL_MS, 10);
}

#[test]
fn judge_retries_an_empty_answer() {
    assert_eq!(judge(QueryOutcome::Handles(0)), Verdict::Retry { pause_ms: 10 });
}

#[test]
fn judge_takes_the_first_handle() {
    assert_eq!(judge(QueryOutcome::Handles(1)), Verdict::Proceed { chosen: 0, found: 1 });
    assert_eq!(judge(QueryOutcome::Handles(7)), Verdict::Proceed { chosen: 0, found: 7 });
}

#[test]
fn judge_aborts_on_a_failed_query() {
    assert_eq!(judge(QueryOutcome::Failed), Verdict::Abort);
}

#[test]
fn discovery_succeeds_as_soon_as_a_handle_is_there() {
    let answers = vec![
        QueryOutcome::Handles(0),
        QueryOutcome::Handles(0),
        QueryOutcome::Handles(2),
        QueryOutcome::Handles(0),
        QueryOutcome::Failed,
    ];
    assert_eq!(
        discover(&answers),
        Discovery { retries: 2, end: Some(Verdict::Proceed { chosen: 0, found: 2 }) }
    );
}

#[test]
fn discovery_with_a_handle_at_once_never_retries() {
    let answers = vec![QueryOutcome::Handles(3)];
    assert_eq!(
        discover(&answers),
        Discovery { retries: 0, end: Some(Verdict::Proceed { chosen: 0, found: 3 }) }
    );
}

#[test]
fn discovery_without_a_peer_keeps_retrying() {
    let mut answers = Vec::new();
    for _ in 0..50 {
        answers.push(QueryOutcome::Handles(0));
    }
    assert_eq!(discover(&answers), Discovery { retries: 50, end: None });
    assert_eq!(discover(&Vec::new()), Discovery { retries: 0, end: None });
}

#[test]
fn discovery_stops_at_a_failed_query() {
    let answers = vec![QueryOutcome::Handles(0), QueryOutcome::Failed, QueryOutcome::Handles(1)];
    assert_eq!(discover(&answers), Discovery { retries: 1, end: Some(Verdict::Abort) });
}

#[test]
fn discovery_is_repeatable() {
    let answers = vec![QueryOutcome::Handles(0), QueryOutcome::Handles(4)];
    assert_eq!(discover(&answers), discover(&answers));
}

#[test]
fn instance_name_is_fixed() {
    assert_eq!(instance_name(), "xpad/cp60/MapApiLanesStamped");
}

#[test]
fn fatal_messages_name_the_step() {
    assert_eq!(Fatal::Initialization.message(), "Middleware initialization failed");
    assert_eq!(Fatal::InstanceSpecifierCreation.message(), "Instance specifier creation failed");
    assert_eq!(
        Fatal::InstanceSpecifierResolution.message(),
        "Instance specifier resolution failed"
    );
    assert_eq!(Fatal::ProxyCreation.message(), "Failed to create the proxy");
    assert_eq!(Fatal::Subscription.message(), "Failed to subscribe");
    assert_eq!(Fatal::StreamConversion.message(), "Failed to convert to stream");
}

#[test]
fn session_starts_by_initializing() {
    let (session, first) = Session::start(4);
    assert_eq!(session.stage(), Stage::Initializing);
    assert_eq!(session.count(), 4);
    assert_eq!(first, Directive { notice: None, command: Command::Initialize });
}

#[test]
fn session_runs_the_steps_in_order() {
    let (mut session, _) = Session::start(1);
    assert_eq!(session.advance(Event::Succeeded), plain(Command::ResolveName));
    assert_eq!(session.stage(), Stage::ResolvingName);
    assert_eq!(
        session.advance(Event::Succeeded),
        Some(Directive { notice: Some(Notice::ReceiveMode), command: Command::Query })
    );
    assert_eq!(session.stage(), Stage::Discovering);
    assert_eq!(session.advance(Event::Found(2)), plain(Command::Bind { handle: 0 }));
    assert_eq!(session.stage(), Stage::Binding);
    assert_eq!(session.advance(Event::Succeeded), plain(Command::Subscribe { queue_depth: 1 }));
    assert_eq!(session.stage(), Stage::Subscribing);
    assert_eq!(
        session.advance(Event::Succeeded),
        Some(Directive { notice: Some(Notice::Subscribed), command: Command::Streamify })
    );
    assert_eq!(session.stage(), Stage::Streamifying);
    assert_eq!(session.advance(Event::Succeeded), plain(Command::Consume { count: 1 }));
    assert_eq!(session.stage(), Stage::Consuming);
    assert_eq!(session.advance(Event::Succeeded), plain(Command::Exit));
    assert_eq!(session.stage(), Stage::Finished);
    assert_eq!(QUEUE_DEPTH, 1);
}

#[test]
fn session_retries_discovery_until_found() {
    let mut session = session_at(Stage::Discovering, 1);
    for _ in 0..25 {
        assert_eq!(
            session.advance(Event::Found(0)),
            Some(Directive {
                notice: Some(Notice::NoServiceFound),
                command: Command::PauseThenQuery { pause_ms: 10 },
            })
        );
        assert_eq!(session.stage(), Stage::Discovering);
    }
    assert_eq!(session.advance(Event::Found(1)), plain(Command::Bind { handle: 0 }));
    assert_eq!(session.stage(), Stage::Binding);
}

#[test]
fn session_hands_the_count_to_consumption() {
    let mut session = session_at(Stage::Streamifying, 0);
    assert_eq!(session.advance(Event::Succeeded), plain(Command::Consume { count: 0 }));
    let mut session = session_at(Stage::Streamifying, 77);
    assert_eq!(session.advance(Event::Succeeded), plain(Command::Consume { count: 77 }));
    assert_eq!(session.count(), 77);
}

#[test]
fn each_failed_step_is_fatal() {
    let cases = [
        (Stage::Initializing, Fatal::Initialization),
        (Stage::ResolvingName, Fatal::InstanceSpecifierCreation),
        (Stage::Discovering, Fatal::InstanceSpecifierResolution),
        (Stage::Binding, Fatal::ProxyCreation),
        (Stage::Subscribing, Fatal::Subscription),
        (Stage::Streamifying, Fatal::StreamConversion),
    ];
    for (stage, fatal) in cases {
        let mut session = session_at(stage, 1);
        assert_eq!(session.advance(Event::Failed), plain(Command::Abort(fatal)));
        assert_eq!(session.stage(), Stage::Aborted(fatal));
    }
}

#[test]
fn ended_session_takes_no_event() {
    let mut finished = session_at(Stage::Finished, 1);
    let mut aborted = session_at(Stage::Binding, 1);
    assert!(aborted.advance(Event::Failed).is_some());
    for event in [Event::Succeeded, Event::Failed, Event::Found(0), Event::Found(3)] {
        assert_eq!(finished.advance(event), None);
        assert_eq!(finished.stage(), Stage::Finished);
        assert_eq!(aborted.advance(event), None);
        assert_eq!(aborted.stage(), Stage::Aborted(Fatal::ProxyCreation));
    }
}

#[test]
fn events_that_do_not_fit_are_refused() {
    let mut discovering = session_at(Stage::Discovering, 1);
    assert_eq!(discovering.advance(Event::Succeeded), None);
    assert_eq!(discovering.stage(), Stage::Discovering);
    let mut consuming = session_at(Stage::Consuming, 1);
    assert_eq!(consuming.advance(Event::Failed), None);
    assert_eq!(consuming.advance(Event::Found(1)), None);
    assert_eq!(consuming.stage(), Stage::Consuming);
    for stage in [
        Stage::Initializing,
        Stage::ResolvingName,
        Stage::Binding,
        Stage::Subscribing,
        Stage::Streamifying,
    ] {
        let mut session = session_at(stage, 1);
        assert_eq!(session.advance(Event::Found(1)), None);
        assert_eq!(session.advance(Event::Found(0)), None);
        assert_eq!(session.stage(), stage);
    }
}
