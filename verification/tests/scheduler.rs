use rs_collector::bosun::{BosunRequest, Metadata, Rate, Sample, Value};
use rs_collector::collectors::Error;
use rs_collector::scheduler::mailbox::Mailbox;
use rs_collector::scheduler::runner::{
    CollectorRunner, RunnerAction, RunnerState, INIT_BACKOFF_SEC,
};
use rs_collector::scheduler::{
    Action, CollectorRequest, CollectorResponse, Event, Msg, Phase, Scheduler, TICK_INTERVAL_SEC,
};

fn sends(actions: &Vec<Action>) -> Vec<(String, CollectorRequest)> {
    actions
        .iter()
        .map(|a| match a {
            Action::Send(id, request) => (id.clone(), *request),
            other => panic!("unexpected {:?}", other),
        })
        .collect()
}

fn scheduler_of(ids: &[&str], sending: bool) -> Scheduler {
    let mut s = Scheduler::new(sending);
    for id in ids {
        s.register(id.to_string());
    }
    s
}

#[test]
fn registered_collectors_have_one_controller_and_one_runner_each() {
    let mut s = Scheduler::new(true);
    let a = s.register("galera#root@/var/lib/mysql.sock".to_string());
    let b = s.register("postfix".to_string());
    let c = s.register("rscollector".to_string());
    assert_eq!((a.runner, a.replaced), (0, None));
    assert_eq!((b.runner, b.replaced), (1, None));
    assert_eq!((c.runner, c.replaced), (2, None));
    let got: Vec<(String, usize)> =
        s.controllers().iter().map(|c| (c.id().clone(), c.runner())).collect();
    assert_eq!(
        got,
        vec![
            ("galera#root@/var/lib/mysql.sock".to_string(), 0),
            ("postfix".to_string(), 1),
            ("rscollector".to_string(), 2),
        ]
    );
}

#[test]
fn registering_an_id_again_replaces_its_controller() {
    let mut s = scheduler_of(&["a", "b"], true);
    let again = s.register("a".to_string());
    assert_eq!(again.runner, 2);
    assert_eq!(again.replaced, Some(0));
    let got: Vec<(String, usize)> =
        s.controllers().iter().map(|c| (c.id().clone(), c.runner())).collect();
    assert_eq!(got, vec![("a".to_string(), 2), ("b".to_string(), 1)]);
    assert_eq!(s.spawned(), 3);
}

#[test]
fn start_asks_every_runner_for_metadata_once() {
    let mut s = scheduler_of(&["a", "b"], true);
    assert_eq!(s.phase(), Phase::Created);
    let actions = s.step(Event::Start);
    assert_eq!(
        sends(&actions),
        vec![
            ("a".to_string(), CollectorRequest::Metadata),
            ("b".to_string(), CollectorRequest::Metadata),
        ]
    );
    assert_eq!(s.phase(), Phase::Running);
    assert!(s.step(Event::Start).is_empty());
}

#[test]
fn no_sample_is_asked_for_before_the_start() {
    let mut s = scheduler_of(&["a"], true);
    assert!(s.step(Event::Tick).is_empty());
    assert!(s.step(Event::Signal).is_empty());
    assert_eq!(s.phase(), Phase::Created);
    s.step(Event::Start);
    assert_eq!(sends(&s.step(Event::Tick)), vec![("a".to_string(), CollectorRequest::Sample)]);
}

#[test]
fn tick_asks_every_runner_for_a_sample() {
    let mut s = scheduler_of(&["a", "b", "c"], true);
    s.step(Event::Start);
    let actions = s.step(Event::Tick);
    assert_eq!(
        sends(&actions),
        vec![
            ("a".to_string(), CollectorRequest::Sample),
            ("b".to_string(), CollectorRequest::Sample),
            ("c".to_string(), CollectorRequest::Sample),
        ]
    );
    assert_eq!(TICK_INTERVAL_SEC, 15);
}

#[test]
fn responses_are_routed() {
    let mut s = scheduler_of(&["a"], true);
    s.step(Event::Start);

    let helo = Msg::Collector("a".to_string(), CollectorResponse::Id("a".to_string()));
    assert!(s.step(Event::Response(helo)).is_empty());

    let sample = Msg::Collector(
        "a".to_string(),
        CollectorResponse::Sample(Sample::new("m", Value::Integer(3))),
    );
    let actions = s.step(Event::Response(sample));
    assert_eq!(actions.len(), 1);
    match &actions[0] {
        Action::Forward(BosunRequest::Sample(sample)) => assert_eq!(sample.metric, "m"),
        other => panic!("unexpected {:?}", other),
    }

    let metadata = Msg::Collector(
        "a".to_string(),
        CollectorResponse::Metadata(Metadata::new("m", Rate::Gauge, "", "")),
    );
    let actions = s.step(Event::Response(metadata));
    assert!(matches!(&actions[0], Action::Forward(BosunRequest::Metadata(_))));
}

#[test]
fn collection_error_asks_the_runner_to_initialise_again() {
    let mut s = scheduler_of(&["a", "b"], true);
    s.step(Event::Start);
    let failed = Msg::Collector(
        "b".to_string(),
        CollectorResponse::CollectionError(Error::CollectionError("gone".to_string())),
    );
    assert_eq!(
        sends(&s.step(Event::Response(failed))),
        vec![("b".to_string(), CollectorRequest::Init)]
    );
    let stranger = Msg::Collector(
        "z".to_string(),
        CollectorResponse::CollectionError(Error::CollectionError("gone".to_string())),
    );
    assert!(s.step(Event::Response(stranger)).is_empty());
}

#[test]
fn nothing_is_forwarded_without_an_emitter() {
    let mut s = scheduler_of(&["a"], false);
    s.step(Event::Start);
    let sample = Msg::Collector(
        "a".to_string(),
        CollectorResponse::Sample(Sample::new("m", Value::Integer(3))),
    );
    assert!(s.step(Event::Response(sample)).is_empty());
    let actions = s.step(Event::Signal);
    assert_eq!(actions.len(), 2);
    assert!(matches!(&actions[0], Action::Send(id, CollectorRequest::Shutdown) if id == "a"));
    assert!(matches!(&actions[1], Action::Join(0)));
}

#[test]
fn signal_tears_down_runners_first_and_the_emitter_last() {
    let mut s = scheduler_of(&["a", "b"], true);
    s.step(Event::Start);
    let actions = s.step(Event::Signal);
    assert_eq!(actions.len(), 6);
    assert!(matches!(&actions[0], Action::Send(id, CollectorRequest::Shutdown) if id == "a"));
    assert!(matches!(&actions[1], Action::Send(id, CollectorRequest::Shutdown) if id == "b"));
    assert!(matches!(&actions[2], Action::Join(0)));
    assert!(matches!(&actions[3], Action::Join(1)));
    assert!(matches!(&actions[4], Action::Forward(BosunRequest::Shutdown)));
    assert!(matches!(&actions[5], Action::JoinEmitter));
    assert_eq!(s.phase(), Phase::Terminated);
    assert!(s.step(Event::Tick).is_empty());
    assert!(s.step(Event::Signal).is_empty());
}

#[test]
fn lost_channel_ends_the_loop() {
    let mut s = scheduler_of(&["a"], true);
    s.step(Event::Start);
    let actions = s.step(Event::Disconnected);
    assert_eq!(actions.len(), 4);
    assert_eq!(s.phase(), Phase::Terminated);
}

#[test]
fn second_sample_request_is_dropped_while_one_waits() {
    let mut mailbox = Mailbox::new();
    assert!(mailbox.offer(CollectorRequest::Metadata));
    assert!(mailbox.offer(CollectorRequest::Sample));
    assert!(!mailbox.offer(CollectorRequest::Sample));
    assert!(mailbox.offer(CollectorRequest::Init));
    assert!(!mailbox.offer(CollectorRequest::Sample));
    assert_eq!(mailbox.len(), 3);
    assert!(mailbox.has_sample());
    assert_eq!(mailbox.take(), Some(CollectorRequest::Metadata));
    assert_eq!(mailbox.take(), Some(CollectorRequest::Sample));
    assert!(!mailbox.has_sample());
    assert!(mailbox.offer(CollectorRequest::Sample));
    assert_eq!(mailbox.take(), Some(CollectorRequest::Init));
    assert_eq!(mailbox.take(), Some(CollectorRequest::Sample));
    assert_eq!(mailbox.take(), None);
    assert_eq!(mailbox.len(), 0);
}

#[test]
fn shutdown_is_never_dropped() {
    let mut mailbox = Mailbox::new();
    assert!(mailbox.offer(CollectorRequest::Sample));
    assert!(mailbox.offer(CollectorRequest::Shutdown));
    assert!(mailbox.offer(CollectorRequest::Shutdown));
    assert!(mailbox.offer(CollectorRequest::Helo));
    assert_eq!(mailbox.len(), 4);
}

#[test]
fn runner_starts_one_collection_at_a_time() {
    let mut runner = CollectorRunner::new("a".to_string());
    assert_eq!(runner.state(), RunnerState::Running);
    assert!(!runner.is_busy());
    assert_eq!(runner.command(CollectorRequest::Sample), RunnerAction::CollectSample);
    assert!(runner.is_busy());
    assert_eq!(runner.command(CollectorRequest::Sample), RunnerAction::Nothing);
    assert_eq!(runner.command(CollectorRequest::Metadata), RunnerAction::Nothing);
    assert_eq!(runner.command(CollectorRequest::Helo), RunnerAction::SendId);
    let msgs = runner.collected(Ok(vec![Sample::new("m", Value::Integer(1))]));
    assert_eq!(msgs.len(), 1);
    assert!(!runner.is_busy());
    assert_eq!(runner.command(CollectorRequest::Metadata), RunnerAction::CollectMetadata);
    assert_eq!(runner.command(CollectorRequest::Sample), RunnerAction::Nothing);
}

#[test]
fn empty_collection_sends_nothing() {
    let mut runner = CollectorRunner::new("a".to_string());
    runner.command(CollectorRequest::Sample);
    assert!(runner.collected(Ok(Vec::new())).is_empty());
    runner.command(CollectorRequest::Metadata);
    assert!(runner.metadata_collected(Vec::new()).is_empty());
}

#[test]
fn samples_are_reported_one_by_one_with_the_id() {
    let mut runner = CollectorRunner::new("mongo#rs0#user@host:27017".to_string());
    runner.command(CollectorRequest::Sample);
    let msgs = runner.collected(Ok(vec![
        Sample::new("m1", Value::Integer(1)),
        Sample::new("m2", Value::Integer(2)),
    ]));
    let got: Vec<(String, String)> = msgs
        .iter()
        .map(|m| match m {
            Msg::Collector(id, CollectorResponse::Sample(s)) => (id.clone(), s.metric.clone()),
            other => panic!("unexpected {:?}", other),
        })
        .collect();
    assert_eq!(
        got,
        vec![
            ("mongo#rs0#user@host:27017".to_string(), "m1".to_string()),
            ("mongo#rs0#user@host:27017".to_string(), "m2".to_string()),
        ]
    );
}

#[test]
fn failed_collection_is_reported_as_one_error() {
    let mut runner = CollectorRunner::new("a".to_string());
    runner.command(CollectorRequest::Sample);
    let msgs = runner.collected(Err(Error::CollectionError("no route".to_string())));
    assert_eq!(msgs.len(), 1);
    match &msgs[0] {
        Msg::Collector(id, CollectorResponse::CollectionError(Error::CollectionError(msg))) => {
            assert_eq!(id, "a");
            assert_eq!(msg, "no route");
        }
        other => panic!("unexpected {:?}", other),
    }
    assert!(!runner.is_busy());
}

#[test]
fn metadata_is_reported_one_by_one() {
    let mut runner = CollectorRunner::new("a".to_string());
    assert_eq!(runner.command(CollectorRequest::Metadata), RunnerAction::CollectMetadata);
    let msgs = runner.metadata_collected(vec![
        Metadata::new("m1", Rate::Gauge, "", ""),
        Metadata::new("m2", Rate::Counter, "", ""),
    ]);
    let got: Vec<String> = msgs
        .iter()
        .map(|m| match m {
            Msg::Collector(_, CollectorResponse::Metadata(m)) => m.metric.clone(),
            other => panic!("unexpected {:?}", other),
        })
        .collect();
    assert_eq!(got, vec!["m1".to_string(), "m2".to_string()]);
}

#[test]
fn init_waits_ten_seconds_and_goes_on_after_success() {
    let mut runner = CollectorRunner::new("a".to_string());
    assert_eq!(INIT_BACKOFF_SEC, 10);
    assert_eq!(runner.command(CollectorRequest::Init), RunnerAction::Reinitialize(10));
    assert_eq!(runner.state(), RunnerState::Reinitializing);
    assert_eq!(runner.command(CollectorRequest::Sample), RunnerAction::Nothing);
    assert!(runner.reinitialized(true));
    assert_eq!(runner.state(), RunnerState::Running);
    assert_eq!(runner.command(CollectorRequest::Sample), RunnerAction::CollectSample);
}

#[test]
fn failed_init_ends_the_runner_for_good() {
    let mut runner = CollectorRunner::new("a".to_string());
    runner.command(CollectorRequest::Init);
    assert!(!runner.reinitialized(false));
    assert_eq!(runner.state(), RunnerState::Terminated);
    assert_eq!(runner.command(CollectorRequest::Sample), RunnerAction::Nothing);
    assert_eq!(runner.command(CollectorRequest::Init), RunnerAction::Nothing);
}

#[test]
fn shutdown_ends_the_runner_with_its_id() {
    let mut runner = CollectorRunner::new("a".to_string());
    assert_eq!(runner.command(CollectorRequest::Shutdown), RunnerAction::ShutdownAndEnd);
    assert_eq!(runner.state(), RunnerState::Terminated);
    match runner.identity() {
        Msg::Collector(id, CollectorResponse::Id(same)) => {
            assert_eq!(id, "a");
            assert_eq!(same, "a");
        }
        other => panic!("unexpected {:?}", other),
    }
    assert_eq!(runner.id(), "a");
    let mut other = CollectorRunner::new("b".to_string());
    assert_eq!(other.disconnected(), RunnerAction::End);
    assert_eq!(other.state(), RunnerState::Terminated);
}

#[test]
fn backoff_can_be_chosen() {
    let mut runner = CollectorRunner::with_backoff("a".to_string(), 3);
    assert_eq!(runner.command(CollectorRequest::Init), RunnerAction::Reinitialize(3));
}
