//! The runner of one collector: it takes the commands one by one and lets at
//! most one call into the collector run at a time.

use vstd::prelude::*;
use crate::bosun::{Metadata, Sample};
use crate::collectors::{Error, Id};
use crate::scheduler::{
    msg_views, CollectorRequest, CollectorResponse, CollectorResponseView, Msg, MsgView,
};

verus! {

/// The seconds a runner waits before it initialises its collector again,
/// unless it is told otherwise.
pub const INIT_BACKOFF_SEC: u64 = 10;

/// Where a runner stands.
#[derive(Clone, Copy, Debug, PartialEq, Eq, Structural)]
pub enum RunnerState {
    /// It takes commands.
    Running,
    /// It waits for its collector to be initialised again.
    Reinitializing,
    /// It has ended.
    Terminated,
}

/// What a runner is to do with its collector, in answer to a command.
#[derive(Clone, Copy, Debug, PartialEq, Eq, Structural)]
pub enum RunnerAction {
    /// Nothing.
    Nothing,
    /// Send the collector's identity to the scheduler.
    SendId,
    /// Wait for the given seconds, then initialise the collector and report
    /// how that went.
    Reinitialize(u64),
    /// Ask the collector for its metric descriptors, apart from the runner's
    /// own thread, and report them.
    CollectMetadata,
    /// Ask the collector for samples, apart from the runner's own thread, and
    /// report what came.
    CollectSample,
    /// Shut the collector down, send its identity to the scheduler and end.
    ShutdownAndEnd,
    /// End.
    End,
}

/// The runner of one collector.
#[derive(Debug)]
pub struct CollectorRunner {
    id: Id,
    state: RunnerState,
    busy: bool,
    backoff: u64,
}

/// A runner over a sequence of characters.
pub struct RunnerView {
    pub id: Seq<char>,
    pub state: RunnerState,
    /// Whether a call into the collector runs apart from the runner's thread.
    pub busy: bool,
    /// The seconds to wait before the collector is initialised again.
    pub backoff: u64,
}

impl View for CollectorRunner {
    type V = RunnerView;

    closed spec fn view(&self) -> RunnerView {
        RunnerView { id: self.id@, state: self.state, busy: self.busy, backoff: self.backoff }
    }
}

/// What a running runner does on `request`, and what it is afterwards. While
/// a call into the collector runs, a request for samples or for descriptors is
/// skipped.
pub open spec fn on_command(r: RunnerView, request: CollectorRequest) -> (RunnerView, RunnerAction) {
    if r.state != RunnerState::Running {
        (r, RunnerAction::Nothing)
    } else {
        match request {
            CollectorRequest::Helo => (r, RunnerAction::SendId),
            CollectorRequest::Init => (
                RunnerView { state: RunnerState::Reinitializing, ..r },
                RunnerAction::Reinitialize(r.backoff),
            ),
            CollectorRequest::Metadata => if r.busy {
                (r, RunnerAction::Nothing)
            } else {
                (RunnerView { busy: true, ..r }, RunnerAction::CollectMetadata)
            },
            CollectorRequest::Sample => if r.busy {
                (r, RunnerAction::Nothing)
            } else {
                (RunnerView { busy: true, ..r }, RunnerAction::CollectSample)
            },
            CollectorRequest::Shutdown => (
                RunnerView { state: RunnerState::Terminated, ..r },
                RunnerAction::ShutdownAndEnd,
            ),
        }
    }
}

/// The runner after a call into its collector has ended.
pub open spec fn on_call_ended(r: RunnerView) -> RunnerView {
    RunnerView { busy: false, ..r }
}

/// The runner after its collector was initialised again: it takes commands
/// again after a success and has ended after a failure.
pub open spec fn on_reinitialized(r: RunnerView, succeeded: bool) -> RunnerView {
    RunnerView {
        state: if succeeded {
            RunnerState::Running
        } else {
            RunnerState::Terminated
        },
        ..r
    }
}

/// The runner after the scheduler has gone.
pub open spec fn on_disconnected(r: RunnerView) -> RunnerView {
    RunnerView { state: RunnerState::Terminated, ..r }
}

/// What happens to a runner.
pub enum RunnerEvent {
    /// A command has come.
    Command(CollectorRequest),
    /// A call into the collector has ended.
    CallEnded,
    /// The collector was initialised again, with or without success.
    Reinitialized(bool),
    /// The scheduler has gone.
    Disconnected,
}

/// The runner after `event`, and what it does on it. The end of a call counts
/// only while one runs, and the outcome of an initialisation only while the
/// runner waits for it.
pub open spec fn after_event(r: RunnerView, event: RunnerEvent) -> (RunnerView, RunnerAction) {
    match event {
        RunnerEvent::Command(request) => on_command(r, request),
        RunnerEvent::CallEnded => if r.busy {
            (on_call_ended(r), RunnerAction::Nothing)
        } else {
            (r, RunnerAction::Nothing)
        },
        RunnerEvent::Reinitialized(succeeded) => if r.state == RunnerState::Reinitializing {
            (on_reinitialized(r, succeeded), RunnerAction::Nothing)
        } else {
            (r, RunnerAction::Nothing)
        },
        RunnerEvent::Disconnected => (on_disconnected(r), RunnerAction::End),
    }
}

/// Whether the action starts a call into the collector apart from the
/// runner's thread.
pub open spec fn starts_call(action: RunnerAction) -> bool {
    action == RunnerAction::CollectSample || action == RunnerAction::CollectMetadata
}

/// The runner after a sequence of events, and how many calls into its
/// collector run then: those started less those ended.
pub open spec fn after_events(r: RunnerView, events: Seq<RunnerEvent>) -> (RunnerView, int)
    decreases events.len(),
{
    if events.len() == 0 {
        (r, 0)
    } else {
        let (before, running) = after_events(r, events.drop_last());
        let (after, action) = after_event(before, events.last());
        let started: int = if starts_call(action) {
            1
        } else {
            0
        };
        let ended: int = if events.last() is CallEnded && before.busy {
            1
        } else {
            0
        };
        (after, running + started - ended)
    }
}

/// The message with which the runner of `id` reports `response`.
pub open spec fn from_runner(id: Seq<char>, response: CollectorResponseView) -> MsgView {
    MsgView { id: id, response: response }
}

impl CollectorRunner {
    /// The runner for the collector `id`, whose initialisation has succeeded.
    pub fn new(id: Id) -> (r: CollectorRunner)
        ensures
            r@ == (RunnerView {
                id: id@,
                state: RunnerState::Running,
                busy: false,
                backoff: INIT_BACKOFF_SEC,
            }),
    {
        CollectorRunner::with_backoff(id, INIT_BACKOFF_SEC)
    }

    /// The runner for the collector `id`, whose initialisation has succeeded;
    /// it waits `backoff` seconds before it initialises the collector again.
    pub fn with_backoff(id: Id, backoff: u64) -> (r: CollectorRunner)
        ensures
            r@ == (RunnerView {
                id: id@,
                state: RunnerState::Running,
                busy: false,
                backoff: backoff,
            }),
    {
        CollectorRunner { id: id, state: RunnerState::Running, busy: false, backoff: backoff }
    }

    pub fn id(&self) -> (r: &Id)
        ensures
            r@ == self@.id,
    {
        &self.id
    }

    pub fn state(&self) -> (r: RunnerState)
        ensures
            r == self@.state,
    {
        self.state
    }

    /// Whether a call into the collector runs apart from the runner's thread.
    pub fn is_busy(&self) -> (r: bool)
        ensures
            r == self@.busy,
    {
        self.busy
    }

    /// Takes a command and says what is to be done. A collection is only
    /// started while none runs, and then one runs.
    pub fn command(&mut self, request: CollectorRequest) -> (action: RunnerAction)
        ensures
            (final(self)@, action) == on_command(old(self)@, request),
            action == RunnerAction::CollectSample || action == RunnerAction::CollectMetadata
                ==> !old(self)@.busy && final(self)@.busy,
    {
        match self.state {
            RunnerState::Running => {},
            _ => {
                return RunnerAction::Nothing;
            },
        }
        match request {
            CollectorRequest::Helo => RunnerAction::SendId,
            CollectorRequest::Init => {
                self.state = RunnerState::Reinitializing;
                RunnerAction::Reinitialize(self.backoff)
            },
            CollectorRequest::Metadata => {
                if self.busy {
                    RunnerAction::Nothing
                } else {
                    self.busy = true;
                    RunnerAction::CollectMetadata
                }
            },
            CollectorRequest::Sample => {
                if self.busy {
                    RunnerAction::Nothing
                } else {
                    self.busy = true;
                    RunnerAction::CollectSample
                }
            },
            CollectorRequest::Shutdown => {
                self.state = RunnerState::Terminated;
                RunnerAction::ShutdownAndEnd
            },
        }
    }

    /// The scheduler has gone: the runner ends.
    pub fn disconnected(&mut self) -> (action: RunnerAction)
        ensures
            (final(self)@, action) == after_event(old(self)@, RunnerEvent::Disconnected),
    {
        self.state = RunnerState::Terminated;
        RunnerAction::End
    }

    /// Takes the outcome of initialising the collector again. After a success
    /// the runner takes commands again. After a failure the collector is to be
    /// shut down and the runner ends, for good: the answer says whether it
    /// goes on.
    pub fn reinitialized(&mut self, succeeded: bool) -> (goes_on: bool)
        requires
            old(self)@.state == RunnerState::Reinitializing,
        ensures
            goes_on == succeeded,
            final(self)@ == on_reinitialized(old(self)@, succeeded),
    {
        if succeeded {
            self.state = RunnerState::Running;
        } else {
            self.state = RunnerState::Terminated;
        }
        succeeded
    }

    /// The message that tells the scheduler who the runner is.
    pub fn identity(&self) -> (r: Msg)
        ensures
            r@ == from_runner(self@.id, CollectorResponseView::Id(self@.id)),
    {
        Msg::Collector(self.id.clone(), CollectorResponse::Id(self.id.clone()))
    }

    /// Takes the descriptors that the collector gave and makes a message of
    /// each, in their order. With that the call into the collector, which ran,
    /// has ended.
    pub fn metadata_collected(&mut self, metadata: Vec<Metadata>) -> (r: Vec<Msg>)
        requires
            old(self)@.busy,
        ensures
            final(self)@ == on_call_ended(old(self)@),
            msg_views(r@) == Seq::new(
                metadata.len() as nat,
                |i: int| from_runner(old(self)@.id, CollectorResponseView::Metadata(metadata[i]@)),
            ),
    {
        self.busy = false;
        let mut out: Vec<Msg> = Vec::new();
        for m in it: metadata
            invariant
                it.seq() == metadata@,
                out.len() == it.index(),
                forall|k: int|
                    0 <= k < out.len() ==> (#[trigger] out[k])@ == from_runner(
                        self.id@,
                        CollectorResponseView::Metadata(metadata[k]@),
                    ),
        {
            out.push(Msg::Collector(self.id.clone(), CollectorResponse::Metadata(m)));
        }
        assert(msg_views(out@) =~= Seq::new(
            metadata.len() as nat,
            |i: int| from_runner(self.id@, CollectorResponseView::Metadata(metadata[i]@)),
        ));
        out
    }

    /// Takes what a collection gave and makes the messages for the scheduler:
    /// one for each sample, in their order, so none for no sample; for a
    /// failure one message with the error. With that the call into the
    /// collector, which ran, has ended.
    pub fn collected(&mut self, outcome: Result<Vec<Sample>, Error>) -> (r: Vec<Msg>)
        requires
            old(self)@.busy,
        ensures
            final(self)@ == on_call_ended(old(self)@),
            msg_views(r@) == (match outcome {
                Ok(samples) => Seq::new(
                    samples.len() as nat,
                    |i: int| from_runner(old(self)@.id, CollectorResponseView::Sample(samples[i]@)),
                ),
                Err(e) => seq![
                    from_runner(old(self)@.id, CollectorResponseView::CollectionError(e@)),
                ],
            }),
    {
        self.busy = false;
        match outcome {
            Err(e) => {
                let list: Vec<Msg> = vec![
                    Msg::Collector(self.id.clone(), CollectorResponse::CollectionError(e)),
                ];
                assert(msg_views(list@) =~= seq![
                    from_runner(self.id@, CollectorResponseView::CollectionError(e@)),
                ]);
                list
            },
            Ok(samples) => {
                let mut out: Vec<Msg> = Vec::new();
                for s in it: samples
                    invariant
                        it.seq() == samples@,
                        out.len() == it.index(),
                        forall|k: int|
                            0 <= k < out.len() ==> (#[trigger] out[k])@ == from_runner(
                                self.id@,
                                CollectorResponseView::Sample(samples[k]@),
                            ),
                {
                    out.push(Msg::Collector(self.id.clone(), CollectorResponse::Sample(s)));
                }
                assert(msg_views(out@) =~= Seq::new(
                    samples.len() as nat,
                    |i: int| from_runner(self.id@, CollectorResponseView::Sample(samples[i]@)),
                ));
                out
            },
        }
    }
}

/// A call into the collector is started only while none runs, and then one
/// runs: whatever the command, a runner in which a call runs starts no other.
pub proof fn lemma_one_collection_at_a_time(r: RunnerView, request: CollectorRequest)
    ensures
        starts_call(on_command(r, request).1) ==> !r.busy && on_command(r, request).0.busy,
        r.busy ==> !starts_call(on_command(r, request).1),
{
}

/// Whatever happens to a runner in which no call into its collector runs:
/// never more than one call runs at a time, and one runs just when the runner
/// says so.
pub proof fn lemma_calls_never_overlap(r: RunnerView, events: Seq<RunnerEvent>)
    requires
        !r.busy,
    ensures
        0 <= after_events(r, events).1 <= 1,
        after_events(r, events).1 == 1 <==> after_events(r, events).0.busy,
    decreases events.len(),
{
    if events.len() > 0 {
        lemma_calls_never_overlap(r, events.drop_last());
    }
}

} // verus!
