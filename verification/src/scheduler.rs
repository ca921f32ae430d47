//! The scheduler and its runners, as decisions: what each does next when a
//! command, a tick, a signal or a result arrives. Threads, channels and timers
//! are the caller's; it performs the actions and hands back the events.

use vstd::prelude::*;
use crate::bosun::{BosunRequest, BosunRequestView, Metadata, MetadataView, Sample, SampleView};
use crate::collectors::{Error, ErrorView, Id};
use crate::text::same_text;

pub mod mailbox;
pub mod runner;

verus! {

/// The seconds between two ticks of the scheduler's timer.
pub const TICK_INTERVAL_SEC: u64 = 15;

/// What the scheduler asks of a runner.
#[derive(Clone, Copy, Debug, PartialEq, Eq, Structural)]
pub enum CollectorRequest {
    /// Say who you are.
    Helo,
    /// Initialise the collector again, after a pause.
    Init,
    /// Report the collector's metric descriptors.
    Metadata,
    /// Take a sample.
    Sample,
    /// Release the collector and end.
    Shutdown,
}

/// What a runner reports to the scheduler.
#[derive(Debug)]
pub enum CollectorResponse {
    Id(Id),
    Metadata(Metadata),
    Sample(Sample),
    CollectionError(Error),
}

/// A response over sequences of characters.
pub enum CollectorResponseView {
    Id(Seq<char>),
    Metadata(MetadataView),
    Sample(SampleView),
    CollectionError(ErrorView),
}

impl View for CollectorResponse {
    type V = CollectorResponseView;

    open spec fn view(&self) -> CollectorResponseView {
        match self {
            CollectorResponse::Id(id) => CollectorResponseView::Id(id@),
            CollectorResponse::Metadata(m) => CollectorResponseView::Metadata(m@),
            CollectorResponse::Sample(s) => CollectorResponseView::Sample(s@),
            CollectorResponse::CollectionError(e) => CollectorResponseView::CollectionError(e@),
        }
    }
}

/// A response together with the identity of the collector it comes from.
#[derive(Debug)]
pub enum Msg {
    Collector(Id, CollectorResponse),
}

/// A message over sequences of characters.
pub struct MsgView {
    pub id: Seq<char>,
    pub response: CollectorResponseView,
}

impl View for Msg {
    type V = MsgView;

    open spec fn view(&self) -> MsgView {
        match self {
            Msg::Collector(id, response) => MsgView { id: id@, response: response@ },
        }
    }
}

/// The views of a sequence of messages, element by element.
pub open spec fn msg_views(v: Seq<Msg>) -> Seq<MsgView> {
    Seq::new(v.len(), |i: int| v[i]@)
}

/// The scheduler's record of one runner: the collector's identity, and the
/// number under which the runner's thread and the sending end of its command
/// channel are kept.
#[derive(Debug)]
pub struct CollectorController {
    id: Id,
    runner: usize,
}

/// A controller over a sequence of characters.
pub struct ControllerView {
    pub id: Seq<char>,
    pub runner: nat,
}

impl View for CollectorController {
    type V = ControllerView;

    closed spec fn view(&self) -> ControllerView {
        ControllerView { id: self.id@, runner: self.runner as nat }
    }
}

impl CollectorController {
    pub fn id(&self) -> (r: &Id)
        ensures
            r@ == self@.id,
    {
        &self.id
    }

    /// The number of the controller's runner.
    pub fn runner(&self) -> (r: usize)
        ensures
            r == self@.runner,
    {
        self.runner
    }
}

/// Where the scheduler stands.
#[derive(Clone, Copy, Debug, PartialEq, Eq, Structural)]
pub enum Phase {
    /// Collectors are being registered; the event loop has not begun.
    Created,
    /// The event loop runs.
    Running,
    /// The event loop has ended.
    Terminated,
}

/// What the scheduler's event loop waits for.
#[derive(Debug)]
pub enum Event {
    /// The event loop begins.
    Start,
    /// The timer has ticked.
    Tick,
    /// A signal asks the process to end.
    Signal,
    /// A runner has reported.
    Response(Msg),
    /// The channel from the runners is gone.
    Disconnected,
}

/// An event over sequences of characters.
pub enum EventView {
    Start,
    Tick,
    Signal,
    Response(MsgView),
    Disconnected,
}

impl View for Event {
    type V = EventView;

    open spec fn view(&self) -> EventView {
        match self {
            Event::Start => EventView::Start,
            Event::Tick => EventView::Tick,
            Event::Signal => EventView::Signal,
            Event::Response(msg) => EventView::Response(msg@),
            Event::Disconnected => EventView::Disconnected,
        }
    }
}

/// What the scheduler asks to be done.
#[derive(Debug)]
pub enum Action {
    /// Offer the command to the mailbox of the collector's runner.
    Send(Id, CollectorRequest),
    /// Hand the request to the emitter.
    Forward(BosunRequest),
    /// Wait for the runner with this number to end.
    Join(usize),
    /// Wait for the emitter to end.
    JoinEmitter,
}

/// An action over sequences of characters.
pub enum ActionView {
    Send(Seq<char>, CollectorRequest),
    Forward(BosunRequestView),
    Join(nat),
    JoinEmitter,
}

impl View for Action {
    type V = ActionView;

    open spec fn view(&self) -> ActionView {
        match self {
            Action::Send(id, request) => ActionView::Send(id@, *request),
            Action::Forward(request) => ActionView::Forward(request@),
            Action::Join(runner) => ActionView::Join(*runner as nat),
            Action::JoinEmitter => ActionView::JoinEmitter,
        }
    }
}

/// The views of a sequence of actions, element by element.
pub open spec fn action_views(v: Seq<Action>) -> Seq<ActionView> {
    Seq::new(v.len(), |i: int| v[i]@)
}

/// The scheduler over sequences.
pub struct SchedulerView {
    pub controllers: Seq<ControllerView>,
    pub phase: Phase,
    /// Whether there is an emitter.
    pub sending: bool,
    /// How many runners have been registered.
    pub spawned: nat,
}

impl SchedulerView {
    /// Every collector has one controller and every controller its own
    /// runner, one of those that were registered.
    pub open spec fn wf(self) -> bool {
        &&& forall|i: int, j: int|
            0 <= i < j < self.controllers.len() ==> self.controllers[i].id
                != self.controllers[j].id
        &&& forall|i: int, j: int|
            0 <= i < j < self.controllers.len() ==> self.controllers[i].runner
                != self.controllers[j].runner
        &&& forall|i: int|
            0 <= i < self.controllers.len() ==> (#[trigger] self.controllers[i]).runner
                < self.spawned
    }

    /// The place of the controller of the collector `id`, if it has one.
    pub open spec fn position(self, id: Seq<char>) -> Option<int> {
        if exists|i: int| 0 <= i < self.controllers.len() && self.controllers[i].id == id {
            Some(choose|i: int| 0 <= i < self.controllers.len() && self.controllers[i].id == id)
        } else {
            None
        }
    }

    /// The scheduler after the runner of the collector `id` was registered:
    /// the collector's controller is that of the new runner.
    pub open spec fn registered(self, id: Seq<char>) -> SchedulerView {
        let entry = ControllerView { id: id, runner: self.spawned };
        SchedulerView {
            controllers: match self.position(id) {
                Some(i) => self.controllers.update(i, entry),
                None => self.controllers.push(entry),
            },
            spawned: self.spawned + 1,
            ..self
        }
    }
}

/// `request` for the runner of every controller, in the controllers' order.
pub open spec fn broadcast(controllers: Seq<ControllerView>, request: CollectorRequest) -> Seq<
    ActionView,
> {
    Seq::new(controllers.len(), |i: int| ActionView::Send(controllers[i].id, request))
}

/// Waiting for the runner of every controller, in the controllers' order.
pub open spec fn join_all(controllers: Seq<ControllerView>) -> Seq<ActionView> {
    Seq::new(controllers.len(), |i: int| ActionView::Join(controllers[i].runner))
}

/// What ends the event loop: every runner is told to shut down and waited
/// for, then the emitter, if there is one.
pub open spec fn teardown(s: SchedulerView) -> Seq<ActionView> {
    broadcast(s.controllers, CollectorRequest::Shutdown) + join_all(s.controllers) + (if s.sending {
        seq![ActionView::Forward(BosunRequestView::Shutdown), ActionView::JoinEmitter]
    } else {
        Seq::<ActionView>::empty()
    })
}

/// What a report of a runner leads to: descriptors and samples go to the
/// emitter, if there is one; a failed collection has the collector's runner
/// initialise it again; an identity is only taken note of.
pub open spec fn routed(s: SchedulerView, msg: MsgView) -> Seq<ActionView> {
    match msg.response {
        CollectorResponseView::Id(_) => Seq::<ActionView>::empty(),
        CollectorResponseView::Metadata(m) => if s.sending {
            seq![ActionView::Forward(BosunRequestView::Metadata(m))]
        } else {
            Seq::<ActionView>::empty()
        },
        CollectorResponseView::Sample(sample) => if s.sending {
            seq![ActionView::Forward(BosunRequestView::Sample(sample))]
        } else {
            Seq::<ActionView>::empty()
        },
        CollectorResponseView::CollectionError(_) => if s.position(msg.id) is Some {
            seq![ActionView::Send(msg.id, CollectorRequest::Init)]
        } else {
            Seq::<ActionView>::empty()
        },
    }
}

/// The scheduler after `event`, and what it does on it. The loop begins by
/// asking every runner for its descriptors; from then on every tick asks every
/// runner for a sample, until a signal or the loss of the runners' channel ends
/// the loop. Before the loop has begun and after it has ended nothing is done.
pub open spec fn next(s: SchedulerView, event: EventView) -> (SchedulerView, Seq<ActionView>) {
    match s.phase {
        Phase::Created => match event {
            EventView::Start => (
                SchedulerView { phase: Phase::Running, ..s },
                broadcast(s.controllers, CollectorRequest::Metadata),
            ),
            _ => (s, Seq::<ActionView>::empty()),
        },
        Phase::Running => match event {
            EventView::Start => (s, Seq::<ActionView>::empty()),
            EventView::Tick => (s, broadcast(s.controllers, CollectorRequest::Sample)),
            EventView::Signal => (SchedulerView { phase: Phase::Terminated, ..s }, teardown(s)),
            EventView::Disconnected => (
                SchedulerView { phase: Phase::Terminated, ..s },
                teardown(s),
            ),
            EventView::Response(msg) => (s, routed(s, msg)),
        },
        Phase::Terminated => (s, Seq::<ActionView>::empty()),
    }
}

/// The scheduler after a sequence of events, and all it does on them.
pub open spec fn run(s: SchedulerView, events: Seq<EventView>) -> (SchedulerView, Seq<ActionView>)
    decreases events.len(),
{
    if events.len() == 0 {
        (s, Seq::<ActionView>::empty())
    } else {
        let (before, done) = run(s, events.drop_last());
        let (after, more) = next(before, events.last());
        (after, done + more)
    }
}

/// The scheduler: it knows its controllers and decides what is done on each
/// event of its loop.
#[derive(Debug)]
pub struct Scheduler {
    controllers: Vec<CollectorController>,
    phase: Phase,
    sending: bool,
    spawned: usize,
}

/// The views of a sequence of controllers, element by element.
pub open spec fn controller_views(v: Seq<CollectorController>) -> Seq<ControllerView> {
    Seq::new(v.len(), |i: int| v[i]@)
}

impl View for Scheduler {
    type V = SchedulerView;

    closed spec fn view(&self) -> SchedulerView {
        SchedulerView {
            controllers: controller_views(self.controllers@),
            phase: self.phase,
            sending: self.sending,
            spawned: self.spawned as nat,
        }
    }
}

/// What the registration of a runner did.
#[derive(Clone, Copy, Debug, PartialEq, Eq, Structural)]
pub struct Registration {
    /// The number of the new runner.
    pub runner: usize,
    /// The number of the runner that had the collector's controller before,
    /// if there was one: that runner has none now.
    pub replaced: Option<usize>,
}

impl Scheduler {
    #[verifier::type_invariant]
    spec fn inv(self) -> bool {
        self@.wf()
    }

    /// A scheduler without a controller; `sending` says whether there is an
    /// emitter.
    pub fn new(sending: bool) -> (r: Scheduler)
        ensures
            r@ == fresh(sending),
            r@.wf(),
    {
        let r = Scheduler { controllers: Vec::new(), phase: Phase::Created, sending: sending, spawned: 0 };
        assert(r@.controllers =~= Seq::<ControllerView>::empty());
        r
    }

    pub fn phase(&self) -> (r: Phase)
        ensures
            r == self@.phase,
    {
        self.phase
    }

    /// How many runners have been registered.
    pub fn spawned(&self) -> (r: usize)
        ensures
            r == self@.spawned,
    {
        self.spawned
    }

    /// The controllers, in the order in which their collectors were first
    /// registered. No two are of one collector, and no two have one runner.
    pub fn controllers(&self) -> (r: &Vec<CollectorController>)
        ensures
            controller_views(r@) == self@.controllers,
            self@.wf(),
    {
        proof {
            use_type_invariant(self);
        }
        &self.controllers
    }

    fn find(&self, id: &str) -> (r: Option<usize>)
        ensures
            match r {
                Some(i) => self@.position(id@) == Some(i as int) && i < self@.controllers.len()
                    && self@.controllers[i as int].id == id@,
                None => self@.position(id@) is None,
            },
    {
        proof {
            use_type_invariant(self);
        }
        let mut i: usize = 0;
        while i < self.controllers.len()
            invariant
                i <= self.controllers.len(),
                self@.wf(),
                forall|k: int| 0 <= k < i ==> self@.controllers[k].id != id@,
            decreases self.controllers.len() - i,
        {
            assert(self@.controllers[i as int] == self.controllers@[i as int]@);
            if same_text(self.controllers[i].id.as_str(), id) {
                proof {
                    let chosen = choose|k: int|
                        0 <= k < self@.controllers.len() && self@.controllers[k].id == id@;
                    assert(chosen == i) by {
                        if chosen < i {
                            assert(self@.controllers[chosen].id != self@.controllers[i as int].id);
                        } else if chosen > i {
                            assert(self@.controllers[i as int].id != self@.controllers[chosen].id);
                        }
                    }
                }
                return Some(i);
            }
            i += 1;
        }
        None
    }

    /// Registers the runner of the collector `id`, whose initialisation has
    /// succeeded, and gives the runner its number. Afterwards the collector
    /// has one controller, that of the new runner; a runner that had the
    /// collector's controller before has none now. Runners are registered
    /// before the loop begins.
    pub fn register(&mut self, id: Id) -> (r: Registration)
        requires
            old(self)@.phase == Phase::Created,
            old(self)@.spawned < usize::MAX,
        ensures
            final(self)@ == old(self)@.registered(id@),
            final(self)@.wf(),
            has_controller(final(self)@, id@),
            r.runner == old(self)@.spawned,
            match r.replaced {
                Some(runner) => old(self)@.position(id@) is Some && old(self)@.controllers[old(self)@.position(id@)->Some_0].runner == runner,
                None => old(self)@.position(id@) is None,
            },
    {
        proof {
            use_type_invariant(&*self);
            lemma_registered(self@, id@);
        }
        let found = self.find(id.as_str());
        let runner = self.spawned;
        let ghost before = self@;
        let ghost entry = ControllerView { id: id@, runner: runner as nat };
        let mut controllers: Vec<CollectorController> = Vec::new();
        std::mem::swap(&mut controllers, &mut self.controllers);
        assert(controller_views(controllers@) == before.controllers);
        let replaced = match found {
            Some(i) => {
                assert(before.controllers[i as int] == controllers@[i as int]@);
                let prior = controllers[i].runner;
                controllers.set(i, CollectorController { id: id, runner: runner });
                assert(controller_views(controllers@) =~= before.controllers.update(
                    i as int,
                    entry,
                ));
                Some(prior)
            },
            None => {
                controllers.push(CollectorController { id: id, runner: runner });
                assert(controller_views(controllers@) =~= before.controllers.push(entry));
                None
            },
        };
        self.spawned = runner + 1;
        self.controllers = controllers;
        Registration { runner: runner, replaced: replaced }
    }

    fn to_all(&self, request: CollectorRequest) -> (r: Vec<Action>)
        ensures
            action_views(r@) == broadcast(self@.controllers, request),
    {
        let mut out: Vec<Action> = Vec::new();
        let mut i: usize = 0;
        while i < self.controllers.len()
            invariant
                i <= self.controllers.len(),
                out@.len() == i,
                forall|k: int|
                    0 <= k < i ==> (#[trigger] out@[k])@ == ActionView::Send(
                        self.controllers@[k]@.id,
                        request,
                    ),
            decreases self.controllers.len() - i,
        {
            out.push(Action::Send(self.controllers[i].id.clone(), request));
            i += 1;
        }
        assert(action_views(out@) =~= broadcast(self@.controllers, request));
        out
    }

    fn teardown_plan(&self) -> (r: Vec<Action>)
        ensures
            action_views(r@) == teardown(self@),
    {
        let mut out = self.to_all(CollectorRequest::Shutdown);
        let ghost sent = out@;
        let mut i: usize = 0;
        while i < self.controllers.len()
            invariant
                i <= self.controllers.len(),
                out@.len() == sent.len() + i,
                forall|k: int| 0 <= k < sent.len() ==> out@[k] == sent[k],
                forall|k: int|
                    0 <= k < i ==> (#[trigger] out@[sent.len() + k])@ == ActionView::Join(
                        self.controllers@[k]@.runner,
                    ),
            decreases self.controllers.len() - i,
        {
            out.push(Action::Join(self.controllers[i].runner));
            i += 1;
        }
        assert(action_views(out@) =~= broadcast(self@.controllers, CollectorRequest::Shutdown)
            + join_all(self@.controllers)) by {
            let joined = broadcast(self@.controllers, CollectorRequest::Shutdown) + join_all(
                self@.controllers,
            );
            assert(action_views(sent) == broadcast(self@.controllers, CollectorRequest::Shutdown));
            assert(action_views(out@).len() == joined.len());
            assert forall|k: int| 0 <= k < joined.len() implies action_views(out@)[k]
                == joined[k] by {
                if k < sent.len() {
                    assert(action_views(sent)[k] == sent[k]@);
                } else {
                    assert(out@[sent.len() + (k - sent.len())]@ == ActionView::Join(
                        self.controllers@[k - sent.len()]@.runner,
                    ));
                }
            }
        }
        if self.sending {
            let ghost before = out@;
            out.push(Action::Forward(BosunRequest::Shutdown));
            out.push(Action::JoinEmitter);
            assert(action_views(out@) =~= action_views(before) + seq![
                ActionView::Forward(BosunRequestView::Shutdown),
                ActionView::JoinEmitter,
            ]);
        } else {
            assert(action_views(out@) + Seq::<ActionView>::empty() =~= action_views(out@));
        }
        out
    }

    fn route(&self, msg: Msg) -> (r: Vec<Action>)
        ensures
            action_views(r@) == routed(self@, msg@),
    {
        let Msg::Collector(id, response) = msg;
        let out: Vec<Action> = match response {
            CollectorResponse::Id(_) => Vec::new(),
            CollectorResponse::Metadata(m) => {
                if self.sending {
                    vec![Action::Forward(BosunRequest::Metadata(m))]
                } else {
                    Vec::new()
                }
            },
            CollectorResponse::Sample(sample) => {
                if self.sending {
                    vec![Action::Forward(BosunRequest::Sample(sample))]
                } else {
                    Vec::new()
                }
            },
            CollectorResponse::CollectionError(_) => {
                match self.find(id.as_str()) {
                    Some(_) => vec![Action::Send(id, CollectorRequest::Init)],
                    None => Vec::new(),
                }
            },
        };
        assert(action_views(out@) =~= routed(self@, msg@));
        out
    }

    /// Takes an event of the loop and says what is to be done, in order.
    pub fn step(&mut self, event: Event) -> (r: Vec<Action>)
        ensures
            (final(self)@, action_views(r@)) == next(old(self)@, event@),
            final(self)@.wf(),
    {
        proof {
            use_type_invariant(&*self);
        }
        let none: Vec<Action> = Vec::new();
        assert(action_views(none@) =~= Seq::<ActionView>::empty());
        match self.phase {
            Phase::Created => match event {
                Event::Start => {
                    let out = self.to_all(CollectorRequest::Metadata);
                    self.phase = Phase::Running;
                    out
                },
                _ => none,
            },
            Phase::Running => match event {
                Event::Start => none,
                Event::Tick => self.to_all(CollectorRequest::Sample),
                Event::Signal => {
                    let out = self.teardown_plan();
                    self.phase = Phase::Terminated;
                    out
                },
                Event::Disconnected => {
                    let out = self.teardown_plan();
                    self.phase = Phase::Terminated;
                    out
                },
                Event::Response(msg) => self.route(msg),
            },
            Phase::Terminated => none,
        }
    }
}

/// Whether, among the first `upto` of the actions, the runner of the
/// collector `id` is asked for its descriptors.
pub open spec fn asked_for_metadata(acts: Seq<ActionView>, id: Seq<char>, upto: int) -> bool {
    exists|j: int|
        0 <= j < upto && j < acts.len() && #[trigger] acts[j] == ActionView::Send(
            id,
            CollectorRequest::Metadata,
        )
}

/// Whether the `k`-th action asks a runner for a sample.
pub open spec fn asks_for_sample(acts: Seq<ActionView>, k: int) -> bool {
    match acts[k] {
        ActionView::Send(_, request) => request == CollectorRequest::Sample,
        _ => false,
    }
}

/// Whether every request for a sample follows a request for descriptors to
/// the same runner.
pub open spec fn metadata_first(acts: Seq<ActionView>) -> bool {
    forall|k: int|
        0 <= k < acts.len() && asks_for_sample(acts, k) ==> asked_for_metadata(
            acts,
            (#[trigger] acts[k])->Send_0,
            k,
        )
}

proof fn lemma_run_keeps_order(s: SchedulerView, events: Seq<EventView>)
    requires
        s.phase == Phase::Created,
    ensures
        run(s, events).0.controllers == s.controllers,
        run(s, events).0.phase == Phase::Created ==> forall|k: int|
            0 <= k < run(s, events).1.len() ==> !asks_for_sample(run(s, events).1, k),
        run(s, events).0.phase != Phase::Created ==> forall|i: int|
            0 <= i < s.controllers.len() ==> asked_for_metadata(
                run(s, events).1,
                (#[trigger] s.controllers[i]).id,
                run(s, events).1.len() as int,
            ),
        metadata_first(run(s, events).1),
    decreases events.len(),
{
    if events.len() > 0 {
        lemma_run_keeps_order(s, events.drop_last());
        let (before, done) = run(s, events.drop_last());
        let (after, more) = next(before, events.last());
        let acts = done + more;
        assert(run(s, events) == (after, acts));
        assert forall|k: int| 0 <= k < more.len() && asks_for_sample(more, k) implies before.phase
            == Phase::Running && events.last() == EventView::Tick && more == broadcast(
            before.controllers,
            CollectorRequest::Sample,
        ) by {
            match before.phase {
                Phase::Running => match events.last() {
                    EventView::Signal => {
                        lemma_teardown_asks_no_sample(before, k);
                    },
                    EventView::Disconnected => {
                        lemma_teardown_asks_no_sample(before, k);
                    },
                    _ => {},
                },
                _ => {},
            }
        }
        assert forall|k: int| 0 <= k < acts.len() && asks_for_sample(acts, k) implies asked_for_metadata(
            acts,
            (#[trigger] acts[k])->Send_0,
            k,
        ) by {
            if k < done.len() {
                assert(acts[k] == done[k]);
                assert(asks_for_sample(done, k));
                let id = done[k]->Send_0;
                let j = choose|j: int|
                    0 <= j < k && j < done.len() && #[trigger] done[j] == ActionView::Send(
                        id,
                        CollectorRequest::Metadata,
                    );
                assert(acts[j] == done[j]);
            } else {
                let m = k - done.len();
                assert(acts[k] == more[m]);
                assert(asks_for_sample(more, m));
                let id = before.controllers[m].id;
                assert(more[m] == ActionView::Send(id, CollectorRequest::Sample));
                assert(asked_for_metadata(done, s.controllers[m].id, done.len() as int));
                let j = choose|j: int|
                    0 <= j < done.len() && #[trigger] done[j] == ActionView::Send(
                        id,
                        CollectorRequest::Metadata,
                    );
                assert(acts[j] == done[j]);
            }
        }
        if after.phase == Phase::Created {
            assert(more =~= Seq::<ActionView>::empty());
            assert forall|k: int| 0 <= k < acts.len() implies !asks_for_sample(acts, k) by {
                assert(acts[k] == done[k]);
                assert(!asks_for_sample(done, k));
            }
        } else {
            assert forall|i: int| 0 <= i < s.controllers.len() implies asked_for_metadata(
                acts,
                (#[trigger] s.controllers[i]).id,
                acts.len() as int,
            ) by {
                let id = s.controllers[i].id;
                if before.phase == Phase::Created {
                    assert(more == broadcast(before.controllers, CollectorRequest::Metadata));
                    assert(acts[done.len() + i] == more[i]);
                    assert(acts[done.len() + i] == ActionView::Send(
                        id,
                        CollectorRequest::Metadata,
                    ));
                } else {
                    assert(asked_for_metadata(done, s.controllers[i].id, done.len() as int));
                    let j = choose|j: int|
                        0 <= j < done.len() && #[trigger] done[j] == ActionView::Send(
                            id,
                            CollectorRequest::Metadata,
                        );
                    assert(acts[j] == done[j]);
                }
            }
        }
    }
}

proof fn lemma_teardown_asks_no_sample(s: SchedulerView, k: int)
    requires
        0 <= k < teardown(s).len(),
    ensures
        !asks_for_sample(teardown(s), k),
{
}

/// Whatever happens from before the scheduler's loop began: a runner is
/// asked for a sample only after it has been asked for its descriptors.
pub proof fn lemma_metadata_before_samples(s: SchedulerView, events: Seq<EventView>)
    requires
        s.phase == Phase::Created,
    ensures
        metadata_first(run(s, events).1),
{
    lemma_run_keeps_order(s, events);
}

/// As long as the scheduler's loop has not begun, no runner is asked for a
/// sample.
pub proof fn lemma_no_sample_before_start(s: SchedulerView, events: Seq<EventView>, k: int)
    requires
        s.phase == Phase::Created,
        run(s, events).0.phase == Phase::Created,
        0 <= k < run(s, events).1.len(),
    ensures
        !asks_for_sample(run(s, events).1, k),
{
    lemma_run_keeps_order(s, events);
}

/// The scheduler before anything is registered.
pub open spec fn fresh(sending: bool) -> SchedulerView {
    SchedulerView {
        controllers: Seq::<ControllerView>::empty(),
        phase: Phase::Created,
        sending: sending,
        spawned: 0,
    }
}

/// The scheduler after the runners of the collectors `ids` were registered,
/// one after the other.
pub open spec fn after_registering(s: SchedulerView, ids: Seq<Seq<char>>) -> SchedulerView
    decreases ids.len(),
{
    if ids.len() == 0 {
        s
    } else {
        after_registering(s, ids.drop_last()).registered(ids.last())
    }
}

/// Whether the collector `id` has a controller.
pub open spec fn has_controller(s: SchedulerView, id: Seq<char>) -> bool {
    exists|i: int| 0 <= i < s.controllers.len() && (#[trigger] s.controllers[i]).id == id
}

/// Registering a runner keeps the controllers in order: the collector has a
/// controller afterwards, and so has every collector that had one.
pub proof fn lemma_registered(s: SchedulerView, id: Seq<char>)
    requires
        s.wf(),
    ensures
        s.registered(id).wf(),
        has_controller(s.registered(id), id),
        forall|x: Seq<char>| has_controller(s, x) ==> has_controller(s.registered(id), x),
{
    let r = s.registered(id);
    let entry = ControllerView { id: id, runner: s.spawned };
    let at: int = match s.position(id) {
        Some(i) => i,
        None => s.controllers.len() as int,
    };
    assert(r.controllers[at] == entry);
    assert forall|i: int| 0 <= i < r.controllers.len() && i != at implies (
    #[trigger] r.controllers[i]) == s.controllers[i] && r.controllers[i].id != id by {
        if s.position(id) is Some {
            if i < at {
                assert(s.controllers[i].id != s.controllers[at].id);
            } else {
                assert(s.controllers[at].id != s.controllers[i].id);
            }
        }
    }
    assert(r.wf()) by {
        assert forall|i: int, j: int| 0 <= i < j < r.controllers.len() implies r.controllers[i].id
            != r.controllers[j].id && r.controllers[i].runner != r.controllers[j].runner by {
            if i != at && j != at {
                assert(r.controllers[i] == s.controllers[i]);
                assert(r.controllers[j] == s.controllers[j]);
            } else if i == at {
                assert(r.controllers[j] == s.controllers[j]);
            } else {
                assert(r.controllers[i] == s.controllers[i]);
            }
        }
        assert forall|i: int| 0 <= i < r.controllers.len() implies (
        #[trigger] r.controllers[i]).runner < r.spawned by {
            if i != at {
                assert(r.controllers[i] == s.controllers[i]);
            }
        }
    }
    assert(has_controller(r, id));
    assert forall|x: Seq<char>| has_controller(s, x) implies has_controller(r, x) by {
        let i = choose|i: int| 0 <= i < s.controllers.len() && (#[trigger] s.controllers[i]).id == x;
        if i == at {
            assert(r.controllers[at].id == x);
        } else {
            assert(r.controllers[i].id == x);
        }
    }
}

/// However many runners are registered, and for whichever collectors: every
/// one of the collectors has exactly one controller, and that controller has
/// a runner which no other controller has.
pub proof fn lemma_one_controller_each(sending: bool, ids: Seq<Seq<char>>, k: int)
    requires
        0 <= k < ids.len(),
    ensures
        after_registering(fresh(sending), ids).wf(),
        exists|i: int|
            0 <= i < after_registering(fresh(sending), ids).controllers.len() && (
            #[trigger] after_registering(fresh(sending), ids).controllers[i]).id == ids[k]
                && forall|j: int|
                0 <= j < after_registering(fresh(sending), ids).controllers.len() && j != i
                    ==> (#[trigger] after_registering(fresh(sending), ids).controllers[j]).id
                    != ids[k] && after_registering(fresh(sending), ids).controllers[j].runner
                    != after_registering(fresh(sending), ids).controllers[i].runner,
{
    lemma_all_registered(sending, ids, k);
    let t = after_registering(fresh(sending), ids);
    let i = choose|i: int| 0 <= i < t.controllers.len() && (#[trigger] t.controllers[i]).id == ids[k];
    assert forall|j: int| 0 <= j < t.controllers.len() && j != i implies (
    #[trigger] t.controllers[j]).id != ids[k] && t.controllers[j].runner
        != t.controllers[i].runner by {
        if j < i {
            assert(t.controllers[j].id != t.controllers[i].id);
            assert(t.controllers[j].runner != t.controllers[i].runner);
        } else {
            assert(t.controllers[i].id != t.controllers[j].id);
            assert(t.controllers[i].runner != t.controllers[j].runner);
        }
    }
}

proof fn lemma_all_registered(sending: bool, ids: Seq<Seq<char>>, k: int)
    requires
        0 <= k < ids.len(),
    ensures
        after_registering(fresh(sending), ids).wf(),
        has_controller(after_registering(fresh(sending), ids), ids[k]),
    decreases ids.len(),
{
    lemma_registering_keeps_order(sending, ids.drop_last());
    let before = after_registering(fresh(sending), ids.drop_last());
    lemma_registered(before, ids.last());
    if k < ids.len() - 1 {
        lemma_all_registered(sending, ids.drop_last(), k);
        assert(ids.drop_last()[k] == ids[k]);
    }
}

proof fn lemma_registering_keeps_order(sending: bool, ids: Seq<Seq<char>>)
    ensures
        after_registering(fresh(sending), ids).wf(),
    decreases ids.len(),
{
    if ids.len() > 0 {
        lemma_registering_keeps_order(sending, ids.drop_last());
        lemma_registered(after_registering(fresh(sending), ids.drop_last()), ids.last());
    }
}

/// Once its loop has ended, a scheduler does nothing more, whatever happens.
pub proof fn lemma_nothing_after_the_end(s: SchedulerView, events: Seq<EventView>)
    requires
        s.phase == Phase::Terminated,
    ensures
        run(s, events) == (s, Seq::<ActionView>::empty()),
    decreases events.len(),
{
    if events.len() > 0 {
        lemma_nothing_after_the_end(s, events.drop_last());
        assert(Seq::<ActionView>::empty() + Seq::<ActionView>::empty() =~= Seq::<
            ActionView,
        >::empty());
    }
}

/// A signal ends a running loop at once: every runner is told to shut down
/// and is waited for, and after them the emitter, if there is one.
pub proof fn lemma_signal_ends_the_loop(s: SchedulerView)
    requires
        s.phase == Phase::Running,
    ensures
        next(s, EventView::Signal).0.phase == Phase::Terminated,
        next(s, EventView::Signal).1 == teardown(s),
        forall|i: int|
            0 <= i < s.controllers.len() ==> teardown(s)[i] == ActionView::Send(
                (#[trigger] s.controllers[i]).id,
                CollectorRequest::Shutdown,
            ) && teardown(s)[s.controllers.len() + i] == ActionView::Join(s.controllers[i].runner),
        s.sending ==> teardown(s).len() == 2 * s.controllers.len() + 2 && teardown(s)[2
            * s.controllers.len() as int] == ActionView::Forward(BosunRequestView::Shutdown)
            && teardown(s)[2 * s.controllers.len() as int + 1] == ActionView::JoinEmitter,
        !s.sending ==> teardown(s).len() == 2 * s.controllers.len(),
{
}

} // verus!
