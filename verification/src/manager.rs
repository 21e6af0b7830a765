//! The manager of the `dsh` server process and the lifecycle of its
//! operations (start, stop, restart).
//!
//! An operation is driven step by step: [`DshManager::begin`] and
//! [`DshManager::resume`] return the next [`Action`] for the caller to perform
//! (terminate a process, publish a status, launch the server) and the caller
//! reports its outcome as an [`Event`]. The manager keeps the current status
//! and the handle of the running server, of a type `C` chosen by the caller.

use vstd::prelude::*;
use crate::status::{
    failed_view, is_ready_state, ready_view, starting_view, stopped_view, DshStatus, StatusView,
};

verus! {

/// The operations that the shell offers.
#[derive(Clone, Copy, Debug, PartialEq, Eq)]
pub enum Operation {
    Start,
    Stop,
    Restart,
}

/// What follows once the server has been stopped and `stopped` published.
#[derive(Clone, Copy, Debug, PartialEq, Eq)]
pub enum Then {
    /// The operation was a stop: it ends.
    Finish,
    /// The operation is a start: `starting` is published next.
    EmitStarting,
    /// The operation is a restart: a start begins next.
    BeginStart,
}

/// Where the running operation stands, that is, which event it awaits.
#[derive(Clone, Copy, Debug, PartialEq, Eq)]
pub enum Stage {
    /// No operation runs.
    Idle,
    /// The previous server is being terminated.
    Terminating(Then),
    /// `stopped` is being published.
    EmittingStopped(Then),
    /// `starting` is being published.
    EmittingStarting,
    /// The server is being launched.
    Launching,
    /// `ready` is being published.
    EmittingReady,
    /// `failed` is being published.
    EmittingFailed,
}

/// What the caller does next.
pub enum Action<C> {
    /// Terminate this server process, then report [`Event::Terminated`].
    Terminate(C),
    /// Publish this status, then report [`Event::Emitted`].
    Emit(DshStatus),
    /// Launch the server, then report [`Event::Launched`].
    Launch,
    /// The operation is over, with this result.
    Finish(Result<DshStatus, String>),
}

/// The outcome of an action.
pub enum Event<C> {
    Terminated,
    Emitted(Result<(), String>),
    /// The launched server's handle and port, or why the launch failed.
    Launched(Result<(C, u16), String>),
}

pub enum ActionView<C> {
    Terminate(C),
    Emit(StatusView),
    Launch,
    Finish(Result<StatusView, Seq<char>>),
}

pub enum EventView<C> {
    Terminated,
    Emitted(Result<(), Seq<char>>),
    Launched(Result<(C, u16), Seq<char>>),
}

impl<C> View for Action<C> {
    type V = ActionView<C>;

    open spec fn view(&self) -> ActionView<C> {
        match self {
            Action::Terminate(c) => ActionView::Terminate(*c),
            Action::Emit(s) => ActionView::Emit(s@),
            Action::Launch => ActionView::Launch,
            Action::Finish(Ok(s)) => ActionView::Finish(Ok(s@)),
            Action::Finish(Err(e)) => ActionView::Finish(Err(e@)),
        }
    }
}

impl<C> View for Event<C> {
    type V = EventView<C>;

    open spec fn view(&self) -> EventView<C> {
        match self {
            Event::Terminated => EventView::Terminated,
            Event::Emitted(Ok(())) => EventView::Emitted(Ok(())),
            Event::Emitted(Err(e)) => EventView::Emitted(Err(e@)),
            Event::Launched(Ok((c, p))) => EventView::Launched(Ok((*c, *p))),
            Event::Launched(Err(e)) => EventView::Launched(Err(e@)),
        }
    }
}

/// The mathematical state of a manager.
pub struct Machine<C> {
    pub stage: Stage,
    pub child: Option<C>,
    pub status: StatusView,
}

/// Which event each stage awaits.
pub open spec fn awaits<C>(stage: Stage, event: EventView<C>) -> bool {
    match stage {
        Stage::Idle => false,
        Stage::Terminating(_) => event is Terminated,
        Stage::Launching => event is Launched,
        _ => event is Emitted,
    }
}

/// What holds of the manager at each stage.
pub open spec fn stage_invariant<C>(m: Machine<C>) -> bool {
    match m.stage {
        Stage::Idle => is_ready_state(m.status) ==> m.child is Some,
        Stage::Terminating(_) => m.child is None,
        Stage::EmittingStopped(_) => m.child is None && m.status == stopped_view(),
        Stage::EmittingStarting => m.child is None && m.status == starting_view(),
        Stage::Launching => m.child is None && m.status == starting_view(),
        Stage::EmittingReady => m.child is Some && is_ready_state(m.status),
        Stage::EmittingFailed => m.status.state == "failed"@,
    }
}

/// Stopping: the held server, if any, is terminated, then `stopped` is published.
pub open spec fn stop_begin<C>(m: Machine<C>, then: Then) -> (Machine<C>, ActionView<C>) {
    match m.child {
        Some(c) => (
            Machine { stage: Stage::Terminating(then), child: None, status: m.status },
            ActionView::Terminate(c),
        ),
        None => (
            Machine { stage: Stage::EmittingStopped(then), child: None, status: stopped_view() },
            ActionView::Emit(stopped_view()),
        ),
    }
}

/// Starting: a ready server is left as it is; otherwise the server is
/// stopped first.
pub open spec fn start_begin<C>(m: Machine<C>) -> (Machine<C>, ActionView<C>) {
    if is_ready_state(m.status) {
        (Machine { stage: Stage::Idle, ..m }, ActionView::Finish(Ok(m.status)))
    } else {
        stop_begin(m, Then::EmitStarting)
    }
}

/// The first step of an operation.
pub open spec fn begin_spec<C>(m: Machine<C>, op: Operation) -> (Machine<C>, ActionView<C>) {
    match op {
        Operation::Start => start_begin(m),
        Operation::Stop => stop_begin(m, Then::Finish),
        Operation::Restart => stop_begin(m, Then::BeginStart),
    }
}

/// What follows a successful publication of `stopped`.
pub open spec fn after_stop<C>(m: Machine<C>, then: Then) -> (Machine<C>, ActionView<C>) {
    match then {
        Then::Finish => (
            Machine { stage: Stage::Idle, ..m },
            ActionView::Finish(Ok(stopped_view())),
        ),
        Then::EmitStarting => (
            Machine { stage: Stage::EmittingStarting, child: m.child, status: starting_view() },
            ActionView::Emit(starting_view()),
        ),
        Then::BeginStart => start_begin(m),
    }
}

/// Publishing `failed` with this error.
pub open spec fn publish_failure<C>(m: Machine<C>, e: Seq<char>) -> (Machine<C>, ActionView<C>) {
    (
        Machine { stage: Stage::EmittingFailed, child: m.child, status: failed_view(e) },
        ActionView::Emit(failed_view(e)),
    )
}

/// The step that an awaited event causes.
pub open spec fn resume_spec<C>(m: Machine<C>, event: EventView<C>) -> (Machine<C>, ActionView<C>) {
    match (m.stage, event) {
        (Stage::Terminating(then), EventView::Terminated) => (
            Machine { stage: Stage::EmittingStopped(then), child: m.child, status: stopped_view() },
            ActionView::Emit(stopped_view()),
        ),
        (Stage::EmittingStopped(then), EventView::Emitted(Ok(()))) => after_stop(m, then),
        (Stage::EmittingStarting, EventView::Emitted(Ok(()))) => (
            Machine { stage: Stage::Launching, ..m },
            ActionView::Launch,
        ),
        (Stage::Launching, EventView::Launched(Ok((c, port)))) => (
            Machine { stage: Stage::EmittingReady, child: Some(c), status: ready_view(port) },
            ActionView::Emit(ready_view(port)),
        ),
        (Stage::Launching, EventView::Launched(Err(e))) => publish_failure(m, e),
        (Stage::EmittingReady, EventView::Emitted(Err(e))) => publish_failure(m, e),
        (Stage::EmittingReady, EventView::Emitted(Ok(()))) => (
            Machine { stage: Stage::Idle, ..m },
            ActionView::Finish(Ok(m.status)),
        ),
        (Stage::EmittingFailed, EventView::Emitted(Ok(()))) => (
            Machine { stage: Stage::Idle, ..m },
            ActionView::Finish(Ok(m.status)),
        ),
        (_, EventView::Emitted(Err(e))) => (
            Machine { stage: Stage::Idle, ..m },
            ActionView::Finish(Err(e)),
        ),
        _ => (m, ActionView::Launch),
    }
}

/// The state of the shell: the status last set and the running server.
pub struct DshManager<C> {
    child: Option<C>,
    status: DshStatus,
    stage: Stage,
}

impl<C> DshManager<C> {
    #[verifier::type_invariant]
    spec fn well_formed(self) -> bool {
        stage_invariant(self.machine())
    }

    pub closed spec fn machine(self) -> Machine<C> {
        Machine { stage: self.stage, child: self.child, status: self.status@ }
    }

    /// A manager with no server, reporting `stopped`.
    pub fn new() -> (m: Self)
        ensures
            m.machine() == (Machine::<C> { stage: Stage::Idle, child: None, status: stopped_view() }),
    {
        proof {
            reveal_strlit("stopped");
            reveal_strlit("ready");
        }
        let status = DshStatus::stopped();
        assert(!is_ready_state(status@)) by {
            assert("stopped"@.len() != "ready"@.len());
        }
        DshManager { child: None, status, stage: Stage::Idle }
    }

    /// The current status.
    pub fn status(&self) -> (s: DshStatus)
        ensures
            s@ == self.machine().status,
            stage_invariant(self.machine()),
    {
        proof {
            use_type_invariant(self);
        }
        self.status.snapshot()
    }

    /// Whether no operation runs.
    pub fn is_idle(&self) -> (b: bool)
        ensures
            b == (self.machine().stage is Idle),
    {
        match self.stage {
            Stage::Idle => true,
            _ => false,
        }
    }

    /// Whether the running operation awaits this event.
    pub fn awaits(&self, event: &Event<C>) -> (b: bool)
        ensures
            b == awaits(self.machine().stage, event@),
    {
        match (self.stage, event) {
            (Stage::Idle, _) => false,
            (Stage::Terminating(_), Event::Terminated) => true,
            (Stage::Terminating(_), _) => false,
            (Stage::Launching, Event::Launched(_)) => true,
            (Stage::Launching, _) => false,
            (_, Event::Emitted(_)) => true,
            (_, _) => false,
        }
    }
}

impl<C> DshManager<C> {
    /// Starts an operation.
    pub fn begin(&mut self, op: Operation) -> (a: Action<C>)
        requires
            old(self).machine().stage is Idle,
        ensures
            (final(self).machine(), a@) == begin_spec(old(self).machine(), op),
            stage_invariant(final(self).machine()),
    {
        proof {
            use_type_invariant(&*self);
        }
        let a = match op {
            Operation::Start => self.start_begin(),
            Operation::Stop => self.stop_begin(Then::Finish),
            Operation::Restart => self.stop_begin(Then::BeginStart),
        };
        proof {
            use_type_invariant(&*self);
        }
        a
    }

    fn stop_begin(&mut self, then: Then) -> (a: Action<C>)
        ensures
            (final(self).machine(), a@) == stop_begin(old(self).machine(), then),
    {
        let mut previous = DshManager::new();
        std::mem::swap(self, &mut previous);
        let DshManager { child, status, stage: _ } = previous;
        match child {
            Some(c) => {
                *self = DshManager { child: None, status, stage: Stage::Terminating(then) };
                Action::Terminate(c)
            },
            None => {
                *self = DshManager {
                    child: None,
                    status: DshStatus::stopped(),
                    stage: Stage::EmittingStopped(then),
                };
                Action::Emit(DshStatus::stopped())
            },
        }
    }

    fn start_begin(&mut self) -> (a: Action<C>)
        requires
            old(self).machine().stage is Idle || old(self).machine().status == stopped_view(),
        ensures
            (final(self).machine(), a@) == start_begin(old(self).machine()),
    {
        proof {
            reveal_strlit("stopped");
            reveal_strlit("ready");
            assert("stopped"@.len() != "ready"@.len());
        }
        if self.status.is_ready() {
            Action::Finish(Ok(self.status.snapshot()))
        } else {
            self.stop_begin(Then::EmitStarting)
        }
    }
}

impl<C> DshManager<C> {
    /// Takes the outcome of the last action and returns the next one.
    pub fn resume(&mut self, event: Event<C>) -> (a: Action<C>)
        requires
            awaits(old(self).machine().stage, event@),
        ensures
            (final(self).machine(), a@) == resume_spec(old(self).machine(), event@),
            stage_invariant(final(self).machine()),
    {
        proof {
            use_type_invariant(&*self);
            lemma_state_names_differ();
        }
        let a = match (self.stage, event) {
            (Stage::Terminating(then), Event::Terminated) => {
                self.status = DshStatus::stopped();
                self.stage = Stage::EmittingStopped(then);
                Action::Emit(DshStatus::stopped())
            },
            (Stage::EmittingStopped(then), Event::Emitted(Ok(()))) => {
                match then {
                    Then::Finish => {
                        self.stage = Stage::Idle;
                        Action::Finish(Ok(DshStatus::stopped()))
                    },
                    Then::EmitStarting => {
                        *self = DshManager {
                            child: None,
                            status: DshStatus::starting(),
                            stage: Stage::EmittingStarting,
                        };
                        Action::Emit(DshStatus::starting())
                    },
                    Then::BeginStart => {
                        self.stage = Stage::Idle;
                        self.start_begin()
                    },
                }
            },
            (Stage::EmittingStarting, Event::Emitted(Ok(()))) => {
                self.stage = Stage::Launching;
                Action::Launch
            },
            (Stage::Launching, Event::Launched(Ok((c, port)))) => {
                *self = DshManager {
                    child: Some(c),
                    status: DshStatus::ready(port),
                    stage: Stage::EmittingReady,
                };
                Action::Emit(DshStatus::ready(port))
            },
            (Stage::Launching, Event::Launched(Err(e))) => self.publish_failure(e),
            (Stage::EmittingReady, Event::Emitted(Err(e))) => self.publish_failure(e),
            (Stage::EmittingReady, Event::Emitted(Ok(()))) => {
                self.stage = Stage::Idle;
                Action::Finish(Ok(self.status.snapshot()))
            },
            (Stage::EmittingFailed, Event::Emitted(Ok(()))) => {
                self.stage = Stage::Idle;
                Action::Finish(Ok(self.status.snapshot()))
            },
            (_, Event::Emitted(Err(e))) => {
                self.stage = Stage::Idle;
                Action::Finish(Err(e))
            },
            (_, _) => Action::Launch,
        };
        proof {
            use_type_invariant(&*self);
        }
        a
    }

    fn publish_failure(&mut self, error: String) -> (a: Action<C>)
        ensures
            (final(self).machine(), a@) == publish_failure(old(self).machine(), error@),
    {
        let mut previous = DshManager::new();
        std::mem::swap(self, &mut previous);
        let DshManager { child, status: _, stage: _ } = previous;
        proof {
            lemma_state_names_differ();
        }
        *self = DshManager {
            child,
            status: DshStatus::failed(error.clone()),
            stage: Stage::EmittingFailed,
        };
        Action::Emit(DshStatus::failed(error))
    }
}

/// The four state names are distinct.
proof fn lemma_state_names_differ()
    ensures
        "stopped"@ != "ready"@,
        "starting"@ != "ready"@,
        "failed"@ != "ready"@,
        "stopped"@ != "failed"@,
        "starting"@ != "failed"@,
        "stopped"@ != "starting"@,
{
    reveal_strlit("stopped");
    reveal_strlit("starting");
    reveal_strlit("ready");
    reveal_strlit("failed");
    assert("stopped"@.len() != "ready"@.len());
    assert("starting"@.len() != "ready"@.len());
    assert("failed"@.len() != "ready"@.len());
    assert("stopped"@.len() != "failed"@.len());
    assert("starting"@.len() != "failed"@.len());
    assert("stopped"@.len() != "starting"@.len());
}

impl<C> Default for DshManager<C> {
    fn default() -> (m: Self)
        ensures
            m.machine() == (Machine::<C> { stage: Stage::Idle, child: None, status: stopped_view() }),
    {
        DshManager::new()
    }
}

/// How many events an operation at this stage awaits at most before it ends.
pub open spec fn remaining_events(stage: Stage) -> nat {
    match stage {
        Stage::Idle => 0,
        Stage::EmittingFailed => 1,
        Stage::EmittingReady => 2,
        Stage::Launching => 3,
        Stage::EmittingStarting => 4,
        Stage::EmittingStopped(Then::Finish) => 1,
        Stage::EmittingStopped(Then::EmitStarting) => 5,
        Stage::EmittingStopped(Then::BeginStart) => 6,
        Stage::Terminating(Then::Finish) => 2,
        Stage::Terminating(Then::EmitStarting) => 6,
        Stage::Terminating(Then::BeginStart) => 7,
    }
}

/// The manager after a sequence of events, each applied while it is awaited.
pub open spec fn replay<C>(m: Machine<C>, events: Seq<EventView<C>>) -> Machine<C>
    decreases events.len(),
{
    if events.len() > 0 && awaits(m.stage, events[0]) {
        replay(resume_spec(m, events[0]).0, events.drop_first())
    } else {
        m
    }
}

/// Starting an operation keeps the stage invariant: in particular a manager
/// that reports `ready` holds a server.
pub proof fn lemma_begin_keeps_invariant<C>(m: Machine<C>, op: Operation)
    requires
        m.stage is Idle,
        stage_invariant(m),
    ensures
        stage_invariant(begin_spec(m, op).0),
{
    lemma_state_names_differ();
}

/// Every awaited event keeps the stage invariant.
pub proof fn lemma_resume_keeps_invariant<C>(m: Machine<C>, event: EventView<C>)
    requires
        stage_invariant(m),
        awaits(m.stage, event),
    ensures
        stage_invariant(resume_spec(m, event).0),
{
    lemma_state_names_differ();
}

/// What is published is what the manager then reports, and the status that an
/// operation ends with successfully is the manager's status.
pub proof fn lemma_published_status_is_current<C>(m: Machine<C>, op: Operation, event: EventView<C>)
    requires
        stage_invariant(m),
    ensures
        m.stage is Idle ==> match begin_spec(m, op).1 {
            ActionView::Emit(s) => s == begin_spec(m, op).0.status,
            ActionView::Finish(Ok(s)) => s == begin_spec(m, op).0.status,
            _ => true,
        },
        awaits(m.stage, event) ==> match resume_spec(m, event).1 {
            ActionView::Emit(s) => s == resume_spec(m, event).0.status,
            ActionView::Finish(Ok(s)) => s == resume_spec(m, event).0.status,
            _ => true,
        },
{
}

/// Starting a server that reports `ready` changes nothing and answers with
/// the current status.
pub proof fn lemma_start_when_ready_is_noop<C>(m: Machine<C>)
    requires
        m.stage is Idle,
        is_ready_state(m.status),
    ensures
        begin_spec(m, Operation::Start) == (m, ActionView::<C>::Finish(Ok(m.status))),
{
}

/// A held server is never dropped: a step either keeps it or hands it out
/// to be terminated.
pub proof fn lemma_server_never_dropped<C>(m: Machine<C>, op: Operation, event: EventView<C>)
    requires
        stage_invariant(m),
        m.child is Some,
    ensures
        m.stage is Idle ==> (begin_spec(m, op).0.child == m.child || begin_spec(m, op).1
            == ActionView::Terminate(m.child->0)),
        awaits(m.stage, event) ==> resume_spec(m, event).0.child == m.child,
{
}

/// Every operation ends: each awaited event brings it closer to its end, and
/// it awaits at most seven events after it begins.
pub proof fn lemma_operations_end<C>(m: Machine<C>, op: Operation, event: EventView<C>)
    requires
        stage_invariant(m),
    ensures
        m.stage is Idle ==> remaining_events(begin_spec(m, op).0.stage) <= 7,
        awaits(m.stage, event) ==> remaining_events(resume_spec(m, event).0.stage)
            < remaining_events(m.stage),
        remaining_events(m.stage) == 0 <==> m.stage is Idle,
{
    lemma_state_names_differ();
}

/// Once a stop has ended, whatever the events were, the manager reports
/// `stopped` and holds no server.
pub proof fn lemma_stop_ends_stopped<C>(m: Machine<C>, events: Seq<EventView<C>>)
    requires
        m.stage is Idle,
        replay(begin_spec(m, Operation::Stop).0, events).stage is Idle,
    ensures
        replay(begin_spec(m, Operation::Stop).0, events).status == stopped_view(),
        replay(begin_spec(m, Operation::Stop).0, events).child is None,
{
    let m1 = begin_spec(m, Operation::Stop).0;
    if events.len() > 0 && awaits(m1.stage, events[0]) {
        let m2 = resume_spec(m1, events[0]).0;
        let rest = events.drop_first();
        assert(replay(m1, events) == replay(m2, rest));
        assert(m2.status == stopped_view() && m2.child is None);
        if rest.len() > 0 && awaits(m2.stage, rest[0]) {
            let m3 = resume_spec(m2, rest[0]).0;
            assert(replay(m2, rest) == replay(m3, rest.drop_first()));
            assert(m3.stage is Idle);
            assert(replay(m3, rest.drop_first()) == m3);
        } else {
            assert(replay(m2, rest) == m2);
        }
    } else {
        assert(replay(m1, events) == m1);
    }
}

/// The answer of a caller for whom everything succeeds: each termination
/// completes, each publication succeeds, and the launch yields server `c`
/// listening on `port`.
pub open spec fn all_succeed<C>(action: ActionView<C>, c: C, port: u16) -> EventView<C> {
    match action {
        ActionView::Terminate(_) => EventView::Terminated,
        ActionView::Launch => EventView::Launched(Ok((c, port))),
        _ => EventView::Emitted(Ok(())),
    }
}

/// The answer of a caller whose publications succeed but whose launch fails
/// with `error`.
pub open spec fn launch_fails<C>(action: ActionView<C>, error: Seq<char>) -> EventView<C> {
    match action {
        ActionView::Terminate(_) => EventView::Terminated,
        ActionView::Launch => EventView::Launched(Err(error)),
        _ => EventView::Emitted(Ok(())),
    }
}

/// An operation carried on from `(m, a)` for at most `fuel` steps, each
/// action answered by `answer`, until it finishes.
pub open spec fn drive<C>(
    m: Machine<C>,
    a: ActionView<C>,
    answer: spec_fn(ActionView<C>) -> EventView<C>,
    fuel: nat,
) -> (Machine<C>, ActionView<C>)
    decreases fuel,
{
    if fuel == 0 || a is Finish {
        (m, a)
    } else {
        let next = resume_spec(m, answer(a));
        drive(next.0, next.1, answer, (fuel - 1) as nat)
    }
}

/// A restart in which everything succeeds always launches a new server,
/// whether or not one was running and whatever the status was: it ends
/// reporting `ready` on the launched port and holding the launched server.
pub proof fn lemma_restart_relaunches<C>(m: Machine<C>, c: C, port: u16)
    requires
        m.stage is Idle,
        stage_invariant(m),
    ensures
        ({
            let first = begin_spec(m, Operation::Restart);
            let end = drive(first.0, first.1, |a: ActionView<C>| all_succeed(a, c, port), 7);
            &&& end.1 == ActionView::<C>::Finish(Ok(ready_view(port)))
            &&& end.0.stage is Idle
            &&& end.0.status == ready_view(port)
            &&& end.0.child == Some(c)
        }),
{
    lemma_state_names_differ();
    reveal_with_fuel(drive, 8);
}

/// A start of a server that does not report `ready` (stopped, starting or
/// failed) always launches one: when everything succeeds it ends reporting
/// `ready` on the launched port and holding the launched server.
pub proof fn lemma_start_launches_unless_ready<C>(m: Machine<C>, c: C, port: u16)
    requires
        m.stage is Idle,
        stage_invariant(m),
        !is_ready_state(m.status),
    ensures
        ({
            let first = begin_spec(m, Operation::Start);
            let end = drive(first.0, first.1, |a: ActionView<C>| all_succeed(a, c, port), 7);
            &&& end.1 == ActionView::<C>::Finish(Ok(ready_view(port)))
            &&& end.0.stage is Idle
            &&& end.0.status == ready_view(port)
            &&& end.0.child == Some(c)
        }),
        !(begin_spec(m, Operation::Start).1 is Finish),
{
    lemma_state_names_differ();
    reveal_with_fuel(drive, 8);
}

/// A start whose launch fails reports `failed` with the launch's error, as
/// the operation's result and as the status, and holds no server.
pub proof fn lemma_failed_launch_reports_failure<C>(m: Machine<C>, error: Seq<char>)
    requires
        m.stage is Idle,
        stage_invariant(m),
        !is_ready_state(m.status),
    ensures
        ({
            let first = begin_spec(m, Operation::Start);
            let end = drive(first.0, first.1, |a: ActionView<C>| launch_fails(a, error), 7);
            &&& end.1 == ActionView::<C>::Finish(Ok(failed_view(error)))
            &&& end.0.stage is Idle
            &&& end.0.status == failed_view(error)
            &&& end.0.child is None
        }),
{
    lemma_state_names_differ();
    reveal_with_fuel(drive, 8);
}

/// A stop in which everything succeeds ends reporting `stopped`, with that
/// status as its result, and holds no server.
pub proof fn lemma_stop_succeeds<C>(m: Machine<C>, c: C, port: u16)
    requires
        m.stage is Idle,
        stage_invariant(m),
    ensures
        ({
            let first = begin_spec(m, Operation::Stop);
            let end = drive(first.0, first.1, |a: ActionView<C>| all_succeed(a, c, port), 7);
            &&& end.1 == ActionView::<C>::Finish(Ok(stopped_view()))
            &&& end.0.stage is Idle
            &&& end.0.status == stopped_view()
            &&& end.0.child is None
        }),
{
    lemma_state_names_differ();
    reveal_with_fuel(drive, 8);
}

/// The answer of a caller whose publications all fail with `error`.
pub open spec fn publication_fails<C>(action: ActionView<C>, error: Seq<char>) -> EventView<C> {
    match action {
        ActionView::Terminate(_) => EventView::Terminated,
        ActionView::Launch => EventView::Launched(Err(error)),
        _ => EventView::Emitted(Err(error)),
    }
}

/// The answer of a caller whose launch yields server `c` on `port` but whose
/// publication of `ready` fails with `error`; every other publication succeeds.
pub open spec fn ready_unpublished<C>(action: ActionView<C>, c: C, port: u16, error: Seq<char>) -> EventView<C> {
    match action {
        ActionView::Terminate(_) => EventView::Terminated,
        ActionView::Launch => EventView::Launched(Ok((c, port))),
        ActionView::Emit(s) => if s == ready_view(port) {
            EventView::Emitted(Err(error))
        } else {
            EventView::Emitted(Ok(()))
        },
        _ => EventView::Emitted(Ok(())),
    }
}

/// A stop whose publication fails ends with that error, yet the manager
/// reports `stopped` and holds no server.
pub proof fn lemma_failed_publication_ends_stop<C>(m: Machine<C>, error: Seq<char>)
    requires
        m.stage is Idle,
        stage_invariant(m),
    ensures
        ({
            let first = begin_spec(m, Operation::Stop);
            let end = drive(first.0, first.1, |a: ActionView<C>| publication_fails(a, error), 7);
            &&& end.1 == ActionView::<C>::Finish(Err(error))
            &&& end.0.stage is Idle
            &&& end.0.status == stopped_view()
            &&& end.0.child is None
        }),
{
    lemma_state_names_differ();
    reveal_with_fuel(drive, 8);
}

/// A start whose `ready` cannot be published reports `failed` with that
/// error, and keeps the launched server (so that the next start stops it).
pub proof fn lemma_unpublished_ready_becomes_failure<C>(m: Machine<C>, c: C, port: u16, error: Seq<char>)
    requires
        m.stage is Idle,
        stage_invariant(m),
        !is_ready_state(m.status),
    ensures
        ({
            let first = begin_spec(m, Operation::Start);
            let end = drive(
                first.0,
                first.1,
                |a: ActionView<C>| ready_unpublished(a, c, port, error),
                7,
            );
            &&& end.1 == ActionView::<C>::Finish(Ok(failed_view(error)))
            &&& end.0.stage is Idle
            &&& end.0.status == failed_view(error)
            &&& end.0.child == Some(c)
            &&& begin_spec(end.0, Operation::Start).1 == ActionView::Terminate(c)
        }),
{
    lemma_state_names_differ();
    reveal_with_fuel(drive, 8);
}

} // verus!
