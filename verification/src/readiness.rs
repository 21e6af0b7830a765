//! Waiting for the `dsh` server to answer, and judging its answer.
//!
//! [`ReadinessWait`] decides each step of the wait: read the clock, ask whether
//! the server process has exited, ask whether the server answers, sleep. The
//! caller performs each action and reports what it observed.

use vstd::prelude::*;

verus! {

/// How long the server has to become ready, in milliseconds.
pub const STARTUP_TIMEOUT_MILLIS: u64 = 30_000;

/// How long to sleep between two rounds, in milliseconds.
pub const POLL_INTERVAL_MILLIS: u64 = 100;

/// Where a wait stands.
#[derive(Clone, Copy, Debug, PartialEq, Eq)]
pub enum WaitStage {
    /// The clock is being read.
    AwaitingClock,
    /// The caller is asking whether the server process has stopped.
    AwaitingStopped,
    /// The caller is asking whether the server answers.
    AwaitingReady,
    /// The caller sleeps for the poll interval.
    Sleeping,
    /// The wait is over with this answer.
    Done(bool),
}

/// What the caller does next.
#[derive(Clone, Copy, Debug, PartialEq, Eq)]
pub enum WaitAction {
    /// Report the time elapsed since the wait began as [`WaitEvent::Clock`].
    ReadClock,
    /// Report whether the server process has stopped as [`WaitEvent::Stopped`].
    ProbeStopped,
    /// Report whether the server answers as [`WaitEvent::Ready`].
    ProbeReady,
    /// Sleep for the poll interval, then report [`WaitEvent::Slept`].
    Sleep,
    /// The wait is over: whether the server became ready.
    Finish(bool),
}

/// What the caller observed.
#[derive(Clone, Copy, Debug, PartialEq, Eq)]
pub enum WaitEvent {
    /// Nanoseconds elapsed since the wait began.
    Clock(u128),
    Stopped(bool),
    Ready(bool),
    Slept,
}

/// Which event each stage awaits.
pub open spec fn wait_awaits(stage: WaitStage, event: WaitEvent) -> bool {
    match stage {
        WaitStage::AwaitingClock => event is Clock,
        WaitStage::AwaitingStopped => event is Stopped,
        WaitStage::AwaitingReady => event is Ready,
        WaitStage::Sleeping => event is Slept,
        WaitStage::Done(_) => false,
    }
}

/// One step of the wait. While time is left, each round first asks whether
/// the process stopped (then the answer is `false`), then whether the server
/// answers (then it is `true`), and otherwise sleeps; once the deadline has
/// passed the answer is `false`.
pub open spec fn wait_step(timeout: u128, stage: WaitStage, event: WaitEvent) -> (WaitStage, WaitAction) {
    match (stage, event) {
        (WaitStage::AwaitingClock, WaitEvent::Clock(elapsed)) => if elapsed < timeout {
            (WaitStage::AwaitingStopped, WaitAction::ProbeStopped)
        } else {
            (WaitStage::Done(false), WaitAction::Finish(false))
        },
        (WaitStage::AwaitingStopped, WaitEvent::Stopped(stopped)) => if stopped {
            (WaitStage::Done(false), WaitAction::Finish(false))
        } else {
            (WaitStage::AwaitingReady, WaitAction::ProbeReady)
        },
        (WaitStage::AwaitingReady, WaitEvent::Ready(ready)) => if ready {
            (WaitStage::Done(true), WaitAction::Finish(true))
        } else {
            (WaitStage::Sleeping, WaitAction::Sleep)
        },
        (WaitStage::Sleeping, WaitEvent::Slept) => (WaitStage::AwaitingClock, WaitAction::ReadClock),
        _ => (stage, WaitAction::Sleep),
    }
}

/// A wait for the server, with its timeout in nanoseconds.
pub struct ReadinessWait {
    timeout_nanos: u128,
    stage: WaitStage,
}

impl ReadinessWait {
    pub closed spec fn timeout(self) -> u128 {
        self.timeout_nanos
    }

    pub closed spec fn stage(self) -> WaitStage {
        self.stage
    }

    /// A wait that first reads the clock.
    pub fn new(timeout_nanos: u128) -> (r: (ReadinessWait, WaitAction))
        ensures
            r.0.timeout() == timeout_nanos,
            r.0.stage() == WaitStage::AwaitingClock,
            r.1 == WaitAction::ReadClock,
    {
        (ReadinessWait { timeout_nanos, stage: WaitStage::AwaitingClock }, WaitAction::ReadClock)
    }

    /// Whether the wait awaits this event.
    pub fn awaits(&self, event: WaitEvent) -> (b: bool)
        ensures
            b == wait_awaits(self.stage(), event),
    {
        match (self.stage, event) {
            (WaitStage::AwaitingClock, WaitEvent::Clock(_)) => true,
            (WaitStage::AwaitingStopped, WaitEvent::Stopped(_)) => true,
            (WaitStage::AwaitingReady, WaitEvent::Ready(_)) => true,
            (WaitStage::Sleeping, WaitEvent::Slept) => true,
            _ => false,
        }
    }

    /// Takes what the caller observed and returns the next action.
    pub fn next(&mut self, event: WaitEvent) -> (a: WaitAction)
        requires
            wait_awaits(old(self).stage(), event),
        ensures
            final(self).timeout() == old(self).timeout(),
            (final(self).stage(), a) == wait_step(old(self).timeout(), old(self).stage(), event),
    {
        let (stage, action) = match (self.stage, event) {
            (WaitStage::AwaitingClock, WaitEvent::Clock(elapsed)) => if elapsed < self.timeout_nanos {
                (WaitStage::AwaitingStopped, WaitAction::ProbeStopped)
            } else {
                (WaitStage::Done(false), WaitAction::Finish(false))
            },
            (WaitStage::AwaitingStopped, WaitEvent::Stopped(stopped)) => if stopped {
                (WaitStage::Done(false), WaitAction::Finish(false))
            } else {
                (WaitStage::AwaitingReady, WaitAction::ProbeReady)
            },
            (WaitStage::AwaitingReady, WaitEvent::Ready(ready)) => if ready {
                (WaitStage::Done(true), WaitAction::Finish(true))
            } else {
                (WaitStage::Sleeping, WaitAction::Sleep)
            },
            (WaitStage::Sleeping, WaitEvent::Slept) => (
                WaitStage::AwaitingClock,
                WaitAction::ReadClock,
            ),
            _ => (self.stage, WaitAction::Sleep),
        };
        self.stage = stage;
        action
    }
}

/// The stage after a sequence of events, each applied while it is awaited.
pub open spec fn wait_replay(timeout: u128, stage: WaitStage, events: Seq<WaitEvent>) -> WaitStage
    decreases events.len(),
{
    if events.len() > 0 && wait_awaits(stage, events[0]) {
        wait_replay(timeout, wait_step(timeout, stage, events[0]).0, events.drop_first())
    } else {
        stage
    }
}

/// A wait answers `true` only if the server was seen to answer: whatever the
/// other observations, a wait in which no probe of the server succeeded
/// never ends with `true`.
pub proof fn lemma_ready_only_when_seen(timeout: u128, stage: WaitStage, events: Seq<WaitEvent>)
    requires
        stage != WaitStage::Done(true),
        forall|i: int| 0 <= i < events.len() ==> events[i] != WaitEvent::Ready(true),
    ensures
        wait_replay(timeout, stage, events) != WaitStage::Done(true),
    decreases events.len(),
{
    if events.len() > 0 && wait_awaits(stage, events[0]) {
        let next = wait_step(timeout, stage, events[0]).0;
        let rest = events.drop_first();
        assert(forall|i: int| 0 <= i < rest.len() ==> rest[i] == events[i + 1]);
        lemma_ready_only_when_seen(timeout, next, rest);
    }
}

/// An exited server process ends the wait with `false` before the server is
/// asked, and so does a clock reading at or past the timeout.
pub proof fn lemma_stop_and_timeout_end_wait(timeout: u128, elapsed: u128)
    ensures
        wait_step(timeout, WaitStage::AwaitingStopped, WaitEvent::Stopped(true)) == (
            WaitStage::Done(false),
            WaitAction::Finish(false),
        ),
        elapsed >= timeout ==> wait_step(timeout, WaitStage::AwaitingClock, WaitEvent::Clock(elapsed))
            == (WaitStage::Done(false), WaitAction::Finish(false)),
{
}

/// The bytes `HTTP/1.1 ` followed by the first digit of a status code.
pub open spec fn status_line_prefix(class: u8) -> Seq<u8> {
    seq![72u8, 84u8, 84u8, 80u8, 47u8, 49u8, 46u8, 49u8, 32u8, class]
}

/// Whether the server's answer begins with `HTTP/1.1 2` or `HTTP/1.1 3`
/// (a success or a redirection). Those prefixes are ASCII, so the answer
/// read as (lossy) UTF-8 text begins with them exactly when its bytes do.
pub open spec fn is_success_answer(answer: Seq<u8>) -> bool {
    answer.len() >= 10 && (answer.take(10) == status_line_prefix(50u8) || answer.take(10)
        == status_line_prefix(51u8))
}

/// Judges the first bytes that the server answered.
pub fn is_success_response(answer: &[u8]) -> (b: bool)
    ensures
        b == is_success_answer(answer@),
{
    if answer.len() < 10 {
        return false;
    }
    let prefix: [u8; 9] = [72u8, 84u8, 84u8, 80u8, 47u8, 49u8, 46u8, 49u8, 32u8];
    let mut i: usize = 0;
    while i < 9
        invariant
            i <= 9,
            answer@.len() >= 10,
            prefix@ == status_line_prefix(50u8).take(9),
            forall|j: int| 0 <= j < i ==> answer@[j] == prefix@[j],
        decreases 9 - i,
    {
        if answer[i] != prefix[i] {
            assert(answer@.take(10)[i as int] != status_line_prefix(50u8)[i as int]);
            assert(answer@.take(10)[i as int] != status_line_prefix(51u8)[i as int]);
            return false;
        }
        i = i + 1;
    }
    let class = answer[9];
    proof {
        if class == 50u8 {
            assert(answer@.take(10) =~= status_line_prefix(50u8));
        } else if class == 51u8 {
            assert(answer@.take(10) =~= status_line_prefix(51u8));
        } else {
            assert(answer@.take(10)[9] != status_line_prefix(50u8)[9]);
            assert(answer@.take(10)[9] != status_line_prefix(51u8)[9]);
        }
    }
    class == 50u8 || class == 51u8
}

/// While time is left the wait goes on: a clock reading before the timeout
/// always leads to asking whether the process stopped, whatever the timeout.
/// A round in which the process runs and the server answers ends the wait
/// with `true`; a round in which it does not answer returns to the clock.
pub proof fn lemma_wait_goes_on_while_time_is_left(timeout: u128, elapsed: u128)
    requires
        elapsed < timeout,
    ensures
        wait_step(timeout, WaitStage::AwaitingClock, WaitEvent::Clock(elapsed)) == (
            WaitStage::AwaitingStopped,
            WaitAction::ProbeStopped,
        ),
        wait_replay(
            timeout,
            WaitStage::AwaitingClock,
            seq![WaitEvent::Clock(elapsed), WaitEvent::Stopped(false), WaitEvent::Ready(true)],
        ) == WaitStage::Done(true),
        wait_replay(
            timeout,
            WaitStage::AwaitingClock,
            seq![
                WaitEvent::Clock(elapsed),
                WaitEvent::Stopped(false),
                WaitEvent::Ready(false),
                WaitEvent::Slept,
            ],
        ) == WaitStage::AwaitingClock,
{
    let one = seq![WaitEvent::Clock(elapsed), WaitEvent::Stopped(false), WaitEvent::Ready(true)];
    assert(one.drop_first() =~= seq![WaitEvent::Stopped(false), WaitEvent::Ready(true)]);
    assert(one.drop_first().drop_first() =~= seq![WaitEvent::Ready(true)]);
    assert(one.drop_first().drop_first().drop_first() =~= Seq::<WaitEvent>::empty());
    let two = seq![
        WaitEvent::Clock(elapsed),
        WaitEvent::Stopped(false),
        WaitEvent::Ready(false),
        WaitEvent::Slept,
    ];
    assert(two.drop_first() =~= seq![WaitEvent::Stopped(false), WaitEvent::Ready(false), WaitEvent::Slept]);
    assert(two.drop_first().drop_first() =~= seq![WaitEvent::Ready(false), WaitEvent::Slept]);
    assert(two.drop_first().drop_first().drop_first() =~= seq![WaitEvent::Slept]);
    assert(two.drop_first().drop_first().drop_first().drop_first() =~= Seq::<WaitEvent>::empty());
    reveal_with_fuel(wait_replay, 5);
}

/// An answer is judged a success exactly when its first ten bytes are
/// `HTTP/1.1 2` or `HTTP/1.1 3`; what follows them does not matter.
pub proof fn lemma_success_answer_prefix(answer: Seq<u8>, rest: Seq<u8>)
    ensures
        is_success_answer(answer) <==> (answer.len() >= 10 && answer[0] == 72u8 && answer[1] == 84u8
            && answer[2] == 84u8 && answer[3] == 80u8 && answer[4] == 47u8 && answer[5] == 49u8
            && answer[6] == 46u8 && answer[7] == 49u8 && answer[8] == 32u8 && (answer[9] == 50u8
            || answer[9] == 51u8)),
        answer.len() >= 10 ==> is_success_answer(answer + rest) == is_success_answer(answer),
{
    if answer.len() >= 10 {
        assert((answer + rest).take(10) =~= answer.take(10));
        if answer[9] == 50u8 || answer[9] == 51u8 {
            if answer[0] == 72u8 && answer[1] == 84u8 && answer[2] == 84u8 && answer[3] == 80u8
                && answer[4] == 47u8 && answer[5] == 49u8 && answer[6] == 46u8 && answer[7] == 49u8
                && answer[8] == 32u8 {
                assert(answer.take(10) =~= status_line_prefix(answer[9]));
            }
        }
        if answer.take(10) == status_line_prefix(50u8) {
            assert(answer[0] == answer.take(10)[0]);
            assert(answer[1] == answer.take(10)[1]);
            assert(answer[2] == answer.take(10)[2]);
            assert(answer[3] == answer.take(10)[3]);
            assert(answer[4] == answer.take(10)[4]);
            assert(answer[5] == answer.take(10)[5]);
            assert(answer[6] == answer.take(10)[6]);
            assert(answer[7] == answer.take(10)[7]);
            assert(answer[8] == answer.take(10)[8]);
            assert(answer[9] == answer.take(10)[9]);
        }
        if answer.take(10) == status_line_prefix(51u8) {
            assert(answer[0] == answer.take(10)[0]);
            assert(answer[1] == answer.take(10)[1]);
            assert(answer[2] == answer.take(10)[2]);
            assert(answer[3] == answer.take(10)[3]);
            assert(answer[4] == answer.take(10)[4]);
            assert(answer[5] == answer.take(10)[5]);
            assert(answer[6] == answer.take(10)[6]);
            assert(answer[7] == answer.take(10)[7]);
            assert(answer[8] == answer.take(10)[8]);
            assert(answer[9] == answer.take(10)[9]);
        }
    }
}

} // verus!
