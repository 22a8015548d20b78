//! A single-slot delayed-task scheduler with debounce semantics: it
//! holds at most one pending command, every new submission replaces
//! whatever was pending, and the pending command fires exactly once
//! when its delay elapses.
//!
//! The scheduler itself is a pure state machine over millisecond
//! timestamps; the surrounding process drives it from a loop that
//! waits on either "a submission arrived" or "the armed timer
//! elapsed" and hands the current time in.

use vstd::prelude::*;
use crate::power::PowerCondition;

verus! {

/// The fixed debounce delay between a power-condition change and the
/// hardware brightness write it schedules.
pub const DEBOUNCE_DELAY_MS: u64 = 500;

/// The command a debounced task carries. The brightness to write is
/// looked up in the shared settings when the task fires, never
/// captured at submission time, so a burst of transitions resolves to
/// the last stable condition's current preference.
#[derive(Clone, Copy, Debug, PartialEq, Eq, Structural)]
pub enum Command {
    ApplyBrightness { for_condition: PowerCondition },
}

/// A pending command together with the instant it is due.
#[derive(Clone, Copy, Debug, PartialEq, Eq, Structural)]
pub struct ArmedTask {
    pub fire_at_ms: u64,
    pub command: Command,
}

/// One submission to the scheduler: which command to run, how long to
/// wait, and when the submission was made.
#[derive(Clone, Copy, Debug, PartialEq, Eq, Structural)]
pub struct Submission {
    pub command: Command,
    pub delay_ms: u64,
    pub now_ms: u64,
}

impl Submission {
    /// The instant this submission is due, were it the one armed.
    pub open spec fn spec_fire_at(self) -> u64 {
        (self.now_ms + self.delay_ms) as u64
    }
}

/// The scheduler's whole state: `None` is the idle state, `Some` is
/// the armed state. There is no queue and no task identity beyond
/// "the current pending one".
pub struct DebounceScheduler {
    pub slot: Option<ArmedTask>,
}

impl DebounceScheduler {
    pub open spec fn is_armed(self) -> bool {
        self.slot is Some
    }

    /// The state after a submission: armed with the submitted command,
    /// whatever was pending before.
    pub open spec fn spec_submit(self, sub: Submission) -> DebounceScheduler {
        DebounceScheduler {
            slot: Some(ArmedTask { fire_at_ms: sub.spec_fire_at(), command: sub.command }),
        }
    }

    /// The state and the fired command when the clock reads `now_ms`:
    /// an armed task that is due is handed out exactly once and the
    /// scheduler returns to idle; otherwise nothing changes and
    /// nothing fires.
    pub open spec fn spec_on_timer(self, now_ms: u64) -> (DebounceScheduler, Option<Command>) {
        match self.slot {
            Some(t) => if now_ms >= t.fire_at_ms {
                (DebounceScheduler { slot: None }, Some(t.command))
            } else {
                (self, None)
            },
            None => (self, None),
        }
    }

    /// A fresh scheduler is idle.
    pub fn new() -> (s: Self)
        ensures
            !s.is_armed(),
            s.slot is None,
    {
        DebounceScheduler { slot: None }
    }

    /// Accept a submission. The previously pending command, if any, is
    /// discarded without running; the new command becomes the single
    /// armed task, due `delay_ms` after `now_ms`.
    pub fn submit(&mut self, command: Command, delay_ms: u64, now_ms: u64)
        requires
            now_ms + delay_ms <= u64::MAX,
        ensures
            *final(self) == old(self).spec_submit(Submission { command, delay_ms, now_ms }),
            final(self).slot == Some(ArmedTask { fire_at_ms: (now_ms + delay_ms) as u64, command }),
    {
        self.slot = Some(ArmedTask { fire_at_ms: now_ms + delay_ms, command });
    }

    /// Let the clock act: if the armed task is due it is returned (to
    /// be executed exactly once by the caller) and the scheduler goes
    /// idle; otherwise nothing fires and the state is unchanged.
    pub fn on_timer(&mut self, now_ms: u64) -> (fired: Option<Command>)
        ensures
            *final(self) == old(self).spec_on_timer(now_ms).0,
            fired == old(self).spec_on_timer(now_ms).1,
    {
        match self.slot {
            Some(t) => {
                if now_ms >= t.fire_at_ms {
                    self.slot = None;
                    Some(t.command)
                } else {
                    None
                }
            }
            None => None,
        }
    }

    /// The instant the armed task is due, or `None` when idle. The
    /// driving loop sleeps until this deadline instead of holding a
    /// magic far-future duration.
    pub fn next_deadline(&self) -> (r: Option<u64>)
        ensures
            match self.slot {
                Some(t) => r == Some(t.fire_at_ms),
                None => r is None,
            },
    {
        match self.slot {
            Some(t) => Some(t.fire_at_ms),
            None => None,
        }
    }
}

/// The state after a whole sequence of submissions, applied in order.
pub open spec fn scheduler_after(init: DebounceScheduler, subs: Seq<Submission>) -> DebounceScheduler
    decreases subs.len(),
{
    if subs.len() == 0 {
        init
    } else {
        scheduler_after(init, subs.drop_last()).spec_submit(subs.last())
    }
}

/// Only the last submission survives a burst: after any non-empty
/// sequence of submissions, the scheduler is armed with exactly the
/// last submission's command and deadline, and a timer firing then
/// hands out that command or nothing — never a command from an
/// earlier submission in the burst.
pub proof fn lemma_last_submission_wins(
    init: DebounceScheduler,
    subs: Seq<Submission>,
    now_ms: u64,
)
    requires
        subs.len() > 0,
    ensures
        scheduler_after(init, subs).slot == Some(ArmedTask {
            fire_at_ms: subs.last().spec_fire_at(),
            command: subs.last().command,
        }),
        ({
            let fired = scheduler_after(init, subs).spec_on_timer(now_ms).1;
            &&& (fired is None || fired == Some(subs.last().command))
            &&& (fired is Some <==> now_ms >= subs.last().spec_fire_at())
        }),
{
}

/// With no submission the scheduler never invokes anything: from idle,
/// every timer tick leaves it idle and fires nothing.
pub proof fn lemma_idle_never_fires(init: DebounceScheduler, now_ms: u64)
    requires
        !init.is_armed(),
    ensures
        scheduler_after(init, Seq::empty()) == init,
        init.spec_on_timer(now_ms).0 == init,
        init.spec_on_timer(now_ms).1 is None,
{
}

/// Single-flight: a submission while armed immediately discards the
/// previous arm without invoking it — the submission transition emits
/// no command, and afterwards the one slot holds only the new task.
pub proof fn lemma_submit_replaces_without_firing(st: DebounceScheduler, sub: Submission)
    ensures
        st.spec_submit(sub).slot == Some(ArmedTask {
            fire_at_ms: sub.spec_fire_at(),
            command: sub.command,
        }),
        st.spec_submit(sub).is_armed(),
{
}

} // verus!
