//! The timetable of the background work: a sweep of the outbox every twenty
//! seconds, a poll of the unread counter every three minutes.
//!
//! The scheduler holds no payload. It says what is due when it is woken, and
//! when it wants to be woken next.

use vstd::prelude::*;
use crate::error::AppError;

verus! {

/// The time between two sweeps of the outbox.
pub const SWEEP_PERIOD_MILLIS: i64 = 20_000;

/// The time between two polls of the unread counter.
pub const POLL_PERIOD_MILLIS: i64 = 180_000;

/// The name of the event that carries the unread count.
pub const UNREAD_COUNT_EVENT: &'static str = "unread-count";

/// What is due at a wake-up.
#[derive(Clone, Copy, Debug, PartialEq, Eq, Structural)]
pub struct Wakeup {
    /// Sweep the outbox.
    pub sweep: bool,
    /// Poll the unread counter.
    pub poll: bool,
}

/// When each piece of background work is due next.
#[derive(Clone, Copy, Debug, PartialEq, Eq, Structural)]
pub struct Scheduler {
    pub next_sweep_at: i64,
    pub next_poll_at: i64,
}

/// The smaller of two instants.
pub open spec fn earlier(a: i64, b: i64) -> i64 {
    if a <= b {
        a
    } else {
        b
    }
}

impl Scheduler {
    /// The timetable after a wake-up at `now`: whatever was due is due again
    /// one period after `now`.
    pub open spec fn after_wake(self, now: i64) -> Scheduler {
        Scheduler {
            next_sweep_at: if self.next_sweep_at <= now {
                (now + SWEEP_PERIOD_MILLIS) as i64
            } else {
                self.next_sweep_at
            },
            next_poll_at: if self.next_poll_at <= now {
                (now + POLL_PERIOD_MILLIS) as i64
            } else {
                self.next_poll_at
            },
        }
    }

    /// What is due at `now`.
    pub open spec fn due(self, now: i64) -> Wakeup {
        Wakeup { sweep: self.next_sweep_at <= now, poll: self.next_poll_at <= now }
    }

    /// A timetable on which both pieces of work are due at `now`.
    pub fn start(now: i64) -> (timetable: Scheduler)
        ensures
            timetable == (Scheduler { next_sweep_at: now, next_poll_at: now }),
    {
        Scheduler { next_sweep_at: now, next_poll_at: now }
    }

    /// The instant at which the next piece of work is due.
    pub fn next_wakeup(&self) -> (at: i64)
        ensures
            at == earlier(self.next_sweep_at, self.next_poll_at),
    {
        if self.next_sweep_at <= self.next_poll_at {
            self.next_sweep_at
        } else {
            self.next_poll_at
        }
    }

    /// Tells what is due at `now` and moves it on by its period.
    pub fn wake(&mut self, now: i64) -> (due: Wakeup)
        requires
            now + POLL_PERIOD_MILLIS <= i64::MAX,
        ensures
            due == old(self).due(now),
            *final(self) == old(self).after_wake(now),
    {
        let sweep = self.next_sweep_at <= now;
        let poll = self.next_poll_at <= now;
        if sweep {
            self.next_sweep_at = now + SWEEP_PERIOD_MILLIS;
        }
        if poll {
            self.next_poll_at = now + POLL_PERIOD_MILLIS;
        }
        Wakeup { sweep, poll }
    }

    /// What is due right after a session has been established: a sweep, out
    /// of turn, so that queued writes do not wait for the period to pass. The
    /// timetable is not moved.
    pub fn session_established(&self) -> (due: Wakeup)
        ensures
            due == (Wakeup { sweep: true, poll: false }),
    {
        Wakeup { sweep: true, poll: false }
    }
}

/// The unread count to publish after a poll, if any: the counter's value,
/// cut to 32 bits, whenever a session exists and the counter was read.
pub open spec fn count_to_publish(polled: Option<Result<i64, AppError>>) -> Option<u32> {
    match polled {
        Some(Ok(count)) => Some(count as u32),
        _ => None,
    }
}

/// Decides what a poll publishes. `polled` is `None` without a session, else
/// what reading the counter gave.
pub fn unread_count_event(polled: Option<Result<i64, AppError>>) -> (publish: Option<u32>)
    ensures
        publish == count_to_publish(polled),
{
    match polled {
        Some(Ok(count)) => Some(#[verifier::truncate] (count as u32)),
        _ => None,
    }
}

/// After a wake-up nothing is due any more at that instant, and each piece
/// of work that ran is due again exactly one period later.
pub proof fn lemma_wake_moves_on(timetable: Scheduler, now: i64)
    requires
        now + POLL_PERIOD_MILLIS <= i64::MAX,
    ensures
        timetable.after_wake(now).due(now) == (Wakeup { sweep: false, poll: false }),
        timetable.due(now).sweep ==> timetable.after_wake(now).next_sweep_at == now
            + SWEEP_PERIOD_MILLIS,
        timetable.due(now).poll ==> timetable.after_wake(now).next_poll_at == now
            + POLL_PERIOD_MILLIS,
        !timetable.due(now).sweep ==> timetable.after_wake(now).next_sweep_at
            == timetable.next_sweep_at,
        !timetable.due(now).poll ==> timetable.after_wake(now).next_poll_at
            == timetable.next_poll_at,
{
}

} // verus!
