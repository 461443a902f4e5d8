//! The two timers of a peer: a single-shot rekey timer and a recurring
//! keepalive timer, kept as deadlines on the caller's clock of seconds.

use crate::consts::{KEEPALIVE_TIMEOUT, REJECT_AFTER_TIME, REKEY_AFTER_TIME};
use vstd::prelude::*;

verus! {

/// The time `after` seconds from `now`, or the end of time where the clock
/// cannot count that far.
pub open spec fn deadline(now: u64, after: u64) -> u64 {
    if now + after <= u64::MAX {
        (now + after) as u64
    } else {
        u64::MAX
    }
}

/// Computes a deadline.
pub fn deadline_after(now: u64, after: u64) -> (at: u64)
    ensures
        at == deadline(now, after),
{
    if now <= u64::MAX - after {
        now + after
    } else {
        u64::MAX
    }
}

/// The deadlines of one peer's timers; a timer that is not armed has none.
#[derive(Debug, Clone, Copy, PartialEq, Eq, Structural)]
pub struct PeerTimers {
    pub rekey_at: Option<u64>,
    pub keepalive_at: Option<u64>,
}

impl PeerTimers {
    /// Neither timer armed.
    pub open spec fn idle() -> PeerTimers {
        PeerTimers { rekey_at: None, keepalive_at: None }
    }

    /// The timers that a handshake completed at `now` leaves: the
    /// keepalive timer armed, and the rekey timer armed on the side that
    /// initiated the handshake and disarmed on the other, so that only one
    /// side starts the next handshake.
    pub open spec fn armed(now: u64, rekey: bool) -> PeerTimers {
        PeerTimers {
            rekey_at: if rekey {
                Some(deadline(now, REKEY_AFTER_TIME))
            } else {
                None
            },
            keepalive_at: Some(deadline(now, KEEPALIVE_TIMEOUT)),
        }
    }

    /// Whether the rekey timer fires at `now`.
    pub open spec fn rekey_due(self, now: u64) -> bool {
        self.rekey_at matches Some(at) && at <= now
    }

    /// Whether the keepalive timer ticks at `now`.
    pub open spec fn keepalive_due(self, now: u64) -> bool {
        self.keepalive_at matches Some(at) && at <= now
    }

    /// The timers after a poll at `now`: a rekey timer that fired is
    /// disarmed, a keepalive timer that ticked is set one interval ahead.
    pub open spec fn polled(self, now: u64) -> PeerTimers {
        PeerTimers {
            rekey_at: if self.rekey_due(now) {
                None
            } else {
                self.rekey_at
            },
            keepalive_at: if self.keepalive_due(now) {
                Some(deadline(now, KEEPALIVE_TIMEOUT))
            } else {
                self.keepalive_at
            },
        }
    }

    /// Timers of a peer without a session.
    pub fn new() -> (timers: PeerTimers)
        ensures
            timers == PeerTimers::idle(),
    {
        PeerTimers { rekey_at: None, keepalive_at: None }
    }

    /// Arms the timers for a handshake completed at `now`: the keepalive
    /// timer ticks first one interval from now; the rekey timer, where this
    /// side is to start the next handshake, fires once, a fixed time from
    /// now, and is disarmed where it is not.
    pub fn arm(&mut self, now: u64, rekey: bool)
        ensures
            *final(self) == PeerTimers::armed(now, rekey),
    {
        self.rekey_at = if rekey {
            Some(deadline_after(now, REKEY_AFTER_TIME))
        } else {
            None
        };
        self.keepalive_at = Some(deadline_after(now, KEEPALIVE_TIMEOUT));
    }

    /// Polls both timers at `now` and says which went off: first whether
    /// the rekey timer fired, then whether the keepalive timer ticked.
    pub fn poll(&mut self, now: u64) -> (due: (bool, bool))
        ensures
            due.0 == old(self).rekey_due(now),
            due.1 == old(self).keepalive_due(now),
            *final(self) == old(self).polled(now),
    {
        let rekey = match self.rekey_at {
            Some(at) => at <= now,
            None => false,
        };
        let keepalive = match self.keepalive_at {
            Some(at) => at <= now,
            None => false,
        };
        if rekey {
            self.rekey_at = None;
        }
        if keepalive {
            self.keepalive_at = Some(deadline_after(now, KEEPALIVE_TIMEOUT));
        }
        (rekey, keepalive)
    }
}

/// A rekey timer armed at `armed_at` waits out its full duration, which
/// ends before the session's keys are rejected: at no time before
/// `armed_at + REKEY_AFTER_TIME` is it due, and from then on it is. On the
/// side that did not initiate the handshake it is never due.
pub proof fn lemma_rekey_waits_full_duration(armed_at: u64, now: u64)
    requires
        armed_at + REKEY_AFTER_TIME <= u64::MAX,
    ensures
        REKEY_AFTER_TIME < REJECT_AFTER_TIME,
        PeerTimers::armed(armed_at, true).rekey_due(now) <==> now >= armed_at + REKEY_AFTER_TIME,
        !PeerTimers::armed(armed_at, false).rekey_due(now),
{
}

/// A rekey timer fires once: the poll at which it is due disarms it, and no
/// later poll finds it due, until a handshake arms it again.
pub proof fn lemma_rekey_fires_once(timers: PeerTimers, now: u64, later: u64)
    requires
        timers.rekey_due(now),
    ensures
        !timers.polled(now).rekey_due(later),
        !timers.polled(now).polled(later).rekey_due(later),
{
}

/// How often the rekey timer fires over a run of polls, one at each of the
/// given times in turn.
pub open spec fn rekey_firings(timers: PeerTimers, times: Seq<u64>) -> nat
    decreases times.len(),
{
    if times.len() == 0 {
        0
    } else {
        (if timers.rekey_due(times[0]) {
            1nat
        } else {
            0nat
        }) + rekey_firings(timers.polled(times[0]), times.drop_first())
    }
}

/// Whether one of the given times is at or after `at`.
pub open spec fn reached(at: u64, times: Seq<u64>) -> bool {
    exists|i: int| 0 <= i < times.len() && at <= #[trigger] times[i]
}

/// Over any run of polls, however many and at whatever times, the rekey
/// timer fires at most once, and exactly once where it is armed and one of
/// the polls comes at or after its deadline: its own firing does not arm it
/// again.
pub proof fn lemma_rekey_fires_once_over_all_polls(timers: PeerTimers, times: Seq<u64>)
    ensures
        rekey_firings(timers, times) <= 1,
        rekey_firings(timers, times) == 1 <==> (timers.rekey_at matches Some(at) && reached(
            at,
            times,
        )),
    decreases times.len(),
{
    if times.len() > 0 {
        let rest = times.drop_first();
        lemma_rekey_fires_once_over_all_polls(timers.polled(times[0]), rest);
        match timers.rekey_at {
            Some(at) => {
                if timers.rekey_due(times[0]) {
                    assert(at <= times[0]);
                } else {
                    if reached(at, rest) {
                        let j = choose|j: int| 0 <= j < rest.len() && at <= #[trigger] rest[j];
                        assert(times[j + 1] == rest[j]);
                    }
                    if reached(at, times) {
                        let i = choose|i: int| 0 <= i < times.len() && at <= #[trigger] times[i];
                        assert(rest[i - 1] == times[i]);
                    }
                }
            },
            None => {},
        }
    }
}

/// A rekey timer armed by a handshake completed at `armed_at` on the
/// initiator's side fires exactly once over any run of polls of which one
/// comes a full `REKEY_AFTER_TIME` later or more, and never over a run of
/// which none does.
pub proof fn lemma_armed_rekey_fires_exactly_once(armed_at: u64, times: Seq<u64>)
    requires
        armed_at + REKEY_AFTER_TIME <= u64::MAX,
    ensures
        rekey_firings(PeerTimers::armed(armed_at, true), times) == (if reached(
            (armed_at + REKEY_AFTER_TIME) as u64,
            times,
        ) {
            1nat
        } else {
            0nat
        }),
{
    lemma_rekey_fires_once_over_all_polls(PeerTimers::armed(armed_at, true), times);
}

/// A keepalive timer recurs: after a tick at `now` it is armed again, and
/// ticks next exactly one interval later.
pub proof fn lemma_keepalive_recurs(timers: PeerTimers, now: u64, later: u64)
    requires
        timers.keepalive_due(now),
        now + KEEPALIVE_TIMEOUT <= u64::MAX,
    ensures
        timers.polled(now).keepalive_due(later) <==> later >= now + KEEPALIVE_TIMEOUT,
{
}

} // verus!
