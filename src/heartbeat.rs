//! Heartbeat coordinator of one session: the interval announced by the
//! server, the schedule of periodic heartbeats and the acknowledgement flag.
//!
//! Times are milliseconds on a monotonic clock of the caller's choosing.
use vstd::prelude::*;

verus! {

/// `a + b`, or the largest `u64` where the sum does not fit.
pub open spec fn sat_add(a: u64, b: u64) -> u64 {
    if a + b <= u64::MAX {
        (a + b) as u64
    } else {
        u64::MAX
    }
}

/// Heartbeat bookkeeping. `next_due` is the periodic timer: it exists exactly
/// when the interval is known, and holds the time of its next real tick.
#[derive(Clone, Copy, Debug, PartialEq, Eq, Structural)]
pub struct HeartbeatState {
    pub interval_ms: Option<u64>,
    pub outstanding: bool,
    pub last_sent_at: Option<u64>,
    pub next_due: Option<u64>,
}

impl HeartbeatState {
    pub open spec fn wf(&self) -> bool {
        &&& (self.interval_ms is Some <==> self.next_due is Some)
        &&& (self.interval_ms matches Some(h) ==> h > 0)
    }

    pub open spec fn empty() -> HeartbeatState {
        HeartbeatState { interval_ms: None, outstanding: false, last_sent_at: None, next_due: None }
    }

    /// After a Hello announcing `h` at `now`: the first Hello with a positive
    /// interval arms the timer, whose first real tick is a full interval later.
    pub open spec fn hello(self, h: u64, now: u64) -> HeartbeatState {
        if self.interval_ms is None && h > 0 {
            HeartbeatState { interval_ms: Some(h), next_due: Some(sat_add(now, h)), ..self }
        } else {
            self
        }
    }

    /// After a heartbeat frame was sent at `now`.
    pub open spec fn sent(self, now: u64) -> HeartbeatState {
        HeartbeatState { outstanding: true, last_sent_at: Some(now), ..self }
    }

    /// Whether the periodic timer has a tick due at `now`.
    pub open spec fn due(self, now: u64) -> bool {
        match self.next_due {
            Some(d) => d <= now,
            None => false,
        }
    }

    /// After the timer was polled at `now`: a due tick sends one heartbeat and
    /// moves the timer on by one interval.
    pub open spec fn ticked(self, now: u64) -> HeartbeatState {
        if self.due(now) {
            HeartbeatState {
                next_due: Some(sat_add(self.next_due->Some_0, self.interval_ms->Some_0)),
                ..self.sent(now)
            }
        } else {
            self
        }
    }

    /// After an acknowledgement from the server.
    pub open spec fn acked(self) -> HeartbeatState {
        HeartbeatState { outstanding: false, ..self }
    }

    /// No interval, no timer, nothing sent.
    pub fn new() -> (r: HeartbeatState)
        ensures
            r == HeartbeatState::empty(),
            r.wf(),
    {
        HeartbeatState { interval_ms: None, outstanding: false, last_sent_at: None, next_due: None }
    }

    /// Takes the interval of a Hello. Returns whether it armed the timer.
    pub fn on_hello(&mut self, h: u64, now: u64) -> (armed: bool)
        requires
            old(self).wf(),
        ensures
            *final(self) == old(self).hello(h, now),
            final(self).wf(),
            armed == (old(self).interval_ms is None && h > 0),
    {
        if self.interval_ms.is_none() && h > 0 {
            self.interval_ms = Some(h);
            self.next_due = Some(now.saturating_add(h));
            true
        } else {
            false
        }
    }

    /// Records a heartbeat sent at `now`.
    pub fn on_sent(&mut self, now: u64)
        requires
            old(self).wf(),
        ensures
            *final(self) == old(self).sent(now),
            final(self).wf(),
    {
        self.outstanding = true;
        self.last_sent_at = Some(now);
    }

    /// Polls the timer at `now`. Returns whether a heartbeat is to be sent.
    pub fn on_tick(&mut self, now: u64) -> (send: bool)
        requires
            old(self).wf(),
        ensures
            *final(self) == old(self).ticked(now),
            final(self).wf(),
            send == old(self).due(now),
    {
        match (self.next_due, self.interval_ms) {
            (Some(d), Some(h)) => {
                if d <= now {
                    self.on_sent(now);
                    self.next_due = Some(d.saturating_add(h));
                    true
                } else {
                    false
                }
            },
            _ => false,
        }
    }

    /// Clears the outstanding flag.
    pub fn on_ack(&mut self)
        requires
            old(self).wf(),
        ensures
            *final(self) == old(self).acked(),
            final(self).wf(),
    {
        self.outstanding = false;
    }
}

/// Nothing is sent before a full interval has passed since the Hello, and the
/// tick at exactly that time sends one heartbeat and schedules the next one
/// interval later. Where `t0 + h` is past the clock's range, the timer waits
/// for the clock's last instant instead, so that instant is left out.
pub proof fn lemma_first_heartbeat_after_full_interval(h: u64, t0: u64, now: u64)
    requires
        h > 0,
    ensures
        ({
            let armed = HeartbeatState::empty().hello(h, t0);
            &&& (now < t0 + h && (t0 + h <= u64::MAX || now < u64::MAX)) ==> !armed.due(now)
                && armed.ticked(now) == armed
            &&& t0 + h <= u64::MAX ==> armed.due((t0 + h) as u64)
            &&& t0 + h <= u64::MAX ==> armed.ticked((t0 + h) as u64) == HeartbeatState {
                interval_ms: Some(h),
                outstanding: true,
                last_sent_at: Some((t0 + h) as u64),
                next_due: Some(sat_add((t0 + h) as u64, h)),
            }
        }),
{
}

/// An acknowledgement clears the flag, and only a send sets it again.
pub proof fn lemma_ack_clears_until_next_send(hb: HeartbeatState, h: u64, now: u64)
    ensures
        !hb.acked().outstanding,
        !hb.acked().hello(h, now).outstanding,
        hb.acked().ticked(now).outstanding == hb.acked().due(now),
        hb.acked().sent(now).outstanding,
{
}

} // verus!
