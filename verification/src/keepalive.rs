//! The keepalive timer driving the ping/pong liveness cycle.
//!
//! All times are milliseconds read from a monotonic clock that the caller
//! supplies.  A ping becomes due when no application write has happened for
//! one keepalive interval; once a ping is sent, the matching pong must
//! arrive within one and a half keepalive intervals or the connection is
//! presumed dead.

use vstd::prelude::*;

verus! {

/// The largest accepted keepalive interval in milliseconds; keeps every
/// deadline computation inside `u64`.
pub const MAX_KEEPALIVE_MS: u64 = 0x7fffffff;

/// Tracks the last write and the currently outstanding ping, if any.
#[derive(Debug, Clone)]
pub struct KeepaliveTimer {
    pub keepalive_ms: u64,
    pub last_activity: u64,
    pub ping_sent_at: Option<u64>,
}

impl KeepaliveTimer {
    /// The interval is positive and small enough that no deadline
    /// computation can overflow.
    pub open spec fn wf(self) -> bool {
        1 <= self.keepalive_ms <= MAX_KEEPALIVE_MS
    }

    /// The instant by which an outstanding ping's pong must have arrived:
    /// one and a half keepalive intervals after the ping was sent.
    pub open spec fn pong_deadline(self, sent: u64) -> int {
        sent + self.keepalive_ms + self.keepalive_ms / 2
    }

    /// A ping is due when none is outstanding and a full keepalive
    /// interval has passed without a write.
    pub open spec fn ping_due(self, now: u64) -> bool {
        self.ping_sent_at is None && now >= self.last_activity + self.keepalive_ms
    }

    /// The outstanding ping's pong has not arrived by its deadline.
    pub open spec fn pong_overdue(self, now: u64) -> bool {
        match self.ping_sent_at {
            Some(sent) => now >= self.pong_deadline(sent),
            None => false,
        }
    }

    /// Readings are taken from a monotonic clock, so `now` never lies
    /// before anything already recorded.
    pub open spec fn monotonic(self, now: u64) -> bool {
        now >= self.last_activity && (self.ping_sent_at matches Some(sent) ==> now >= sent)
    }

    /// Arms the timer at the given instant.
    pub fn new(keepalive_ms: u64, now: u64) -> (t: KeepaliveTimer)
        requires
            1 <= keepalive_ms <= MAX_KEEPALIVE_MS,
        ensures
            t.wf(),
            t.keepalive_ms == keepalive_ms,
            t.last_activity == now,
            t.ping_sent_at is None,
    {
        KeepaliveTimer { keepalive_ms, last_activity: now, ping_sent_at: None }
    }

    /// Records an application write, which postpones the next ping.
    pub fn record_activity(&mut self, now: u64)
        ensures
            final(self).keepalive_ms == old(self).keepalive_ms,
            final(self).last_activity == now,
            final(self).ping_sent_at == old(self).ping_sent_at,
    {
        self.last_activity = now;
    }

    /// Records that a ping frame was handed to the transport.
    pub fn record_ping(&mut self, now: u64)
        ensures
            final(self).keepalive_ms == old(self).keepalive_ms,
            final(self).last_activity == old(self).last_activity,
            final(self).ping_sent_at == Some(now),
    {
        self.ping_sent_at = Some(now);
    }

    /// Records the matching pong: the outstanding ping is resolved and the
    /// exchange counts as activity.
    pub fn record_pong(&mut self, now: u64)
        ensures
            final(self).keepalive_ms == old(self).keepalive_ms,
            final(self).last_activity == now,
            final(self).ping_sent_at is None,
    {
        self.ping_sent_at = None;
        self.last_activity = now;
    }

    /// Whether a ping should be issued now.
    pub fn is_ping_due(&self, now: u64) -> (r: bool)
        requires
            self.wf(),
            self.monotonic(now),
        ensures
            r == self.ping_due(now),
    {
        match self.ping_sent_at {
            Some(_) => false,
            None => now - self.last_activity >= self.keepalive_ms,
        }
    }

    /// Whether the outstanding ping has missed its pong deadline.
    pub fn is_pong_overdue(&self, now: u64) -> (r: bool)
        requires
            self.wf(),
            self.monotonic(now),
        ensures
            r == self.pong_overdue(now),
    {
        match self.ping_sent_at {
            Some(sent) => now - sent >= self.keepalive_ms + self.keepalive_ms / 2,
            None => false,
        }
    }
}

} // verus!
