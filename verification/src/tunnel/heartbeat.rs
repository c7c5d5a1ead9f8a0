use vstd::prelude::*;

use crate::clock::now_unix_millis;

verus! {

/// The state of a heartbeat manager: interval in seconds, failure limit, failures
/// counted since the last pong, and the time of the last pong in Unix milliseconds
/// (0 when there has been none).
pub struct HeartbeatView {
    pub interval_secs: u64,
    pub max_failures: u8,
    pub failure_count: u32,
    pub last_pong_ms: u64,
}

impl HeartbeatView {
    /// The state after one more heartbeat was sent (the counter wraps as an atomic
    /// `fetch_add` does).
    pub open spec fn spec_sent(self) -> HeartbeatView {
        HeartbeatView {
            failure_count: if self.failure_count == u32::MAX {
                0
            } else {
                (self.failure_count + 1) as u32
            },
            ..self
        }
    }

    /// The state after `k` more heartbeats were sent.
    pub open spec fn spec_sent_times(self, k: nat) -> HeartbeatView
        decreases k,
    {
        if k == 0 {
            self
        } else {
            self.spec_sent_times((k - 1) as nat).spec_sent()
        }
    }

    /// Whether the connection counts as dead.
    pub open spec fn spec_is_dead(self) -> bool {
        self.failure_count >= self.max_failures
    }

    /// Milliseconds since the last pong when the clock reads `now_ms`: 0 when no pong
    /// was seen, and 0 rather than negative when the clock reads earlier than the pong.
    pub open spec fn spec_time_since(self, now_ms: u64) -> u64 {
        if self.last_pong_ms == 0 || now_ms < self.last_pong_ms {
            0
        } else {
            (now_ms - self.last_pong_ms) as u64
        }
    }
}

/// Heartbeat manager for connection health monitoring
pub struct HeartbeatManager {
    /// Interval between heartbeats, in seconds
    interval_secs: u64,
    /// Maximum number of consecutive failures before disconnect
    max_failures: u8,
    /// Current failure count
    failure_count: u32,
    /// Last successful heartbeat time (as Unix timestamp ms)
    last_pong: u64,
}

impl View for HeartbeatManager {
    type V = HeartbeatView;

    closed spec fn view(&self) -> HeartbeatView {
        HeartbeatView {
            interval_secs: self.interval_secs,
            max_failures: self.max_failures,
            failure_count: self.failure_count,
            last_pong_ms: self.last_pong,
        }
    }
}

impl HeartbeatManager {
    /// Create a new heartbeat manager
    /// Default: 10 second interval, 3 max failures
    pub fn new() -> (hb: Self)
        ensures
            hb@ == (HeartbeatView {
                interval_secs: 10,
                max_failures: 3,
                failure_count: 0,
                last_pong_ms: 0,
            }),
    {
        HeartbeatManager { interval_secs: 10, max_failures: 3, failure_count: 0, last_pong: 0 }
    }

    /// Create with custom settings
    pub fn with_settings(interval_secs: u64, max_failures: u8) -> (hb: Self)
        ensures
            hb@ == (HeartbeatView { interval_secs, max_failures, failure_count: 0, last_pong_ms: 0 }),
    {
        HeartbeatManager { interval_secs, max_failures, failure_count: 0, last_pong: 0 }
    }

    /// Get the heartbeat interval, in seconds
    pub fn interval(&self) -> (secs: u64)
        ensures
            secs == self@.interval_secs,
    {
        self.interval_secs
    }

    /// Called when a heartbeat is sent: one more unanswered heartbeat
    pub fn on_heartbeat_sent(&mut self)
        ensures
            final(self)@ == old(self)@.spec_sent(),
    {
        self.failure_count = self.failure_count.wrapping_add(1);
    }

    /// Called when a heartbeat response is received; reads the clock
    pub fn on_pong_received(&mut self)
        ensures
            final(self)@.failure_count == 0,
            final(self)@.interval_secs == old(self)@.interval_secs,
            final(self)@.max_failures == old(self)@.max_failures,
    {
        let now = now_unix_millis();
        self.record_pong(now);
    }

    /// A heartbeat response received at `now_ms` (Unix milliseconds)
    pub fn record_pong(&mut self, now_ms: u64)
        ensures
            final(self)@ == (HeartbeatView { failure_count: 0, last_pong_ms: now_ms, ..old(self)@ }),
    {
        self.failure_count = 0;
        self.last_pong = now_ms;
    }

    /// Check if connection should be considered dead
    pub fn is_connection_dead(&self) -> (dead: bool)
        ensures
            dead == self@.spec_is_dead(),
    {
        self.failure_count >= self.max_failures as u32
    }

    /// Get current failure count
    pub fn failure_count(&self) -> (n: u32)
        ensures
            n == self@.failure_count,
    {
        self.failure_count
    }

    /// Time since last successful heartbeat, in milliseconds; reads the clock, and
    /// the result is the time since the last pong at the clock reading taken
    pub fn time_since_last_pong(&self) -> (ms: u64)
        ensures
            exists|now_ms: u64| ms == #[trigger] self@.spec_time_since(now_ms),
            self@.last_pong_ms == 0 ==> ms == 0,
    {
        let now = now_unix_millis();
        self.time_since_last_pong_at(now)
    }

    /// Time since last successful heartbeat, in milliseconds, when the clock reads
    /// `now_ms`: 0 when no pong was seen, and never negative
    pub fn time_since_last_pong_at(&self, now_ms: u64) -> (ms: u64)
        ensures
            ms == self@.spec_time_since(now_ms),
    {
        if self.last_pong == 0 {
            return 0;
        }
        now_ms.saturating_sub(self.last_pong)
    }

    /// Reset all state
    pub fn reset(&mut self)
        ensures
            final(self)@ == (HeartbeatView { failure_count: 0, last_pong_ms: 0, ..old(self)@ }),
    {
        self.failure_count = 0;
        self.last_pong = 0;
    }
}

impl Default for HeartbeatManager {
    fn default() -> (hb: Self) {
        Self::new()
    }
}

/// Starting from no failures, `k` unanswered heartbeats (fewer than 2^32) leave the
/// failure count at `k`, and the connection counts as dead exactly when `k` reaches
/// the failure limit.
pub proof fn lemma_dead_after_unanswered(hb: HeartbeatView, k: nat)
    requires
        hb.failure_count == 0,
        k <= u32::MAX,
    ensures
        hb.spec_sent_times(k).failure_count == k,
        hb.spec_sent_times(k).max_failures == hb.max_failures,
        hb.spec_sent_times(k).spec_is_dead() <==> k >= hb.max_failures,
    decreases k,
{
    if k > 0 {
        lemma_dead_after_unanswered(hb, (k - 1) as nat);
    }
}

/// A pong clears every failure: afterwards the connection is alive unless the
/// failure limit is 0.
pub proof fn lemma_pong_revives(hb: HeartbeatView, now_ms: u64)
    ensures
        ({
            let after = HeartbeatView { failure_count: 0, last_pong_ms: now_ms, ..hb };
            after.spec_is_dead() <==> hb.max_failures == 0
        }),
{
}

} // verus!
