use vstd::prelude::*;

use crate::clock::{utc_now, Timestamp};

verus! {

/// Traffic sample for a point in time
#[derive(Debug, Clone, Copy, PartialEq, Eq, Structural)]
pub struct TrafficSample {
    pub timestamp: Timestamp,
    pub upload_bytes: u64,
    pub download_bytes: u64,
    pub connections: u64,
}

/// Traffic summary for frontend display
#[derive(Debug, Clone, Copy, PartialEq, Eq, Structural)]
pub struct TrafficSummary {
    pub total_upload: u64,
    pub total_download: u64,
    pub total_connections: u64,
    pub upload_speed_bps: u64,
    pub download_speed_bps: u64,
    pub active_connections: u64,
}

impl Default for TrafficSummary {
    fn default() -> (s: Self)
        ensures
            s == (TrafficSummary {
                total_upload: 0,
                total_download: 0,
                total_connections: 0,
                upload_speed_bps: 0,
                download_speed_bps: 0,
                active_connections: 0,
            }),
    {
        TrafficSummary {
            total_upload: 0,
            total_download: 0,
            total_connections: 0,
            upload_speed_bps: 0,
            download_speed_bps: 0,
            active_connections: 0,
        }
    }
}

/// The traffic between the oldest and the newest recorded sample: bytes counted in
/// between (0 where a counter went down) and whole seconds elapsed.  Speeds are these
/// byte counts divided by the seconds.
#[derive(Debug, Clone, Copy, PartialEq, Eq, Structural)]
pub struct SpeedWindow {
    pub upload_bytes: u64,
    pub download_bytes: u64,
    pub seconds: i128,
}

/// The state of per-server statistics.
pub struct ServerStatsView {
    pub upload: u64,
    pub download: u64,
    pub connections: u64,
    pub active_connections: u64,
    pub history: Seq<TrafficSample>,
    pub max_history_size: nat,
}

/// `a + b` wrapping at 2^64, as an atomic `fetch_add` does.
pub open spec fn wrapping_add_u64(a: u64, b: u64) -> u64 {
    if a + b > u64::MAX {
        (a + b - u64::MAX - 1) as u64
    } else {
        (a + b) as u64
    }
}

/// `a - b` wrapping at 2^64, as an atomic `fetch_sub` does.
pub open spec fn wrapping_sub_u64(a: u64, b: u64) -> u64 {
    if a < b {
        (a - b + u64::MAX + 1) as u64
    } else {
        (a - b) as u64
    }
}

/// The history after `sample` is recorded: the oldest sample goes first once the
/// history is full.
pub open spec fn spec_record(history: Seq<TrafficSample>, max: nat, sample: TrafficSample) -> Seq<TrafficSample> {
    if history.len() >= max && history.len() > 0 {
        history.drop_first().push(sample)
    } else {
        history.push(sample)
    }
}

/// `a - b`, or 0 when `b` is larger.
pub open spec fn saturating_sub_u64(a: u64, b: u64) -> u64 {
    if a < b {
        0
    } else {
        (a - b) as u64
    }
}

/// Per-server traffic statistics
pub struct ServerTrafficStats {
    upload: u64,
    download: u64,
    connections: u64,
    active_connections: u64,
    history: std::collections::VecDeque<TrafficSample>,
    max_history_size: usize,
}

impl View for ServerTrafficStats {
    type V = ServerStatsView;

    closed spec fn view(&self) -> ServerStatsView {
        ServerStatsView {
            upload: self.upload,
            download: self.download,
            connections: self.connections,
            active_connections: self.active_connections,
            history: self.history@,
            max_history_size: self.max_history_size as nat,
        }
    }
}

impl ServerTrafficStats {
    /// The history keeps at most 360 samples, and the limit is 360.
    #[verifier::type_invariant]
    spec fn history_bounded(&self) -> bool {
        &&& self.max_history_size == 360
        &&& self.history@.len() <= 360
    }

    /// Empty statistics that keep the last 360 samples (one hour at 10 s intervals)
    pub fn new() -> (s: Self)
        ensures
            s@ == (ServerStatsView {
                upload: 0,
                download: 0,
                connections: 0,
                active_connections: 0,
                history: Seq::empty(),
                max_history_size: 360,
            }),
    {
        ServerTrafficStats {
            upload: 0,
            download: 0,
            connections: 0,
            active_connections: 0,
            history: std::collections::VecDeque::with_capacity(360),
            max_history_size: 360,
        }
    }

    pub fn add_upload(&mut self, bytes: u64)
        ensures
            final(self)@ == (ServerStatsView { upload: wrapping_add_u64(old(self)@.upload, bytes), ..old(self)@ }),
    {
        proof {
            use_type_invariant(&*self);
        }
        self.upload = self.upload.wrapping_add(bytes);
    }

    pub fn add_download(&mut self, bytes: u64)
        ensures
            final(self)@ == (ServerStatsView {
                download: wrapping_add_u64(old(self)@.download, bytes),
                ..old(self)@
            }),
    {
        proof {
            use_type_invariant(&*self);
        }
        self.download = self.download.wrapping_add(bytes);
    }

    /// A new connection: counted in the total and among the active ones
    pub fn inc_connections(&mut self)
        ensures
            final(self)@ == (ServerStatsView {
                connections: wrapping_add_u64(old(self)@.connections, 1),
                active_connections: wrapping_add_u64(old(self)@.active_connections, 1),
                ..old(self)@
            }),
    {
        proof {
            use_type_invariant(&*self);
        }
        self.connections = self.connections.wrapping_add(1);
        self.active_connections = self.active_connections.wrapping_add(1);
    }

    /// A connection ended
    pub fn dec_active_connections(&mut self)
        ensures
            final(self)@ == (ServerStatsView {
                active_connections: wrapping_sub_u64(old(self)@.active_connections, 1),
                ..old(self)@
            }),
    {
        proof {
            use_type_invariant(&*self);
        }
        self.active_connections = self.active_connections.wrapping_sub(1);
    }

    pub fn total_upload(&self) -> (n: u64)
        ensures
            n == self@.upload,
    {
        self.upload
    }

    pub fn total_download(&self) -> (n: u64)
        ensures
            n == self@.download,
    {
        self.download
    }

    pub fn total_connections(&self) -> (n: u64)
        ensures
            n == self@.connections,
    {
        self.connections
    }

    pub fn active_connections(&self) -> (n: u64)
        ensures
            n == self@.active_connections,
    {
        self.active_connections
    }

    /// Record a traffic sample of the current totals, taken now; reads the clock
    pub fn record_sample(&mut self)
        ensures
            final(self)@.history.len() > 0,
            final(self)@.history == spec_record(
                old(self)@.history,
                old(self)@.max_history_size,
                final(self)@.history.last(),
            ),
            final(self)@.history.last().upload_bytes == old(self)@.upload,
            final(self)@.history.last().download_bytes == old(self)@.download,
            final(self)@.history.last().connections == old(self)@.connections,
            final(self)@ == (ServerStatsView { history: final(self)@.history, ..old(self)@ }),
            old(self)@.max_history_size == 360,
            old(self)@.history.len() <= 360,
            final(self)@.history.len() == if old(self)@.history.len() < 360 {
                old(self)@.history.len() + 1
            } else {
                360
            },
            final(self)@.history.drop_last() == if old(self)@.history.len() >= 360 {
                old(self)@.history.drop_first()
            } else {
                old(self)@.history
            },
    {
        let now = utc_now();
        self.record_sample_at(now);
    }

    /// Record a traffic sample of the current totals, taken at `timestamp`
    pub fn record_sample_at(&mut self, timestamp: Timestamp)
        ensures
            final(self)@ == (ServerStatsView {
                history: spec_record(
                    old(self)@.history,
                    old(self)@.max_history_size,
                    TrafficSample {
                        timestamp,
                        upload_bytes: old(self)@.upload,
                        download_bytes: old(self)@.download,
                        connections: old(self)@.connections,
                    },
                ),
                ..old(self)@
            }),
            old(self)@.max_history_size == 360,
            old(self)@.history.len() <= 360,
            final(self)@.history.len() <= 360,
    {
        proof {
            use_type_invariant(&*self);
        }
        let sample = TrafficSample {
            timestamp,
            upload_bytes: self.upload,
            download_bytes: self.download,
            connections: self.connections,
        };
        let mut history = std::collections::VecDeque::new();
        std::mem::swap(&mut history, &mut self.history);
        if history.len() >= self.max_history_size {
            let _ = history.pop_front();
        }
        history.push_back(sample);
        self.history = history;
    }

    /// Get history samples, oldest first
    pub fn get_history(&self) -> (h: Vec<TrafficSample>)
        ensures
            h@ == self@.history,
            h@.len() <= 360,
    {
        proof {
            use_type_invariant(self);
        }
        let mut h: Vec<TrafficSample> = Vec::new();
        let mut i: usize = 0;
        while i < self.history.len()
            invariant
                i <= self.history@.len(),
                h@ == self.history@.subrange(0, i as int),
            decreases self.history@.len() - i,
        {
            h.push(self.history[i]);
            i = i + 1;
            assert(h@ =~= self.history@.subrange(0, i as int));
        }
        assert(self.history@.subrange(0, i as int) =~= self.history@);
        h
    }

    /// The traffic between the oldest and the newest sample, when there are at least
    /// two samples and at least a whole second lies between them
    pub fn speed_window(&self) -> (w: Option<SpeedWindow>)
        ensures
            ({
                let h = self@.history;
                if h.len() >= 2 && h.last().timestamp.spec_seconds_since(h[0].timestamp) > 0 {
                    w == Some(
                        SpeedWindow {
                            upload_bytes: saturating_sub_u64(h.last().upload_bytes, h[0].upload_bytes),
                            download_bytes: saturating_sub_u64(
                                h.last().download_bytes,
                                h[0].download_bytes,
                            ),
                            seconds: h.last().timestamp.spec_seconds_since(h[0].timestamp) as i128,
                        },
                    )
                } else {
                    w is None
                }
            }),
    {
        let n = self.history.len();
        if n < 2 {
            return None;
        }
        let recent = self.history[n - 1];
        let older = self.history[0];
        let seconds = recent.timestamp.seconds_since(&older.timestamp);
        if seconds > 0 {
            Some(
                SpeedWindow {
                    upload_bytes: recent.upload_bytes.saturating_sub(older.upload_bytes),
                    download_bytes: recent.download_bytes.saturating_sub(older.download_bytes),
                    seconds,
                },
            )
        } else {
            None
        }
    }

    /// The summary of the totals, with the given speeds
    pub fn summary_with_speeds(&self, upload_speed_bps: u64, download_speed_bps: u64) -> (s: TrafficSummary)
        ensures
            s == (TrafficSummary {
                total_upload: self@.upload,
                total_download: self@.download,
                total_connections: self@.connections,
                upload_speed_bps,
                download_speed_bps,
                active_connections: self@.active_connections,
            }),
    {
        TrafficSummary {
            total_upload: self.upload,
            total_download: self.download,
            total_connections: self.connections,
            upload_speed_bps,
            download_speed_bps,
            active_connections: self.active_connections,
        }
    }

    /// Reset all counters (the history stays)
    pub fn reset(&mut self)
        ensures
            final(self)@ == (ServerStatsView {
                upload: 0,
                download: 0,
                connections: 0,
                active_connections: 0,
                ..old(self)@
            }),
    {
        proof {
            use_type_invariant(&*self);
        }
        self.upload = 0;
        self.download = 0;
        self.connections = 0;
        self.active_connections = 0;
    }
}

impl Default for ServerTrafficStats {
    fn default() -> (s: Self) {
        Self::new()
    }
}

/// Recording keeps the history to the most recent samples: a history of at most `max`
/// samples (with `max > 0`) stays within `max`, and it is the old history with the new
/// sample appended, cut to its last `max` entries.
pub proof fn lemma_history_window(history: Seq<TrafficSample>, max: nat, sample: TrafficSample)
    requires
        0 < max,
        history.len() <= max,
    ensures
        spec_record(history, max, sample).len() <= max,
        ({
            let all = history.push(sample);
            let start = if all.len() > max { all.len() - max } else { 0 };
            spec_record(history, max, sample) == all.subrange(start as int, all.len() as int)
        }),
{
    let all = history.push(sample);
    if history.len() >= max {
        assert(history.drop_first().push(sample) =~= all.subrange(1, all.len() as int));
    } else {
        assert(all.subrange(0, all.len() as int) =~= all);
    }
}

} // verus!
