use vstd::prelude::*;

use crate::stats::counter::{saturating_sub_u64, wrapping_add_u64, wrapping_sub_u64};

verus! {

/// Statistics data
#[derive(Debug, Clone, Copy, PartialEq, Eq, Structural)]
pub struct Stats {
    pub upload_speed: u64,
    pub download_speed: u64,
    pub total_upload: u64,
    pub total_download: u64,
    pub active_connections: u32,
}

impl Default for Stats {
    fn default() -> (s: Self)
        ensures
            s == (Stats {
                upload_speed: 0,
                download_speed: 0,
                total_upload: 0,
                total_download: 0,
                active_connections: 0,
            }),
    {
        Stats { upload_speed: 0, download_speed: 0, total_upload: 0, total_download: 0, active_connections: 0 }
    }
}

/// What a snapshot reads off the counters: the bytes counted since the previous
/// snapshot (0 where a counter went down), the totals, and the active connections
/// truncated to 32 bits.
#[derive(Debug, Clone, Copy, PartialEq, Eq, Structural)]
pub struct SnapshotCounts {
    pub upload_diff: u64,
    pub download_diff: u64,
    pub total_upload: u64,
    pub total_download: u64,
    pub active_connections: u32,
}

/// Shared traffic counters with the totals seen at the previous snapshot
#[derive(Debug, Clone, Copy, PartialEq, Eq, Structural)]
pub struct InternalStats {
    pub total_upload: u64,
    pub total_download: u64,
    pub active_connections: u64,
    pub last_upload: u64,
    pub last_download: u64,
}

impl InternalStats {
    pub fn new() -> (s: Self)
        ensures
            s == (InternalStats {
                total_upload: 0,
                total_download: 0,
                active_connections: 0,
                last_upload: 0,
                last_download: 0,
            }),
    {
        InternalStats { total_upload: 0, total_download: 0, active_connections: 0, last_upload: 0, last_download: 0 }
    }

    pub fn add_upload(&mut self, bytes: u64)
        ensures
            *final(self) == (InternalStats {
                total_upload: wrapping_add_u64(old(self).total_upload, bytes),
                ..*old(self)
            }),
    {
        self.total_upload = self.total_upload.wrapping_add(bytes);
    }

    pub fn add_download(&mut self, bytes: u64)
        ensures
            *final(self) == (InternalStats {
                total_download: wrapping_add_u64(old(self).total_download, bytes),
                ..*old(self)
            }),
    {
        self.total_download = self.total_download.wrapping_add(bytes);
    }

    pub fn inc_connections(&mut self)
        ensures
            *final(self) == (InternalStats {
                active_connections: wrapping_add_u64(old(self).active_connections, 1),
                ..*old(self)
            }),
    {
        self.active_connections = self.active_connections.wrapping_add(1);
    }

    pub fn dec_connections(&mut self)
        ensures
            *final(self) == (InternalStats {
                active_connections: wrapping_sub_u64(old(self).active_connections, 1),
                ..*old(self)
            }),
    {
        self.active_connections = self.active_connections.wrapping_sub(1);
    }

    /// Reads the counters for a snapshot and remembers the totals for the next one
    pub fn take_counts(&mut self) -> (c: SnapshotCounts)
        ensures
            c == (SnapshotCounts {
                upload_diff: saturating_sub_u64(old(self).total_upload, old(self).last_upload),
                download_diff: saturating_sub_u64(old(self).total_download, old(self).last_download),
                total_upload: old(self).total_upload,
                total_download: old(self).total_download,
                active_connections: old(self).active_connections as u32,
            }),
            *final(self) == (InternalStats {
                last_upload: old(self).total_upload,
                last_download: old(self).total_download,
                ..*old(self)
            }),
    {
        let current_upload = self.total_upload;
        let current_download = self.total_download;
        let last_upload = self.last_upload;
        let last_download = self.last_download;
        self.last_upload = current_upload;
        self.last_download = current_download;
        #[verifier::truncate]
        let active = self.active_connections as u32;
        SnapshotCounts {
            upload_diff: current_upload.saturating_sub(last_upload),
            download_diff: current_download.saturating_sub(last_download),
            total_upload: current_upload,
            total_download: current_download,
            active_connections: active,
        }
    }
}

impl Stats {
    /// A snapshot from the counts read and the speeds computed from them
    pub fn from_counts(counts: SnapshotCounts, upload_speed: u64, download_speed: u64) -> (s: Self)
        ensures
            s == (Stats {
                upload_speed,
                download_speed,
                total_upload: counts.total_upload,
                total_download: counts.total_download,
                active_connections: counts.active_connections,
            }),
    {
        Stats {
            upload_speed,
            download_speed,
            total_upload: counts.total_upload,
            total_download: counts.total_download,
            active_connections: counts.active_connections,
        }
    }
}

} // verus!
