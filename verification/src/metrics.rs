//! Ingestion metrics: packet and byte counters plus the externally updated
//! target resolution, read back as one consistent snapshot per submitted
//! chunk. Counters wrap around on overflow, as a running total of a
//! long-lived stream must.

use vstd::prelude::*;

verus! {

/// Width assumed until the first resolution update arrives.
pub const DEFAULT_WIDTH: u64 = 1280;

/// Height assumed until the first resolution update arrives.
pub const DEFAULT_HEIGHT: u64 = 720;

/// Mutable counters and resolution state owned by one explicitly constructed
/// metrics object; callers share it behind whatever lock they choose.
pub struct ServerMetrics {
    pub packet_count: u64,
    pub bytes_received: u64,
    pub width: u64,
    pub height: u64,
}

/// One consistent reading of all four metrics.
#[derive(Clone, Copy, PartialEq, Eq, Structural, Debug)]
pub struct MetricsSnapshot {
    pub packet_count: u64,
    pub bytes_received: u64,
    pub width: u64,
    pub height: u64,
}

impl ServerMetrics {
    /// Fresh metrics: zero traffic, default resolution.
    pub fn new() -> (m: ServerMetrics)
        ensures
            m.packet_count == 0,
            m.bytes_received == 0,
            m.width == DEFAULT_WIDTH,
            m.height == DEFAULT_HEIGHT,
    {
        ServerMetrics {
            packet_count: 0,
            bytes_received: 0,
            width: DEFAULT_WIDTH,
            height: DEFAULT_HEIGHT,
        }
    }

    /// Counts one received packet of `bytes` bytes; both counters wrap on
    /// overflow, and the resolution is untouched.
    pub fn record_packet(&mut self, bytes: u64)
        ensures
            final(self).packet_count == (old(self).packet_count + 1) % 0x1_0000_0000_0000_0000,
            final(self).bytes_received == (old(self).bytes_received + bytes)
                % 0x1_0000_0000_0000_0000,
            final(self).width == old(self).width,
            final(self).height == old(self).height,
    {
        self.packet_count = self.packet_count.wrapping_add(1);
        self.bytes_received = self.bytes_received.wrapping_add(bytes);
    }

    /// Replaces the target resolution; it takes effect on the next submitted
    /// chunk, and the traffic counters are untouched.
    pub fn update_resolution(&mut self, w: u64, h: u64)
        ensures
            final(self).width == w,
            final(self).height == h,
            final(self).packet_count == old(self).packet_count,
            final(self).bytes_received == old(self).bytes_received,
    {
        self.width = w;
        self.height = h;
    }

    /// One consistent reading of all four values.
    pub fn snapshot(&self) -> (s: MetricsSnapshot)
        ensures
            s.packet_count == self.packet_count,
            s.bytes_received == self.bytes_received,
            s.width == self.width,
            s.height == self.height,
    {
        MetricsSnapshot {
            packet_count: self.packet_count,
            bytes_received: self.bytes_received,
            width: self.width,
            height: self.height,
        }
    }
}

} // verus!
