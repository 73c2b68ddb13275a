use vstd::prelude::*;

verus! {

/// The boot counter after one more wake: it wraps to zero past `u32::MAX`.
pub open spec fn next_boot_count(c: u32) -> u32 {
    if c == u32::MAX {
        0
    } else {
        (c + 1) as u32
    }
}

/// The record kept in the memory region that survives deep sleep: how
/// many times the device woke, and the last trusted time, in Unix seconds,
/// obtained from the network.
#[derive(Debug, Clone, Copy, PartialEq, Eq, Structural)]
pub struct PersistedBootState {
    pub boot_count: u32,
    pub cached_time: Option<u64>,
}

impl PersistedBootState {
    /// The state after a cold power-up: the region is zeroed.
    pub fn cold() -> (r: PersistedBootState)
        ensures
            r.boot_count == 0,
            r.cached_time is None,
    {
        PersistedBootState { boot_count: 0, cached_time: None }
    }

    /// The counter and the cached time, as they stand.
    pub fn load(&self) -> (r: (u32, Option<u64>))
        ensures
            r == (self.boot_count, self.cached_time),
    {
        (self.boot_count, self.cached_time)
    }

    /// Counts one more wake; the cached time is kept.
    pub fn record_boot(&mut self)
        ensures
            final(self).boot_count == next_boot_count(old(self).boot_count),
            final(self).cached_time == old(self).cached_time,
    {
        self.boot_count = self.boot_count.wrapping_add(1);
    }

    /// Replaces the cached time with one just obtained from the network;
    /// the counter is kept.
    pub fn update_clock(&mut self, time: u64)
        ensures
            final(self).boot_count == old(self).boot_count,
            final(self).cached_time == Some(time),
    {
        self.cached_time = Some(time);
    }
}

} // verus!
