//! The sampler's decisions for one tick: which sensors to read, what to
//! publish, what to broadcast, and how long to sleep before the next tick.
//!
//! The loop itself (reading the device, sleeping, logging) runs outside;
//! each tick it hands the device's answer and the elapsed time to `tick`
//! and performs the returned action.

use vstd::prelude::*;
use crate::cache::ReadingCache;
use crate::hardware::{zero_adc, ADCData, SensorSnapshot};
use crate::packages::{reading, reading_package, Sensors};
use crate::structures::AnsPackage;

verus! {

/// Shortest interval, in milliseconds, that leaves room for a full-depth
/// read of the four ADC channels; below it the ADC reads as zero.
pub const ADC_MIN_INTERVAL_MS: u64 = 40;

/// A failed read of the device: fatal to the sampler.
#[derive(Clone, Copy, Debug, PartialEq, Eq, Structural)]
pub enum DeviceFault {
    ReadFailed,
}

/// What the loop does after publishing a tick's snapshot.
#[derive(Clone, Copy, Debug, PartialEq, Eq, Structural)]
pub enum Pacing {
    /// Sleep this many milliseconds before the next tick.
    Sleep(u64),
    /// The tick took longer than the interval: log one degradation warning
    /// and start the next tick at once (the missed tick is dropped).
    Overrun,
}

/// How a tick that took `elapsed_ms` paces the next one.
pub open spec fn pacing_of(interval_ms: u64, elapsed_ms: u64) -> Pacing {
    if elapsed_ms > interval_ms {
        Pacing::Overrun
    } else {
        Pacing::Sleep((interval_ms - elapsed_ms) as u64)
    }
}

/// The snapshot a tick publishes: the device's, with the ADC zeroed when
/// the interval is too short to read it.
pub open spec fn published_of(sampled: SensorSnapshot, interval_ms: u64) -> SensorSnapshot {
    if interval_ms >= ADC_MIN_INTERVAL_MS {
        sampled
    } else {
        SensorSnapshot { adc: zero_adc(), ..sampled }
    }
}

/// What the loop does once a tick's snapshot is published.
#[derive(Debug, PartialEq, Eq)]
pub struct TickAction {
    /// The "all sensors" envelope to broadcast.
    pub envelope: AnsPackage,
    pub pacing: Pacing,
}

/// The periodic sampler, configured with its interval.
#[derive(Clone, Copy, Debug, PartialEq, Eq, Structural)]
pub struct Sampler {
    interval_ms: u64,
}

impl Sampler {
    /// The sampling interval in milliseconds.
    pub closed spec fn interval(&self) -> u64 {
        self.interval_ms
    }

    /// A sampler with the given interval; an interval of zero disables
    /// periodic sampling.
    pub fn new(interval_ms: u64) -> (r: Option<Sampler>)
        ensures
            interval_ms == 0 ==> r is None,
            interval_ms > 0 ==> r is Some && r->Some_0.interval() == interval_ms,
    {
        if interval_ms == 0 {
            None
        } else {
            Some(Sampler { interval_ms })
        }
    }

    /// The sampling interval in milliseconds.
    pub fn interval_ms(&self) -> (r: u64)
        ensures
            r == self.interval(),
    {
        self.interval_ms
    }

    /// Whether a tick reads the ADC from the device.
    pub fn reads_adc(&self) -> (r: bool)
        ensures
            r == (self.interval() >= ADC_MIN_INTERVAL_MS),
    {
        self.interval_ms >= ADC_MIN_INTERVAL_MS
    }

    /// How a tick that took `elapsed_ms` paces the next one.
    pub fn pacing(&self, elapsed_ms: u64) -> (r: Pacing)
        ensures
            r == pacing_of(self.interval(), elapsed_ms),
    {
        if elapsed_ms > self.interval_ms {
            Pacing::Overrun
        } else {
            Pacing::Sleep(self.interval_ms - elapsed_ms)
        }
    }

    /// One tick: publishes the sampled snapshot into the cache, then
    /// returns the broadcast of all sensors of that very snapshot and the
    /// pacing of the next tick. A device failure publishes nothing and is
    /// handed back to the caller.
    pub fn tick(
        &self,
        cache: &mut ReadingCache,
        sampled: Result<SensorSnapshot, DeviceFault>,
        elapsed_ms: u64,
        timestamp: String,
    ) -> (r: Result<TickAction, DeviceFault>)
        requires
            old(cache).wf(),
        ensures
            final(cache).wf(),
            match sampled {
                Err(e) => r == Err::<TickAction, DeviceFault>(e) && final(cache).latest() == old(
                    cache,
                ).latest() && final(cache).history() == old(cache).history(),
                Ok(s) => r is Ok && final(cache).latest() == published_of(s, self.interval())
                    && final(cache).history() == old(cache).history().push(
                    published_of(s, self.interval()),
                ) && r->Ok_0.envelope@ == reading_package(
                    Sensors::All,
                    published_of(s, self.interval()),
                    timestamp@,
                ) && r->Ok_0.pacing == pacing_of(self.interval(), elapsed_ms),
            },
    {
        match sampled {
            Err(e) => Err(e),
            Ok(s) => {
                let mut snapshot = s;
                if !self.reads_adc() {
                    snapshot.adc = ADCData::zeroed();
                }
                cache.publish(snapshot);
                let published = cache.read();
                let envelope = reading(Sensors::All, &published, timestamp);
                Ok(TickAction { envelope, pacing: self.pacing(elapsed_ms) })
            },
        }
    }
}

/// An overrun tick never sleeps, and a tick that did not overrun sleeps
/// for exactly the rest of the interval; the warning is owed exactly when
/// the tick took longer than the interval.
pub proof fn lemma_overrun_never_sleeps(interval_ms: u64, elapsed_ms: u64)
    ensures
        (pacing_of(interval_ms, elapsed_ms) is Overrun) == (elapsed_ms > interval_ms),
        elapsed_ms <= interval_ms ==> pacing_of(interval_ms, elapsed_ms) == Pacing::Sleep(
            (interval_ms - elapsed_ms) as u64,
        ),
        elapsed_ms + (pacing_of(interval_ms, elapsed_ms)->Sleep_0 as int) == interval_ms
            || pacing_of(interval_ms, elapsed_ms) is Overrun,
{
}

} // verus!
