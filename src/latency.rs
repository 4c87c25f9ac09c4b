//! The interrupt latency probe: the value that the polling loop and the
//! interrupt handler share, and the steps each of them takes on it. Callers
//! hold it under a critical section; every step here is a plain state change.
use vstd::prelude::*;

verus! {

/// Ticks between two readings of the 32-bit tick counter, which may wrap.
pub open spec fn tick_span(start: u32, end: u32) -> int {
    if end >= start {
        end - start
    } else {
        end - start + u32::MAX + 1
    }
}

/// Microseconds in `ticks` ticks of a clock running at `freq_hz`, rounded
/// down; zero when the frequency is unknown (zero).
pub open spec fn ticks_to_us_spec(ticks: u32, freq_hz: u32) -> int {
    if freq_hz > 0 {
        (ticks as int * 1_000_000) / freq_hz as int
    } else {
        0
    }
}

/// Converts a tick count at `freq_hz` to microseconds.
pub fn ticks_to_us(ticks: u32, freq_hz: u32) -> (r: u64)
    ensures
        r == ticks_to_us_spec(ticks, freq_hz),
{
    if freq_hz > 0 {
        proof {
            assert(ticks as u64 * 1_000_000 <= u32::MAX as u64 * 1_000_000) by (nonlinear_arith);
        }
        (ticks as u64 * 1_000_000) / freq_hz as u64
    } else {
        0
    }
}

/// The shared sample: the tick at which the probe was last armed, the last
/// latency the handler measured, and whether that sample is still unread.
#[derive(Clone, Copy, Debug, PartialEq, Eq, Structural)]
pub struct LatencyProbe {
    pub start_tick: u32,
    pub latency_ticks: u32,
    pub triggered: bool,
}

impl LatencyProbe {
    /// A probe armed at tick zero, with nothing measured.
    pub fn new() -> (r: LatencyProbe)
        ensures
            r == (LatencyProbe { start_tick: 0, latency_ticks: 0, triggered: false }),
    {
        LatencyProbe { start_tick: 0, latency_ticks: 0, triggered: false }
    }

    /// The polling loop re-arms the probe at `now_tick`.
    pub fn arm(&mut self, now_tick: u32)
        ensures
            *final(self) == (LatencyProbe { start_tick: now_tick, ..*old(self) }),
    {
        self.start_tick = now_tick;
    }

    /// The handler runs at `isr_tick`: it stores the ticks since the probe was
    /// armed and marks the sample unread.
    pub fn on_interrupt(&mut self, isr_tick: u32)
        ensures
            final(self).start_tick == old(self).start_tick,
            final(self).latency_ticks == tick_span(old(self).start_tick, isr_tick),
            final(self).triggered,
    {
        self.latency_ticks = isr_tick.wrapping_sub(self.start_tick);
        self.triggered = true;
    }

    /// The polling loop reads the sample, once: when it is unread it is marked
    /// read and its latency comes back in microseconds at `freq_hz`.
    pub fn take(&mut self, freq_hz: u32) -> (r: Option<u64>)
        ensures
            old(self).triggered ==> r == Some(
                ticks_to_us_spec(old(self).latency_ticks, freq_hz) as u64,
            ),
            !old(self).triggered ==> r is None,
            *final(self) == (LatencyProbe { triggered: false, ..*old(self) }),
    {
        if self.triggered {
            self.triggered = false;
            Some(ticks_to_us(self.latency_ticks, freq_hz))
        } else {
            None
        }
    }
}

} // verus!
