use vstd::prelude::*;

verus! {

/// A whole-number percentage, as the overlay displays it.
#[derive(Clone, Copy, PartialEq, Eq, Structural, Debug)]
pub struct Percentage {
    pub value: u32,
}

/// A whole-number temperature in degrees Celsius.
#[derive(Clone, Copy, PartialEq, Eq, Structural, Debug)]
pub struct Celsius {
    pub degrees: i32,
}

/// Memory occupancy in bytes.
#[derive(Clone, Copy, PartialEq, Eq, Structural, Debug)]
pub struct MemoryUsage {
    pub used_bytes: u64,
    pub total_bytes: u64,
}

impl View for Percentage {
    type V = Percentage;

    open spec fn view(&self) -> Percentage {
        *self
    }
}

impl View for Celsius {
    type V = Celsius;

    open spec fn view(&self) -> Celsius {
        *self
    }
}

impl View for MemoryUsage {
    type V = MemoryUsage;

    open spec fn view(&self) -> MemoryUsage {
        *self
    }
}

/// The invariant of a memory reading: used bytes never exceed total bytes.
pub open spec fn memory_wf(m: MemoryUsage) -> bool {
    m.used_bytes <= m.total_bytes
}

/// One full CPU, in hundredths of a percent: the unit in which load
/// fractions are handed to the sampler.
pub const FULL_LOAD_CENTI_PCT: u32 = 10000;

/// Turns raw host counter readings into structured values. The OS queries
/// themselves, including the bounded wait between the two CPU load
/// readings, run outside the library and hand their readings over as plain
/// numbers; every computation on them is here.
pub struct HostMetricsSampler;

impl HostMetricsSampler {
    /// The displayed CPU usage: the user and system fractions of the
    /// second load reading, each given in hundredths of a percent, summed
    /// and rounded to the nearest whole percent.
    pub fn cpu_usage(user_centi_pct: u32, system_centi_pct: u32) -> (r: Percentage)
        requires
            user_centi_pct <= FULL_LOAD_CENTI_PCT,
            system_centi_pct <= FULL_LOAD_CENTI_PCT,
        ensures
            r.value == (user_centi_pct + system_centi_pct + 50) / 100,
    {
        Percentage { value: (user_centi_pct + system_centi_pct + 50) / 100 }
    }

    /// Memory occupancy from a total and a free byte reading: used is
    /// total minus free, saturating at zero if a racing reading reports
    /// more free than total bytes. The result never reports more used than
    /// total bytes.
    pub fn memory(total_bytes: u64, free_bytes: u64) -> (r: MemoryUsage)
        ensures
            r.total_bytes == total_bytes,
            free_bytes <= total_bytes ==> r.used_bytes == total_bytes - free_bytes,
            free_bytes > total_bytes ==> r.used_bytes == 0,
            memory_wf(r),
    {
        let used = if free_bytes <= total_bytes {
            total_bytes - free_bytes
        } else {
            0
        };
        MemoryUsage { used_bytes: used, total_bytes }
    }

    /// A single-shot temperature reading, in whole degrees.
    pub fn cpu_temperature(degrees: i32) -> (r: Celsius)
        ensures
            r.degrees == degrees,
    {
        Celsius { degrees }
    }
}

} // verus!
