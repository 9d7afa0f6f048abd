use vstd::prelude::*;

verus! {

/// A monitor of the processor's load.
pub struct CpuMonitor;

impl CpuMonitor {
    pub fn new() -> (m: Self) {
        Self
    }

    /// The reading this monitor reports: label and load in percent.
    pub fn sample(&self) -> (s: &'static str)
        ensures
            s@ == "CPU 45.2"@,
    {
        "CPU 45.2"
    }
}

} // verus!
