//! Informational hardware and load summaries, built from values that the
//! caller queried from the operating system.

use vstd::prelude::*;

verus! {

/// Static description of the machine.
#[derive(Clone, Debug)]
pub struct HardwareInfo {
    pub cpu_model: String,
    pub gpu_model: String,
    pub memory_total: u64,
}

/// Memory use and the fastest core's clock at one moment.
#[derive(Clone, Copy, Debug, PartialEq, Eq, Structural)]
pub struct SystemStats {
    pub memory_used: u64,
    pub memory_total: u64,
    pub swap_used: u64,
    pub swap_total: u64,
    pub cpu_global_frequency: u64,
}

/// Describes the machine from the first core's brand, if there is a core,
/// and the total memory.
pub fn hardware_info(first_cpu_brand: Option<String>, memory_total: u64) -> (r: HardwareInfo)
    ensures
        first_cpu_brand matches Some(b) ==> r.cpu_model == b,
        first_cpu_brand is None ==> r.cpu_model@ == "Unknown CPU"@,
        r.gpu_model@ == "GeForce GTX 1660 Ti Mobile"@,
        r.memory_total == memory_total,
{
    let cpu_model = match first_cpu_brand {
        Some(b) => b,
        None => String::from_str("Unknown CPU"),
    };
    HardwareInfo {
        cpu_model,
        gpu_model: String::from_str("GeForce GTX 1660 Ti Mobile"),
        memory_total,
    }
}

/// The highest of the per-core frequencies, zero when there is no core.
pub fn global_frequency(core_frequencies: &[u64]) -> (r: u64)
    ensures
        forall|i: int| 0 <= i < core_frequencies@.len() ==> core_frequencies@[i] <= r,
        core_frequencies@.len() == 0 ==> r == 0,
        core_frequencies@.len() > 0 ==> exists|i: int|
            0 <= i < core_frequencies@.len() && core_frequencies@[i] == r,
{
    let mut best: u64 = 0;
    let mut i: usize = 0;
    while i < core_frequencies.len()
        invariant
            i <= core_frequencies@.len(),
            forall|j: int| 0 <= j < i ==> core_frequencies@[j] <= best,
            i == 0 ==> best == 0,
            i > 0 ==> exists|j: int| 0 <= j < i && core_frequencies@[j] == best,
        decreases core_frequencies@.len() - i,
    {
        if i == 0 || core_frequencies[i] > best {
            best = core_frequencies[i];
        }
        i = i + 1;
    }
    best
}

/// Load summary: the memory figures as given, and the fastest core's clock.
pub fn system_stats(
    memory_used: u64,
    memory_total: u64,
    swap_used: u64,
    swap_total: u64,
    core_frequencies: &[u64],
) -> (r: SystemStats)
    ensures
        r.memory_used == memory_used,
        r.memory_total == memory_total,
        r.swap_used == swap_used,
        r.swap_total == swap_total,
        forall|i: int|
            0 <= i < core_frequencies@.len() ==> core_frequencies@[i] <= r.cpu_global_frequency,
        core_frequencies@.len() == 0 ==> r.cpu_global_frequency == 0,
        core_frequencies@.len() > 0 ==> exists|i: int|
            0 <= i < core_frequencies@.len() && core_frequencies@[i] == r.cpu_global_frequency,
{
    SystemStats {
        memory_used,
        memory_total,
        swap_used,
        swap_total,
        cpu_global_frequency: global_frequency(core_frequencies),
    }
}

} // verus!
