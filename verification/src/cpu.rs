//! Trusted bindings to the process-CPU-time clock used for request stamps.

use vstd::prelude::*;

verus! {

#[verifier::external_type_specification]
#[verifier::external_body]
pub struct ExProcessTime(cpu_time::ProcessTime);

/// Relies on `cpu_time::ProcessTime::now`: a reading of the process CPU
/// clock. The reading depends on the work the process has done so far, so
/// nothing is promised of the value. Panics only where the kernel lacks the
/// process CPU clock.
#[verifier::external_body]
pub(crate) fn cpu_now() -> cpu_time::ProcessTime {
    cpu_time::ProcessTime::now()
}

/// Relies on `cpu_time::ProcessTime::try_now` and
/// `ProcessTime::as_duration`: the CPU time consumed since the anchor,
/// reduced here to whole milliseconds. The value depends on the work the
/// process has done, so nothing is promised of it. Total on every input: a
/// failed reading, or a reading below the anchor (the CPU clock restarts in
/// a forked child), counts as zero elapsed time.
#[verifier::external_body]
pub(crate) fn cpu_elapsed_ms(t: &cpu_time::ProcessTime) -> u64 {
    match cpu_time::ProcessTime::try_now() {
        Err(_) => 0,
        Ok(now) => match now.as_duration().checked_sub(t.as_duration()) {
            None => 0,
            Some(d) => d.as_millis() as u64,
        },
    }
}

} // verus!
