//! How much of the machine the job runner may use.

use vstd::prelude::*;

verus! {

/// The priority at which the runner's process is scheduled.
#[derive(Debug, Clone, Copy, PartialEq, Eq, Structural)]
pub enum ProcessPriority {
    Low,
    BelowNormal,
    Normal,
}

impl Default for ProcessPriority {
    fn default() -> (r: Self)
        ensures
            r == ProcessPriority::Normal,
    {
        ProcessPriority::Normal
    }
}

/// Half of the cores, and one at least: what is recommended for the runner.
pub fn recommended_cores(cpu_cores: usize) -> (r: usize)
    ensures
        r == (if cpu_cores / 2 >= 1 {
            cpu_cores / 2
        } else {
            1
        }),
{
    let half = cpu_cores / 2;
    if half >= 1 {
        half
    } else {
        1
    }
}

/// Three quarters of the cores, rounded down, and one at least: the most
/// that the runner should get.
pub fn max_cores(cpu_cores: usize) -> (r: usize)
    ensures
        r == (if (cpu_cores * 3) / 4 >= 1 {
            (cpu_cores * 3) / 4
        } else {
            1int
        }),
{
    let quarters = cpu_cores / 4;
    let rest = cpu_cores % 4;
    let r = quarters * 3 + (rest * 3) / 4;
    assert(r == (cpu_cores * 3) / 4) by (nonlinear_arith)
        requires
            quarters == cpu_cores / 4,
            rest == cpu_cores % 4,
            r == quarters * 3 + (rest * 3) / 4,
    ;
    if r >= 1 {
        r
    } else {
        1
    }
}

/// The affinity mask that admits the first `cores` cores: that many low bits
/// set. A machine word has no mask for more cores than it has bits.
pub fn affinity_mask(cores: usize) -> (r: Option<usize>)
    ensures
        cores >= usize::BITS ==> r is None,
        cores < usize::BITS ==> r == Some((((1usize << cores) - 1) as usize)),
{
    if cores >= usize::BITS as usize {
        None
    } else {
        let bit: usize = 1usize << cores;
        assert(bit >= 1) by (bit_vector)
            requires
                bit == 1usize << cores,
                cores < usize::BITS,
        ;
        Some(bit - 1)
    }
}

} // verus!
