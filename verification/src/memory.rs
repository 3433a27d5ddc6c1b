//! Memory samples and the free percentages derived from them.

use vstd::prelude::*;

verus! {

/// One sample of the memory statistics: total and free RAM, total and free
/// swap, all in the same unit.
#[derive(Clone, Copy, Debug, PartialEq, Eq, Structural)]
pub struct MemoryReading {
    pub total_ram: u64,
    pub free_ram: u64,
    pub total_swap: u64,
    pub free_swap: u64,
}

/// The share of `total` that `free` makes up, in whole percent, rounded down.
///
/// There is no percentage when `total` is zero, nor when the quotient is too
/// large for the result type: such a sample is malformed.
pub open spec fn percent_of(free: u64, total: u64) -> Option<u8> {
    if total == 0 || (free * 100) / (total as int) > u8::MAX {
        None
    } else {
        Some(((free * 100) / (total as int)) as u8)
    }
}

/// A part of a whole is between zero and one hundred percent of it.
pub proof fn lemma_percent_bounded(free: u64, total: u64)
    requires
        total > 0,
        free <= total,
    ensures
        0 <= (free * 100) / (total as int) <= 100,
        percent_of(free, total) is Some,
{
    assert(0 <= (free * 100) / (total as int) <= 100) by (nonlinear_arith)
        requires
            total > 0,
            0 <= free <= total,
    ;
}

/// Computes the free percentage of a pair of counters.
pub fn free_percent(free: u64, total: u64) -> (perc: Option<u8>)
    ensures
        perc == percent_of(free, total),
        0 < total && free <= total ==> (perc matches Some(p) && p <= 100),
{
    if total == 0 {
        return None;
    }
    proof {
        if free <= total {
            lemma_percent_bounded(free, total);
        }
    }
    let scaled: u128 = (free as u128) * 100;
    let quotient: u128 = scaled / (total as u128);
    if quotient > 255 {
        None
    } else {
        Some(quotient as u8)
    }
}

impl MemoryReading {
    /// Free RAM in percent, as a specification.
    pub open spec fn ram_percent(self) -> Option<u8> {
        percent_of(self.free_ram, self.total_ram)
    }

    /// Free swap in percent, as a specification.
    pub open spec fn swap_percent(self) -> Option<u8> {
        percent_of(self.free_swap, self.total_swap)
    }

    /// Free RAM in percent; `None` for a malformed sample.
    pub fn get_free_ram_perc(&self) -> (perc: Option<u8>)
        ensures
            perc == self.ram_percent(),
    {
        free_percent(self.free_ram, self.total_ram)
    }

    /// Free swap in percent; `None` for a malformed sample, which includes a
    /// host without any swap.
    pub fn get_free_swap_perc(&self) -> (perc: Option<u8>)
        ensures
            perc == self.swap_percent(),
    {
        free_percent(self.free_swap, self.total_swap)
    }
}

} // verus!
