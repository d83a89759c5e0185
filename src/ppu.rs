use vstd::prelude::*;

verus! {

/// Dots in one scanline.
pub const DOTS_PER_SCANLINE: u64 = 341;

/// Video dots per CPU cycle.
pub const DOTS_PER_CYCLE: u64 = 3;

/// A dot counter driven by the cycles the processor reports.
pub struct ClockPPU {
    cycles: u64,
}

impl View for ClockPPU {
    type V = nat;

    /// The running dot total.
    closed spec fn view(&self) -> nat {
        self.cycles as nat
    }
}

impl ClockPPU {
    pub fn new() -> (r: ClockPPU)
        ensures
            r@ == 0,
    {
        ClockPPU { cycles: 0 }
    }

    /// Advances by three dots per CPU cycle.
    pub fn step_cpu(&mut self, cpu_cycles: u32)
        requires
            old(self)@ + 3 * cpu_cycles <= u64::MAX,
        ensures
            final(self)@ == old(self)@ + 3 * cpu_cycles,
    {
        self.cycles = self.cycles + (cpu_cycles as u64) * DOTS_PER_CYCLE;
    }

    /// Whole scanlines elapsed, truncated to 16 bits.
    pub fn scanline(&self) -> (r: u16)
        ensures
            r == (self@ / 341) as u16,
    {
        (self.cycles / DOTS_PER_SCANLINE) as u16
    }

    /// The scanline the counter will be on three dots from now, truncated to 16 bits.
    pub fn cross_scanline(&self) -> (r: u16)
        ensures
            r == ((self@ + 3) / 341) as u16,
    {
        let whole = self.cycles / DOTS_PER_SCANLINE;
        let rest = self.cycles % DOTS_PER_SCANLINE;
        let line = if rest + 3 >= DOTS_PER_SCANLINE {
            whole + 1
        } else {
            whole
        };
        assert(line == (self@ + 3) / 341) by {
            assert(self@ == whole * 341 + rest);
        }
        line as u16
    }

    /// The column within the current scanline.
    pub fn cyc(&self) -> (r: u32)
        ensures
            r == self@ % 341,
            r < 341,
    {
        (self.cycles % DOTS_PER_SCANLINE) as u32
    }
}

} // verus!
