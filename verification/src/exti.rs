//! Model of the external-interrupt unit's register file: per-line mask,
//! rising-edge trigger selection and pending-request bits, plus an
//! instrumentation counter of pending-clear writes so harnesses can hold
//! handler invocations and pending clears against each other.

use vstd::prelude::*;

verus! {

/// The external-interrupt unit: 16 lines, one bit per line in each
/// register.
pub struct ExtiRegs {
    /// Interrupt mask register: bit set = line enabled at the unit.
    pub imr: u16,
    /// Rising-trigger selection register: bit set = rising edges latch.
    pub rtsr: u16,
    /// Pending request register: bit set = the line has fired and the
    /// request has not been cleared yet.
    pub pr: u16,
    /// Instrumentation: how many pending-clear writes have been performed.
    pub clear_count: u64,
}

impl ExtiRegs {
    /// Post-reset contents: every line masked, no trigger selected,
    /// nothing pending, no clears counted.
    pub open spec fn is_reset(self) -> bool {
        self.imr == 0 && self.rtsr == 0 && self.pr == 0 && self.clear_count == 0
    }

    /// Whether `line` is enabled at the unit.
    pub open spec fn line_enabled(self, line: u16) -> bool {
        (self.imr >> line) & 1 == 1
    }

    /// Whether rising edges latch on `line`.
    pub open spec fn rising_trigger(self, line: u16) -> bool {
        (self.rtsr >> line) & 1 == 1
    }

    /// Whether `line`'s pending request is set.
    pub open spec fn line_pending(self, line: u16) -> bool {
        (self.pr >> line) & 1 == 1
    }

    /// Post-reset state: every line masked, no trigger selected, nothing
    /// pending.
    pub fn at_reset() -> (e: ExtiRegs)
        ensures
            e.imr == 0 && e.rtsr == 0 && e.pr == 0,
            e.clear_count == 0,
            forall|l: u16| l < 16 ==> !e.line_pending(l),
    {
        let e = ExtiRegs { imr: 0, rtsr: 0, pr: 0, clear_count: 0 };
        assert(forall|l: u16| l < 16 ==> (0u16 >> l) & 1 != 1) by (bit_vector);
        e
    }

    /// Enable `line` at the unit (set its mask bit).
    pub fn enable_line(&mut self, line: u16)
        requires
            line < 16,
        ensures
            final(self).line_enabled(line),
            forall|l: u16| l < 16 && l != line ==> final(self).line_enabled(l) == old(self).line_enabled(l),
            final(self).rtsr == old(self).rtsr,
            final(self).pr == old(self).pr,
            final(self).clear_count == old(self).clear_count,
    {
        let prior = self.imr;
        self.imr = self.imr | (1u16 << line);
        assert((prior | (1u16 << line)) >> line & 1 == 1) by (bit_vector)
            requires line < 16;
        assert(forall|l: u16| l < 16 && l != line ==> (prior | (1u16 << line)) >> l & 1 == prior >> l & 1) by (bit_vector)
            requires line < 16;
    }

    /// Select rising-edge triggering for `line`.
    pub fn select_rising_trigger(&mut self, line: u16)
        requires
            line < 16,
        ensures
            final(self).rising_trigger(line),
            forall|l: u16| l < 16 && l != line ==> final(self).rising_trigger(l) == old(self).rising_trigger(l),
            final(self).imr == old(self).imr,
            final(self).pr == old(self).pr,
            final(self).clear_count == old(self).clear_count,
    {
        let prior = self.rtsr;
        self.rtsr = self.rtsr | (1u16 << line);
        assert((prior | (1u16 << line)) >> line & 1 == 1) by (bit_vector)
            requires line < 16;
        assert(forall|l: u16| l < 16 && l != line ==> (prior | (1u16 << line)) >> l & 1 == prior >> l & 1) by (bit_vector)
            requires line < 16;
    }

    /// Clear `line`'s pending request. A handler must do this before it
    /// returns, or the same interrupt re-fires forever.
    pub fn clear_pending(&mut self, line: u16)
        requires
            line < 16,
            old(self).clear_count < u64::MAX,
        ensures
            !final(self).line_pending(line),
            forall|l: u16| l < 16 && l != line ==> final(self).line_pending(l) == old(self).line_pending(l),
            final(self).imr == old(self).imr,
            final(self).rtsr == old(self).rtsr,
            final(self).clear_count == old(self).clear_count + 1,
    {
        let prior = self.pr;
        self.pr = self.pr & !(1u16 << line);
        self.clear_count = self.clear_count + 1;
        assert((prior & !(1u16 << line)) >> line & 1 != 1) by (bit_vector)
            requires line < 16;
        assert(forall|l: u16| l < 16 && l != line ==> (prior & !(1u16 << line)) >> l & 1 == prior >> l & 1) by (bit_vector)
            requires line < 16;
    }

    /// Hardware observing a rising edge on `line`: the pending request
    /// latches exactly when the line is enabled and rising-triggered.
    pub fn edge_event(&mut self, line: u16)
        requires
            line < 16,
        ensures
            final(self).line_pending(line) == (
                old(self).line_pending(line)
                || (old(self).line_enabled(line) && old(self).rising_trigger(line))
            ),
            forall|l: u16| l < 16 && l != line ==> final(self).line_pending(l) == old(self).line_pending(l),
            final(self).imr == old(self).imr,
            final(self).rtsr == old(self).rtsr,
            final(self).clear_count == old(self).clear_count,
    {
        let fires = self.read_line_enabled(line) && self.read_rising_trigger(line);
        if fires {
            let prior = self.pr;
            self.pr = self.pr | (1u16 << line);
            assert((prior | (1u16 << line)) >> line & 1 == 1) by (bit_vector)
                requires line < 16;
            assert(forall|l: u16| l < 16 && l != line ==> (prior | (1u16 << line)) >> l & 1 == prior >> l & 1) by (bit_vector)
                requires line < 16;
        }
    }

    /// Read `line`'s mask bit.
    pub fn read_line_enabled(&self, line: u16) -> (b: bool)
        requires
            line < 16,
        ensures
            b == self.line_enabled(line),
    {
        (self.imr >> line) & 1 == 1
    }

    /// Read `line`'s rising-trigger bit.
    pub fn read_rising_trigger(&self, line: u16) -> (b: bool)
        requires
            line < 16,
        ensures
            b == self.rising_trigger(line),
    {
        (self.rtsr >> line) & 1 == 1
    }

    /// Read `line`'s pending bit.
    pub fn read_pending(&self, line: u16) -> (b: bool)
        requires
            line < 16,
        ensures
            b == self.line_pending(line),
    {
        (self.pr >> line) & 1 == 1
    }
}

} // verus!
