//! Model of one general-purpose hardware timer's register file: the
//! control, reload, prescaler and compare registers the runtime touches,
//! the update-interrupt flag, and an instrumentation counter of
//! update-flag clears.

use vstd::prelude::*;

verus! {

/// One hardware timer, as the runtime reads it.
pub struct TimerRegs {
    /// Update-interrupt enable (the "fire on counter wrap" switch).
    pub uie: bool,
    /// Update-event disable: true suppresses update events entirely.
    pub udis: bool,
    /// Counter enable: true = the counter is running.
    pub cen: bool,
    /// Auto-reload preload enable.
    pub arpe: bool,
    /// Output-compare preload enable for channel 1.
    pub oc1pe: bool,
    /// Channel 1 configured in PWM mode.
    pub pwm_mode: bool,
    /// Channel 1 output enable.
    pub cc1e: bool,
    /// Auto-reload value: the counter wraps after this many ticks.
    pub arr: u32,
    /// Prescaler value.
    pub psc: u32,
    /// Capture/compare register of channel 1 (the PWM duty value).
    pub ccr1: u32,
    /// Update-interrupt flag: set by hardware on counter wrap, cleared by
    /// the handler.
    pub uif: bool,
    /// Instrumentation: how many update-flag clears have been performed.
    pub clear_count: u64,
}

impl TimerRegs {
    /// Post-reset contents: everything off and zero.
    pub open spec fn is_reset(self) -> bool {
        !self.uie && !self.udis && !self.cen && !self.arpe && !self.oc1pe && !self.pwm_mode
            && !self.cc1e && self.arr == 0 && self.psc == 0 && self.ccr1 == 0 && !self.uif
            && self.clear_count == 0
    }

    /// Post-reset state: everything off and zero.
    pub fn at_reset() -> (t: TimerRegs)
        ensures
            !t.uie && !t.udis && !t.cen && !t.arpe && !t.oc1pe && !t.pwm_mode && !t.cc1e,
            t.arr == 0 && t.psc == 0 && t.ccr1 == 0,
            !t.uif,
            t.clear_count == 0,
    {
        TimerRegs {
            uie: false,
            udis: false,
            cen: false,
            arpe: false,
            oc1pe: false,
            pwm_mode: false,
            cc1e: false,
            arr: 0,
            psc: 0,
            ccr1: 0,
            uif: false,
            clear_count: 0,
        }
    }

    /// Enable the update interrupt and make sure update events are not
    /// disabled.
    pub fn enable_update_interrupt(&mut self)
        ensures
            *final(self) == (TimerRegs { uie: true, udis: false, ..*old(self) }),
    {
        self.uie = true;
        self.udis = false;
    }

    /// Program the auto-reload value, fixing the period together with the
    /// prescaler.
    pub fn write_reload(&mut self, value: u32)
        ensures
            *final(self) == (TimerRegs { arr: value, ..*old(self) }),
    {
        self.arr = value;
    }

    /// Program the prescaler.
    pub fn write_prescaler(&mut self, value: u32)
        ensures
            *final(self) == (TimerRegs { psc: value, ..*old(self) }),
    {
        self.psc = value;
    }

    /// Program the channel-1 compare value (the PWM duty).
    pub fn write_compare(&mut self, value: u32)
        ensures
            *final(self) == (TimerRegs { ccr1: value, ..*old(self) }),
    {
        self.ccr1 = value;
    }

    /// Configure channel 1 for PWM output: compare preload on, PWM mode
    /// selected, output enabled.
    pub fn configure_pwm_channel(&mut self)
        ensures
            *final(self) == (TimerRegs { oc1pe: true, pwm_mode: true, cc1e: true, ..*old(self) }),
    {
        self.oc1pe = true;
        self.pwm_mode = true;
        self.cc1e = true;
    }

    /// Enable auto-reload preload.
    pub fn enable_reload_preload(&mut self)
        ensures
            *final(self) == (TimerRegs { arpe: true, ..*old(self) }),
    {
        self.arpe = true;
    }

    /// Start the counter.
    pub fn start(&mut self)
        ensures
            *final(self) == (TimerRegs { cen: true, ..*old(self) }),
    {
        self.cen = true;
    }

    /// Clear the update-interrupt flag. A handler must do this before it
    /// returns, or the update interrupt re-fires forever.
    pub fn clear_update_flag(&mut self)
        requires
            old(self).clear_count < u64::MAX,
        ensures
            *final(self) == (TimerRegs {
                uif: false,
                clear_count: (old(self).clear_count + 1) as u64,
                ..*old(self)
            }),
    {
        self.uif = false;
        self.clear_count = self.clear_count + 1;
    }

    /// Hardware wrapping the counter: the update flag latches exactly when
    /// the counter runs, update events are not disabled, and the update
    /// interrupt is enabled.
    pub fn update_event(&mut self)
        ensures
            *final(self) == (TimerRegs {
                uif: old(self).uif || (old(self).cen && !old(self).udis && old(self).uie),
                ..*old(self)
            }),
    {
        if self.cen && !self.udis && self.uie {
            self.uif = true;
        }
    }
}

} // verus!
