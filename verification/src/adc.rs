//! Model of the ADC in single-conversion blocking mode, and the
//! threshold-to-LED decision the polling main loop makes from each sample.

use vstd::prelude::*;

use crate::gpio::GpioPort;
use crate::machine::LED_PIN;

verus! {

/// Sample values strictly above this drive the LED on; at or below it the
/// LED is off (the boundary is exclusive).
pub const ADC_LED_THRESHOLD: u16 = 0x200;

/// The ADC's register file, as the polling loop reads it. The model
/// completes a conversion as soon as it is started; the real converter's
/// conversion time is what the busy poll absorbs, and an unresponsive
/// converter (a poll that never ends) is accepted as out of scope.
pub struct AdcRegs {
    /// Converter powered on.
    pub adon: bool,
    /// End-of-conversion flag: set when `data` holds a fresh sample,
    /// cleared by reading the data register.
    pub eoc: bool,
    /// Data register: the last converted sample.
    pub data: u16,
    /// The level presented on the analog input pin; written by hardware
    /// (or a harness), sampled by each conversion.
    pub input: u16,
}

impl AdcRegs {
    /// Post-reset contents: powered off, nothing converted.
    pub open spec fn is_reset(self) -> bool {
        !self.adon && !self.eoc && self.data == 0 && self.input == 0
    }

    /// Post-reset state: powered off, nothing converted.
    pub fn at_reset() -> (a: AdcRegs)
        ensures
            !a.adon && !a.eoc && a.data == 0 && a.input == 0,
    {
        AdcRegs { adon: false, eoc: false, data: 0, input: 0 }
    }

    /// Power the converter on.
    pub fn power_on(&mut self)
        ensures
            *final(self) == (AdcRegs { adon: true, ..*old(self) }),
    {
        self.adon = true;
    }

    /// Software-trigger one conversion: the input level is captured into
    /// the data register and the end-of-conversion flag is set.
    pub fn start_conversion(&mut self)
        requires
            old(self).adon,
        ensures
            *final(self) == (AdcRegs { eoc: true, data: old(self).input, ..*old(self) }),
    {
        self.data = self.input;
        self.eoc = true;
    }

    /// Read the end-of-conversion flag.
    pub fn conversion_complete(&self) -> (b: bool)
        ensures
            b == self.eoc,
    {
        self.eoc
    }

    /// Read the data register; the read resets the end-of-conversion flag.
    pub fn read_data(&mut self) -> (sample: u16)
        ensures
            sample == old(self).data,
            *final(self) == (AdcRegs { eoc: false, ..*old(self) }),
    {
        self.eoc = false;
        self.data
    }

    /// Hardware (or a harness) presenting a new level on the analog input.
    pub fn set_input(&mut self, level: u16)
        ensures
            *final(self) == (AdcRegs { input: level, ..*old(self) }),
    {
        self.input = level;
    }
}

/// The decision the polling loop makes from a sample: LED on exactly when
/// the sample is strictly above the threshold.
pub fn led_level_for_sample(sample: u16) -> (on: bool)
    ensures
        on == (sample > ADC_LED_THRESHOLD),
{
    sample > ADC_LED_THRESHOLD
}

/// One iteration of the blocking single-conversion loop: trigger a
/// conversion, busy-poll until it completes, read the sample, and drive
/// the LED from the threshold decision.
pub fn adc_poll_step(adc: &mut AdcRegs, port: &mut GpioPort)
    requires
        old(adc).adon,
    ensures
        final(adc).adon,
        !final(adc).eoc,
        final(adc).data == old(adc).input,
        final(adc).input == old(adc).input,
        final(port).output_bit(LED_PIN as u16) == (old(adc).input > ADC_LED_THRESHOLD),
        forall|p: u16|
            p < 16 && p != LED_PIN ==> final(port).output_bit(p) == old(port).output_bit(p),
        final(port).idr == old(port).idr,
{
    adc.start_conversion();
    while !adc.conversion_complete()
        invariant
            adc.eoc,
        decreases 0int,
    {
    }
    let sample = adc.read_data();
    let on = led_level_for_sample(sample);
    port.write_output(LED_PIN, on);
}

} // verus!
