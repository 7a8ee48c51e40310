//! Model of one GPIO port's register file, reduced to the registers the
//! state machines read and write: the output data register and the input
//! data register, one bit per pin.

use vstd::prelude::*;

verus! {

/// One GPIO port: 16 pins, an output data register and an input data
/// register. Mode, pull and alternate-function selection are configuration
/// glue outside the verified core.
pub struct GpioPort {
    /// Output data register: bit `p` drives pin `p`.
    pub odr: u16,
    /// Input data register: bit `p` is the sampled level of pin `p`.
    /// Written by hardware; harnesses set it directly.
    pub idr: u16,
}

impl GpioPort {
    /// Post-reset contents: every output low, every input reading low.
    pub open spec fn is_reset(self) -> bool {
        self.odr == 0 && self.idr == 0
    }

    /// Level currently driven on output pin `pin`.
    pub open spec fn output_bit(self, pin: u16) -> bool {
        (self.odr >> pin) & 1 == 1
    }

    /// Level currently sampled on input pin `pin`.
    pub open spec fn input_bit(self, pin: u16) -> bool {
        (self.idr >> pin) & 1 == 1
    }

    /// A port with every output low and every input reading low.
    pub fn at_reset() -> (p: GpioPort)
        ensures
            forall|i: u16| i < 16 ==> !p.output_bit(i),
            forall|i: u16| i < 16 ==> !p.input_bit(i),
            p.odr == 0 && p.idr == 0,
    {
        let p = GpioPort { odr: 0, idr: 0 };
        assert(forall|i: u16| i < 16 ==> (0u16 >> i) & 1 != 1) by (bit_vector);
        p
    }

    /// Drive output pin `pin` to `level`, leaving every other pin and the
    /// whole input register unchanged.
    pub fn write_output(&mut self, pin: u16, level: bool)
        requires
            pin < 16,
        ensures
            final(self).output_bit(pin) == level,
            forall|p: u16| p < 16 && p != pin ==> final(self).output_bit(p) == old(self).output_bit(p),
            final(self).idr == old(self).idr,
    {
        let prior = self.odr;
        if level {
            self.odr = self.odr | (1u16 << pin);
            assert((prior | (1u16 << pin)) >> pin & 1 == 1) by (bit_vector)
                requires pin < 16;
            assert(forall|p: u16| p < 16 && p != pin ==> (prior | (1u16 << pin)) >> p & 1 == prior >> p & 1) by (bit_vector)
                requires pin < 16;
        } else {
            self.odr = self.odr & !(1u16 << pin);
            assert((prior & !(1u16 << pin)) >> pin & 1 != 1) by (bit_vector)
                requires pin < 16;
            assert(forall|p: u16| p < 16 && p != pin ==> (prior & !(1u16 << pin)) >> p & 1 == prior >> p & 1) by (bit_vector)
                requires pin < 16;
        }
    }

    /// Read the level currently driven on output pin `pin`.
    pub fn read_output(&self, pin: u16) -> (b: bool)
        requires
            pin < 16,
        ensures
            b == self.output_bit(pin),
    {
        (self.odr >> pin) & 1 == 1
    }

    /// Read the sampled level of input pin `pin`.
    pub fn read_input(&self, pin: u16) -> (b: bool)
        requires
            pin < 16,
        ensures
            b == self.input_bit(pin),
    {
        (self.idr >> pin) & 1 == 1
    }

    /// Hardware (or a harness) driving input pin `pin` to `level`; outputs
    /// are untouched.
    pub fn set_input(&mut self, pin: u16, level: bool)
        requires
            pin < 16,
        ensures
            final(self).input_bit(pin) == level,
            forall|p: u16| p < 16 && p != pin ==> final(self).input_bit(p) == old(self).input_bit(p),
            final(self).odr == old(self).odr,
    {
        let prior = self.idr;
        if level {
            self.idr = self.idr | (1u16 << pin);
            assert((prior | (1u16 << pin)) >> pin & 1 == 1) by (bit_vector)
                requires pin < 16;
            assert(forall|p: u16| p < 16 && p != pin ==> (prior | (1u16 << pin)) >> p & 1 == prior >> p & 1) by (bit_vector)
                requires pin < 16;
        } else {
            self.idr = self.idr & !(1u16 << pin);
            assert((prior & !(1u16 << pin)) >> pin & 1 != 1) by (bit_vector)
                requires pin < 16;
            assert(forall|p: u16| p < 16 && p != pin ==> (prior & !(1u16 << pin)) >> p & 1 == prior >> p & 1) by (bit_vector)
                requires pin < 16;
        }
    }
}

/// One iteration of the plain blink loop: drive `pin` high, pause, drive it
/// low, pause. The pin always ends the iteration low; every other output
/// and the input register are untouched.
pub fn blink_cycle(port: &mut GpioPort, pin: u16)
    requires
        pin < 16,
    ensures
        !final(port).output_bit(pin),
        forall|p: u16| p < 16 && p != pin ==> final(port).output_bit(p) == old(port).output_bit(p),
        final(port).idr == old(port).idr,
{
    port.write_output(pin, true);
    crate::delay();
    port.write_output(pin, false);
    crate::delay();
}

/// Mirror one input pin onto one output pin: the polled input-follows-output
/// step of the button-reading main loop.
pub fn mirror_input(port: &mut GpioPort, in_pin: u16, out_pin: u16)
    requires
        in_pin < 16,
        out_pin < 16,
    ensures
        final(port).output_bit(out_pin) == old(port).input_bit(in_pin),
        forall|p: u16| p < 16 && p != out_pin ==> final(port).output_bit(p) == old(port).output_bit(p),
        final(port).idr == old(port).idr,
{
    let level = port.read_input(in_pin);
    port.write_output(out_pin, level);
}

} // verus!
