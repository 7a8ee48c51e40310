//! The interrupt-driven state machines: a persistent toggle latch, the
//! shared toggle routine, and the two handler entry points (edge line and
//! timer update) that the dispatch layer invokes. Both handlers follow the
//! same shape: enter a critical section, clear the source's pending
//! condition, flip the latch, drive the LED pin from the new latch value,
//! and restore the prior mask state.

use vstd::prelude::*;

use crate::cell::SharedCell;
use crate::ctrl::CsGuard;
use crate::ctrl::IntCtrl;
use crate::ctrl::IrqSource;
use crate::exti::ExtiRegs;
use crate::gpio::GpioPort;
use crate::timer::TimerRegs;

verus! {

/// The external-interrupt line watched for button edges.
pub const EDGE_LINE: u16 = 0;

/// The input pin wired to the button.
pub const BUTTON_PIN: u16 = 0;

/// The output pin driving the user LED.
pub const LED_PIN: u16 = 5;

/// A single-bit persistent latch owned by exactly one interrupt handler,
/// flipped on every trigger event; it lives as long as the process and is
/// only ever touched inside that handler's critical section.
pub struct ToggleLatch {
    /// The latched value; the LED mirrors it after every event.
    pub on: bool,
}

impl ToggleLatch {
    /// A fresh latch, starting out cleared (LED off).
    pub fn new() -> (l: ToggleLatch)
        ensures
            !l.on,
    {
        ToggleLatch { on: false }
    }

    /// Flip the latched value.
    pub fn flip(&mut self)
        ensures
            final(self).on == !old(self).on,
    {
        self.on = !self.on;
    }

    /// Read the latched value.
    pub fn read(&self) -> (b: bool)
        ensures
            b == self.on,
    {
        self.on
    }
}

/// The latch value after `n` trigger events starting from `init`.
pub open spec fn latch_after(n: nat, init: bool) -> bool
    decreases n,
{
    if n == 0 {
        init
    } else {
        !latch_after((n - 1) as nat, init)
    }
}

/// Toggle parity: after an even number of trigger events the latch equals
/// its pre-trigger value, after an odd number it is flipped.
pub proof fn lemma_toggle_parity(n: nat, init: bool)
    ensures
        latch_after(n, init) == (if n % 2 == 0 { init } else { !init }),
    decreases n,
{
    if n > 0 {
        lemma_toggle_parity((n - 1) as nat, init);
    }
}

/// The shared toggle routine both state machines use: flip the latch, then
/// drive `pin` to the new latch value. Every other output pin and the
/// whole input register stay as they were.
pub fn toggle_output(latch: &mut ToggleLatch, port: &mut GpioPort, pin: u16)
    requires
        pin < 16,
    ensures
        final(latch).on == !old(latch).on,
        final(port).output_bit(pin) == final(latch).on,
        forall|p: u16| p < 16 && p != pin ==> final(port).output_bit(p) == old(port).output_bit(p),
        final(port).idr == old(port).idr,
{
    latch.flip();
    let level = latch.read();
    port.write_output(pin, level);
}

/// Handler entry point for the edge line: invoked by hardware dispatch on a
/// rising edge of the button pin. Clears the line's pending request
/// (exactly once, before returning), flips the edge latch, drives the LED
/// from the new latch value, and leaves the interrupt mask as it found it.
pub fn exti0_handler(
    ctrl: &mut IntCtrl,
    exti_cell: &mut SharedCell<ExtiRegs>,
    gpio_cell: &mut SharedCell<GpioPort>,
    latch: &mut ToggleLatch,
)
    requires
        old(exti_cell).populated(),
        old(gpio_cell).populated(),
        old(exti_cell).contents().clear_count < u64::MAX,
    ensures
        *final(ctrl) == *old(ctrl),
        final(exti_cell).populated(),
        !final(exti_cell).contents().line_pending(EDGE_LINE as u16),
        final(exti_cell).contents().clear_count == old(exti_cell).contents().clear_count + 1,
        final(exti_cell).contents().imr == old(exti_cell).contents().imr,
        final(exti_cell).contents().rtsr == old(exti_cell).contents().rtsr,
        forall|l: u16|
            l < 16 && l != EDGE_LINE ==> final(exti_cell).contents().line_pending(l)
                == old(exti_cell).contents().line_pending(l),
        final(latch).on == !old(latch).on,
        final(gpio_cell).populated(),
        final(gpio_cell).contents().output_bit(LED_PIN as u16) == final(latch).on,
        forall|p: u16|
            p < 16 && p != LED_PIN ==> final(gpio_cell).contents().output_bit(p)
                == old(gpio_cell).contents().output_bit(p),
        final(gpio_cell).contents().idr == old(gpio_cell).contents().idr,
{
    let g: CsGuard = ctrl.mask_all();
    let exti = exti_cell.borrow_mut(&g);
    exti.clear_pending(EDGE_LINE);
    let port = gpio_cell.borrow_mut(&g);
    toggle_output(latch, port, LED_PIN);
    ctrl.restore(g);
}

/// Handler entry point for the timer update event: invoked by hardware
/// dispatch on every counter wrap. Unpends the controller-level bit first
/// (belt and braces), then inside a critical section clears the timer's own
/// update flag (exactly once, before returning), flips the periodic latch,
/// and drives the LED from the new latch value.
pub fn tim2_handler(
    ctrl: &mut IntCtrl,
    tim_cell: &mut SharedCell<TimerRegs>,
    gpio_cell: &mut SharedCell<GpioPort>,
    latch: &mut ToggleLatch,
)
    requires
        old(tim_cell).populated(),
        old(gpio_cell).populated(),
        old(tim_cell).contents().clear_count < u64::MAX,
    ensures
        final(ctrl).masked == old(ctrl).masked,
        !final(ctrl).is_pending(IrqSource::TimerUpdate),
        final(ctrl).is_pending(IrqSource::EdgeLine0) == old(ctrl).is_pending(IrqSource::EdgeLine0),
        forall|s: IrqSource| final(ctrl).enabled(s) == old(ctrl).enabled(s),
        final(tim_cell).populated(),
        final(tim_cell).contents() == (TimerRegs {
            uif: false,
            clear_count: (old(tim_cell).contents().clear_count + 1) as u64,
            ..old(tim_cell).contents()
        }),
        final(latch).on == !old(latch).on,
        final(gpio_cell).populated(),
        final(gpio_cell).contents().output_bit(LED_PIN as u16) == final(latch).on,
        forall|p: u16|
            p < 16 && p != LED_PIN ==> final(gpio_cell).contents().output_bit(p)
                == old(gpio_cell).contents().output_bit(p),
        final(gpio_cell).contents().idr == old(gpio_cell).contents().idr,
{
    ctrl.clear_pending(IrqSource::TimerUpdate);
    let g: CsGuard = ctrl.mask_all();
    let tim = tim_cell.borrow_mut(&g);
    tim.clear_update_flag();
    let port = gpio_cell.borrow_mut(&g);
    toggle_output(latch, port, LED_PIN);
    ctrl.restore(g);
}

/// Drive `n` consecutive edge events through the edge handler. The latch
/// afterwards equals `latch_after(n, initial value)` — flipped for odd `n`,
/// unchanged for even `n` — the LED mirrors it once at least one event has
/// fired, and each event cleared the pending request exactly once.
pub fn drive_edge_events(
    ctrl: &mut IntCtrl,
    exti_cell: &mut SharedCell<ExtiRegs>,
    gpio_cell: &mut SharedCell<GpioPort>,
    latch: &mut ToggleLatch,
    n: u32,
)
    requires
        old(exti_cell).populated(),
        old(gpio_cell).populated(),
        old(exti_cell).contents().clear_count + n <= u64::MAX,
    ensures
        *final(ctrl) == *old(ctrl),
        final(exti_cell).populated(),
        final(gpio_cell).populated(),
        final(latch).on == latch_after(n as nat, old(latch).on),
        n > 0 ==> final(gpio_cell).contents().output_bit(LED_PIN as u16) == final(latch).on,
        final(exti_cell).contents().clear_count == old(exti_cell).contents().clear_count + n,
{
    let mut i: u32 = 0;
    while i < n
        invariant
            i <= n,
            *ctrl == *old(ctrl),
            exti_cell.populated(),
            gpio_cell.populated(),
            exti_cell.contents().clear_count == old(exti_cell).contents().clear_count + i,
            old(exti_cell).contents().clear_count + n <= u64::MAX,
            latch.on == latch_after(i as nat, old(latch).on),
            i > 0 ==> gpio_cell.contents().output_bit(LED_PIN as u16) == latch.on,
        decreases n - i,
    {
        exti0_handler(ctrl, exti_cell, gpio_cell, latch);
        i = i + 1;
    }
}

} // verus!
