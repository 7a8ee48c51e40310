//! Startup: taking the peripherals exactly once, populating the shared
//! cells inside one critical section, and arming the interrupt sources only
//! afterwards (populate-before-arm, enforced statically by the arm
//! functions' preconditions), plus the interrupt dispatch table that maps
//! each hardware source to its fixed handler entry point.

use vstd::prelude::*;

use crate::adc::AdcRegs;
use crate::cell::SharedCell;
use crate::ctrl::IntCtrl;
use crate::ctrl::IrqSource;
use crate::exti::ExtiRegs;
use crate::gpio::GpioPort;
use crate::machine::EDGE_LINE;
use crate::machine::LED_PIN;
use crate::machine::ToggleLatch;
use crate::machine::exti0_handler;
use crate::machine::tim2_handler;
use crate::timer::TimerRegs;

verus! {

/// Auto-reload value programmed into the periodic timer at startup.
pub const TIMER_RELOAD: u32 = 0x1ffff;

/// Prescaler value programmed into the periodic timer at startup.
pub const TIMER_PRESCALER: u32 = 0x0008;

/// Whether the one-time peripheral hand-out has already happened.
pub struct BootState {
    /// True once `take_peripherals` has handed the bank out.
    pub peripherals_taken: bool,
}

impl BootState {
    /// The state right after reset: nothing handed out yet.
    pub fn after_reset() -> (b: BootState)
        ensures
            !b.peripherals_taken,
    {
        BootState { peripherals_taken: false }
    }
}

/// The bank of peripheral ownership handles: one movable, non-duplicable
/// capability per peripheral, produced exactly once at startup.
pub struct Peripherals {
    /// GPIO port A: LED output, button input, analog input.
    pub gpioa: GpioPort,
    /// The external-interrupt unit.
    pub exti: ExtiRegs,
    /// The periodic timer.
    pub tim2: TimerRegs,
    /// The PWM timer.
    pub tim3: TimerRegs,
    /// The analog-to-digital converter.
    pub adc1: AdcRegs,
}

/// Hand out the peripheral bank, exactly once: the first call returns the
/// bank in its post-reset state, every later call returns nothing.
/// Attempting to take twice is a fatal startup error, which the caller
/// surfaces by halting.
pub fn take_peripherals(boot: &mut BootState) -> (r: Option<Peripherals>)
    ensures
        final(boot).peripherals_taken,
        r is Some <==> !old(boot).peripherals_taken,
        r is Some ==> {
            let p = r->Some_0;
            &&& p.gpioa.is_reset()
            &&& p.exti.is_reset()
            &&& p.tim2.is_reset()
            &&& p.tim3.is_reset()
            &&& p.adc1.is_reset()
        },
{
    if boot.peripherals_taken {
        None
    } else {
        boot.peripherals_taken = true;
        Some(Peripherals {
            gpioa: GpioPort::at_reset(),
            exti: ExtiRegs::at_reset(),
            tim2: TimerRegs::at_reset(),
            tim3: TimerRegs::at_reset(),
            adc1: AdcRegs::at_reset(),
        })
    }
}

/// The runtime context of the interrupt-driven state machines: the
/// interrupt controller, one shared cell per peripheral handle the handlers
/// borrow, and one persistent latch per handler.
pub struct Board {
    /// The interrupt controller.
    pub ctrl: IntCtrl,
    /// Shared cell holding the external-interrupt unit's handle.
    pub exti_cell: SharedCell<ExtiRegs>,
    /// Shared cell holding the periodic timer's handle.
    pub tim_cell: SharedCell<TimerRegs>,
    /// Shared cell holding the GPIO port's handle.
    pub gpio_cell: SharedCell<GpioPort>,
    /// The edge handler's persistent latch.
    pub edge_latch: ToggleLatch,
    /// The timer handler's persistent latch.
    pub timer_latch: ToggleLatch,
}

/// Arm the edge line at the controller. Demanding the populated cells here
/// is the populate-before-arm invariant made static: a startup that arms
/// before storing does not verify.
pub fn arm_edge_interrupt(
    ctrl: &mut IntCtrl,
    exti_cell: &SharedCell<ExtiRegs>,
    gpio_cell: &SharedCell<GpioPort>,
)
    requires
        exti_cell.populated(),
        gpio_cell.populated(),
    ensures
        final(ctrl).enabled(IrqSource::EdgeLine0),
        final(ctrl).enabled(IrqSource::TimerUpdate) == old(ctrl).enabled(IrqSource::TimerUpdate),
        final(ctrl).masked == old(ctrl).masked,
        forall|s: IrqSource| final(ctrl).is_pending(s) == old(ctrl).is_pending(s),
{
    ctrl.unmask(IrqSource::EdgeLine0);
}

/// Arm the timer update event at the controller; same populate-before-arm
/// obligation as for the edge line.
pub fn arm_timer_interrupt(
    ctrl: &mut IntCtrl,
    tim_cell: &SharedCell<TimerRegs>,
    gpio_cell: &SharedCell<GpioPort>,
)
    requires
        tim_cell.populated(),
        gpio_cell.populated(),
    ensures
        final(ctrl).enabled(IrqSource::TimerUpdate),
        final(ctrl).enabled(IrqSource::EdgeLine0) == old(ctrl).enabled(IrqSource::EdgeLine0),
        final(ctrl).masked == old(ctrl).masked,
        forall|s: IrqSource| final(ctrl).is_pending(s) == old(ctrl).is_pending(s),
{
    ctrl.unmask(IrqSource::TimerUpdate);
}

/// The startup sequence: configure the edge line and the periodic timer,
/// move the handles into the shared cells inside one critical section, and
/// only then arm both sources. Returns the running board with interrupts
/// unmasked and both latches cleared.
pub fn startup(p: Peripherals) -> (b: Board)
    ensures
        b.exti_cell.populated(),
        b.tim_cell.populated(),
        b.gpio_cell.populated(),
        !b.ctrl.masked,
        b.ctrl.enabled(IrqSource::EdgeLine0),
        b.ctrl.enabled(IrqSource::TimerUpdate),
        !b.ctrl.is_pending(IrqSource::EdgeLine0),
        !b.ctrl.is_pending(IrqSource::TimerUpdate),
        !b.edge_latch.on,
        !b.timer_latch.on,
        b.exti_cell.contents().line_enabled(EDGE_LINE as u16),
        b.exti_cell.contents().rising_trigger(EDGE_LINE as u16),
        b.exti_cell.contents().pr == p.exti.pr,
        b.exti_cell.contents().clear_count == p.exti.clear_count,
        b.tim_cell.contents() == (TimerRegs {
            uie: true,
            udis: false,
            cen: true,
            arr: TIMER_RELOAD,
            psc: TIMER_PRESCALER,
            ..p.tim2
        }),
        b.gpio_cell.contents() == p.gpioa,
{
    let mut ctrl = IntCtrl::at_reset();
    let mut exti = p.exti;
    exti.enable_line(EDGE_LINE);
    exti.select_rising_trigger(EDGE_LINE);
    let mut tim = p.tim2;
    tim.enable_update_interrupt();
    tim.write_reload(TIMER_RELOAD);
    tim.write_prescaler(TIMER_PRESCALER);
    tim.start();
    let mut exti_cell: SharedCell<ExtiRegs> = SharedCell::empty();
    let mut tim_cell: SharedCell<TimerRegs> = SharedCell::empty();
    let mut gpio_cell: SharedCell<GpioPort> = SharedCell::empty();
    let g = ctrl.mask_all();
    exti_cell.store(&g, exti);
    tim_cell.store(&g, tim);
    gpio_cell.store(&g, p.gpioa);
    ctrl.restore(g);
    arm_edge_interrupt(&mut ctrl, &exti_cell, &gpio_cell);
    arm_timer_interrupt(&mut ctrl, &tim_cell, &gpio_cell);
    Board {
        ctrl,
        exti_cell,
        tim_cell,
        gpio_cell,
        edge_latch: ToggleLatch::new(),
        timer_latch: ToggleLatch::new(),
    }
}

/// The interrupt dispatch table: the hardware/firmware layer hands over the
/// active source, and this maps it to its fixed handler entry point — no
/// software scheduler involved.
pub fn dispatch(b: &mut Board, src: IrqSource)
    requires
        old(b).exti_cell.populated(),
        old(b).tim_cell.populated(),
        old(b).gpio_cell.populated(),
        old(b).exti_cell.contents().clear_count < u64::MAX,
        old(b).tim_cell.contents().clear_count < u64::MAX,
    ensures
        final(b).exti_cell.populated(),
        final(b).tim_cell.populated(),
        final(b).gpio_cell.populated(),
        final(b).ctrl.masked == old(b).ctrl.masked,
        forall|s: IrqSource| final(b).ctrl.enabled(s) == old(b).ctrl.enabled(s),
        final(b).gpio_cell.contents().idr == old(b).gpio_cell.contents().idr,
        src == IrqSource::EdgeLine0 ==> {
            &&& forall|s: IrqSource| final(b).ctrl.is_pending(s) == old(b).ctrl.is_pending(s)
            &&& final(b).edge_latch.on == !old(b).edge_latch.on
            &&& final(b).timer_latch == old(b).timer_latch
            &&& !final(b).exti_cell.contents().line_pending(EDGE_LINE as u16)
            &&& final(b).exti_cell.contents().clear_count
                == old(b).exti_cell.contents().clear_count + 1
            &&& final(b).tim_cell == old(b).tim_cell
            &&& final(b).gpio_cell.contents().output_bit(LED_PIN as u16)
                == final(b).edge_latch.on
        },
        src == IrqSource::TimerUpdate ==> {
            &&& final(b).ctrl.is_pending(IrqSource::EdgeLine0)
                == old(b).ctrl.is_pending(IrqSource::EdgeLine0)
            &&& final(b).timer_latch.on == !old(b).timer_latch.on
            &&& final(b).edge_latch == old(b).edge_latch
            &&& !final(b).tim_cell.contents().uif
            &&& final(b).tim_cell.contents().clear_count
                == old(b).tim_cell.contents().clear_count + 1
            &&& final(b).exti_cell == old(b).exti_cell
            &&& !final(b).ctrl.is_pending(IrqSource::TimerUpdate)
            &&& final(b).gpio_cell.contents().output_bit(LED_PIN as u16)
                == final(b).timer_latch.on
        },
{
    match src {
        IrqSource::EdgeLine0 => {
            exti0_handler(&mut b.ctrl, &mut b.exti_cell, &mut b.gpio_cell, &mut b.edge_latch);
        },
        IrqSource::TimerUpdate => {
            tim2_handler(&mut b.ctrl, &mut b.tim_cell, &mut b.gpio_cell, &mut b.timer_latch);
        },
    }
}

/// One hardware step: if the controller can take `src` — interrupts
/// unmasked, source enabled and pending — clear its controller-level
/// pending bit (the pending-to-active hand-off), vector into the dispatch
/// table, and report that the interrupt ran.
pub fn try_take_interrupt(b: &mut Board, src: IrqSource) -> (taken: bool)
    requires
        old(b).exti_cell.populated(),
        old(b).tim_cell.populated(),
        old(b).gpio_cell.populated(),
        old(b).exti_cell.contents().clear_count < u64::MAX,
        old(b).tim_cell.contents().clear_count < u64::MAX,
    ensures
        taken == old(b).ctrl.can_take(src),
        !taken ==> *final(b) == *old(b),
        final(b).exti_cell.populated(),
        final(b).tim_cell.populated(),
        final(b).gpio_cell.populated(),
        final(b).ctrl.masked == old(b).ctrl.masked,
        taken ==> !final(b).ctrl.is_pending(src),
        taken && src == IrqSource::EdgeLine0 ==> {
            &&& final(b).edge_latch.on == !old(b).edge_latch.on
            &&& !final(b).exti_cell.contents().line_pending(EDGE_LINE as u16)
            &&& final(b).exti_cell.contents().clear_count
                == old(b).exti_cell.contents().clear_count + 1
            &&& final(b).gpio_cell.contents().output_bit(LED_PIN as u16)
                == final(b).edge_latch.on
        },
        taken && src == IrqSource::TimerUpdate ==> {
            &&& final(b).timer_latch.on == !old(b).timer_latch.on
            &&& !final(b).tim_cell.contents().uif
            &&& final(b).tim_cell.contents().clear_count
                == old(b).tim_cell.contents().clear_count + 1
            &&& final(b).gpio_cell.contents().output_bit(LED_PIN as u16)
                == final(b).timer_latch.on
        },
{
    let masked = b.ctrl.is_masked();
    let enabled = b.ctrl.is_enabled(src);
    let pend = b.ctrl.pending(src);
    if !masked && enabled && pend {
        b.ctrl.clear_pending(src);
        dispatch(b, src);
        true
    } else {
        false
    }
}

} // verus!
