// The interrupt-driven state machines: startup ordering, dispatch, toggle
// parity, and pending-clear accounting.

use mcu_core::boot::Board;
use mcu_core::boot::BootState;
use mcu_core::boot::TIMER_PRESCALER;
use mcu_core::boot::TIMER_RELOAD;
use mcu_core::boot::dispatch;
use mcu_core::boot::startup;
use mcu_core::boot::take_peripherals;
use mcu_core::boot::try_take_interrupt;
use mcu_core::ctrl::IrqSource;
use mcu_core::machine::EDGE_LINE;
use mcu_core::machine::LED_PIN;

fn booted_board() -> Board {
    let mut boot = BootState::after_reset();
    let p = take_peripherals(&mut boot).unwrap();
    startup(p)
}

fn led_is_on(b: &mut Board) -> bool {
    let g = b.ctrl.mask_all();
    let on = { b.gpio_cell.borrow(&g).read_output(LED_PIN) };
    b.ctrl.restore(g);
    on
}

fn edge_clear_count(b: &mut Board) -> u64 {
    let g = b.ctrl.mask_all();
    let n = { b.exti_cell.borrow(&g).clear_count };
    b.ctrl.restore(g);
    n
}

#[test]
fn peripherals_taken_exactly_once() {
    let mut boot = BootState::after_reset();
    assert!(take_peripherals(&mut boot).is_some());
    assert!(take_peripherals(&mut boot).is_none());
    assert!(take_peripherals(&mut boot).is_none());
}

#[test]
fn startup_populates_then_arms() {
    let mut b = booted_board();
    assert!(b.exti_cell.is_populated());
    assert!(b.tim_cell.is_populated());
    assert!(b.gpio_cell.is_populated());
    assert!(b.ctrl.is_enabled(IrqSource::EdgeLine0));
    assert!(b.ctrl.is_enabled(IrqSource::TimerUpdate));
    assert!(!b.ctrl.is_masked());
    assert!(!b.edge_latch.on);
    assert!(!b.timer_latch.on);
    let g = b.ctrl.mask_all();
    {
        let exti = b.exti_cell.borrow(&g);
        assert!(exti.read_line_enabled(EDGE_LINE));
        assert!(exti.read_rising_trigger(EDGE_LINE));
        let tim = b.tim_cell.borrow(&g);
        assert!(tim.uie);
        assert!(tim.cen);
        assert_eq!(tim.arr, TIMER_RELOAD);
        assert_eq!(tim.psc, TIMER_PRESCALER);
    }
    b.ctrl.restore(g);
}

#[test]
fn edge_toggle_parity_one_two_and_thousand() {
    let mut b = booted_board();
    assert!(!b.edge_latch.on);

    dispatch(&mut b, IrqSource::EdgeLine0);
    assert!(b.edge_latch.on);
    assert!(led_is_on(&mut b));

    dispatch(&mut b, IrqSource::EdgeLine0);
    assert!(!b.edge_latch.on);
    assert!(!led_is_on(&mut b));

    // 998 more events: 1000 in total, even, so latch and LED are back to
    // their pre-trigger values.
    for _ in 0..998 {
        dispatch(&mut b, IrqSource::EdgeLine0);
    }
    assert!(!b.edge_latch.on);
    assert!(!led_is_on(&mut b));
    assert_eq!(edge_clear_count(&mut b), 1000);
}

#[test]
fn timer_toggle_parity() {
    let mut b = booted_board();
    assert!(!b.timer_latch.on);
    dispatch(&mut b, IrqSource::TimerUpdate);
    assert!(b.timer_latch.on);
    assert!(led_is_on(&mut b));
    dispatch(&mut b, IrqSource::TimerUpdate);
    assert!(!b.timer_latch.on);
    assert!(!led_is_on(&mut b));
    // The two machines keep separate latches.
    assert!(!b.edge_latch.on);
}

#[test]
fn every_handler_invocation_clears_pending_once() {
    let mut b = booted_board();
    let invocations = 37;
    for _ in 0..invocations {
        dispatch(&mut b, IrqSource::EdgeLine0);
        // The line's pending request is gone before the handler returns.
        let g = b.ctrl.mask_all();
        let pending = { b.exti_cell.borrow(&g).read_pending(EDGE_LINE) };
        b.ctrl.restore(g);
        assert!(!pending);
    }
    // Invocation count and pending-clear count agree.
    assert_eq!(edge_clear_count(&mut b), invocations);
}

#[test]
fn timer_handler_clears_update_flag_and_unpends() {
    let mut b = booted_board();
    // Let the hardware model wrap the counter: the update flag latches.
    let g = b.ctrl.mask_all();
    {
        let tim = b.tim_cell.borrow_mut(&g);
        tim.update_event();
        assert!(tim.uif);
    }
    b.ctrl.restore(g);
    b.ctrl.raise(IrqSource::TimerUpdate);

    dispatch(&mut b, IrqSource::TimerUpdate);

    assert!(!b.ctrl.pending(IrqSource::TimerUpdate));
    let g = b.ctrl.mask_all();
    let (uif, clears) = {
        let tim = b.tim_cell.borrow(&g);
        (tim.uif, tim.clear_count)
    };
    b.ctrl.restore(g);
    assert!(!uif);
    assert_eq!(clears, 1);
}

#[test]
fn masked_controller_never_dispatches() {
    let mut b = booted_board();
    b.ctrl.raise(IrqSource::EdgeLine0);
    let g = b.ctrl.mask_all();
    // Pending, enabled, but masked: the handler must not run.
    let taken = try_take_interrupt(&mut b, IrqSource::EdgeLine0);
    assert!(!taken);
    assert!(!b.edge_latch.on);
    b.ctrl.restore(g);
    // Unmasked again: now it runs, and the pending bit is consumed.
    let taken = try_take_interrupt(&mut b, IrqSource::EdgeLine0);
    assert!(taken);
    assert!(b.edge_latch.on);
    assert!(!b.ctrl.pending(IrqSource::EdgeLine0));
    // No pending bit, no dispatch.
    let taken = try_take_interrupt(&mut b, IrqSource::EdgeLine0);
    assert!(!taken);
}

#[test]
fn edge_event_latches_only_when_line_configured() {
    let mut b = booted_board();
    // Startup enabled line 0 with a rising trigger, so an edge latches the
    // pending request.
    let g = b.ctrl.mask_all();
    {
        let exti = b.exti_cell.borrow_mut(&g);
        assert!(!exti.read_pending(EDGE_LINE));
        exti.edge_event(EDGE_LINE);
        assert!(exti.read_pending(EDGE_LINE));
        // A line that is not enabled does not latch.
        exti.edge_event(3);
        assert!(!exti.read_pending(3));
    }
    b.ctrl.restore(g);
}

#[test]
fn drive_edge_events_matches_parity() {
    let mut b = booted_board();
    mcu_core::machine::drive_edge_events(
        &mut b.ctrl,
        &mut b.exti_cell,
        &mut b.gpio_cell,
        &mut b.edge_latch,
        999,
    );
    assert!(b.edge_latch.on);
    assert!(led_is_on(&mut b));
    assert_eq!(edge_clear_count(&mut b), 999);
}
