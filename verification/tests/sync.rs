// The synchronization layer: critical sections, the shared cell, and the
// trace discipline.

use mcu_core::cell::SharedCell;
use mcu_core::ctrl::IntCtrl;
use mcu_core::ctrl::IrqSource;
use mcu_core::ctrl::nested_sections;
use mcu_core::ctrl::run_exclusive;
use mcu_core::trace::Event;
use mcu_core::trace::check_trace;

#[test]
fn mask_all_saves_and_restore_puts_back() {
    let mut ctrl = IntCtrl::at_reset();
    assert!(!ctrl.masked);
    let g = ctrl.mask_all();
    assert!(ctrl.masked);
    ctrl.restore(g);
    assert!(!ctrl.masked);
}

#[test]
fn nested_sections_restore_outermost_state() {
    let mut ctrl = IntCtrl::at_reset();
    let outer = ctrl.mask_all();
    // Inner sections see "already masked" and must put that back, not
    // unconditionally re-enable.
    let inner = ctrl.mask_all();
    ctrl.restore(inner);
    assert!(ctrl.masked);
    ctrl.restore(outer);
    assert!(!ctrl.masked);
}

#[test]
fn nested_sections_any_depth_restore() {
    let mut ctrl = IntCtrl::at_reset();
    nested_sections(&mut ctrl, 17);
    assert!(!ctrl.masked);
    let g = ctrl.mask_all();
    nested_sections(&mut ctrl, 4);
    assert!(ctrl.masked);
    ctrl.restore(g);
    assert!(!ctrl.masked);
}

#[test]
fn run_exclusive_returns_work_result_and_restores_mask() {
    let mut ctrl = IntCtrl::at_reset();
    let r = run_exclusive(&mut ctrl, || 40 + 2);
    assert_eq!(r, 42);
    assert!(!ctrl.masked);
}

#[test]
fn shared_cell_starts_empty_and_stores() {
    let mut ctrl = IntCtrl::at_reset();
    let mut cell: SharedCell<u32> = SharedCell::empty();
    assert!(!cell.is_populated());
    let g = ctrl.mask_all();
    cell.store(&g, 7);
    assert!(cell.is_populated());
    assert_eq!(*cell.borrow(&g), 7);
    ctrl.restore(g);
}

#[test]
fn shared_cell_second_store_replaces() {
    let mut ctrl = IntCtrl::at_reset();
    let mut cell: SharedCell<u32> = SharedCell::empty();
    let g = ctrl.mask_all();
    cell.store(&g, 1);
    cell.store(&g, 2);
    assert_eq!(*cell.borrow(&g), 2);
    ctrl.restore(g);
}

#[test]
fn shared_cell_borrow_mut_updates_contents() {
    let mut ctrl = IntCtrl::at_reset();
    let mut cell: SharedCell<u32> = SharedCell::empty();
    let g = ctrl.mask_all();
    cell.store(&g, 10);
    {
        let v = cell.borrow_mut(&g);
        *v = 11;
    }
    assert_eq!(*cell.borrow(&g), 11);
    ctrl.restore(g);
}

#[test]
fn controller_pending_bits() {
    let mut ctrl = IntCtrl::at_reset();
    assert!(!ctrl.pending(IrqSource::EdgeLine0));
    ctrl.raise(IrqSource::EdgeLine0);
    assert!(ctrl.pending(IrqSource::EdgeLine0));
    assert!(!ctrl.pending(IrqSource::TimerUpdate));
    ctrl.clear_pending(IrqSource::EdgeLine0);
    assert!(!ctrl.pending(IrqSource::EdgeLine0));
}

#[test]
fn trace_good_startup_and_interrupt_is_wellformed() {
    let events = vec![
        Event::MainEnter,
        Event::Populate,
        Event::MainAccess,
        Event::MainLeave,
        Event::Arm,
        Event::IrqBegin,
        Event::IrqAccess,
        Event::IrqEnd,
        Event::MainEnter,
        Event::MainAccess,
        Event::MainLeave,
    ];
    assert!(check_trace(&events));
}

#[test]
fn trace_irq_during_main_section_is_flagged() {
    // Mutual exclusion: a handler beginning while main holds a critical
    // section is a forbidden interleaving.
    let events = vec![
        Event::MainEnter,
        Event::Populate,
        Event::IrqBegin,
        Event::IrqAccess,
        Event::IrqEnd,
        Event::MainLeave,
    ];
    assert!(!check_trace(&events));
}

#[test]
fn trace_main_access_outside_section_is_flagged() {
    let events = vec![Event::MainEnter, Event::Populate, Event::MainLeave, Event::MainAccess];
    assert!(!check_trace(&events));
}

#[test]
fn trace_arm_before_populate_is_flagged() {
    // Populate-before-arm: a startup that arms the source before storing
    // the handle must be rejected.
    let events = vec![Event::Arm];
    assert!(!check_trace(&events));
    let reordered = vec![
        Event::Arm,
        Event::MainEnter,
        Event::Populate,
        Event::MainLeave,
    ];
    assert!(!check_trace(&reordered));
}

#[test]
fn trace_irq_access_without_handler_is_flagged() {
    let events = vec![Event::IrqAccess];
    assert!(!check_trace(&events));
}

#[test]
fn trace_handler_needs_armed_source() {
    let events = vec![Event::IrqBegin];
    assert!(!check_trace(&events));
}
