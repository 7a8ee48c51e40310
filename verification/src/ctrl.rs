//! Model of the interrupt controller: the global maskable-interrupt switch,
//! per-source enable and pending bits, and the critical-section executor
//! built on top of them.
//!
//! The controller interface is `mask_all` / `restore` / `unmask` / `pending`
//! / `clear_pending`; a critical section is a `mask_all` paired with a
//! `restore` of the saved prior state, so nested sections re-enable
//! interrupts only when the outermost one exits.

use vstd::prelude::*;

verus! {

/// A hardware interrupt source known to the dispatch table.
#[derive(Clone, Copy, PartialEq, Eq, Structural, Debug)]
pub enum IrqSource {
    /// External-interrupt line 0: rising edge on the input pin.
    EdgeLine0,
    /// Timer update event: the counter wrapped.
    TimerUpdate,
}

/// Saved prior interrupt-mask state, produced by `mask_all` and consumed by
/// `restore`. It doubles as the critical-section witness: it cannot be
/// forged, so holding one proves that a `mask_all` has run and its `restore`
/// has not, and only code holding a reference to one may touch state shared
/// with interrupt handlers.
pub struct CsGuard {
    saved: bool,
}

impl CsGuard {
    /// The mask state in force before the critical section began.
    pub closed spec fn saved_mask(self) -> bool {
        self.saved
    }
}

/// The interrupt controller's register state, as the runtime reads it.
pub struct IntCtrl {
    /// Global switch: true = all maskable interrupts disabled.
    pub masked: bool,
    /// Controller-level enable bit for the edge line.
    pub edge_enabled: bool,
    /// Controller-level enable bit for the timer update event.
    pub timer_enabled: bool,
    /// Controller-level pending bit for the edge line.
    pub edge_pending: bool,
    /// Controller-level pending bit for the timer update event.
    pub timer_pending: bool,
}

impl IntCtrl {
    /// Controller-level enable bit of one source.
    pub open spec fn enabled(self, src: IrqSource) -> bool {
        match src {
            IrqSource::EdgeLine0 => self.edge_enabled,
            IrqSource::TimerUpdate => self.timer_enabled,
        }
    }

    /// Controller-level pending bit of one source.
    pub open spec fn is_pending(self, src: IrqSource) -> bool {
        match src {
            IrqSource::EdgeLine0 => self.edge_pending,
            IrqSource::TimerUpdate => self.timer_pending,
        }
    }

    /// Hardware may vector into a source's handler exactly when interrupts
    /// are unmasked and the source is both enabled and pending.
    pub open spec fn can_take(self, src: IrqSource) -> bool {
        !self.masked && self.enabled(src) && self.is_pending(src)
    }

    /// Post-reset state: unmasked, every source disabled and idle.
    pub fn at_reset() -> (c: IntCtrl)
        ensures
            !c.masked,
            !c.edge_enabled && !c.timer_enabled,
            !c.edge_pending && !c.timer_pending,
    {
        IntCtrl {
            masked: false,
            edge_enabled: false,
            timer_enabled: false,
            edge_pending: false,
            timer_pending: false,
        }
    }

    /// Enter a critical section: disable all maskable interrupts, handing
    /// back the prior mask state so that exit can restore it.
    pub fn mask_all(&mut self) -> (g: CsGuard)
        ensures
            g.saved_mask() == old(self).masked,
            *final(self) == (IntCtrl { masked: true, ..*old(self) }),
    {
        let g = CsGuard { saved: self.masked };
        self.masked = true;
        g
    }

    /// Leave a critical section: restore the mask state saved on entry.
    /// Restoring — not unconditionally re-enabling — is what makes nested
    /// sections safe: an inner exit puts back "masked".
    pub fn restore(&mut self, g: CsGuard)
        ensures
            *final(self) == (IntCtrl { masked: g.saved_mask(), ..*old(self) }),
    {
        self.masked = g.saved;
    }

    /// Enable one source at the controller level.
    pub fn unmask(&mut self, src: IrqSource)
        ensures
            final(self).enabled(src),
            forall|s: IrqSource| s != src ==> final(self).enabled(s) == old(self).enabled(s),
            final(self).masked == old(self).masked,
            forall|s: IrqSource| final(self).is_pending(s) == old(self).is_pending(s),
    {
        match src {
            IrqSource::EdgeLine0 => self.edge_enabled = true,
            IrqSource::TimerUpdate => self.timer_enabled = true,
        }
    }

    /// Read the global mask switch.
    pub fn is_masked(&self) -> (b: bool)
        ensures
            b == self.masked,
    {
        self.masked
    }

    /// Read one source's controller-level enable bit.
    pub fn is_enabled(&self, src: IrqSource) -> (b: bool)
        ensures
            b == self.enabled(src),
    {
        match src {
            IrqSource::EdgeLine0 => self.edge_enabled,
            IrqSource::TimerUpdate => self.timer_enabled,
        }
    }

    /// Read one source's controller-level pending bit.
    pub fn pending(&self, src: IrqSource) -> (b: bool)
        ensures
            b == self.is_pending(src),
    {
        match src {
            IrqSource::EdgeLine0 => self.edge_pending,
            IrqSource::TimerUpdate => self.timer_pending,
        }
    }

    /// Clear one source's controller-level pending bit (unpend).
    pub fn clear_pending(&mut self, src: IrqSource)
        ensures
            !final(self).is_pending(src),
            forall|s: IrqSource| s != src ==> final(self).is_pending(s) == old(self).is_pending(s),
            final(self).masked == old(self).masked,
            forall|s: IrqSource| final(self).enabled(s) == old(self).enabled(s),
    {
        match src {
            IrqSource::EdgeLine0 => self.edge_pending = false,
            IrqSource::TimerUpdate => self.timer_pending = false,
        }
    }

    /// Hardware raising an interrupt condition: sets the source's
    /// controller-level pending bit. Exec model of the external event, so
    /// harnesses can drive the state machines.
    pub fn raise(&mut self, src: IrqSource)
        ensures
            final(self).is_pending(src),
            forall|s: IrqSource| s != src ==> final(self).is_pending(s) == old(self).is_pending(s),
            final(self).masked == old(self).masked,
            forall|s: IrqSource| final(self).enabled(s) == old(self).enabled(s),
    {
        match src {
            IrqSource::EdgeLine0 => self.edge_pending = true,
            IrqSource::TimerUpdate => self.timer_pending = true,
        }
    }
}

/// Critical-section executor: runs `work` with all maskable interrupts
/// disabled, then restores the prior mask state, so the controller leaves
/// exactly as it entered. `work` must not block; nothing here checks that,
/// it is the caller's design obligation.
pub fn run_exclusive<R, F: FnOnce() -> R>(ctrl: &mut IntCtrl, work: F) -> (r: R)
    requires
        call_requires(work, ()),
    ensures
        call_ensures(work, (), r),
        *final(ctrl) == *old(ctrl),
{
    let g = ctrl.mask_all();
    let r = work();
    ctrl.restore(g);
    r
}

/// Mask-restoration witness: enters `depth + 1` nested critical sections
/// and leaves them in LIFO order; afterwards the controller state — the
/// mask included — equals the state before the outermost entry, at every
/// nesting depth.
pub fn nested_sections(ctrl: &mut IntCtrl, depth: u32)
    ensures
        *final(ctrl) == *old(ctrl),
    decreases depth,
{
    let g = ctrl.mask_all();
    if depth > 0 {
        nested_sections(ctrl, depth - 1);
    }
    ctrl.restore(g);
}

} // verus!
