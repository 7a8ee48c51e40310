//! Verified core of a minimal bare-metal runtime pattern for a single-core
//! microcontroller: interrupt-safe shared ownership of peripheral handles,
//! a critical-section execution model, and the edge/periodic toggle state
//! machines built on top of them.
//!
//! Peripheral register files are represented as plain typed models (one
//! struct per peripheral, one field per register bit-field the logic reads),
//! so the synchronization discipline and the state machines are verified
//! against them; the thin adapter that maps the models onto real
//! memory-mapped registers lives outside the verified library.

use vstd::prelude::*;

pub mod adc;
pub mod boot;
pub mod cell;
pub mod ctrl;
pub mod exti;
pub mod gpio;
pub mod machine;
pub mod pwm;
pub mod timer;
pub mod trace;

verus! {

/// Coarse busy-wait delay: spins for a fixed iteration count.
///
/// Purely a pause between main-loop iterations; it has no observable
/// effect, so its contract is empty.
pub fn delay() {
    let mut i: u32 = 0;
    while i < 25000
        invariant
            i <= 25000,
        decreases 25000 - i,
    {
        i = i + 1;
    }
}

} // verus!
