//! The PWM duty-cycle ramp: a free-running timer channel whose compare
//! value advances by a fixed step modulo the reload value on every main-loop
//! iteration, producing a repeating ramp. No interrupts are involved.

use vstd::prelude::*;

use crate::timer::TimerRegs;

verus! {

/// The timer period: the counter wraps after this many ticks, and duty
/// values live in `0 .. PWM_PERIOD`.
pub const PWM_PERIOD: u32 = 0x8000;

/// How far the duty value advances each main-loop iteration.
pub const PWM_STEP: u32 = 256;

/// The duty value after one ramp iteration: advance by the step, wrapping
/// back to zero on reaching the period.
pub fn next_duty(duty: u32) -> (r: u32)
    requires
        duty < PWM_PERIOD,
    ensures
        r == (duty + PWM_STEP) % (PWM_PERIOD as int),
        r < PWM_PERIOD,
{
    (duty + PWM_STEP) % PWM_PERIOD
}

/// The duty value after `n` ramp iterations starting from `duty`.
pub open spec fn duty_after(n: nat, duty: u32) -> u32
    decreases n,
{
    if n == 0 {
        duty
    } else {
        ((duty_after((n - 1) as nat, duty) + PWM_STEP) % (PWM_PERIOD as int)) as u32
    }
}

/// Configure the timer for PWM output: period, zero initial duty, preload
/// and PWM mode on channel 1, output and auto-reload preload enabled, and
/// the counter started.
pub fn pwm_init(tim: &mut TimerRegs)
    ensures
        *final(tim) == (TimerRegs {
            arr: PWM_PERIOD,
            ccr1: 0,
            oc1pe: true,
            pwm_mode: true,
            cc1e: true,
            arpe: true,
            cen: true,
            ..*old(tim)
        }),
{
    tim.write_reload(PWM_PERIOD);
    tim.write_compare(0);
    tim.configure_pwm_channel();
    tim.enable_reload_preload();
    tim.start();
}

/// One main-loop iteration of the ramp: latch the current duty value into
/// the compare register, then hand back the advanced (wrapped) value for
/// the next iteration.
pub fn pwm_ramp_step(tim: &mut TimerRegs, duty: u32) -> (next: u32)
    requires
        duty < PWM_PERIOD,
    ensures
        *final(tim) == (TimerRegs { ccr1: duty, ..*old(tim) }),
        next == (duty + PWM_STEP) % (PWM_PERIOD as int),
        next < PWM_PERIOD,
{
    tim.write_compare(duty);
    next_duty(duty)
}

/// Run `n` ramp iterations; the duty value afterwards is `duty_after(n)`
/// of the starting value, and the compare register holds the value latched
/// by the last iteration.
pub fn run_pwm_ramp(tim: &mut TimerRegs, duty: u32, n: u32) -> (r: u32)
    requires
        duty < PWM_PERIOD,
    ensures
        r == duty_after(n as nat, duty),
        r < PWM_PERIOD,
        n == 0 ==> *final(tim) == *old(tim),
        n > 0 ==> *final(tim) == (TimerRegs {
            ccr1: duty_after((n - 1) as nat, duty),
            ..*old(tim)
        }),
{
    let mut d: u32 = duty;
    let mut i: u32 = 0;
    while i < n
        invariant
            i <= n,
            duty < PWM_PERIOD,
            d == duty_after(i as nat, duty),
            d < PWM_PERIOD,
            i == 0 ==> *tim == *old(tim),
            i > 0 ==> *tim == (TimerRegs { ccr1: duty_after((i - 1) as nat, duty), ..*old(tim) }),
        decreases n - i,
    {
        d = pwm_ramp_step(tim, d);
        i = i + 1;
    }
    d
}

} // verus!
