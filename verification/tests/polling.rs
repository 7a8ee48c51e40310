// The polled peripherals: ADC threshold decisions, the PWM duty ramp, and
// the plain GPIO loops.

use mcu_core::adc::ADC_LED_THRESHOLD;
use mcu_core::adc::AdcRegs;
use mcu_core::adc::adc_poll_step;
use mcu_core::adc::led_level_for_sample;
use mcu_core::delay;
use mcu_core::gpio::GpioPort;
use mcu_core::gpio::blink_cycle;
use mcu_core::gpio::mirror_input;
use mcu_core::machine::LED_PIN;
use mcu_core::pwm::PWM_PERIOD;
use mcu_core::pwm::PWM_STEP;
use mcu_core::pwm::next_duty;
use mcu_core::pwm::pwm_init;
use mcu_core::pwm::pwm_ramp_step;
use mcu_core::pwm::run_pwm_ramp;
use mcu_core::timer::TimerRegs;

#[test]
fn adc_sample_above_threshold_sets_led() {
    let mut adc = AdcRegs::at_reset();
    adc.power_on();
    adc.set_input(0x300);
    let mut port = GpioPort::at_reset();
    adc_poll_step(&mut adc, &mut port);
    assert!(port.read_output(LED_PIN));
    assert_eq!(adc.data, 0x300);
    assert!(!adc.eoc);
}

#[test]
fn adc_sample_below_threshold_clears_led() {
    let mut adc = AdcRegs::at_reset();
    adc.power_on();
    adc.set_input(0x100);
    let mut port = GpioPort::at_reset();
    port.write_output(LED_PIN, true);
    adc_poll_step(&mut adc, &mut port);
    assert!(!port.read_output(LED_PIN));
}

#[test]
fn adc_boundary_is_exclusive() {
    // Exactly the threshold: the LED is cleared, the comparison is
    // strictly greater-than.
    let mut adc = AdcRegs::at_reset();
    adc.power_on();
    adc.set_input(0x200);
    let mut port = GpioPort::at_reset();
    port.write_output(LED_PIN, true);
    adc_poll_step(&mut adc, &mut port);
    assert!(!port.read_output(LED_PIN));

    assert!(!led_level_for_sample(ADC_LED_THRESHOLD));
    assert!(led_level_for_sample(ADC_LED_THRESHOLD + 1));
    assert!(!led_level_for_sample(ADC_LED_THRESHOLD - 1));
}

#[test]
fn pwm_ramp_advances_by_step() {
    assert_eq!(next_duty(0), PWM_STEP);
    assert_eq!(next_duty(256), 512);
}

#[test]
fn pwm_ramp_wraps_at_period() {
    // 0x7F00 + 256 reaches 0x8000 and wraps to 0.
    assert_eq!(next_duty(0x7F00), 0);
}

#[test]
fn pwm_ramp_step_latches_compare_register() {
    let mut tim = TimerRegs::at_reset();
    pwm_init(&mut tim);
    assert_eq!(tim.arr, PWM_PERIOD);
    assert_eq!(tim.ccr1, 0);
    assert!(tim.oc1pe && tim.pwm_mode && tim.cc1e && tim.arpe && tim.cen);
    let next = pwm_ramp_step(&mut tim, 0x7F00);
    assert_eq!(tim.ccr1, 0x7F00);
    assert_eq!(next, 0);
}

#[test]
fn pwm_full_ramp_cycle_returns_to_zero() {
    let mut tim = TimerRegs::at_reset();
    pwm_init(&mut tim);
    // PWM_PERIOD / PWM_STEP iterations make one full ramp: the duty value
    // is back at zero, and the last latched compare value was the top step.
    let iterations = PWM_PERIOD / PWM_STEP;
    let d = run_pwm_ramp(&mut tim, 0, iterations);
    assert_eq!(d, 0);
    assert_eq!(tim.ccr1, PWM_PERIOD - PWM_STEP);
}

#[test]
fn blink_cycle_ends_low() {
    let mut port = GpioPort::at_reset();
    port.write_output(3, true);
    blink_cycle(&mut port, LED_PIN);
    assert!(!port.read_output(LED_PIN));
    // Unrelated pins are untouched.
    assert!(port.read_output(3));
}

#[test]
fn mirror_input_follows_button() {
    let mut port = GpioPort::at_reset();
    port.set_input(0, true);
    mirror_input(&mut port, 0, LED_PIN);
    assert!(port.read_output(LED_PIN));
    port.set_input(0, false);
    mirror_input(&mut port, 0, LED_PIN);
    assert!(!port.read_output(LED_PIN));
}

#[test]
fn delay_returns() {
    delay();
}
