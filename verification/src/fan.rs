//! The fan motor's PWM duty cycle, the night timer, and small GPIO
//! readings.
use vstd::prelude::*;

verus! {

/// The PWM period of the fan motor in nanoseconds: 100 % duty.
pub const PERIOD_NS: u32 = 1000000;

/// The PWM duty cycle, in nanoseconds, for a fan speed in percent:
/// 10 000 ns per percent.
pub fn duty_cycle_ns(percentage: u32) -> (duty: u32)
    requires
        percentage <= 429496,
    ensures
        duty == percentage * 10000,
{
    percentage * 10000
}

/// The PWM duty cycle, in nanoseconds, for a fan speed in percent on a
/// driver that runs the fan while the PWM output is low: the period minus
/// 10 000 ns per percent.
pub fn inverted_duty_cycle_ns(percentage: u32) -> (duty: u32)
    requires
        percentage <= 100,
    ensures
        duty == PERIOD_NS - percentage * 10000,
{
    PERIOD_NS - percentage * 10000
}

/// Whether a night timer of `minutes` has run out after `elapsed_secs`
/// seconds: whole minutes elapsed reach the timer.
pub fn night_timer_expired(elapsed_secs: u64, minutes: u16) -> (expired: bool)
    ensures
        expired == (elapsed_secs / 60 >= minutes),
{
    elapsed_secs / 60 >= minutes as u64
}

/// Number of rounds in the start-up ramp of the fan speed.
pub const RAMP_ROUNDS: u32 = 198;

/// The fan speed, in percent, at round `round` of the start-up ramp: up
/// from 1 % to 99 %, then down from 99 % to 1 %.
pub fn ramp_duty(round: u32) -> (percentage: u32)
    requires
        round < RAMP_ROUNDS,
    ensures
        round < 99 ==> percentage == round + 1,
        round >= 99 ==> percentage == 198 - round,
        1 <= percentage <= 99,
{
    if round < 99 {
        round + 1
    } else {
        198 - round
    }
}

/// The level of a GPIO whose value file starts with the ASCII digit `byte`.
pub fn gpio_level(byte: u8) -> (level: u8)
    requires
        byte >= 48,
    ensures
        level == byte - 48,
{
    byte - 48
}

} // verus!
