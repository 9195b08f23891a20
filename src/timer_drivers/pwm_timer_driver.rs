//! A tick source built on one of the RP2040's PWM slices.
//!
//! The slice counts up to `top` and wraps; with the clock divider chosen here
//! it wraps `PWM_TIMER_HZ` times per second. Every wrap raises the
//! `PWM_IRQ_WRAP` interrupt, whose handler calls [`advance_counter`].
use core::sync::atomic::{AtomicU32, Ordering};
use vstd::prelude::*;
use crate::ticks::next_tick;

verus! {

/// The tick rate of the driven timer, in Hz.
pub const PWM_TIMER_HZ: u32 = 1000;

/// Full scale of the divider arithmetic for the fractional part.
pub const FRACTIONAL_FULL_SCALE: u32 = 0xFFFF;

/// Largest integer divider that the slice's 8-bit field can hold, plus one.
pub const DIV_INT_LIMIT: u32 = 256;

/// The settings that make a slice wrap at a given rate.
#[derive(Clone, Copy, Debug, PartialEq, Eq, Structural)]
pub struct DividerConfig {
    /// Integer part of the clock divider.
    pub div_int: u8,
    /// Fractional part of the clock divider.
    pub div_frac: u8,
    /// The count at which the slice wraps.
    pub top: u16,
}

/// `input_freq / tick_rate²`: the integer divider before range checking.
pub open spec fn div_int_of(input_freq: u32, tick_rate: u32) -> int {
    input_freq as int / (tick_rate as int * tick_rate as int)
}

/// The fractional divider: zero when `tick_rate²` divides `input_freq`,
/// otherwise `0xFFFF / (tick_rate² / remainder)` truncated to eight bits.
pub open spec fn div_frac_of(input_freq: u32, tick_rate: u32) -> int {
    let square = tick_rate as int * tick_rate as int;
    let rem = input_freq as int % square;
    if rem == 0 {
        0
    } else {
        (FRACTIONAL_FULL_SCALE as int / (square / rem)) % 256
    }
}

/// The configuration for `input_freq` and `tick_rate`, or `None` when the
/// integer divider does not fit the slice's 8-bit field.
pub open spec fn divider_for(input_freq: u32, tick_rate: u32) -> Option<DividerConfig> {
    if div_int_of(input_freq, tick_rate) >= DIV_INT_LIMIT {
        None
    } else {
        Some(DividerConfig {
            div_int: div_int_of(input_freq, tick_rate) as u8,
            div_frac: div_frac_of(input_freq, tick_rate) as u8,
            top: tick_rate as u16,
        })
    }
}

impl DividerConfig {
    /// Derives the divider and period that make a slice fed by `input_freq`
    /// Hz wrap `tick_rate` times per second.
    ///
    /// Returns `None` exactly when `input_freq / tick_rate²` is 256 or more.
    pub fn compute(input_freq: u32, tick_rate: u32) -> (r: Option<DividerConfig>)
        requires
            0 < tick_rate <= 0xFFFF,
        ensures
            r == divider_for(input_freq, tick_rate),
            r is Some <==> div_int_of(input_freq, tick_rate) < DIV_INT_LIMIT,
            r matches Some(c) ==> c.top == tick_rate,
    {
        assert(0 < tick_rate as int * tick_rate as int <= 0xFFFF * 0xFFFF) by (nonlinear_arith)
            requires
                0 < tick_rate <= 0xFFFF,
        ;
        let square: u32 = tick_rate * tick_rate;
        let div_int: u32 = input_freq / square;
        if div_int >= DIV_INT_LIMIT {
            return None;
        }
        let frac_mod: u32 = input_freq % square;
        let div_frac: u32 = if frac_mod > 0 {
            assert(square as int / frac_mod as int >= 1) by (nonlinear_arith)
                requires
                    0 < frac_mod < square,
            ;
            let frac_mul: u32 = square / frac_mod;
            (FRACTIONAL_FULL_SCALE / frac_mul) % 256
        } else {
            0
        };
        Some(DividerConfig { div_int: div_int as u8, div_frac: div_frac as u8, top: tick_rate as u16 })
    }
}

/// Moves `counter` on by one tick: loads it, then stores the value after it.
///
/// This is the body of the wrap interrupt. The load and the store are separate
/// because the RP2040's cores have no atomic read-modify-write; that is sound
/// as long as the wrap handler is the counter's only writer, and a reader may
/// at worst see the previous tick.
pub fn advance_counter(counter: &AtomicU32) {
    let t = counter.load(Ordering::Relaxed);
    counter.store(next_tick(t), Ordering::Relaxed);
}

} // verus!
