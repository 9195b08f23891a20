//! A millisecond time source for the RP2040 driven by a PWM slice.
//!
//! The RP2040 has a single timer peripheral, which usually provides monotonic
//! time for the application or its RTOS. This crate derives a second tick from
//! the wrap interrupt of a PWM slice and exposes it as a non-blocking timer
//! that can be handed to libraries expecting a generic timer.
//!
//! - [`ticks`] holds the modular tick arithmetic shared by both halves.
//! - [`timer_drivers::pwm_timer_driver`] derives the slice's clock divider
//!   and period, and advances the shared tick counter on every wrap.
//! - [`ext_driven_timer`] reads that counter and implements
//!   `now` / `start` / `cancel` / `wait`.
#![allow(unused_imports)]

pub mod ticks;
pub mod timer_drivers;
pub mod ext_driven_timer;

pub use self::timer_drivers::pwm_timer_driver::{advance_counter, DividerConfig, PWM_TIMER_HZ};
pub use self::ext_driven_timer::ExtDrivenTimer;
