//! Hardware sources that advance a shared tick counter.

pub mod pwm_timer_driver;
