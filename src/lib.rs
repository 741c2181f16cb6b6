//! A clock adapter that turns a raw monotonic tick counter into instants
//! and declares the exact period of one tick.

pub mod time;
pub mod mono;

pub use mono::MonoClock;
pub use time::{ClockError, Fraction, Instant};
