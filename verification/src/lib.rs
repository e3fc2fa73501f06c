//! Driver logic for a two-channel digital-to-analog converter and a
//! time-of-day ticker with a periodic deadline timer.
//!
//! The driver keeps an image of the converter's registers and a log of the
//! register writes it has decided on; the code that owns the peripheral
//! performs the logged writes. The ticker folds a latched clock reading into
//! a microsecond count, and the timer compares such counts with wrap-aware
//! instants.

pub mod irq;
pub mod mydac;
pub mod registers;
pub mod timers;
