//! Answers the question whether one should open the windows in order to
//! decrease indoor humidity.
//!
//! The question is answered by comparing the indoor and the outdoor dew point,
//! each derived from a temperature and a relative humidity reading.
//!
//! Temperatures and dew points are IEEE 754 double-precision numbers. They
//! travel through this crate as their 64-bit patterns, which [`binary64`]
//! gives a meaning to.

pub mod binary64;
pub mod open_window;
