//! The integer decisions of adaptive thresholds for tile data: when a
//! threshold has seen enough samples to adapt, how much confidence a check
//! carries, which samples enter the history, which window each point of a
//! moving average covers, and which ranks a percentile interpolates between.
//!
//! The floating-point arithmetic around these decisions (averages, standard
//! deviations, interpolation) lives with the program that uses the library.

pub mod adaptive;
pub mod smoothing;
pub mod percentile;
