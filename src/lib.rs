//! Watches free space on a filesystem and decides when a low-space alert is
//! worth sending: once when free space first falls below a threshold, then
//! again only for each further drop of a whole percentage point.
//!
//! Ratios are held exactly, as a pair of integers, so that every decision is
//! made on exact rational numbers.
pub mod message;
pub mod monitor;
pub mod ratio;
pub mod throttle;
pub mod usage;
