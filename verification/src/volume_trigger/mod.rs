//! Volume trigger strategy: parameters, signal bookkeeping and exit matching.

pub mod exit;
pub mod params;
pub mod signal;
