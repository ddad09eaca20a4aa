//! MA20 main-wave strategy: market rules, entry kinds, exit windows and daily gates.

pub mod daily;
pub mod entry;
pub mod exit;
pub mod utils;
