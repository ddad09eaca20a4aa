//! Verified decision logic of the operator library.

pub mod ma20_main_wave;
pub mod param_bag;
pub mod registry;
pub mod text;
pub mod volume_trigger;
