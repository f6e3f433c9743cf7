//! Arm-aware selection of model configurations: how a fitted model is
//! classified by the evidence behind its throughput, how candidates are
//! ranked, and how the best one is picked and explained.

pub mod domain;
pub mod key_laws;
pub mod laws;
pub mod number_laws;
pub mod optimization;
pub mod ranking;
pub mod text;
pub mod text_laws;
