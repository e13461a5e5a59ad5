//! A small zoo simulation: animals whose health rises and falls over time,
//! and whose lifecycle state follows from species-specific health thresholds.
//!
//! Health is held in fixed point: hundredths of a percentage point, so full
//! health (100.0 %) is [`animal::FULL_HEALTH`].

pub mod animal;
pub mod zoo;
