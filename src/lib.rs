//! Measurement protocol of a GPU fill-rate benchmark.
//!
//! A run times a few scenarios. Each sample of a scenario clears the screen
//! and draws a full-screen triangle, with a GPU elapsed-time query around the
//! clear, the draw, or both ([`plan`]). The query results of a scenario are
//! reduced to a per-draw and a per-megapixel time by a trimmed mean
//! ([`timing`]). Which scenarios run, and how, is in [`config`].

pub mod config;
pub mod flags;
pub mod plan;
pub mod timing;

pub use config::{Config, Scenario, ScenarioKind};
pub use flags::Flags;
pub use plan::{sample_commands, GlCommand, SampleSetup, ScissorRect};
pub use timing::{summarize, trimmed_total, Timing};
