//! Battle-telemetry aggregation engine.
//!
//! The crate folds a stream of combat events (damage, turn changes, skill
//! usage, stat changes, wave/cycle progression) into a single in-memory
//! battle state, and derives export documents, analytical datasets and
//! per-battle summaries from that state. Damage amounts and action values
//! are carried as exact integer units; derived per-action-value metrics are
//! exact ratios.

pub mod battle;
pub mod entry;
pub mod export;
pub mod helpers;
pub mod mailbox;
pub mod models;
pub mod ratio;
pub mod sums;
pub mod text;
pub mod ui;
pub mod updater;

pub use ratio::Ratio;
