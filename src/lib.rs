//! Change detection and address discovery for a speedrun auto-splitter that
//! watches the memory of a running Sonic 2 process.
//!
//! Discovery finds the watched fields once per attachment: [`pattern`] scans
//! the game module for two byte signatures and [`discovery`] follows 32-bit
//! pointer chains from them. Every tick afterwards, [`watchers`] folds the raw
//! reads into pairs of samples and [`rules`] turns those into at most one timer
//! command.

pub mod config;
pub mod decode;
pub mod discovery;
pub mod pattern;
pub mod rules;
pub mod sampled;
pub mod watchers;

pub use config::ConfigFlags;
pub use decode::{
    Act, ZoneContext, ACT_COUNT, TAG_ENDING, TAG_MAIN_MENU, TAG_SAVE_SELECT, TAG_ZONES,
};
pub use discovery::{resolve, Addresses, DiscoveryError, PointerPath};
pub use pattern::{matches_at, scan, slot_table_signature, zone_tag_signature, ByteMatcher};
pub use rules::{decide, reset, split, start, tick, Action, TimerPhase};
pub use sampled::{SamplePair, SampledField};
pub use watchers::{RawSample, WatcherSet};
