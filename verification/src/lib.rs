//! Verified core of the WynObserve tools: the Updater's release, checksum
//! and installation rules, and the Observatory's protocol, fleet and
//! inspection logic.
use vstd::prelude::*;

pub mod analysis;
pub mod checksum;
pub mod config;
pub mod display;
pub mod component;
pub mod fleet;
pub mod helper;
pub mod hub;
pub mod inspector;
pub mod install;
pub mod memory_map;
pub mod mock;
pub mod model;
pub mod normalize;
pub mod options;
pub mod plan;
pub mod protocol;
pub mod release;
pub mod text;
pub mod updater;
pub mod version;
pub mod views;

verus! {

} // verus!
