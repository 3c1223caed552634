//! Verified core of a scene loader: it fetches a remote 3D asset, corrects
//! its orientation and scale, and attaches it under the locomotion rig that
//! matches the display the host runs on.
//!
//! The library decides and computes; it never talks to the network, to the
//! decoder or to the scene. The host hands it plain values and performs
//! what it answers. All quantities are integers: lengths, speeds, angles
//! and durations are counts of millionths, and every contract states the
//! result to the last count.

pub mod units;
pub mod vector;
pub mod orientation;
pub mod environment;
pub mod fetch;
pub mod decoder;
pub mod player;
pub mod vr_player;
pub mod loader;
pub mod trace;
pub mod world_builder;
