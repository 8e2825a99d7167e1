//! Host-side instance batching for a sprite and tile renderer, with the
//! small common parts of the engine around it.
//!
//! A [`batch::Batch`] collects per-draw instances in a host copy and keeps
//! track, region by region, of what the device has not seen yet. A flush
//! works out the copies that bring the device up to date; [`sync`] states
//! what the device holds once they were made. The batch never touches the
//! device itself: it hands out plain descriptions ([`buffer`], [`bindings`])
//! and plain bytes ([`instance`], [`metadata`]), and the caller carries them
//! to the device.
//!
//! Numbers in single precision are handled through their bit patterns
//! ([`binary32`]), so that every function here is exact.
//!
//! The common parts are entity handles and their store ([`entity`],
//! [`world`], [`component`], [`name`]) and the reading of what a loaded
//! subsystem left in its memory ([`bytes`], [`runtime`]).

pub mod atlas;
pub mod batch;
pub mod binary32;
pub mod bindings;
pub mod buffer;
pub mod bytes;
pub mod color;
pub mod component;
pub mod dirty;
pub mod entity;
pub mod instance;
pub mod metadata;
pub mod name;
pub mod runtime;
pub mod surface;
pub mod sync;
pub mod vector;
pub mod world;
