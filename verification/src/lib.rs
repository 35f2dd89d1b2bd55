//! Core logic of a host for VST3 audio effect plugins.
//!
//! The library decides and computes on plain values; the program around it
//! loads libraries, calls plugins, and talks to the audio driver and the
//! window system.
//!
//! - `uid`, `status`, `interface`: interface identifiers, status codes,
//!   and the layout of function tables.
//! - `host`, `attributes`: the objects that the host implements for
//!   plugins to call.
//! - `module`, `lifecycle`: loading a plugin library, and constructing and
//!   tearing down a plugin instance in the order that plugins rely on.
//! - `processing`, `scratch`, `ring`, `path`: the records and buffers of
//!   audio processing, and the way of a block from capture to output.
//! - `engine`: host and device selection, stream planning, and the
//!   registry of plugins.
//! - `editor`: the window of a plugin's editor view.
//! - `perf`, `wav`, `text`: counters for regions of code, the format of
//!   recordings, and comparison of texts.

pub mod attributes;
pub mod editor;
pub mod engine;
pub mod host;
pub mod interface;
pub mod lifecycle;
pub mod module;
pub mod path;
pub mod perf;
pub mod processing;
pub mod ring;
pub mod scratch;
pub mod status;
pub mod text;
pub mod uid;
pub mod wav;
