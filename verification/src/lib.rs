//! Disk-cached fetch layer for the SOLD OUT 2 public JSON API.
//!
//! Every endpoint of the provider is described by a small descriptor value
//! (see [`api::schema`]); a loader composes cache-key resolution, a freshness
//! check on the cached file, a single network fetch and a byte-level fixup
//! into one cache-aside `get` pipeline (see [`app::api_loader`]).
//! File and network effects are left to the calling program; this crate
//! holds the rules that drive them, with their proofs.

pub mod api;
pub mod app;
pub mod text;
