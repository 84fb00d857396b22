//! A shared clipboard slot: one text blob and one uploaded file, visible to
//! every client, guarded by a single modification clock. A read taken more
//! than [`model::TTL_SECONDS`] after the last write reports the clipboard as
//! empty, without touching the stored state (expiry is a read-time view, not
//! an eviction). Writes to the text and to the file are independent, but both
//! reset the one shared clock.
//!
//! The store itself is a plain state machine over injected timestamps; the
//! HTTP layer around it supplies the clock and serializes access with a
//! single lock over the whole store, so every operation here is one
//! linearized step.

pub mod laws;
pub mod model;
pub mod store;
