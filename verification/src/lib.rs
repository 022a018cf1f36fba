//! Verified core of a bridge between a memory-safe host and a manually
//! reference-counted foreign object runtime.
//!
//! Everything here works on plain values: a foreign object is known by its
//! address, a reference-count operation is an action that the caller performs,
//! and text crosses the boundary as UTF-8 bytes.

pub mod flags;
pub mod event;
pub mod handle;
pub mod string;
