//! Verified orchestration logic for keeping a local ChromeOS or Android/ARC
//! source checkout in a known, versioned state.
//!
//! The decision logic — repository kind selection, version-token resolution,
//! repository type detection, reference-mirror coordination and the
//! sync state machine — lives here and is verified. The surrounding
//! process, filesystem and network work is carried out by an unverified
//! driver that performs the [`sync::Action`]s this library emits and feeds
//! the resulting [`sync::Event`]s back in.

pub mod setup;
pub mod sync;
