//! Attendance-to-rank progression engine.
//!
//! Tracks attendance at community events and derives membership-rank
//! progression: when a member earns a mark toward promotion, when the
//! weekly attendance counter resets, and when a member is eligible for
//! promotion to the next rank.

pub mod attendance;
pub mod codec;
pub mod event;
pub mod profile;
pub mod rank;
pub mod time;
