//! Typed user-engagement events parsed from positional CSV rows.

pub mod event;
pub mod record;
pub mod timestamp;

pub use event::{Event, EventType};
pub use timestamp::Timestamp;
