//! Capability-to-entity adapter layer for a smart-home pub/sub bridge.
//!
//! Translates a vendor device's reported capabilities into discoverable
//! "entities": which capability instance becomes which kind of entity, what
//! unit and display semantics apply, how a human-readable current value is
//! computed from raw telemetry, and how a device is judged present, stale or
//! unknown. Transport, device ingestion and payload serialization live
//! outside this crate; it works on plain values and hands plain values back.

pub mod config;
pub mod device;
pub mod ident;
pub mod render;
pub mod sensor;
pub mod units;
