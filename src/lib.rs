//! Conversion between storage rows and API-facing records: an opaque
//! identifier codec, a registry of enums persisted as strings, per-record
//! conversions, and the attachment-document conversions across three shapes.

pub mod error;
pub mod enums;
pub mod codec;
pub mod records;
pub mod attachment;
pub mod settings;
