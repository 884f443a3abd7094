//! Normalizes capture timestamps for photo and video files whose names encode
//! a date, by reconciling the filename-derived date against embedded metadata
//! and deciding which corrective action (metadata rewrite, filesystem
//! timestamp, relocation) to request.

pub mod datetime;
pub mod digits;
pub mod matcher;
pub mod reconcile;
pub mod trusted;
