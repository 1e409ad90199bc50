//! Subtitle-timing and timeline-accumulation engine for assembling a
//! narrated video from a textual script: it turns an ordered list of
//! script lines plus per-line audio durations into a monotonically
//! advancing timeline, a set of time-stamped subtitle cues, and a
//! serialized ASS subtitle document with styling metadata.

pub mod models;
pub mod pipeline;
pub mod speech;
pub mod textfmt;
