//! Data models of the subtitle engine: the ASS subtitle document, the SRT
//! style helpers, and image-slide records.

pub mod ass_subtitle;
pub mod slide;
pub mod subtitle;
