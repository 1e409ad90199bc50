//! Image-slide overlay records: which image is shown, over which stretch of
//! the timeline, and where on the canvas.
//!
//! Times are elapsed milliseconds from the start of the run.

use vstd::prelude::*;

verus! {

/// One image-overlay order: show `image_path` from `start_time` to
/// `end_time`, optionally constrained by display options.
#[derive(Debug, Clone)]
pub struct SlideImage {
    pub id: i32,
    /// When the image starts being displayed, in elapsed milliseconds.
    pub start_time: u64,
    /// When the image stops being displayed, in elapsed milliseconds.
    pub end_time: u64,
    /// Path (or URL) of the image file.
    pub image_path: String,
    /// Optional placement and size of the image.
    pub display_options: Option<ImageDisplayOptions>,
}

/// Placement and size of an overlaid image, measured from the top-left
/// corner of the canvas.
#[derive(Debug, Clone)]
pub struct ImageDisplayOptions {
    pub x_pos: u32,
    pub y_pos: u32,
    pub width: u32,
    pub height: u32,
}

} // verus!
