//! Speech-synthesis support: the closed voice tables and the audio-clip
//! duration extraction from a fixed-size WAV header.

pub mod voice;
pub mod wav;
