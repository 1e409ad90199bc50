use telop::speech::wav::{wav_duration_millis, WavError};

/// A 44-byte WAV header with the given channel count, sample rate and
/// payload byte size at their fixed offsets.
fn header(channels: u16, sample_rate: u32, data_size: u32) -> Vec<u8> {
    let mut h = vec![0u8; 44];
    h[22..24].copy_from_slice(&channels.to_le_bytes());
    h[24..28].copy_from_slice(&sample_rate.to_le_bytes());
    h[40..44].copy_from_slice(&data_size.to_le_bytes());
    h
}

#[test]
fn test_wav_duration_one_second() {
    // Stereo 44.1 kHz 16-bit: 176400 payload bytes play for one second.
    let h = header(2, 44_100, 176_400);
    assert_eq!(wav_duration_millis(&h), Ok(1_000));
}

#[test]
fn test_wav_duration_truncates() {
    let h = header(2, 44_100, 176_399);
    assert_eq!(wav_duration_millis(&h), Ok(999));
    let h = header(1, 8_000, 24_000);
    assert_eq!(wav_duration_millis(&h), Ok(1_500));
}

#[test]
fn test_wav_duration_short_header() {
    let h = vec![0u8; 43];
    assert_eq!(wav_duration_millis(&h), Err(WavError::MalformedHeader));
}

#[test]
fn test_wav_duration_zero_rate_or_channels() {
    let h = header(0, 44_100, 176_400);
    assert_eq!(wav_duration_millis(&h), Err(WavError::MalformedHeader));
    let h = header(2, 0, 176_400);
    assert_eq!(wav_duration_millis(&h), Err(WavError::MalformedHeader));
}
