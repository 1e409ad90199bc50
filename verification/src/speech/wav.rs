//! Playable-duration extraction from the fixed 44-byte WAV header of a
//! synthesized audio clip, assuming 16-bit PCM samples.

use vstd::prelude::*;

verus! {

/// Failure of the duration extraction: the fixed-size header could not be
/// read as expected (too short, or a zero sample rate or channel count that
/// would leave the duration undefined).
#[derive(Debug, Clone, Copy, PartialEq, Eq, Structural)]
pub enum WavError {
    MalformedHeader,
}

/// A little-endian 16-bit value from two bytes.
pub open spec fn le_u16(lo: u8, hi: u8) -> nat {
    (lo as nat) + 256 * (hi as nat)
}

/// A little-endian 32-bit value from four bytes.
pub open spec fn le_u32(b0: u8, b1: u8, b2: u8, b3: u8) -> nat {
    (b0 as nat) + 256 * (b1 as nat) + 65536 * (b2 as nat) + 16777216 * (b3 as nat)
}

/// The sample rate stored at byte offset 24 of the header.
pub open spec fn header_sample_rate(h: Seq<u8>) -> nat {
    le_u32(h[24], h[25], h[26], h[27])
}

/// The channel count stored at byte offset 22 of the header.
pub open spec fn header_channels(h: Seq<u8>) -> nat {
    le_u16(h[22], h[23])
}

/// The payload byte size stored at byte offset 40 of the header.
pub open spec fn header_data_size(h: Seq<u8>) -> nat {
    le_u32(h[40], h[41], h[42], h[43])
}

/// The extracted duration in milliseconds: for a complete header with a
/// non-zero sample rate and channel count, the payload size divided by the
/// byte rate of 16-bit PCM samples (`dataBytes / (sampleRate * channels *
/// 2)` seconds), truncated to whole milliseconds; anything else is a
/// malformed header.
pub open spec fn wav_duration_spec(h: Seq<u8>) -> Result<u64, WavError> {
    if h.len() < 44 {
        Err(WavError::MalformedHeader)
    } else if header_sample_rate(h) * header_channels(h) == 0 {
        Err(WavError::MalformedHeader)
    } else {
        Ok(
            ((header_data_size(h) * 1000) / (header_sample_rate(h) * header_channels(h)
                * 2)) as u64,
        )
    }
}

/// Extracts the playable duration, in milliseconds, from the fixed 44-byte
/// WAV header of an audio clip, reading the channel count, sample rate and
/// payload size at their fixed byte offsets and assuming 16-bit PCM.
pub fn wav_duration_millis(header: &Vec<u8>) -> (r: Result<u64, WavError>)
    ensures
        r == wav_duration_spec(header@),
{
    if header.len() < 44 {
        return Err(WavError::MalformedHeader);
    }
    let channels: u64 = (header[22] as u64) + 256 * (header[23] as u64);
    let sample_rate: u64 = (header[24] as u64) + 256 * (header[25] as u64) + 65536 * (header[26]
        as u64) + 16777216 * (header[27] as u64);
    let data_size: u64 = (header[40] as u64) + 256 * (header[41] as u64) + 65536 * (header[42]
        as u64) + 16777216 * (header[43] as u64);
    proof {
        assert(channels == header_channels(header@));
        assert(sample_rate == header_sample_rate(header@));
        assert(data_size == header_data_size(header@));
    }
    if sample_rate == 0 || channels == 0 {
        proof {
            assert(header_sample_rate(header@) * header_channels(header@) == 0)
                by (nonlinear_arith)
                requires
                    sample_rate == header_sample_rate(header@),
                    channels == header_channels(header@),
                    sample_rate == 0 || channels == 0,
            ;
        }
        return Err(WavError::MalformedHeader);
    }
    proof {
        assert(sample_rate * channels * 2 <= 0xffff_ffffu64 * 0xffff * 2 && sample_rate * channels
            != 0) by (nonlinear_arith)
            requires
                0 < sample_rate <= 0xffff_ffffu64,
                0 < channels <= 0xffff,
        ;
    }
    let byte_rate: u64 = sample_rate * channels * 2;
    let millis: u64 = (data_size * 1000) / byte_rate;
    proof {
        assert(millis == wav_duration_spec(header@)->Ok_0);
    }
    Ok(millis)
}

} // verus!
