//! The audio format that the recognition engine accepts.

use vstd::prelude::*;
use crate::error::{ErrorModel, TranscriptionError};

verus! {

/// The sample rate, in hertz, that the recognition engine accepts.
pub const REQUIRED_SAMPLE_RATE: u32 = 16000;

/// The channel count that the recognition engine accepts.
pub const REQUIRED_CHANNELS: u16 = 1;

/// The value by which a 16-bit sample is divided to bring it into the unit
/// range that the engine works on.
pub const SAMPLE_SCALE: i32 = 32768;

/// What the header of an audio container declares about its samples.
#[derive(Debug, Clone, Copy, PartialEq, Eq)]
pub struct AudioFormat {
    /// Samples per second.
    pub sample_rate: u32,
    /// Number of interleaved channels.
    pub channels: u16,
}

impl AudioFormat {
    /// A clip can be handed to the engine only at 16 kHz with one channel.
    pub open spec fn supported(self) -> bool {
        self.sample_rate == REQUIRED_SAMPLE_RATE && self.channels == REQUIRED_CHANNELS
    }

    /// The failure that refuses this format, carrying the values it declares.
    pub open spec fn refusal(self) -> ErrorModel {
        ErrorModel::UnsupportedAudioFormat {
            sample_rate: self.sample_rate,
            channels: self.channels,
        }
    }

    /// Tells whether the engine accepts this format as it is.
    pub fn is_supported(&self) -> (ok: bool)
        ensures
            ok == self.supported(),
    {
        self.sample_rate == REQUIRED_SAMPLE_RATE && self.channels == REQUIRED_CHANNELS
    }

    /// Accepts the format that the engine works on and refuses every other
    /// one. Nothing is resampled and no channels are mixed: audio in another
    /// format is the caller's to convert.
    pub fn validate(&self) -> (checked: Result<(), TranscriptionError>)
        ensures
            checked is Ok <==> self.supported(),
            checked matches Err(error) ==> error@ == self.refusal(),
    {
        if self.is_supported() {
            Ok(())
        } else {
            Err(
                TranscriptionError::UnsupportedAudioFormat {
                    sample_rate: self.sample_rate,
                    channels: self.channels,
                },
            )
        }
    }
}

/// Every 16-bit sample, divided by `SAMPLE_SCALE`, is at least -1 and less
/// than 1: the scaled range is closed below and open above.
pub proof fn scaled_sample_in_unit_range(sample: i16)
    ensures
        -1 * SAMPLE_SCALE <= sample < 1 * SAMPLE_SCALE,
{
}

} // verus!
