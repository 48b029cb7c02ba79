//! A decoded clip, ready for the recognition engine.

use vstd::prelude::*;
use crate::error::{ErrorModel, TranscriptionError};
use crate::format::AudioFormat;

verus! {

/// The mathematical content of an `AudioClip`.
pub struct ClipModel {
    pub format: AudioFormat,
    pub samples: Seq<i16>,
}

/// Decoded audio: its format and its samples in file order. A clip exists only
/// in the format that the engine accepts; audio in any other format is
/// refused, never converted.
#[derive(Debug, PartialEq, Eq)]
pub struct AudioClip {
    format: AudioFormat,
    samples: Vec<i16>,
}

/// What `AudioClip::new` makes of a format and its samples.
pub open spec fn clip_of(format: AudioFormat, samples: Seq<i16>) -> Result<ClipModel, ErrorModel> {
    if format.supported() {
        Ok(ClipModel { format, samples })
    } else {
        Err(format.refusal())
    }
}

impl View for AudioClip {
    type V = ClipModel;

    closed spec fn view(&self) -> ClipModel {
        ClipModel { format: self.format, samples: self.samples@ }
    }
}

impl AudioClip {
    #[verifier::type_invariant]
    spec fn engine_ready(self) -> bool {
        self.format.supported()
    }

    /// Makes a clip of samples that were decoded from a container with the
    /// given format, or refuses the format with the values it declares.
    pub fn new(format: AudioFormat, samples: Vec<i16>) -> (made: Result<AudioClip, TranscriptionError>)
        ensures
            match made {
                Ok(clip) => clip_of(format, samples@) == Ok::<ClipModel, ErrorModel>(clip@),
                Err(error) => clip_of(format, samples@) == Err::<ClipModel, ErrorModel>(error@),
            },
    {
        match format.validate() {
            Ok(()) => Ok(AudioClip { format, samples }),
            Err(error) => Err(error),
        }
    }

    /// The clip's format, which is always the one the engine accepts.
    pub fn format(&self) -> (format: AudioFormat)
        ensures
            format == self@.format,
            format.supported(),
    {
        proof {
            use_type_invariant(self);
        }
        self.format
    }

    /// The clip's samples, in file order.
    pub fn samples(&self) -> (samples: &Vec<i16>)
        ensures
            samples@ == self@.samples,
    {
        &self.samples
    }

    /// The number of samples in the clip.
    pub fn len(&self) -> (n: usize)
        ensures
            n == self@.samples.len(),
    {
        self.samples.len()
    }
}

} // verus!
