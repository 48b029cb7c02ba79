//! Decoding of WAV containers. The container format is read by the `hound`
//! crate; what is decided about its findings is decided here.

use vstd::prelude::*;
use crate::clip::{clip_of, AudioClip, ClipModel};
use crate::error::{ErrorModel, TranscriptionError};
use crate::format::AudioFormat;

verus! {

/// What `hound` finds in the header of the container held in `bytes`: the
/// declared sample rate and channel count, or the text of its error where it
/// does not accept the bytes as a WAV container.
pub uninterp spec fn wav_header(bytes: Seq<u8>) -> Result<(u32, u16), Seq<char>>;

/// The samples that `hound` reads from the container held in `bytes` as
/// 16-bit integers, in file order, or the text of its error where the header
/// or one of the samples cannot be read. Samples stored in eight bits come out
/// widened, as `hound` widens them; samples wider than sixteen bits and
/// floating-point samples are among its errors.
pub uninterp spec fn wav_samples(bytes: Seq<u8>) -> Result<Seq<i16>, Seq<char>>;

/// The outcome of parsing a header, as plain values.
pub open spec fn header_model(header: Result<AudioFormat, String>) -> Result<
    (u32, u16),
    Seq<char>,
> {
    match header {
        Ok(format) => Ok((format.sample_rate, format.channels)),
        Err(reason) => Err(reason@),
    }
}

/// The outcome of reading samples, as plain values.
pub open spec fn samples_model(samples: Result<Vec<i16>, String>) -> Result<Seq<i16>, Seq<char>> {
    match samples {
        Ok(values) => Ok(values@),
        Err(reason) => Err(reason@),
    }
}

/// Parses the header of the container with `hound::WavReader::new` and takes
/// the sample rate and channel count from `WavReader::spec`; an error is
/// handed back as the text that `hound` gives it. Trusted: the outcome depends
/// on the bytes alone, and `wav_header` is its name.
#[verifier::external_body]
fn read_header(bytes: &[u8]) -> (header: Result<AudioFormat, String>)
    ensures
        header_model(header) == wav_header(bytes@),
{
    match hound::WavReader::new(bytes) {
        Ok(reader) => {
            let spec = reader.spec();
            Ok(AudioFormat { sample_rate: spec.sample_rate, channels: spec.channels })
        },
        Err(error) => Err(error.to_string()),
    }
}

/// Reads every sample of the container as a 16-bit integer with
/// `hound::WavReader::new` and `WavReader::into_samples`; the first error
/// ends the reading and is handed back as the text that `hound` gives it.
/// Trusted: the outcome depends on the bytes alone, and `wav_samples` is its
/// name.
#[verifier::external_body]
fn read_samples(bytes: &[u8]) -> (samples: Result<Vec<i16>, String>)
    ensures
        samples_model(samples) == wav_samples(bytes@),
{
    match hound::WavReader::new(bytes) {
        Ok(reader) => match reader.into_samples::<i16>().collect::<Result<Vec<i16>, hound::Error>>() {
            Ok(values) => Ok(values),
            Err(error) => Err(error.to_string()),
        },
        Err(error) => Err(error.to_string()),
    }
}

/// What is made of a header: a container that cannot be opened is an open
/// failure, and a format other than the engine's is refused with the values
/// that the header declares.
pub open spec fn header_verdict(header: Result<(u32, u16), Seq<char>>) -> Result<
    AudioFormat,
    ErrorModel,
> {
    match header {
        Err(reason) => Err(ErrorModel::AudioOpen { reason }),
        Ok((sample_rate, channels)) => {
            let format = AudioFormat { sample_rate, channels };
            if format.supported() {
                Ok(format)
            } else {
                Err(format.refusal())
            }
        },
    }
}

/// What is made of the samples read under an accepted header: a stream that
/// cannot be read to its end is a decode failure, with no partial clip.
pub open spec fn samples_verdict(format: AudioFormat, samples: Result<Seq<i16>, Seq<char>>) -> Result<
    ClipModel,
    ErrorModel,
> {
    match samples {
        Err(reason) => Err(ErrorModel::AudioDecode { reason }),
        Ok(values) => clip_of(format, values),
    }
}

/// The clip held in a WAV container, or the failure that its bytes lead to.
/// The header is judged first: where it is refused, the samples play no part.
pub open spec fn decoded(bytes: Seq<u8>) -> Result<ClipModel, ErrorModel> {
    match header_verdict(wav_header(bytes)) {
        Err(error) => Err(error),
        Ok(format) => samples_verdict(format, wav_samples(bytes)),
    }
}

/// Judges the outcome of parsing a header.
pub fn accept_header(header: Result<AudioFormat, String>) -> (verdict: Result<
    AudioFormat,
    TranscriptionError,
>)
    ensures
        match verdict {
            Ok(format) => header_verdict(header_model(header)) == Ok::<AudioFormat, ErrorModel>(
                format,
            ),
            Err(error) => header_verdict(header_model(header)) == Err::<AudioFormat, ErrorModel>(
                error@,
            ),
        },
{
    match header {
        Err(reason) => Err(TranscriptionError::AudioOpen { reason }),
        Ok(format) => match format.validate() {
            Ok(()) => Ok(format),
            Err(error) => Err(error),
        },
    }
}

/// Judges the outcome of reading the samples of a container whose header
/// declares `format`.
pub fn accept_samples(format: AudioFormat, samples: Result<Vec<i16>, String>) -> (verdict: Result<
    AudioClip,
    TranscriptionError,
>)
    ensures
        match verdict {
            Ok(clip) => samples_verdict(format, samples_model(samples)) == Ok::<
                ClipModel,
                ErrorModel,
            >(clip@),
            Err(error) => samples_verdict(format, samples_model(samples)) == Err::<
                ClipModel,
                ErrorModel,
            >(error@),
        },
{
    match samples {
        Err(reason) => Err(TranscriptionError::AudioDecode { reason }),
        Ok(values) => AudioClip::new(format, values),
    }
}

/// Decodes the WAV container held in `bytes` into a clip for the engine.
///
/// The header is parsed and judged before any sample is read: bytes that are
/// no WAV container give `AudioOpen`, a header with another format than 16 kHz
/// mono gives `UnsupportedAudioFormat` with the declared values, and only then
/// are the samples read, where a failure gives `AudioDecode`.
pub fn decode_clip(bytes: &[u8]) -> (outcome: Result<AudioClip, TranscriptionError>)
    ensures
        match outcome {
            Ok(clip) => decoded(bytes@) == Ok::<ClipModel, ErrorModel>(clip@),
            Err(error) => decoded(bytes@) == Err::<ClipModel, ErrorModel>(error@),
        },
{
    match accept_header(read_header(bytes)) {
        Err(error) => Err(error),
        Ok(format) => accept_samples(format, read_samples(bytes)),
    }
}

} // verus!
