//! One transcription request, from the contents of its audio file to its
//! text.
//!
//! A request depends on two pieces of work that are done outside this crate:
//! reading the file, and running the recognition engine under exclusive
//! access to the loaded model. `transcribe` takes what the reading gave, and
//! the engine as a function. It opens, validates and decodes the audio with
//! `load_clip`; where that yields a clip it runs the engine on it, and ends
//! the request with `conclude`. The engine scales the samples by
//! `SAMPLE_SCALE` and decodes with `BEST_OF` candidates. Where `load_clip`
//! fails, the request has failed and the engine is not asked.

use vstd::prelude::*;
use crate::clip::{AudioClip, ClipModel};
use crate::error::{ErrorModel, TranscriptionError};
use crate::segments::{join_segments, joined, joined_small};
use crate::wav::{decode_clip, decoded, wav_header, wav_samples};

verus! {

/// The number of candidates that the engine keeps while it decodes greedily.
/// With one candidate there is neither beam search nor sampling, so the same
/// samples give the same text.
pub const BEST_OF: i32 = 1;

/// The clip that a request obtains from what reading its file gave, or the
/// failure it ends in: a file that could not be read is an open failure with
/// the reader's reason, and the bytes of one that was read are decoded.
pub open spec fn loaded(contents: Result<Seq<u8>, Seq<char>>) -> Result<ClipModel, ErrorModel> {
    match contents {
        Err(reason) => Err(ErrorModel::AudioOpen { reason }),
        Ok(bytes) => decoded(bytes),
    }
}

/// What reading a file gave, as plain values.
pub open spec fn contents_model(contents: Result<Vec<u8>, String>) -> Result<Seq<u8>, Seq<char>> {
    match contents {
        Ok(bytes) => Ok(bytes@),
        Err(reason) => Err(reason@),
    }
}

/// Opens, validates and decodes the audio of a request, given what reading
/// its file gave: the file's bytes, or the reason why it could not be read.
pub fn load_clip(contents: Result<Vec<u8>, String>) -> (outcome: Result<
    AudioClip,
    TranscriptionError,
>)
    ensures
        match outcome {
            Ok(clip) => loaded(contents_model(contents)) == Ok::<ClipModel, ErrorModel>(clip@),
            Err(error) => loaded(contents_model(contents)) == Err::<ClipModel, ErrorModel>(
                error@,
            ),
        },
{
    match contents {
        Err(reason) => Err(TranscriptionError::AudioOpen { reason }),
        Ok(bytes) => decode_clip(bytes.as_slice()),
    }
}

/// The result of a request whose audio was handed to the engine: the joined
/// text of the segments where the engine succeeded, however few they are,
/// and an inference failure with the engine's reason where it did not.
pub open spec fn concluded(inference: Result<Seq<Option<Seq<char>>>, Seq<char>>) -> Result<
    Seq<char>,
    ErrorModel,
> {
    match inference {
        Err(reason) => Err(ErrorModel::Inference { reason }),
        Ok(segments) => Ok(joined(segments)),
    }
}

/// What the engine gave, as plain values.
pub open spec fn inference_model(inference: Result<Vec<Option<String>>, String>) -> Result<
    Seq<Option<Seq<char>>>,
    Seq<char>,
> {
    match inference {
        Ok(segments) => Ok(segments.deep_view()),
        Err(reason) => Err(reason@),
    }
}

/// Ends a request, given what the engine gave: for each segment index its
/// text, or nothing where the engine had none for it, or else the reason why
/// the engine failed.
pub fn conclude(inference: Result<Vec<Option<String>>, String>) -> (result: Result<
    String,
    TranscriptionError,
>)
    ensures
        match result {
            Ok(text) => concluded(inference_model(inference)) == Ok::<Seq<char>, ErrorModel>(
                text@,
            ),
            Err(error) => concluded(inference_model(inference)) == Err::<Seq<char>, ErrorModel>(
                error@,
            ),
        },
{
    match inference {
        Err(reason) => Err(TranscriptionError::Inference { reason }),
        Ok(segments) => Ok(join_segments(&segments)),
    }
}

/// How a request ended, as plain values.
pub open spec fn result_model(result: Result<String, TranscriptionError>) -> Result<
    Seq<char>,
    ErrorModel,
> {
    match result {
        Ok(text) => Ok(text@),
        Err(error) => Err(error@),
    }
}

/// Whether `result` is a way in which a request for a file with these
/// contents can end when `engine` stands for the recognition engine.
///
/// Where the audio gives no clip, the request ends in that failure and the
/// engine has no part in it. Where it gives a clip, the request ends as
/// `concluded` says of something that the engine may give for that clip.
pub open spec fn transcribed<E: FnOnce(AudioClip) -> Result<Vec<Option<String>>, String>>(
    contents: Result<Seq<u8>, Seq<char>>,
    engine: E,
    result: Result<Seq<char>, ErrorModel>,
) -> bool {
    match loaded(contents) {
        Err(error) => result == Err::<Seq<char>, ErrorModel>(error),
        Ok(model) => exists|clip: AudioClip, inference: Result<Vec<Option<String>>, String>|
            clip@ == model && #[trigger] call_ensures(engine, (clip,), inference) && result
                == concluded(inference_model(inference)),
    }
}

/// Transcribes one clip: opens, validates and decodes the audio that reading
/// the file gave, runs `engine` on the clip, and joins the segments that it
/// gives into the text.
///
/// `engine` stands for one inference pass under exclusive access to the
/// loaded model. It is run at most once, and only on a clip that was decoded
/// in full from a 16 kHz mono container: a request that fails before that
/// ends in its failure without the engine being asked.
pub fn transcribe<E: FnOnce(AudioClip) -> Result<Vec<Option<String>>, String>>(
    contents: Result<Vec<u8>, String>,
    engine: E,
) -> (result: Result<String, TranscriptionError>)
    requires
        forall|clip: AudioClip| call_requires(engine, (clip,)),
    ensures
        transcribed(contents_model(contents), engine, result_model(result)),
{
    match load_clip(contents) {
        Err(error) => Err(error),
        Ok(clip) => {
            let ghost handed = clip;
            let inference = engine(clip);
            let result = conclude(inference);
            assert(handed@ == loaded(contents_model(contents))->Ok_0 && call_ensures(
                engine,
                (handed,),
                inference,
            ) && result_model(result) == concluded(inference_model(inference)));
            result
        },
    }
}

/// A file whose header declares another sample rate than 16000 Hz or another
/// channel count than one yields no clip, whatever its samples are: the
/// request fails with the declared values, and nothing is left to decode or
/// to hand to the engine.
pub proof fn refused_format_yields_no_clip(bytes: Seq<u8>, sample_rate: u32, channels: u16)
    requires
        wav_header(bytes) == Ok::<(u32, u16), Seq<char>>((sample_rate, channels)),
        sample_rate != 16000 || channels != 1,
    ensures
        loaded(Ok(bytes)) == Err::<ClipModel, ErrorModel>(
            ErrorModel::UnsupportedAudioFormat { sample_rate, channels },
        ),
{
}

/// A file that could not be read yields no clip either: the request fails
/// with an open failure that carries the reader's reason.
pub proof fn unread_file_yields_no_clip(reason: Seq<char>)
    ensures
        loaded(Err(reason)) == Err::<ClipModel, ErrorModel>(ErrorModel::AudioOpen { reason }),
{
}

/// Every clip that a request obtains is in the format that the engine
/// accepts, and holds the samples of the file in file order.
pub proof fn loaded_clip_is_engine_ready(bytes: Seq<u8>, clip: ClipModel)
    requires
        loaded(Ok(bytes)) == Ok::<ClipModel, ErrorModel>(clip),
    ensures
        clip.format.sample_rate == 16000,
        clip.format.channels == 1,
        wav_samples(bytes) == Ok::<Seq<i16>, Seq<char>>(clip.samples),
{
}

/// A request succeeds whenever the engine does. In particular, a clip in
/// which the engine finds no speech gives the empty text, not a failure.
pub proof fn engine_success_is_success(segments: Seq<Option<Seq<char>>>)
    ensures
        concluded(Ok(segments)) is Ok,
        concluded(Ok(Seq::<Option<Seq<char>>>::empty())) == Ok::<Seq<char>, ErrorModel>(
            Seq::<char>::empty(),
        ),
{
    joined_small(Seq::<char>::empty());
}

/// Transcribing the same file twice with the same engine ends the same way
/// both times, provided that the engine, asked twice about the same audio,
/// gives the same segments or the same failure.
pub proof fn transcription_is_repeatable<E: FnOnce(AudioClip) -> Result<Vec<Option<String>>, String>>(
    contents: Result<Seq<u8>, Seq<char>>,
    engine: E,
    first: Result<Seq<char>, ErrorModel>,
    second: Result<Seq<char>, ErrorModel>,
)
    requires
        transcribed(contents, engine, first),
        transcribed(contents, engine, second),
        forall|
            clip: AudioClip,
            again: AudioClip,
            given: Result<Vec<Option<String>>, String>,
            given_again: Result<Vec<Option<String>>, String>,
        |
            clip@ == again@ && #[trigger] call_ensures(engine, (clip,), given)
                && #[trigger] call_ensures(engine, (again,), given_again) ==> inference_model(
                given,
            ) == inference_model(given_again),
    ensures
        first == second,
{
}

} // verus!
