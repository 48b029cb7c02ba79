//! The ways in which a transcription request can fail.

use vstd::prelude::*;
use crate::text::{decimal, decimal_text};

verus! {

/// Why a request produced no text. Every failure is reported where it
/// arises; nothing is retried and no partial text is returned.
#[derive(Debug, Clone, PartialEq, Eq)]
pub enum TranscriptionError {
    /// The model file is missing, corrupt, or not one the engine can load.
    ModelLoad { reason: String },
    /// The audio file could not be read, or is not a recognizable container.
    AudioOpen { reason: String },
    /// The container declares another sample rate or channel count than the
    /// engine accepts; the declared values are carried along.
    UnsupportedAudioFormat { sample_rate: u32, channels: u16 },
    /// The sample stream is truncated or cannot be read as 16-bit samples.
    AudioDecode { reason: String },
    /// The engine itself reported a failure.
    Inference { reason: String },
}

/// The five kinds of failure, without their details.
#[derive(Debug, Clone, Copy, PartialEq, Eq, Hash)]
pub enum ErrorKind {
    ModelLoad,
    AudioOpen,
    UnsupportedAudioFormat,
    AudioDecode,
    Inference,
}

/// The mathematical content of a `TranscriptionError`.
pub enum ErrorModel {
    ModelLoad { reason: Seq<char> },
    AudioOpen { reason: Seq<char> },
    UnsupportedAudioFormat { sample_rate: u32, channels: u16 },
    AudioDecode { reason: Seq<char> },
    Inference { reason: Seq<char> },
}

impl ErrorModel {
    /// The kind of this failure.
    pub open spec fn kind(self) -> ErrorKind {
        match self {
            ErrorModel::ModelLoad { .. } => ErrorKind::ModelLoad,
            ErrorModel::AudioOpen { .. } => ErrorKind::AudioOpen,
            ErrorModel::UnsupportedAudioFormat { .. } => ErrorKind::UnsupportedAudioFormat,
            ErrorModel::AudioDecode { .. } => ErrorKind::AudioDecode,
            ErrorModel::Inference { .. } => ErrorKind::Inference,
        }
    }

    /// The text shown for this failure: a phrase that names the kind,
    /// followed by the underlying reason or the values that were found.
    pub open spec fn message(self) -> Seq<char> {
        match self {
            ErrorModel::ModelLoad { reason } => "Failed to load model: "@ + reason,
            ErrorModel::AudioOpen { reason } => "Failed to open audio: "@ + reason,
            ErrorModel::UnsupportedAudioFormat { sample_rate, channels } => {
                "Audio must be 16kHz mono, but got "@ + decimal(sample_rate as nat)
                    + "kHz with "@ + decimal(channels as nat) + " channels."@
            },
            ErrorModel::AudioDecode { reason } => "Failed to decode audio: "@ + reason,
            ErrorModel::Inference { reason } => "Inference failed: "@ + reason,
        }
    }
}

impl View for TranscriptionError {
    type V = ErrorModel;

    open spec fn view(&self) -> ErrorModel {
        match self {
            TranscriptionError::ModelLoad { reason } => ErrorModel::ModelLoad { reason: reason@ },
            TranscriptionError::AudioOpen { reason } => ErrorModel::AudioOpen { reason: reason@ },
            TranscriptionError::UnsupportedAudioFormat { sample_rate, channels } => {
                ErrorModel::UnsupportedAudioFormat {
                    sample_rate: *sample_rate,
                    channels: *channels,
                }
            },
            TranscriptionError::AudioDecode { reason } => ErrorModel::AudioDecode {
                reason: reason@,
            },
            TranscriptionError::Inference { reason } => ErrorModel::Inference { reason: reason@ },
        }
    }
}

impl TranscriptionError {
    /// Tells which of the five kinds this failure is.
    pub fn kind(&self) -> (kind: ErrorKind)
        ensures
            kind == self@.kind(),
    {
        match self {
            TranscriptionError::ModelLoad { .. } => ErrorKind::ModelLoad,
            TranscriptionError::AudioOpen { .. } => ErrorKind::AudioOpen,
            TranscriptionError::UnsupportedAudioFormat { .. } => ErrorKind::UnsupportedAudioFormat,
            TranscriptionError::AudioDecode { .. } => ErrorKind::AudioDecode,
            TranscriptionError::Inference { .. } => ErrorKind::Inference,
        }
    }

    /// Writes the message that is shown to the caller.
    pub fn message(&self) -> (text: String)
        ensures
            text@ == self@.message(),
    {
        match self {
            TranscriptionError::ModelLoad { reason } => {
                String::from_str("Failed to load model: ").concat(reason.as_str())
            },
            TranscriptionError::AudioOpen { reason } => {
                String::from_str("Failed to open audio: ").concat(reason.as_str())
            },
            TranscriptionError::UnsupportedAudioFormat { sample_rate, channels } => {
                let rate = decimal_text(*sample_rate);
                let count = decimal_text(*channels as u32);
                let mut text = String::from_str("Audio must be 16kHz mono, but got ");
                text.append(rate.as_str());
                text.append("kHz with ");
                text.append(count.as_str());
                text.append(" channels.");
                text
            },
            TranscriptionError::AudioDecode { reason } => {
                String::from_str("Failed to decode audio: ").concat(reason.as_str())
            },
            TranscriptionError::Inference { reason } => {
                String::from_str("Inference failed: ").concat(reason.as_str())
            },
        }
    }
}

/// The message of a failure tells its kind: failures of two different kinds
/// never share a message, whatever their reasons say.
pub proof fn message_tells_kind(first: ErrorModel, second: ErrorModel)
    requires
        first.message() == second.message(),
    ensures
        first.kind() == second.kind(),
{
    reveal_strlit("Failed to load model: ");
    reveal_strlit("Failed to open audio: ");
    reveal_strlit("Failed to decode audio: ");
    reveal_strlit("Inference failed: ");
    reveal_strlit("Audio must be 16kHz mono, but got ");
    // The kinds part at the first character, and those that share it at the
    // eleventh.
    let a = first.message();
    let b = second.message();
    assert(first is Inference <==> a[0] == 'I');
    assert(first is UnsupportedAudioFormat <==> a[0] == 'A');
    assert(first is ModelLoad <==> a[0] == 'F' && a[10] == 'l');
    assert(first is AudioOpen <==> a[0] == 'F' && a[10] == 'o');
    assert(second is Inference <==> b[0] == 'I');
    assert(second is UnsupportedAudioFormat <==> b[0] == 'A');
    assert(second is ModelLoad <==> b[0] == 'F' && b[10] == 'l');
    assert(second is AudioOpen <==> b[0] == 'F' && b[10] == 'o');
}

} // verus!
