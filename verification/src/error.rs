//! The errors of the recording pipeline and their messages.

use vstd::prelude::*;
use vstd::string::StringExecFns;

verus! {

/// What can go wrong in a recording session.
#[derive(Clone, Debug, PartialEq, Eq)]
pub enum PipelineError {
    /// A session was started while another one was active.
    AlreadyRecording,
    /// The default input or output device could not be found; the text is
    /// the device layer's own message.
    DeviceUnavailable(String),
    /// A capture source could not be opened; the text is the device
    /// layer's own message.
    CaptureInitError(String),
    /// The transcription service could not be reached or gave an answer
    /// that could not be read.
    TranscriptionUnavailable(String),
    /// A file could not be read or written.
    IoError(String),
}

/// The message that a second start is refused with.
pub open spec fn already_recording_text() -> Seq<char> {
    "Recording already in progress"@
}

impl PipelineError {
    /// The message of the error, as it is shown to the user.
    pub open spec fn message_text(&self) -> Seq<char> {
        match self {
            PipelineError::AlreadyRecording => already_recording_text(),
            PipelineError::DeviceUnavailable(m) => m@,
            PipelineError::CaptureInitError(m) => m@,
            PipelineError::TranscriptionUnavailable(m) => m@,
            PipelineError::IoError(m) => m@,
        }
    }

    /// The message of the error, as it is shown to the user.
    pub fn message(&self) -> (text: String)
        ensures
            text@ == self.message_text(),
    {
        match self {
            PipelineError::AlreadyRecording => String::from_str("Recording already in progress"),
            PipelineError::DeviceUnavailable(m) => m.clone(),
            PipelineError::CaptureInitError(m) => m.clone(),
            PipelineError::TranscriptionUnavailable(m) => m.clone(),
            PipelineError::IoError(m) => m.clone(),
        }
    }
}

/// `prefix` followed by `detail`.
pub fn prefixed(prefix: &str, detail: &str) -> (text: String)
    ensures
        text@ == prefix@ + detail@,
{
    let mut text = String::from_str(prefix);
    text.append(detail);
    text
}

/// The transcription request could not be sent or was not answered.
pub fn request_failed(detail: &str) -> (e: PipelineError)
    ensures
        e matches PipelineError::TranscriptionUnavailable(m) && m@ == "Request failed: "@ + detail@,
{
    PipelineError::TranscriptionUnavailable(prefixed("Request failed: ", detail))
}

/// The transcription service answered with a status that is no success.
pub fn server_error(status: &str) -> (e: PipelineError)
    ensures
        e matches PipelineError::TranscriptionUnavailable(m) && m@ == "Server returned error: "@
            + status@,
{
    PipelineError::TranscriptionUnavailable(prefixed("Server returned error: ", status))
}

/// The answer of the transcription service could not be read.
pub fn parse_failed(detail: &str) -> (e: PipelineError)
    ensures
        e matches PipelineError::TranscriptionUnavailable(m) && m@ == "Failed to parse response: "@
            + detail@,
{
    PipelineError::TranscriptionUnavailable(prefixed("Failed to parse response: ", detail))
}

/// The upload part of a transcription request could not be built.
pub fn form_part_failed(detail: &str) -> (e: PipelineError)
    ensures
        e matches PipelineError::TranscriptionUnavailable(m) && m@
            == "Failed to create form part: "@ + detail@,
{
    PipelineError::TranscriptionUnavailable(prefixed("Failed to create form part: ", detail))
}

/// An audio file could not be read.
pub fn read_failed(detail: &str) -> (e: PipelineError)
    ensures
        e matches PipelineError::IoError(m) && m@ == "Failed to read audio file: "@ + detail@,
{
    PipelineError::IoError(prefixed("Failed to read audio file: ", detail))
}

/// The directory for a transcript could not be created.
pub fn create_directory_failed(detail: &str) -> (e: PipelineError)
    ensures
        e matches PipelineError::IoError(m) && m@ == "Failed to create directory: "@ + detail@,
{
    PipelineError::IoError(prefixed("Failed to create directory: ", detail))
}

/// A transcript could not be written.
pub fn write_failed(detail: &str) -> (e: PipelineError)
    ensures
        e matches PipelineError::IoError(m) && m@ == "Failed to write transcript: "@ + detail@,
{
    PipelineError::IoError(prefixed("Failed to write transcript: ", detail))
}

} // verus!
