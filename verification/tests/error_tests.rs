use meeting_minutes::error::{
    create_directory_failed, form_part_failed, parse_failed, prefixed, read_failed,
    request_failed, server_error, write_failed, PipelineError,
};

#[test]
fn messages_of_the_error_kinds() {
    assert_eq!(PipelineError::AlreadyRecording.message(), "Recording already in progress");
    assert_eq!(PipelineError::DeviceUnavailable("no mic".to_string()).message(), "no mic");
    assert_eq!(PipelineError::CaptureInitError("busy".to_string()).message(), "busy");
    assert_eq!(PipelineError::TranscriptionUnavailable("down".to_string()).message(), "down");
    assert_eq!(PipelineError::IoError("denied".to_string()).message(), "denied");
}

#[test]
fn prefixed_joins_prefix_and_detail() {
    assert_eq!(prefixed("a: ", "b"), "a: b");
    assert_eq!(prefixed("", "b"), "b");
    assert_eq!(prefixed("a", ""), "a");
}

#[test]
fn transcription_failures() {
    assert_eq!(
        request_failed("connection refused"),
        PipelineError::TranscriptionUnavailable("Request failed: connection refused".to_string())
    );
    assert_eq!(
        server_error("500 Internal Server Error"),
        PipelineError::TranscriptionUnavailable(
            "Server returned error: 500 Internal Server Error".to_string()
        )
    );
    assert_eq!(
        parse_failed("expected value"),
        PipelineError::TranscriptionUnavailable(
            "Failed to parse response: expected value".to_string()
        )
    );
    assert_eq!(
        form_part_failed("bad mime"),
        PipelineError::TranscriptionUnavailable("Failed to create form part: bad mime".to_string())
    );
}

#[test]
fn file_failures() {
    assert_eq!(
        read_failed("not found"),
        PipelineError::IoError("Failed to read audio file: not found".to_string())
    );
    assert_eq!(
        create_directory_failed("denied"),
        PipelineError::IoError("Failed to create directory: denied".to_string())
    );
    assert_eq!(
        write_failed("disk full"),
        PipelineError::IoError("Failed to write transcript: disk full".to_string())
    );
}
