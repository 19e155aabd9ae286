use vstd::prelude::*;

verus! {

/// Errors of the capture pipeline.
#[derive(Clone, Debug, PartialEq, Eq)]
pub enum CaptureError {
    /// A session was started while another was active.
    AlreadyRecording,
    /// A stop was requested while no session was active.
    NotRecording,
    /// The host offers no default input device.
    NoInputDevice,
    /// The input device's sample format is neither 16-bit integer nor 32-bit float.
    UnsupportedFormat,
    /// The transcription service did not accept the connection within the fixed timeout.
    ConnectionTimeout,
    /// The connection handshake failed, with the transport's description.
    ConnectionFailed(String),
    /// A capture backend failed, with its description.
    Backend(String),
}

/// Text of each error, as reported in a `capture-error` event.
pub open spec fn error_text(e: CaptureError) -> Seq<char> {
    match e {
        CaptureError::AlreadyRecording => "Already recording"@,
        CaptureError::NotRecording => "Not recording"@,
        CaptureError::NoInputDevice => "No input device found"@,
        CaptureError::UnsupportedFormat => "Unsupported mic sample format"@,
        CaptureError::ConnectionTimeout => "WebSocket connection timeout (10s): STT proxy unreachable"@,
        CaptureError::ConnectionFailed(s) => s@,
        CaptureError::Backend(s) => s@,
    }
}

impl CaptureError {
    /// Human-readable description of the error.
    pub fn message(&self) -> (r: String)
        ensures
            r@ == error_text(*self),
    {
        match self {
            CaptureError::AlreadyRecording => String::from_str("Already recording"),
            CaptureError::NotRecording => String::from_str("Not recording"),
            CaptureError::NoInputDevice => String::from_str("No input device found"),
            CaptureError::UnsupportedFormat => String::from_str("Unsupported mic sample format"),
            CaptureError::ConnectionTimeout => String::from_str(
                "WebSocket connection timeout (10s): STT proxy unreachable",
            ),
            CaptureError::ConnectionFailed(s) => s.clone(),
            CaptureError::Backend(s) => s.clone(),
        }
    }
}

/// Lifecycle events that the pipeline emits to its caller.
#[derive(Clone, Debug, PartialEq, Eq)]
pub enum CaptureEvent {
    /// `capture-started`: whether system audio is captured besides the microphone.
    CaptureStarted { system_audio: bool },
    /// `capture-warning`: a capture source fell back; the session goes on.
    CaptureWarning { message: String, code: String },
    /// `capture-error`: a fatal error, or a backend's failure.
    CaptureError { error: String },
    /// `capture-stopped`: the session has ended.
    CaptureStopped,
}

/// Name under which each event is emitted.
pub open spec fn event_name(e: CaptureEvent) -> Seq<char> {
    match e {
        CaptureEvent::CaptureStarted { .. } => "capture-started"@,
        CaptureEvent::CaptureWarning { .. } => "capture-warning"@,
        CaptureEvent::CaptureError { .. } => "capture-error"@,
        CaptureEvent::CaptureStopped => "capture-stopped"@,
    }
}

impl CaptureEvent {
    /// The event's name, as emitted.
    pub fn name(&self) -> (r: String)
        ensures
            r@ == event_name(*self),
    {
        match self {
            CaptureEvent::CaptureStarted { .. } => String::from_str("capture-started"),
            CaptureEvent::CaptureWarning { .. } => String::from_str("capture-warning"),
            CaptureEvent::CaptureError { .. } => String::from_str("capture-error"),
            CaptureEvent::CaptureStopped => String::from_str("capture-stopped"),
        }
    }
}

} // verus!
