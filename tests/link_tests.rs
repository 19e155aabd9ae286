use audio_capture::backend::{on_backend_failure, plan_start, Backend, FailureStep};
use audio_capture::events::CaptureError;
use audio_capture::session::CaptureSession;
use audio_capture::config::CaptureConfig;
use audio_capture::events::CaptureEvent;
use audio_capture::inbound::{decode_inbound, dispatch, handle_inbound, speaker_label, ReaderAction, TranscriptChunk};

#[test]
fn final_transcript_yields_chunk() {
    let msg = r#"{"type":"transcript","is_final":true,"text":"hello","words":[{"speaker":1}],"confidence":0.95,"provider":"deepgram"}"#;
    let f = decode_inbound(msg).unwrap();
    assert_eq!(f.speaker, Some(1));
    assert_eq!(
        dispatch(&f),
        ReaderAction::Transcript(TranscriptChunk {
            speaker: "speaker_1".to_string(),
            text: "hello".to_string(),
            provider: Some("deepgram".to_string()),
        })
    );
}

#[test]
fn interim_transcript_is_ignored() {
    let msg = r#"{"type":"transcript","is_final":false,"text":"he"}"#;
    assert_eq!(handle_inbound(msg), ReaderAction::Ignore);
}

#[test]
fn empty_final_transcript_is_ignored() {
    let msg = r#"{"type":"transcript","is_final":true,"text":""}"#;
    assert_eq!(handle_inbound(msg), ReaderAction::Ignore);
}

#[test]
fn speaker_defaults_to_zero() {
    let msg = r#"{"type":"transcript","is_final":true,"text":"hi there"}"#;
    match handle_inbound(msg) {
        ReaderAction::Transcript(c) => {
            assert_eq!(c.speaker, "speaker_0");
            assert_eq!(c.text, "hi there");
            assert_eq!(c.provider, None);
        }
        other => panic!("unexpected {:?}", other),
    }
}

#[test]
fn control_messages() {
    assert_eq!(handle_inbound(r#"{"type":"provider_switch","from":"a","to":"b"}"#), ReaderAction::ProviderSwitch);
    assert_eq!(handle_inbound(r#"{"type":"error","message":"x"}"#), ReaderAction::RemoteError);
    assert_eq!(handle_inbound(r#"{"type":"connected","provider":"deepgram"}"#), ReaderAction::Connected);
    assert_eq!(handle_inbound(r#"{"type":"other"}"#), ReaderAction::Ignore);
    assert_eq!(handle_inbound("not json"), ReaderAction::Ignore);
    assert!(decode_inbound("{").is_none());
}

#[test]
fn speaker_labels() {
    assert_eq!(speaker_label(0), "speaker_0");
    assert_eq!(speaker_label(12), "speaker_12");
    assert_eq!(speaker_label(-3), "speaker_-3");
    assert_eq!(speaker_label(i64::MIN), "speaker_-9223372036854775808");
}

#[test]
fn combined_capture_failure_falls_back_with_one_warning() {
    match on_backend_failure(Backend::SystemAudioWithMic, "denied") {
        FailureStep::Fallback { warning, next } => {
            assert_eq!(next, Backend::Microphone);
            assert_eq!(
                warning,
                CaptureEvent::CaptureWarning {
                    message: "System audio unavailable (denied). Using mic only.".to_string(),
                    code: "SCK_FALLBACK".to_string(),
                }
            );
            assert_eq!(warning.name(), "capture-warning");
        }
        FailureStep::Fatal(e) => panic!("unexpected fatal {:?}", e),
    }
}

#[test]
fn microphone_failure_ends_session() {
    let mut s: CaptureSession<u32> = CaptureSession::new();
    let g = s.start(1).unwrap();
    let step = on_backend_failure(Backend::Microphone, "No input device found");
    let err = match step {
        FailureStep::Fatal(e) => e,
        FailureStep::Fallback { .. } => panic!("microphone has no fallback"),
    };
    assert_eq!(err, CaptureError::Backend("Mic: No input device found".to_string()));
    let (evs, handle) = s.fail(g, err);
    assert_eq!(handle, Some(1));
    assert_eq!(evs.len(), 2);
    assert_eq!(evs[0], CaptureEvent::CaptureError { error: "Mic: No input device found".to_string() });
    assert_eq!(evs[1], CaptureEvent::CaptureStopped);
    assert!(!s.is_recording());
}

#[test]
fn malformed_message_is_ignored_and_next_is_handled() {
    assert!(decode_inbound("{\"type\":\"transcript\"").is_none());
    assert_eq!(handle_inbound("{\"type\":\"transcript\""), ReaderAction::Ignore);
    assert_eq!(handle_inbound("[1,2]"), ReaderAction::Ignore);
    assert_eq!(handle_inbound("{}"), ReaderAction::Ignore);
    let next = r#"{"type":"transcript","is_final":true,"text":"again","words":[{"speaker":2}]}"#;
    match handle_inbound(next) {
        ReaderAction::Transcript(c) => assert_eq!(c.speaker, "speaker_2"),
        other => panic!("unexpected {:?}", other),
    }
}

#[test]
fn decoded_members() {
    let f = decode_inbound(r#"{"type":"transcript","is_final":"yes","text":5,"words":[],"provider":"p"}"#).unwrap();
    assert_eq!(f.kind, Some("transcript".to_string()));
    assert_eq!(f.is_final, None);
    assert_eq!(f.text, None);
    assert_eq!(f.speaker, None);
    assert_eq!(f.provider, Some("p".to_string()));
}

#[test]
fn start_plans() {
    let p = plan_start(true);
    assert_eq!(p.first, Backend::SystemAudioWithMic);
    assert_eq!(p.events, vec![CaptureEvent::CaptureStarted { system_audio: true }]);
    let q = plan_start(false);
    assert_eq!(q.first, Backend::Microphone);
    assert_eq!(q.events.len(), 2);
    assert_eq!(q.events[0].name(), "capture-warning");
    assert_eq!(q.events[1], CaptureEvent::CaptureStarted { system_audio: false });
    assert_eq!(q.events[1].name(), "capture-started");
}

#[test]
fn config_defaults_and_urls() {
    let c = CaptureConfig::from_options(Some("tok".to_string()), None, None, None, None, Some("https://db.example".to_string()), Some("anon".to_string()), None);
    assert_eq!(c.language, "en");
    assert_eq!(c.provider, "deepgram");
    assert_eq!(c.model, "nova-3");
    assert_eq!(c.internal_key, "");
    assert_eq!(
        c.stream_url(),
        "wss://interview-stt-proxy.agusmontoya.workers.dev/ws?provider=deepgram&language=en&model=nova-3&channels=1&sample_rate=16000&encoding=linear16"
    );
    assert_eq!(c.host(), "interview-stt-proxy.agusmontoya.workers.dev");
    assert_eq!(c.service_authorization(), "Bearer tok");
    assert_eq!(c.collaborator_authorization(), "Bearer anon");
    assert_eq!(c.analyze_url(), "https://db.example/functions/v1/analyze-chunk");
}

#[test]
fn plain_http_service_uses_ws() {
    let c = CaptureConfig::from_options(None, Some("http://localhost:8787".to_string()), Some("es".to_string()), Some("azure".to_string()), Some("m1".to_string()), None, None, None);
    assert_eq!(
        c.stream_url(),
        "ws://localhost:8787/ws?provider=azure&language=es&model=m1&channels=1&sample_rate=16000&encoding=linear16"
    );
    assert_eq!(c.host(), "localhost:8787");
    assert_eq!(c.service_authorization(), "Bearer ");
}
