use vstd::prelude::*;
use crate::events::{CaptureError, CaptureEvent};
use crate::session::{finish_events, is_error_event};

verus! {

/// The capture sources, in the order in which they are tried.
#[derive(Clone, Copy, Debug, PartialEq, Eq, Structural)]
pub enum Backend {
    /// Combined system audio and microphone, where the platform offers it.
    SystemAudioWithMic,
    /// The default input device alone.
    Microphone,
}

/// Whether `e` is a `capture-warning` event with this message and code.
pub open spec fn is_warning_event(e: CaptureEvent, message: Seq<char>, code: Seq<char>) -> bool {
    match e {
        CaptureEvent::CaptureWarning { message: m, code: c } => m@ == message && c@ == code,
        _ => false,
    }
}

/// Warning emitted at start where the platform offers no combined capture.
pub open spec fn unavailable_text() -> Seq<char> {
    "System audio capture not available: using microphone only"@
}

/// Warning emitted when the combined source failed for `reason`.
pub open spec fn fallback_text(reason: Seq<char>) -> Seq<char> {
    "System audio unavailable ("@ + reason + "). Using mic only."@
}

/// Error reported when the microphone source failed for `reason`.
pub open spec fn mic_failure_text(reason: Seq<char>) -> Seq<char> {
    "Mic: "@ + reason
}

/// How a session starts: the first source to run and the events emitted at once.
pub struct StartPlan {
    pub first: Backend,
    pub events: Vec<CaptureEvent>,
}

/// The plan owed at start: the combined source first where the platform offers
/// it; else the microphone, announced by a warning before `capture-started`.
pub open spec fn start_planned(combined_capable: bool, p: StartPlan) -> bool {
    if combined_capable {
        p.first == Backend::SystemAudioWithMic && p.events@ == seq![
            CaptureEvent::CaptureStarted { system_audio: true },
        ]
    } else {
        p.first == Backend::Microphone && p.events@.len() == 2 && is_warning_event(
            p.events@[0],
            unavailable_text(),
            "SCK_UNAVAILABLE"@,
        ) && p.events@[1] == CaptureEvent::CaptureStarted { system_audio: false }
    }
}

/// Chooses the first capture source from the platform's capability.
pub fn plan_start(combined_capable: bool) -> (p: StartPlan)
    ensures
        start_planned(combined_capable, p),
{
    let mut events: Vec<CaptureEvent> = Vec::new();
    if combined_capable {
        events.push(CaptureEvent::CaptureStarted { system_audio: true });
        let p = StartPlan { first: Backend::SystemAudioWithMic, events };
        assert(p.events@ =~= seq![CaptureEvent::CaptureStarted { system_audio: true }]);
        p
    } else {
        events.push(
            CaptureEvent::CaptureWarning {
                message: String::from_str(
                    "System audio capture not available: using microphone only",
                ),
                code: String::from_str("SCK_UNAVAILABLE"),
            },
        );
        events.push(CaptureEvent::CaptureStarted { system_audio: false });
        StartPlan { first: Backend::Microphone, events }
    }
}

/// What follows the failure of a capture source.
pub enum FailureStep {
    /// Emit the warning and run `next`; the session goes on.
    Fallback { warning: CaptureEvent, next: Backend },
    /// No source is left: the session ends with this error.
    Fatal(CaptureError),
}

/// The step owed when `failed` stops with `reason`: the combined source falls
/// back to the microphone with a warning; the microphone has no fallback, and
/// its failure ends the session.
pub open spec fn failure_planned(failed: Backend, reason: Seq<char>, s: FailureStep) -> bool {
    match failed {
        Backend::SystemAudioWithMic => s matches FailureStep::Fallback { warning, next }
            && is_warning_event(warning, fallback_text(reason), "SCK_FALLBACK"@) && next
            == Backend::Microphone,
        Backend::Microphone => s matches FailureStep::Fatal(CaptureError::Backend(m)) && m@
            == mic_failure_text(reason),
    }
}

/// Decides what follows the failure of the source `failed`.
pub fn on_backend_failure(failed: Backend, reason: &str) -> (s: FailureStep)
    ensures
        failure_planned(failed, reason@, s),
{
    match failed {
        Backend::SystemAudioWithMic => {
            let mut message = String::from_str("System audio unavailable (");
            message.append(reason);
            message.append("). Using mic only.");
            FailureStep::Fallback {
                warning: CaptureEvent::CaptureWarning {
                    message,
                    code: String::from_str("SCK_FALLBACK"),
                },
                next: Backend::Microphone,
            }
        },
        Backend::Microphone => {
            let mut error = String::from_str("Mic: ");
            error.append(reason);
            FailureStep::Fatal(CaptureError::Backend(error))
        },
    }
}

/// A failure of the combined source yields exactly one `capture-warning` and
/// hands over to the microphone; it never ends the session.
pub proof fn lemma_primary_failure_falls_back(reason: Seq<char>, s: FailureStep)
    requires
        failure_planned(Backend::SystemAudioWithMic, reason, s),
    ensures
        s matches FailureStep::Fallback { warning, next } && warning is CaptureWarning && next
            == Backend::Microphone,
        !(s is Fatal),
{
}

/// A failure of the microphone ends the session: the error that ends it makes
/// the session emit `capture-error` with `Mic: <reason>`, then `capture-stopped`.
pub proof fn lemma_mic_failure_ends_session(reason: Seq<char>, s: FailureStep, evs: Seq<CaptureEvent>)
    requires
        failure_planned(Backend::Microphone, reason, s),
        s matches FailureStep::Fatal(e) && finish_events(Err(e), evs),
    ensures
        evs.len() == 2,
        is_error_event(evs[0], mic_failure_text(reason)),
        evs[1] == CaptureEvent::CaptureStopped,
{
}

} // verus!
