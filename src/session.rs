use vstd::prelude::*;
use crate::events::{CaptureError, CaptureEvent, error_text};

verus! {

/// Whether a capture session is active.
#[derive(Clone, Copy, Debug, PartialEq, Eq, Structural)]
pub enum RecordingState {
    Idle,
    Recording,
}

/// State and result of a start request made in state `s`.
pub open spec fn start_outcome(s: RecordingState) -> (RecordingState, Result<(), CaptureError>) {
    match s {
        RecordingState::Idle => (RecordingState::Recording, Ok(())),
        RecordingState::Recording => (RecordingState::Recording, Err(CaptureError::AlreadyRecording)),
    }
}

/// State and result of a stop request made in state `s`.
pub open spec fn stop_outcome(s: RecordingState) -> (RecordingState, Result<(), CaptureError>) {
    match s {
        RecordingState::Idle => (RecordingState::Idle, Err(CaptureError::NotRecording)),
        RecordingState::Recording => (RecordingState::Idle, Ok(())),
    }
}

/// Whether `e` is a `capture-error` event whose text is `text`.
pub open spec fn is_error_event(e: CaptureEvent, text: Seq<char>) -> bool {
    match e {
        CaptureEvent::CaptureError { error } => error@ == text,
        _ => false,
    }
}

/// The events emitted when the transcription link's task completes with
/// `outcome`: a fatal error is reported first, and the session always ends
/// with `capture-stopped`.
pub open spec fn finish_events(outcome: Result<(), CaptureError>, evs: Seq<CaptureEvent>) -> bool {
    match outcome {
        Ok(()) => evs == seq![CaptureEvent::CaptureStopped],
        Err(e) => evs.len() == 2 && is_error_event(evs[0], error_text(e)) && evs[1]
            == CaptureEvent::CaptureStopped,
    }
}

/// The one capture session of a process: its recording state, the single
/// slot that holds the outstanding cancellation handle `H`, and the
/// generation that names the latest session started.
pub struct CaptureSession<H> {
    pub state: RecordingState,
    pub cancel: Option<H>,
    /// Identifies the latest session started; a completion that names another is stale.
    pub generation: u64,
    /// The caller stopped the session and its link's completion is still to be reported.
    pub awaiting_link: bool,
}

/// The generation that follows `g`.
pub open spec fn next_generation(g: u64) -> u64 {
    if g == u64::MAX {
        0
    } else {
        (g + 1) as u64
    }
}

impl<H> CaptureSession<H> {
    /// A cancellation handle is held only while recording, and only a stopped
    /// session awaits its link.
    pub open spec fn wf(&self) -> bool {
        &&& self.state == RecordingState::Idle ==> self.cancel is None
        &&& self.state == RecordingState::Recording ==> !self.awaiting_link
    }

    /// An idle session with no cancellation handle.
    pub fn new() -> (s: Self)
        ensures
            s.wf(),
            s.state == RecordingState::Idle,
            s.cancel is None,
            !s.awaiting_link,
    {
        CaptureSession { state: RecordingState::Idle, cancel: None, generation: 0, awaiting_link: false }
    }

    /// Whether a session is active.
    pub fn is_recording(&self) -> (r: bool)
        ensures
            r == (self.state == RecordingState::Recording),
    {
        self.state == RecordingState::Recording
    }

    /// Claims the session: from `Idle` it becomes `Recording` under a new
    /// generation, which is returned, and holds `handle` as its cancellation
    /// handle; while `Recording` it fails with `AlreadyRecording` and changes nothing.
    pub fn start(&mut self, handle: H) -> (r: Result<u64, CaptureError>)
        ensures
            old(self).wf() ==> final(self).wf(),
            final(self).state == start_outcome(old(self).state).0,
            r is Ok <==> start_outcome(old(self).state).1 is Ok,
            old(self).state == RecordingState::Idle ==> r == Ok::<u64, CaptureError>(
                next_generation(old(self).generation),
            ) && final(self).generation == next_generation(old(self).generation) && final(self).cancel == Some(handle) && !final(self).awaiting_link,
            old(self).state == RecordingState::Recording ==> r == Err::<u64, CaptureError>(
                CaptureError::AlreadyRecording,
            ) && *final(self) == *old(self),
    {
        match self.state {
            RecordingState::Idle => {
                let g: u64 = if self.generation == u64::MAX {
                    0
                } else {
                    self.generation + 1
                };
                self.state = RecordingState::Recording;
                self.cancel = Some(handle);
                self.generation = g;
                self.awaiting_link = false;
                Ok(g)
            },
            RecordingState::Recording => Err(CaptureError::AlreadyRecording),
        }
    }

    /// Releases the session: from `Recording` it becomes `Idle`, awaits its
    /// link's completion, and hands back the cancellation handle to be
    /// signalled; while `Idle` it fails with `NotRecording` and changes nothing.
    pub fn stop(&mut self) -> (r: Result<Option<H>, CaptureError>)
        ensures
            old(self).wf() ==> final(self).wf(),
            final(self).state == stop_outcome(old(self).state).0,
            r is Err <==> stop_outcome(old(self).state).1 is Err,
            old(self).state == RecordingState::Idle ==> r == Err::<Option<H>, CaptureError>(
                CaptureError::NotRecording,
            ) && *final(self) == *old(self),
            old(self).state == RecordingState::Recording ==> r == Ok::<Option<H>, CaptureError>(
                old(self).cancel,
            ) && final(self).cancel is None && final(self).awaiting_link && final(self).generation
                == old(self).generation,
    {
        match self.state {
            RecordingState::Idle => Err(CaptureError::NotRecording),
            RecordingState::Recording => {
                self.state = RecordingState::Idle;
                self.awaiting_link = true;
                let h = self.cancel.take();
                Ok(h)
            },
        }
    }

    /// Ends the session of `generation` when its transcription link's task
    /// completes, normally or with a fatal error. While that session records,
    /// it returns to `Idle` and drops its cancellation handle; after the caller
    /// stopped it, only the pending report is made. Either way the events to
    /// emit are returned. A completion that names another generation, or one
    /// whose session already ended and was reported, changes nothing and emits nothing.
    pub fn finish(&mut self, generation: u64, outcome: Result<(), CaptureError>) -> (evs: Vec<
        CaptureEvent,
    >)
        ensures
            old(self).wf() ==> final(self).wf(),
            generation == old(self).generation && (old(self).state == RecordingState::Recording
                || old(self).awaiting_link) ==> final(self).state == RecordingState::Idle && final(self).cancel is None && !final(self).awaiting_link && final(self).generation
                == old(self).generation && finish_events(outcome, evs@),
            !(generation == old(self).generation && (old(self).state == RecordingState::Recording
                || old(self).awaiting_link)) ==> *final(self) == *old(self) && evs@.len() == 0,
    {
        let mut evs: Vec<CaptureEvent> = Vec::new();
        if generation != self.generation || (self.state == RecordingState::Idle
            && !self.awaiting_link) {
            return evs;
        }
        self.state = RecordingState::Idle;
        self.cancel = None;
        self.awaiting_link = false;
        match outcome {
            Ok(()) => {},
            Err(e) => {
                evs.push(CaptureEvent::CaptureError { error: e.message() });
            },
        }
        evs.push(CaptureEvent::CaptureStopped);
        proof {
            if outcome is Ok {
                assert(evs@ =~= seq![CaptureEvent::CaptureStopped]);
            }
        }
        evs
    }

    /// Ends the session of `generation` on a fatal capture error: while that
    /// session records, it returns to `Idle`, the events `capture-error` then
    /// `capture-stopped` are returned with the cancellation handle, to be
    /// signalled so that the link closes. Otherwise nothing changes.
    pub fn fail(&mut self, generation: u64, error: CaptureError) -> (r: (Vec<CaptureEvent>, Option<H>))
        ensures
            old(self).wf() ==> final(self).wf(),
            generation == old(self).generation && old(self).state == RecordingState::Recording
                ==> final(self).state == RecordingState::Idle && final(self).cancel is None
                && !final(self).awaiting_link && final(self).generation == old(self).generation
                && finish_events(Err(error), r.0@) && r.1 == old(self).cancel,
            !(generation == old(self).generation && old(self).state == RecordingState::Recording)
                ==> *final(self) == *old(self) && r.0@.len() == 0 && r.1 is None,
    {
        if generation != self.generation || self.state == RecordingState::Idle {
            return (Vec::new(), None);
        }
        let h = self.cancel.take();
        let evs = self.finish(generation, Err(error));
        (evs, h)
    }
}

/// Of two start requests made one after the other on an idle session, the
/// first succeeds and the second fails with `AlreadyRecording`; the session
/// is then `Recording`.
pub proof fn lemma_two_starts_one_wins(s: RecordingState)
    requires
        s == RecordingState::Idle,
    ensures
        start_outcome(s).1 is Ok,
        start_outcome(start_outcome(s).0).1 == Err::<(), CaptureError>(CaptureError::AlreadyRecording),
        start_outcome(start_outcome(s).0).0 == RecordingState::Recording,
{
}

/// A stop request on an idle session fails with `NotRecording` and leaves it idle.
pub proof fn lemma_stop_when_idle(s: RecordingState)
    requires
        s == RecordingState::Idle,
    ensures
        stop_outcome(s) == (RecordingState::Idle, Err::<(), CaptureError>(CaptureError::NotRecording)),
{
}

} // verus!
