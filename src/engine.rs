//! The engine's lifecycle decisions. The caller owns the device streams: it
//! reports what the devices offer and what happened to each stream, and
//! carries out the stops that the engine asks for.
use vstd::prelude::*;

verus! {

/// How one sample is represented on a device.
#[derive(PartialEq, Eq, Structural, Debug, Clone, Copy)]
pub enum SampleKind {
    Float32,
    Int16,
    UInt16,
    Other,
}

/// The attributes a device stream runs with.
#[derive(PartialEq, Eq, Structural, Debug, Clone, Copy)]
pub struct AudioFormat {
    /// Samples per second, per channel.
    pub sample_rate: u32,
    /// Interleaved channels per frame.
    pub channels: u16,
    pub sample_kind: SampleKind,
}

#[derive(PartialEq, Eq, Structural, Debug, Clone, Copy)]
pub enum EngineError {
    /// No input or no output device is available.
    DeviceNotFound,
    /// The two devices differ in sample rate or sample representation.
    FormatMismatch,
    /// A stream could not be started, or failed while running.
    DeviceError,
}

#[derive(PartialEq, Eq, Structural, Debug, Clone, Copy)]
pub enum EngineState {
    Uninitialized,
    /// A format was agreed and the sessions are being started.
    Initializing,
    Running,
    Stopped,
    Faulted,
}

/// One of the two device sessions.
#[derive(PartialEq, Eq, Structural, Debug, Clone, Copy)]
pub enum Session {
    Capture,
    Playback,
}

/// The streams the caller must stop.
#[derive(PartialEq, Eq, Structural, Debug, Clone, Copy)]
pub struct StopPlan {
    pub stop_capture: bool,
    pub stop_playback: bool,
}

/// Whether two devices can share one stream of samples: same rate, same
/// representation.
pub open spec fn formats_agree(input: AudioFormat, output: AudioFormat) -> bool {
    input.sample_rate == output.sample_rate && input.sample_kind == output.sample_kind
}

/// Agrees on the format both devices will run with, or fails with
/// `FormatMismatch` rather than convert between rates.
pub fn negotiate_format(input: AudioFormat, output: AudioFormat) -> (r: Result<AudioFormat, EngineError>)
    ensures
        formats_agree(input, output) ==> r == Ok::<AudioFormat, EngineError>(input),
        !formats_agree(input, output) ==> r == Err::<AudioFormat, EngineError>(EngineError::FormatMismatch),
{
    if input.sample_rate == output.sample_rate && input.sample_kind == output.sample_kind {
        Ok(input)
    } else {
        Err(EngineError::FormatMismatch)
    }
}

pub struct AudioEngine {
    state: EngineState,
    capture_running: bool,
    playback_running: bool,
    format: Option<AudioFormat>,
    last_error: Option<EngineError>,
}

impl AudioEngine {
    pub closed spec fn state_spec(&self) -> EngineState {
        self.state
    }

    pub closed spec fn running_spec(&self, s: Session) -> bool {
        match s {
            Session::Capture => self.capture_running,
            Session::Playback => self.playback_running,
        }
    }

    pub closed spec fn format_spec(&self) -> Option<AudioFormat> {
        self.format
    }

    pub closed spec fn last_error_spec(&self) -> Option<EngineError> {
        self.last_error
    }

    /// The plan that stops exactly the sessions that are running.
    pub open spec fn plan_for(&self) -> StopPlan {
        StopPlan {
            stop_capture: self.running_spec(Session::Capture),
            stop_playback: self.running_spec(Session::Playback),
        }
    }

    /// Whether a session is running, for no session.
    pub open spec fn idle(&self) -> bool {
        !self.running_spec(Session::Capture) && !self.running_spec(Session::Playback)
    }

    /// Whether `initialize` may be called: the engine is not already
    /// starting or running.
    pub open spec fn can_initialize(&self) -> bool {
        &&& self.idle()
        &&& self.state_spec() != EngineState::Initializing
        &&& self.state_spec() != EngineState::Running
    }

    /// Sessions run only while the engine is starting or running.
    pub open spec fn wf(&self) -> bool {
        (self.state_spec() != EngineState::Initializing && self.state_spec() != EngineState::Running)
            ==> self.idle()
    }

    /// What `initialize(input, output)` does, taking `before` to `after`
    /// and returning `r`.
    pub open spec fn initialized(
        before: AudioEngine,
        after: AudioEngine,
        input: Option<AudioFormat>,
        output: Option<AudioFormat>,
        r: Result<AudioFormat, EngineError>,
    ) -> bool {
        &&& after.wf()
        &&& after.idle()
        &&& (input is None || output is None) ==> r == Err::<AudioFormat, EngineError>(EngineError::DeviceNotFound)
        &&& (input is Some && output is Some && !formats_agree(input->0, output->0))
            ==> r == Err::<AudioFormat, EngineError>(EngineError::FormatMismatch)
        &&& (input is Some && output is Some && formats_agree(input->0, output->0))
            ==> r == Ok::<AudioFormat, EngineError>(input->0)
        &&& r is Ok ==> after.state_spec() == EngineState::Initializing
            && after.format_spec() == Some(r->Ok_0)
            && after.last_error_spec() == before.last_error_spec()
        &&& r is Err ==> after.state_spec() == EngineState::Faulted
            && after.format_spec() is None
            && after.last_error_spec() == Some(r->Err_0)
    }

    /// What `shutdown()` does, taking `before` to `after` and returning
    /// `plan`.
    pub open spec fn shut_down(before: AudioEngine, after: AudioEngine, plan: StopPlan) -> bool {
        &&& after.wf()
        &&& plan == before.plan_for()
        &&& after.idle()
        &&& after.state_spec() == if before.state_spec() == EngineState::Uninitialized {
            EngineState::Uninitialized
        } else {
            EngineState::Stopped
        }
        &&& after.format_spec() == before.format_spec()
        &&& after.last_error_spec() == before.last_error_spec()
    }

    pub fn new() -> (e: AudioEngine)
        ensures
            e.wf(),
            e.state_spec() == EngineState::Uninitialized,
            e.idle(),
            e.format_spec() is None,
            e.last_error_spec() is None,
    {
        AudioEngine {
            state: EngineState::Uninitialized,
            capture_running: false,
            playback_running: false,
            format: None,
            last_error: None,
        }
    }

    pub fn state(&self) -> (r: EngineState)
        ensures
            r == self.state_spec(),
    {
        self.state
    }

    pub fn is_running(&self, s: Session) -> (r: bool)
        ensures
            r == self.running_spec(s),
    {
        match s {
            Session::Capture => self.capture_running,
            Session::Playback => self.playback_running,
        }
    }

    pub fn format(&self) -> (r: Option<AudioFormat>)
        ensures
            r == self.format_spec(),
    {
        self.format
    }

    pub fn last_error(&self) -> (r: Option<EngineError>)
        ensures
            r == self.last_error_spec(),
    {
        self.last_error
    }

    /// Starts a session from the default configurations of the input and
    /// output devices (`None` where there is no such device). On success the
    /// engine is `Initializing` with the agreed format, and the caller starts
    /// both streams; on failure it is `Faulted` with the error, and no
    /// session is running.
    pub fn initialize(&mut self, input: Option<AudioFormat>, output: Option<AudioFormat>) -> (r: Result<AudioFormat, EngineError>)
        requires
            old(self).can_initialize(),
        ensures
            AudioEngine::initialized(*old(self), *final(self), input, output, r),
    {
        let decided = match (input, output) {
            (Some(i), Some(o)) => negotiate_format(i, o),
            _ => Err(EngineError::DeviceNotFound),
        };
        match decided {
            Ok(f) => {
                self.state = EngineState::Initializing;
                self.format = Some(f);
            },
            Err(e) => {
                self.state = EngineState::Faulted;
                self.format = None;
                self.last_error = Some(e);
            },
        }
        decided
    }

    /// Records that the stream of session `s` has started; once both have,
    /// the engine is `Running`.
    pub fn session_started(&mut self, s: Session)
        requires
            old(self).state_spec() == EngineState::Initializing,
        ensures
            final(self).wf(),
            final(self).running_spec(s),
            forall|o: Session| o != s ==> final(self).running_spec(o) == old(self).running_spec(o),
            final(self).state_spec() == if final(self).running_spec(Session::Capture)
                && final(self).running_spec(Session::Playback) {
                EngineState::Running
            } else {
                EngineState::Initializing
            },
            final(self).format_spec() == old(self).format_spec(),
            final(self).last_error_spec() == old(self).last_error_spec(),
    {
        match s {
            Session::Capture => self.capture_running = true,
            Session::Playback => self.playback_running = true,
        }
        if self.capture_running && self.playback_running {
            self.state = EngineState::Running;
        }
    }

    /// Records that session `s` failed to start or failed while running.
    /// The engine becomes `Faulted` with `DeviceError`, and the plan returned
    /// stops every stream that was running, so nothing stays open.
    pub fn session_failed(&mut self, s: Session) -> (plan: StopPlan)
        requires
            old(self).wf(),
        ensures
            final(self).wf(),
            plan == old(self).plan_for(),
            final(self).idle(),
            final(self).state_spec() == EngineState::Faulted,
            final(self).last_error_spec() == Some(EngineError::DeviceError),
            final(self).format_spec() == old(self).format_spec(),
    {
        let plan = StopPlan { stop_capture: self.capture_running, stop_playback: self.playback_running };
        self.capture_running = false;
        self.playback_running = false;
        self.state = EngineState::Faulted;
        self.last_error = Some(EngineError::DeviceError);
        plan
    }

    /// Ends the session: the plan returned stops every stream that is
    /// running, and the engine is `Stopped` (an engine never initialized
    /// stays `Uninitialized`). Calling it again asks for nothing more.
    pub fn shutdown(&mut self) -> (plan: StopPlan)
        requires
            old(self).wf(),
        ensures
            AudioEngine::shut_down(*old(self), *final(self), plan),
    {
        let plan = StopPlan { stop_capture: self.capture_running, stop_playback: self.playback_running };
        self.capture_running = false;
        self.playback_running = false;
        if self.state != EngineState::Uninitialized {
            self.state = EngineState::Stopped;
        }
        plan
    }
}

/// Two devices whose sample rates differ never start a session: the engine
/// reports `FormatMismatch` and leaves no stream running.
pub proof fn lemma_rate_mismatch_starts_nothing(
    before: AudioEngine,
    after: AudioEngine,
    input: AudioFormat,
    output: AudioFormat,
    r: Result<AudioFormat, EngineError>,
)
    requires
        AudioEngine::initialized(before, after, Some(input), Some(output), r),
        input.sample_rate != output.sample_rate,
    ensures
        r == Err::<AudioFormat, EngineError>(EngineError::FormatMismatch),
        after.idle(),
        after.state_spec() == EngineState::Faulted,
        after.last_error_spec() == Some(EngineError::FormatMismatch),
{
}

/// A second shutdown right after a first asks to stop nothing and leaves the
/// engine as the first left it.
pub proof fn lemma_shutdown_idempotent(
    e0: AudioEngine,
    e1: AudioEngine,
    first: StopPlan,
    e2: AudioEngine,
    second: StopPlan,
)
    requires
        e0.wf(),
        AudioEngine::shut_down(e0, e1, first),
        AudioEngine::shut_down(e1, e2, second),
    ensures
        second == (StopPlan { stop_capture: false, stop_playback: false }),
        e2.idle(),
        e2.state_spec() == e1.state_spec(),
        e2.format_spec() == e1.format_spec(),
        e2.last_error_spec() == e1.last_error_spec(),
{
}

} // verus!
