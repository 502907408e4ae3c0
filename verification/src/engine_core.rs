//! App lifecycle, frame clock and engine errors.

use std::time::Instant;
use vstd::prelude::*;
use vstd::string::StringExecFns;

verus! {

/// The error raised by lifecycle operations.
#[derive(Debug)]
pub enum EngineError {
    Message(String),
}

impl EngineError {
    /// The text of the error.
    pub fn message(&self) -> (text: String)
        ensures
            match self {
                EngineError::Message(m) => text@ == m@,
            },
    {
        match self {
            EngineError::Message(m) => m.clone(),
        }
    }
}

/// The lifecycle phase of the engine.
#[derive(Debug, Clone, Copy, PartialEq, Eq, Structural)]
pub enum EnginePhase {
    Created,
    Running,
    Stopped,
}

/// The application's name and version.
#[derive(Debug, Clone)]
pub struct AppInfo {
    pub name: String,
    pub version: String,
}

impl AppInfo {
    pub fn new(name: &str, version: &str) -> (info: Self)
        ensures
            info.name@ == name@,
            info.version@ == version@,
    {
        AppInfo { name: String::from_str(name), version: String::from_str(version) }
    }
}

#[verifier::external_type_specification]
#[verifier::external_body]
pub struct ExInstant(Instant);

/// Reads the monotonic clock: `std::time::Instant::now`.
/// Nothing is promised of the value, which depends on the time.
#[verifier::external_body]
fn instant_now() -> Instant {
    Instant::now()
}

/// The instants that one frame of the clock spans.
#[derive(Debug, Clone, Copy)]
pub struct FrameInstants {
    /// When the clock was started or last reset.
    pub started_at: Instant,
    /// When the previous frame was recorded (or the start, for the first frame).
    pub previous_frame_at: Instant,
    /// When this frame was recorded.
    pub now: Instant,
    /// The number of frames recorded since the start, this one included.
    pub frame_index: u64,
}

/// Counts frames and remembers when the clock started and when the last frame was.
#[derive(Debug)]
pub struct EngineClock {
    started_at: Instant,
    last_frame_at: Instant,
    frame_index: u64,
}

impl EngineClock {
    /// The number of frames recorded since the last start or reset.
    pub closed spec fn frames(&self) -> u64 {
        self.frame_index
    }

    /// The instant the clock was started or last reset.
    pub closed spec fn start_instant(&self) -> Instant {
        self.started_at
    }

    /// The instant of the last recorded frame.
    pub closed spec fn last_frame_instant(&self) -> Instant {
        self.last_frame_at
    }

    pub fn new() -> (clock: Self)
        ensures
            clock.frames() == 0,
            clock.start_instant() == clock.last_frame_instant(),
    {
        let now = instant_now();
        EngineClock { started_at: now, last_frame_at: now, frame_index: 0 }
    }

    pub fn reset(&mut self)
        ensures
            final(self).frames() == 0,
            final(self).start_instant() == final(self).last_frame_instant(),
    {
        let now = instant_now();
        self.started_at = now;
        self.last_frame_at = now;
        self.frame_index = 0;
    }

    /// The number of frames recorded since the last start or reset.
    pub fn frame_count(&self) -> (n: u64)
        ensures
            n == self.frames(),
    {
        self.frame_index
    }

    /// Records one frame: the frame counter advances by one and the frame's
    /// instant becomes the last one.
    pub fn record_frame(&mut self) -> (frame: FrameInstants)
        requires
            old(self).frames() < u64::MAX,
        ensures
            final(self).frames() == old(self).frames() + 1,
            final(self).start_instant() == old(self).start_instant(),
            final(self).last_frame_instant() == frame.now,
            frame.frame_index == final(self).frames(),
            frame.started_at == old(self).start_instant(),
            frame.previous_frame_at == old(self).last_frame_instant(),
    {
        let now = instant_now();
        let previous = self.last_frame_at;
        self.last_frame_at = now;
        self.frame_index = self.frame_index + 1;
        FrameInstants {
            started_at: self.started_at,
            previous_frame_at: previous,
            now,
            frame_index: self.frame_index,
        }
    }
}

impl Default for EngineClock {
    fn default() -> (clock: Self)
        ensures
            clock.frames() == 0,
            clock.start_instant() == clock.last_frame_instant(),
    {
        EngineClock::new()
    }
}

/// The engine application: its info, lifecycle phase and frame clock.
#[derive(Debug)]
pub struct EngineApp {
    info: AppInfo,
    phase: EnginePhase,
    clock: EngineClock,
}

/// The phase a start leads to from `phase`, or `None` where the start is
/// refused.
pub open spec fn phase_after_start(phase: EnginePhase) -> Option<EnginePhase> {
    if phase == EnginePhase::Running {
        None
    } else {
        Some(EnginePhase::Running)
    }
}

/// The phase a stop leads to from any phase.
pub open spec fn phase_after_stop(phase: EnginePhase) -> EnginePhase {
    EnginePhase::Stopped
}

/// A started engine refuses a second start.
pub proof fn law_second_start_is_refused(phase: EnginePhase)
    ensures
        phase_after_start(phase) matches Some(started) ==> phase_after_start(started) is None,
{
}

/// An engine that was stopped, from whatever phase, starts again.
pub proof fn law_stopped_engine_starts_again(phase: EnginePhase)
    ensures
        phase_after_start(phase_after_stop(phase)) == Some(EnginePhase::Running),
{
}

/// The text of the error that a second start raises.
pub open spec fn already_running_message() -> Seq<char> {
    "engine is already running"@
}

impl EngineApp {
    pub closed spec fn spec_info(&self) -> AppInfo {
        self.info
    }

    pub closed spec fn spec_phase(&self) -> EnginePhase {
        self.phase
    }

    pub closed spec fn spec_clock(&self) -> EngineClock {
        self.clock
    }

    pub fn new(info: AppInfo) -> (app: Self)
        ensures
            app.spec_info() == info,
            app.spec_phase() == EnginePhase::Created,
            app.spec_clock().frames() == 0,
    {
        EngineApp { info, phase: EnginePhase::Created, clock: EngineClock::new() }
    }

    /// Starts the engine. A running engine refuses to start again and is left
    /// as it was; otherwise the engine runs and its clock starts afresh.
    pub fn start(&mut self) -> (result: Result<(), EngineError>)
        ensures
            result is Err <==> phase_after_start(old(self).spec_phase()) is None,
            match result {
                Ok(()) => {
                    &&& phase_after_start(old(self).spec_phase()) == Some(final(self).spec_phase())
                    &&& final(self).spec_info() == old(self).spec_info()
                    &&& final(self).spec_clock().frames() == 0
                    &&& final(self).spec_clock().start_instant()
                        == final(self).spec_clock().last_frame_instant()
                },
                Err(EngineError::Message(m)) => {
                    &&& m@ == already_running_message()
                    &&& *final(self) == *old(self)
                },
            },
    {
        if self.phase == EnginePhase::Running {
            return Err(EngineError::Message(String::from_str("engine is already running")));
        }
        self.phase = EnginePhase::Running;
        self.clock.reset();
        Ok(())
    }

    /// Stops the engine, whatever its phase.
    pub fn stop(&mut self)
        ensures
            final(self).spec_phase() == phase_after_stop(old(self).spec_phase()),
            final(self).spec_info() == old(self).spec_info(),
            final(self).spec_clock() == old(self).spec_clock(),
    {
        self.phase = EnginePhase::Stopped;
    }

    /// Records one frame on the engine's clock.
    pub fn record_frame(&mut self) -> (frame: FrameInstants)
        requires
            old(self).spec_clock().frames() < u64::MAX,
        ensures
            final(self).spec_phase() == old(self).spec_phase(),
            final(self).spec_info() == old(self).spec_info(),
            final(self).spec_clock().frames() == old(self).spec_clock().frames() + 1,
            final(self).spec_clock().start_instant() == old(self).spec_clock().start_instant(),
            final(self).spec_clock().last_frame_instant() == frame.now,
            frame.frame_index == final(self).spec_clock().frames(),
            frame.started_at == old(self).spec_clock().start_instant(),
            frame.previous_frame_at == old(self).spec_clock().last_frame_instant(),
    {
        self.clock.record_frame()
    }

    pub fn frames(&self) -> (n: u64)
        ensures
            n == self.spec_clock().frames(),
    {
        self.clock.frame_index
    }

    pub fn info(&self) -> (info: &AppInfo)
        ensures
            *info == self.spec_info(),
    {
        &self.info
    }

    pub fn phase(&self) -> (phase: EnginePhase)
        ensures
            phase == self.spec_phase(),
    {
        self.phase
    }
}

} // verus!
