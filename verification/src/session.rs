//! The lifecycle of a recording session: start, stop with a minimum
//! duration, and teardown in a safe order.
//!
//! The controller decides; its caller opens and stops the capture sources
//! and does the waiting. A session is stopped by asking the controller for
//! the next step until it answers that teardown is done, carrying out each
//! step before asking again.

use crate::chunk::extend_copy;
use crate::clock::nanos_since;
use crate::error::PipelineError;
use std::time::Instant;
use vstd::prelude::*;
use vstd::slice::slice_to_vec;

verus! {

/// Shortest session, in milliseconds: a stop that comes earlier waits.
pub const MIN_RECORDING_DURATION_MS: u64 = 2000;

/// Time, in milliseconds, that the mixing loop is given to see that it has
/// been told to end.
pub const GRACE_MS: u64 = 100;

/// Time, in milliseconds, that the capture sources are given to settle
/// after they have stopped.
pub const SETTLE_MS: u64 = 100;

/// The lifecycle as its users see it.
#[derive(Clone, Copy, Debug, PartialEq, Eq, Structural)]
pub enum Phase {
    Idle,
    Recording,
    Stopping,
}

/// The lifecycle in full.
#[derive(Clone, Copy, Debug, PartialEq, Eq, Structural)]
pub enum Stage {
    /// No session.
    Idle,
    /// A start has been accepted; the capture sources are being opened.
    Starting,
    /// The capture sources are open and the mixing loop runs.
    Recording,
    /// A stop has been asked for and waits out the minimum duration.
    Holding,
    /// The mixing loop has been told to end.
    Draining,
    /// The capture sources are being stopped.
    Releasing,
    /// The capture sources have stopped.
    Settling,
}

/// One of the two capture devices.
#[derive(Clone, Copy, Debug, PartialEq, Eq, Structural)]
pub enum Device {
    Microphone,
    SystemAudio,
}

/// What the caller does next to stop a session.
#[derive(Debug)]
pub enum StopStep<S> {
    /// Suspend for `millis` milliseconds, then ask again.
    Wait { millis: u64 },
    /// Stop this capture source, ignoring a failure, then ask again.
    StopSource { device: Device, source: S },
    /// Nothing is left to do: no session is active.
    Done,
}

/// The state of a session.
pub ghost struct SessionView<S, T> {
    pub stage: Stage,
    pub recording: bool,
    pub running: bool,
    pub mic_stream: Option<S>,
    pub system_stream: Option<S>,
    pub mic_buffer: Option<Seq<T>>,
    pub system_buffer: Option<Seq<T>>,
    pub chunk_counter: usize,
}

/// The state without a session: every field cleared.
pub open spec fn idle_view<S, T>() -> SessionView<S, T> {
    SessionView {
        stage: Stage::Idle,
        recording: false,
        running: false,
        mic_stream: None,
        system_stream: None,
        mic_buffer: None,
        system_buffer: None,
        chunk_counter: 0,
    }
}

/// The state right after a start has been accepted.
pub open spec fn starting_view<S, T>() -> SessionView<S, T> {
    SessionView {
        stage: Stage::Starting,
        recording: true,
        running: false,
        mic_stream: None,
        system_stream: None,
        mic_buffer: Some(Seq::empty()),
        system_buffer: Some(Seq::empty()),
        chunk_counter: 0,
    }
}

/// What holds of every state that a controller can be in.
pub open spec fn well_formed<S, T>(v: SessionView<S, T>) -> bool {
    &&& v.recording <==> v.stage != Stage::Idle
    &&& v.running ==> v.stage == Stage::Recording || v.stage == Stage::Holding
    &&& v.stage == Stage::Idle ==> v == idle_view::<S, T>()
    &&& v.stage != Stage::Idle ==> v.mic_buffer is Some && v.system_buffer is Some
    &&& v.stage == Stage::Starting ==> v.mic_stream is None && v.system_stream is None
    &&& v.stage == Stage::Recording ==> v.running && v.mic_stream is Some && v.system_stream is Some
    &&& v.stage == Stage::Releasing ==> v.mic_stream is None
    &&& v.stage == Stage::Settling ==> v.mic_stream is None && v.system_stream is None
}

/// The phase that a stage belongs to.
pub open spec fn phase_of(stage: Stage) -> Phase {
    match stage {
        Stage::Idle => Phase::Idle,
        Stage::Starting | Stage::Recording => Phase::Recording,
        _ => Phase::Stopping,
    }
}

/// Time that a stop still has to wait when the session has lasted
/// `elapsed_ms` milliseconds.
pub open spec fn remaining_minimum(elapsed_ms: nat) -> nat {
    if elapsed_ms < MIN_RECORDING_DURATION_MS {
        (MIN_RECORDING_DURATION_MS - elapsed_ms) as nat
    } else {
        0
    }
}

/// The mixing loop is told to end, and is given the grace interval.
pub open spec fn drained<S, T>(v: SessionView<S, T>) -> (SessionView<S, T>, StopStep<S>) {
    (
        SessionView { stage: Stage::Draining, running: false, ..v },
        StopStep::Wait { millis: GRACE_MS },
    )
}

/// The next capture source that is still open is handed out to be stopped,
/// the microphone first; when none is left, the settling wait begins.
pub open spec fn released<S, T>(v: SessionView<S, T>) -> (SessionView<S, T>, StopStep<S>) {
    if v.mic_stream is Some {
        (
            SessionView { stage: Stage::Releasing, mic_stream: None, ..v },
            StopStep::StopSource { device: Device::Microphone, source: v.mic_stream->0 },
        )
    } else if v.system_stream is Some {
        (
            SessionView { stage: Stage::Releasing, system_stream: None, ..v },
            StopStep::StopSource { device: Device::SystemAudio, source: v.system_stream->0 },
        )
    } else {
        (SessionView { stage: Stage::Settling, ..v }, StopStep::Wait { millis: SETTLE_MS })
    }
}

/// One step of stopping: the state after it and what the caller does next,
/// when the session has lasted `elapsed_ms` milliseconds.
pub open spec fn stop_transition<S, T>(v: SessionView<S, T>, elapsed_ms: nat) -> (
    SessionView<S, T>,
    StopStep<S>,
) {
    match v.stage {
        Stage::Idle => (v, StopStep::Done),
        Stage::Starting | Stage::Recording | Stage::Holding => if elapsed_ms
            < MIN_RECORDING_DURATION_MS {
            (
                SessionView { stage: Stage::Holding, ..v },
                StopStep::Wait { millis: remaining_minimum(elapsed_ms) as u64 },
            )
        } else {
            drained(v)
        },
        Stage::Draining | Stage::Releasing => released(v),
        Stage::Settling => (idle_view(), StopStep::Done),
    }
}

/// A stop that comes before the minimum duration waits for what is left of
/// it, so that the session lasts two seconds at least; until then nothing
/// is torn down.
pub proof fn law_minimum_duration<S, T>(v: SessionView<S, T>, elapsed_ms: nat)
    requires
        well_formed(v),
        v.stage == Stage::Recording || v.stage == Stage::Starting || v.stage == Stage::Holding,
    ensures
        elapsed_ms + remaining_minimum(elapsed_ms) >= MIN_RECORDING_DURATION_MS,
        elapsed_ms < MIN_RECORDING_DURATION_MS ==> stop_transition(v, elapsed_ms).1
            == (StopStep::<S>::Wait { millis: (MIN_RECORDING_DURATION_MS - elapsed_ms) as u64 })
            && stop_transition(v, elapsed_ms).0 == (SessionView { stage: Stage::Holding, ..v }),
        stop_transition(v, elapsed_ms).0.running != v.running ==> elapsed_ms
            >= MIN_RECORDING_DURATION_MS,
{
}

/// Teardown keeps its order. A capture source is handed out to be stopped
/// only when the mixing loop had been told to end by an earlier step, and
/// the session state is cleared only by a step that found both capture
/// sources handed out already. Every step leaves a state that is well
/// formed.
pub proof fn law_teardown_order<S, T>(v: SessionView<S, T>, elapsed_ms: nat)
    requires
        well_formed(v),
    ensures
        well_formed(stop_transition(v, elapsed_ms).0),
        stop_transition(v, elapsed_ms).1 is StopSource ==> !v.running,
        v.stage != Stage::Idle && stop_transition(v, elapsed_ms).0.stage == Stage::Idle
            ==> v.stage == Stage::Settling && !v.running && v.mic_stream is None
            && v.system_stream is None,
        stop_transition(v, elapsed_ms).1 is Done <==> stop_transition(v, elapsed_ms).0
            == idle_view::<S, T>(),
{
}

/// A session that records with both capture sources open, stopped after
/// the minimum duration, is torn down in exactly these steps: the grace
/// wait, the microphone, the system audio, the settling wait, done. The
/// times given to the later steps do not matter.
pub proof fn law_teardown_sequence<S, T>(
    v: SessionView<S, T>,
    elapsed_ms: nat,
    t1: nat,
    t2: nat,
    t3: nat,
    t4: nat,
)
    requires
        well_formed(v),
        v.stage == Stage::Recording,
        elapsed_ms >= MIN_RECORDING_DURATION_MS,
    ensures
        ({
            let s1 = stop_transition(v, elapsed_ms);
            let s2 = stop_transition(s1.0, t1);
            let s3 = stop_transition(s2.0, t2);
            let s4 = stop_transition(s3.0, t3);
            let s5 = stop_transition(s4.0, t4);
            &&& s1.1 == StopStep::<S>::Wait { millis: GRACE_MS }
            &&& !s1.0.running
            &&& s2.1 == (StopStep::StopSource {
                device: Device::Microphone,
                source: v.mic_stream->0,
            })
            &&& s3.1 == (StopStep::StopSource {
                device: Device::SystemAudio,
                source: v.system_stream->0,
            })
            &&& s4.1 == StopStep::<S>::Wait { millis: SETTLE_MS }
            &&& s4.0.recording
            &&& s5.1 == StopStep::<S>::Done
            &&& s5.0 == idle_view::<S, T>()
        }),
{
}

/// Stopping always comes to an end: once the minimum duration has passed,
/// five steps at most lead from any state to the state without a session.
pub proof fn law_teardown_completes<S, T>(v: SessionView<S, T>, t: Seq<nat>)
    requires
        well_formed(v),
        t.len() == 5,
        forall|i: int| 0 <= i < 5 ==> t[i] >= MIN_RECORDING_DURATION_MS,
    ensures
        ({
            let s1 = stop_transition(v, t[0]).0;
            let s2 = stop_transition(s1, t[1]).0;
            let s3 = stop_transition(s2, t[2]).0;
            let s4 = stop_transition(s3, t[3]).0;
            let s5 = stop_transition(s4, t[4]).0;
            s5 == idle_view::<S, T>()
        }),
{
    let s1 = stop_transition(v, t[0]).0;
    let s2 = stop_transition(s1, t[1]).0;
    let s3 = stop_transition(s2, t[2]).0;
    let s4 = stop_transition(s3, t[3]).0;
    law_teardown_order(v, t[0]);
    law_teardown_order(s1, t[1]);
    law_teardown_order(s2, t[2]);
    law_teardown_order(s3, t[3]);
    law_teardown_order(s4, t[4]);
}

/// The recording flag is down without a session, goes up when a start is
/// accepted, and stays up through every step of stopping but the one that
/// answers that teardown is done.
pub proof fn law_recording_flag<S, T>(v: SessionView<S, T>, elapsed_ms: nat)
    requires
        well_formed(v),
    ensures
        !idle_view::<S, T>().recording,
        starting_view::<S, T>().recording,
        v.recording <==> v.stage != Stage::Idle,
        stop_transition(v, elapsed_ms).0.recording <==> !(stop_transition(v, elapsed_ms).1 is Done),
{
}

/// Owner of the state of at most one recording session.
///
/// `S` is the handle of an open capture source and `T` a sample.
pub struct SessionController<S, T> {
    stage: Stage,
    recording: bool,
    running: bool,
    start_time: Option<Instant>,
    mic_stream: Option<S>,
    system_stream: Option<S>,
    mic_buffer: Option<Vec<T>>,
    system_buffer: Option<Vec<T>>,
    chunk_counter: usize,
}

/// The content of an optional buffer.
pub open spec fn buffer_view<T>(buffer: Option<Vec<T>>) -> Option<Seq<T>> {
    match buffer {
        Some(b) => Some(b@),
        None => None,
    }
}

impl<S, T> View for SessionController<S, T> {
    type V = SessionView<S, T>;

    closed spec fn view(&self) -> SessionView<S, T> {
        SessionView {
            stage: self.stage,
            recording: self.recording,
            running: self.running,
            mic_stream: self.mic_stream,
            system_stream: self.system_stream,
            mic_buffer: buffer_view(self.mic_buffer),
            system_buffer: buffer_view(self.system_buffer),
            chunk_counter: self.chunk_counter,
        }
    }
}

impl<S, T> SessionController<S, T> {
    #[verifier::type_invariant]
    spec fn inv(self) -> bool {
        &&& well_formed(self@)
        &&& self.start_time is Some <==> self.stage != Stage::Idle
    }
}

impl<S, T: Copy> SessionController<S, T> {
    /// The clock reading taken when the session was started, if one is
    /// active.
    pub closed spec fn started_at(&self) -> Option<Instant> {
        self.start_time
    }

    /// A controller without a session.
    pub fn new() -> (c: Self)
        ensures
            c@ == idle_view::<S, T>(),
            c.started_at() is None,
    {
        SessionController {
            stage: Stage::Idle,
            recording: false,
            running: false,
            start_time: None,
            mic_stream: None,
            system_stream: None,
            mic_buffer: None,
            system_buffer: None,
            chunk_counter: 0,
        }
    }

    /// Whether a session is active.
    pub fn is_recording(&self) -> (b: bool)
        ensures
            b == self@.recording,
            b == (self@.stage != Stage::Idle),
    {
        proof {
            use_type_invariant(self);
        }
        self.recording
    }

    /// Whether the mixing loop is to go on.
    pub fn is_running(&self) -> (b: bool)
        ensures
            b == self@.running,
    {
        self.running
    }

    /// The stage of the lifecycle.
    pub fn stage(&self) -> (stage: Stage)
        ensures
            stage == self@.stage,
            well_formed(self@),
    {
        proof {
            use_type_invariant(self);
        }
        self.stage
    }

    /// The phase of the lifecycle.
    pub fn phase(&self) -> (phase: Phase)
        ensures
            phase == phase_of(self@.stage),
    {
        match self.stage {
            Stage::Idle => Phase::Idle,
            Stage::Starting | Stage::Recording => Phase::Recording,
            _ => Phase::Stopping,
        }
    }

    /// Accepts a start at the clock reading `now`, or refuses it.
    ///
    /// A start is accepted exactly when no session is active. The session
    /// state is then allocated and the session counts as recording; the
    /// capture sources are still to be opened. A refused start changes
    /// nothing.
    pub fn begin_start(&mut self, now: Instant) -> (result: Result<(), PipelineError>)
        ensures
            old(self)@.stage == Stage::Idle ==> result is Ok
                && final(self)@ == starting_view::<S, T>()
                && final(self).started_at() == Some(now),
            old(self)@.stage != Stage::Idle ==> result == Err::<(), PipelineError>(
                PipelineError::AlreadyRecording,
            ) && *final(self) == *old(self),
    {
        proof {
            use_type_invariant(&*self);
        }
        if self.stage != Stage::Idle {
            return Err(PipelineError::AlreadyRecording);
        }
        *self = SessionController {
            stage: Stage::Starting,
            recording: true,
            running: false,
            start_time: Some(now),
            mic_stream: None,
            system_stream: None,
            mic_buffer: Some(Vec::new()),
            system_buffer: Some(Vec::new()),
            chunk_counter: 0,
        };
        Ok(())
    }

    /// Gives up a start whose capture sources could not be opened: no part
    /// of the session is left. Outside a start it changes nothing.
    pub fn abort_start(&mut self) -> (aborted: bool)
        ensures
            aborted == (old(self)@.stage == Stage::Starting),
            aborted ==> final(self)@ == idle_view::<S, T>() && final(self).started_at() is None,
            !aborted ==> *final(self) == *old(self),
    {
        if self.stage != Stage::Starting {
            return false;
        }
        *self = Self::new();
        true
    }

    /// Gives up a start because a default device is missing, and makes the
    /// error that says so with the device layer's message.
    pub fn device_unavailable(&mut self, detail: String) -> (error: PipelineError)
        ensures
            error == PipelineError::DeviceUnavailable(detail),
            old(self)@.stage == Stage::Starting ==> final(self)@ == idle_view::<S, T>()
                && final(self).started_at() is None,
            old(self)@.stage != Stage::Starting ==> *final(self) == *old(self),
    {
        self.abort_start();
        PipelineError::DeviceUnavailable(detail)
    }

    /// Gives up a start because a capture source could not be opened, and
    /// makes the error that says so with the device layer's message.
    pub fn capture_init_failed(&mut self, detail: String) -> (error: PipelineError)
        ensures
            error == PipelineError::CaptureInitError(detail),
            old(self)@.stage == Stage::Starting ==> final(self)@ == idle_view::<S, T>()
                && final(self).started_at() is None,
            old(self)@.stage != Stage::Starting ==> *final(self) == *old(self),
    {
        self.abort_start();
        PipelineError::CaptureInitError(detail)
    }

    /// Completes a start with the two capture sources that were opened:
    /// the session records and the mixing loop may run.
    ///
    /// Outside a start the sources are refused and handed back, and
    /// nothing changes.
    pub fn attach_sources(&mut self, mic: S, system: S) -> (refused: Option<(S, S)>)
        ensures
            old(self)@.stage == Stage::Starting ==> refused is None && final(self)@ == (SessionView {
                stage: Stage::Recording,
                running: true,
                mic_stream: Some(mic),
                system_stream: Some(system),
                ..old(self)@
            }) && final(self).started_at() == old(self).started_at(),
            old(self)@.stage != Stage::Starting ==> refused == Some((mic, system)) && *final(self)
                == *old(self),
    {
        proof {
            use_type_invariant(&*self);
        }
        if self.stage != Stage::Starting {
            return Some((mic, system));
        }
        let mut next = Self::new();
        std::mem::swap(self, &mut next);
        *self = SessionController {
            stage: Stage::Recording,
            running: true,
            mic_stream: Some(mic),
            system_stream: Some(system),
            ..next
        };
        None
    }

    /// Decides the next step of stopping, given the milliseconds that the
    /// session has lasted. The caller carries the step out and asks again,
    /// until the answer is `Done`.
    ///
    /// Without a session the answer is `Done` at once. The mixing loop is
    /// told to end only when the session has lasted the minimum duration;
    /// a stop that comes earlier is told to wait for the rest of it.
    pub fn stop_step_after(&mut self, elapsed_ms: u128) -> (step: StopStep<S>)
        ensures
            (final(self)@, step) == stop_transition(old(self)@, elapsed_ms as nat),
            well_formed(old(self)@),
            well_formed(final(self)@),
            final(self)@.stage != Stage::Idle ==> final(self).started_at()
                == old(self).started_at(),
            final(self)@.stage == Stage::Idle ==> final(self).started_at() is None,
    {
        proof {
            use_type_invariant(&*self);
        }
        if self.stage == Stage::Idle {
            return StopStep::Done;
        }
        let mut cur = Self::new();
        std::mem::swap(self, &mut cur);
        proof {
            use_type_invariant(&cur);
        }
        match cur.stage {
            Stage::Idle => StopStep::Done,
            Stage::Starting | Stage::Recording | Stage::Holding => {
                if elapsed_ms < 2000 {
                    *self = SessionController { stage: Stage::Holding, ..cur };
                    StopStep::Wait { millis: (2000 - elapsed_ms) as u64 }
                } else {
                    *self = SessionController { stage: Stage::Draining, running: false, ..cur };
                    StopStep::Wait { millis: GRACE_MS }
                }
            },
            Stage::Draining | Stage::Releasing => {
                let SessionController {
                    stage: _,
                    recording,
                    running,
                    start_time,
                    mic_stream,
                    system_stream,
                    mic_buffer,
                    system_buffer,
                    chunk_counter,
                } = cur;
                match mic_stream {
                    Some(source) => {
                        *self = SessionController {
                            stage: Stage::Releasing,
                            recording,
                            running,
                            start_time,
                            mic_stream: None,
                            system_stream,
                            mic_buffer,
                            system_buffer,
                            chunk_counter,
                        };
                        StopStep::StopSource { device: Device::Microphone, source }
                    },
                    None => match system_stream {
                        Some(source) => {
                            *self = SessionController {
                                stage: Stage::Releasing,
                                recording,
                                running,
                                start_time,
                                mic_stream: None,
                                system_stream: None,
                                mic_buffer,
                                system_buffer,
                                chunk_counter,
                            };
                            StopStep::StopSource { device: Device::SystemAudio, source }
                        },
                        None => {
                            *self = SessionController {
                                stage: Stage::Settling,
                                recording,
                                running,
                                start_time,
                                mic_stream: None,
                                system_stream: None,
                                mic_buffer,
                                system_buffer,
                                chunk_counter,
                            };
                            StopStep::Wait { millis: SETTLE_MS }
                        },
                    },
                }
            },
            Stage::Settling => StopStep::Done,
        }
    }

    /// Decides the next step of stopping by the clock.
    ///
    /// The step is the one that [`stop_transition`] gives for the time
    /// that the session has lasted, whatever the clock says that time is.
    pub fn stop_step(&mut self) -> (step: StopStep<S>)
        ensures
            exists|elapsed_ms: nat|
                (final(self)@, step) == #[trigger] stop_transition(old(self)@, elapsed_ms),
            well_formed(final(self)@),
    {
        let elapsed_ms: u128 = match &self.start_time {
            Some(started) => nanos_since(started) / 1_000_000,
            None => 0,
        };
        self.stop_step_after(elapsed_ms)
    }

    /// Appends the samples that one tick drained from the two capture
    /// sources to the raw buffers of the session. Without a session there
    /// are no buffers and nothing happens.
    pub fn record_raw(&mut self, mic: &[T], system: &[T])
        ensures
            final(self)@ == (SessionView {
                mic_buffer: match old(self)@.mic_buffer {
                    Some(b) => Some(b + mic@),
                    None => None,
                },
                system_buffer: match old(self)@.system_buffer {
                    Some(b) => Some(b + system@),
                    None => None,
                },
                ..old(self)@
            }),
            final(self).started_at() == old(self).started_at(),
    {
        proof {
            use_type_invariant(&*self);
        }
        if self.stage == Stage::Idle {
            return ;
        }
        let mut cur = Self::new();
        std::mem::swap(self, &mut cur);
        proof {
            use_type_invariant(&cur);
        }
        let SessionController {
            stage,
            recording,
            running,
            start_time,
            mic_stream,
            system_stream,
            mic_buffer,
            system_buffer,
            chunk_counter,
        } = cur;
        let mic_buffer = match mic_buffer {
            Some(mut buffer) => {
                extend_copy(&mut buffer, mic);
                Some(buffer)
            },
            None => None,
        };
        let system_buffer = match system_buffer {
            Some(mut buffer) => {
                extend_copy(&mut buffer, system);
                Some(buffer)
            },
            None => None,
        };
        *self = SessionController {
            stage,
            recording,
            running,
            start_time,
            mic_stream,
            system_stream,
            mic_buffer,
            system_buffer,
            chunk_counter,
        };
    }

    /// The raw microphone samples of the session so far.
    pub fn mic_recorded(&self) -> (samples: Option<Vec<T>>)
        ensures
            buffer_view(samples) == self@.mic_buffer,
    {
        match &self.mic_buffer {
            Some(buffer) => Some(slice_to_vec(buffer.as_slice())),
            None => None,
        }
    }

    /// The raw system-audio samples of the session so far.
    pub fn system_recorded(&self) -> (samples: Option<Vec<T>>)
        ensures
            buffer_view(samples) == self@.system_buffer,
    {
        match &self.system_buffer {
            Some(buffer) => Some(slice_to_vec(buffer.as_slice())),
            None => None,
        }
    }

    /// Numbers the chunks of a session from zero: gives the number of the
    /// chunk that is cut now and counts it. The count wraps around at the
    /// largest value. Without a session the number is zero and nothing is
    /// counted.
    pub fn next_chunk_number(&mut self) -> (number: usize)
        ensures
            number == old(self)@.chunk_counter,
            final(self)@ == (SessionView {
                chunk_counter: counted(old(self)@),
                ..old(self)@
            }),
            final(self).started_at() == old(self).started_at(),
    {
        proof {
            use_type_invariant(&*self);
        }
        let number = self.chunk_counter;
        if self.stage != Stage::Idle {
            self.chunk_counter = if number < usize::MAX {
                number + 1
            } else {
                0
            };
        }
        number
    }
}

/// The chunk counter after one more chunk.
pub open spec fn counted<S, T>(v: SessionView<S, T>) -> usize {
    if v.stage == Stage::Idle {
        0
    } else if v.chunk_counter < usize::MAX {
        (v.chunk_counter + 1) as usize
    } else {
        0
    }
}

} // verus!
