//! Supervision of microphone sessions: which detector to open, how long to wait after a failure,
//! and when to give the device a longer rest.

use crate::metrics::CoreMetrics;
use crate::models::{find_model, catalog, model_spec, ModelSpec};
use crate::session::{required, MessageView, Outgoing, OutgoingView, PipelineMessage, SessionEnd};
use crate::stt::{backoff, backoff_is_bounded, restart_delay, restart_delays_double};
use crate::text::views;
use vstd::prelude::*;

verus! {

/// Failures in a row that are answered by a restart.
pub const MAX_RESTARTS: u32 = 5;

/// A session that lasted this long makes up for the failures before it.
pub const HEALTHY_SESSION_MS: u64 = 30_000;

/// Longest wait before a restart, and the rest after too many of them.
pub const LONGEST_WAIT_MS: u64 = 60_000;

/// Wait before looking again for something that is not there.
pub const IDLE_WAIT_MS: u64 = 200;

/// The supervisor of the microphone.
#[derive(Debug, Clone, Copy, PartialEq, Eq, Structural)]
pub struct AudioSupervisor {
    /// Failures in a row.
    pub failures: u32,
    /// Whether automatic recovery pauses.
    pub faulted: bool,
}

/// What has to be done before a session.
#[derive(Debug, Clone, Copy)]
pub enum Preparation {
    /// There is no model: look again after some milliseconds.
    NoModel(u64),
    /// The configured model is not in the catalog: look again after some milliseconds.
    InvalidModel(u64),
    /// Open a detector for this model.
    OpenDetector(ModelSpec),
}

/// What follows a failure of a session.
#[derive(Debug, Clone, Copy, PartialEq, Eq, Structural)]
pub enum Recovery {
    /// The daemon stops.
    Stop,
    /// The session is opened again after some milliseconds.
    Retry(u64),
    /// The device rests for some milliseconds, or until the settings change.
    Rest(u64),
}

/// What a failure leads to.
pub struct Failure<S> {
    /// Messages in order.
    pub messages: Vec<Outgoing<S>>,
    /// What follows.
    pub recovery: Recovery,
}

/// What the runtime is told about a failed session.
pub open spec fn failure_report<S>(error: Seq<char>) -> Seq<OutgoingView<S>> {
    required(MessageView::<S>::AudioDeviceChanged(None)) + required(
        MessageView::<S>::AudioError(error),
    )
}

/// What the runtime is told when automatic recovery pauses.
pub open spec fn breaker_report<S>() -> Seq<OutgoingView<S>> {
    required(
        MessageView::<S>::AudioError(
            "audio restart budget exhausted; circuit breaker open for 60 seconds"@,
        ),
    )
}

impl AudioSupervisor {
    /// A supervisor that saw no failure.
    pub fn new() -> (supervisor: Self)
        ensures
            supervisor == (AudioSupervisor { failures: 0, faulted: false }),
    {
        AudioSupervisor { failures: 0, faulted: false }
    }

    /// Failures in a row, counting one more after a session of some milliseconds.
    pub open spec fn counted(self, session_ms: u64) -> u32 {
        if session_ms >= HEALTHY_SESSION_MS {
            1
        } else if self.failures == u32::MAX {
            u32::MAX
        } else {
            (self.failures + 1) as u32
        }
    }

    /// What follows a failure.
    pub open spec fn recovery(self, session_ms: u64, reconnect_delay_ms: u64, stopping: bool) -> Recovery {
        if stopping {
            Recovery::Stop
        } else if self.counted(session_ms) > MAX_RESTARTS {
            Recovery::Rest(LONGEST_WAIT_MS)
        } else {
            let delay = backoff(reconnect_delay_ms, self.counted(session_ms));
            Recovery::Retry(
                if delay > LONGEST_WAIT_MS {
                    LONGEST_WAIT_MS
                } else {
                    delay
                },
            )
        }
    }

    /// Decides what a session needs: an installed model that the catalog knows.
    pub fn prepare(&mut self, model_installed: bool, model_id: &str) -> (preparation: Preparation)
        ensures
            final(self).failures == old(self).failures,
            !model_installed ==> preparation == Preparation::NoModel(IDLE_WAIT_MS) && *final(self)
                == *old(self),
            model_installed ==> match find_model(catalog(), model_id@, 0) {
                Some(model) => preparation matches Preparation::OpenDetector(spec) && spec@ == model
                    && *final(self) == *old(self),
                None => preparation == Preparation::InvalidModel(IDLE_WAIT_MS) && final(self).faulted,
            },
    {
        if !model_installed {
            return Preparation::NoModel(IDLE_WAIT_MS);
        }
        match model_spec(model_id) {
            Ok(model) => Preparation::OpenDetector(model),
            Err(_) => {
                self.faulted = true;
                Preparation::InvalidModel(IDLE_WAIT_MS)
            },
        }
    }

    /// Takes the end of a session; tells whether another one follows.
    pub fn session_ended(&mut self, end: SessionEnd) -> (again: bool)
        ensures
            again == (end !is Stopped),
            *final(self) == if again {
                AudioSupervisor { failures: 0, faulted: false }
            } else {
                *old(self)
            },
    {
        match end {
            SessionEnd::Stopped => false,
            SessionEnd::Reconfigured | SessionEnd::InputChanged => {
                self.failures = 0;
                self.faulted = false;
                true
            },
        }
    }

    /// Takes the failure of a session that lasted some milliseconds, and counts a reconnect where
    /// another session follows.
    pub fn session_failed<S>(
        &mut self,
        metrics: &mut CoreMetrics,
        error: String,
        session_ms: u64,
        reconnect_delay_ms: u64,
        stopping: bool,
    ) -> (failure: Failure<S>)
        ensures
            failure.recovery == old(self).recovery(session_ms, reconnect_delay_ms, stopping),
            *final(metrics) == if failure.recovery is Stop {
                *old(metrics)
            } else {
                CoreMetrics {
                    audio_reconnects: crate::metrics::counted(old(metrics).audio_reconnects),
                    ..*old(metrics)
                }
            },
            match failure.recovery {
                Recovery::Stop => views(failure.messages@) == Seq::<OutgoingView<S>>::empty()
                    && *final(self) == *old(self),
                Recovery::Retry(_) => views(failure.messages@) == failure_report::<S>(error@)
                    && *final(self) == (AudioSupervisor {
                    failures: old(self).counted(session_ms),
                    ..*old(self)
                }),
                Recovery::Rest(_) => views(failure.messages@) == failure_report::<S>(error@)
                    + breaker_report::<S>() && *final(self) == (AudioSupervisor {
                    failures: old(self).counted(session_ms),
                    faulted: true,
                }),
            },
    {
        let mut messages: Vec<Outgoing<S>> = Vec::new();
        if stopping {
            assert(views(messages@) =~= Seq::empty());
            return Failure { messages, recovery: Recovery::Stop };
        }
        let ghost text = error@;
        messages.push(
            Outgoing { message: PipelineMessage::AudioDeviceChanged(None), droppable: false },
        );
        messages.push(Outgoing { message: PipelineMessage::AudioError(error), droppable: false });
        assert(views(messages@) =~= failure_report::<S>(text));
        metrics.audio_reconnected();
        self.failures = if session_ms >= HEALTHY_SESSION_MS {
            1
        } else {
            self.failures.saturating_add(1)
        };
        if self.failures > MAX_RESTARTS {
            self.faulted = true;
            messages.push(
                Outgoing {
                    message: PipelineMessage::AudioError(
                        "audio restart budget exhausted; circuit breaker open for 60 seconds".to_owned(),
                    ),
                    droppable: false,
                },
            );
            assert(views(messages@) =~= failure_report::<S>(text) + breaker_report::<S>());
            return Failure { messages, recovery: Recovery::Rest(LONGEST_WAIT_MS) };
        }
        let delay: u64 = restart_delay(reconnect_delay_ms, self.failures);
        Failure {
            messages,
            recovery: Recovery::Retry(
                if delay > LONGEST_WAIT_MS {
                    LONGEST_WAIT_MS
                } else {
                    delay
                },
            ),
        }
    }

    /// Tells whether the device still rests: not when the settings changed, the daemon stops or
    /// the time is over.
    pub fn rests(reconfigured: bool, stopping: bool, now: u64, until: u64) -> (answer: bool)
        ensures
            answer == (!reconfigured && !stopping && now < until),
    {
        !reconfigured && !stopping && now < until
    }

    /// Ends the rest of the device.
    pub fn rest_over(&mut self)
        ensures
            *final(self) == (AudioSupervisor { failures: 0, faulted: false }),
    {
        self.failures = 0;
        self.faulted = false;
    }
}

/// No wait for the device takes longer than a minute, and it rests exactly when more failures
/// follow each other than restarts are allowed.
pub proof fn recovery_is_bounded(supervisor: AudioSupervisor, session_ms: u64, reconnect_delay_ms: u64)
    ensures
        match supervisor.recovery(session_ms, reconnect_delay_ms, false) {
            Recovery::Stop => false,
            Recovery::Retry(wait) => wait <= LONGEST_WAIT_MS && supervisor.counted(session_ms)
                <= MAX_RESTARTS,
            Recovery::Rest(wait) => wait == LONGEST_WAIT_MS && session_ms < HEALTHY_SESSION_MS
                && supervisor.failures >= MAX_RESTARTS,
        },
{
}

/// A failed session is opened again after the reconnect delay, and after twice the wait with each
/// failure that follows at once, up to a minute. The sixth failure in a row makes the device rest for a
/// minute. A session of half a minute or more begins the count anew, and a daemon that stops does not
/// recover.
pub proof fn devices_recover_in_steps(supervisor: AudioSupervisor, session_ms: u64, reconnect_delay_ms: u64)
    ensures
        supervisor.recovery(session_ms, reconnect_delay_ms, true) is Stop,
        session_ms >= 30_000 || supervisor.failures == 0 ==> supervisor.recovery(
            session_ms,
            reconnect_delay_ms,
            false,
        ) == Recovery::Retry(
            if reconnect_delay_ms < 60_000 {
                reconnect_delay_ms
            } else {
                60_000
            },
        ),
        session_ms < 30_000 && supervisor.failures >= 5 ==> supervisor.recovery(
            session_ms,
            reconnect_delay_ms,
            false,
        ) == Recovery::Rest(60_000),
        session_ms < 30_000 && 1 <= supervisor.failures < 5 ==> ({
            let before = AudioSupervisor { failures: (supervisor.failures - 1) as u32, ..supervisor };
            &&& supervisor.recovery(session_ms, reconnect_delay_ms, false) matches Recovery::Retry(wait)
            &&& before.recovery(session_ms, reconnect_delay_ms, false) matches Recovery::Retry(earlier)
            &&& wait == if 2 * earlier < 60_000 {
                2 * earlier
            } else {
                60_000
            }
        }),
        session_ms >= 30_000 ==> supervisor.counted(session_ms) == 1,
        session_ms < 30_000 && supervisor.failures < u32::MAX ==> supervisor.counted(session_ms)
            == supervisor.failures + 1,
{
    restart_delays_double(reconnect_delay_ms, supervisor.counted(session_ms));
    if session_ms < 30_000 && 1 <= supervisor.failures < 5 {
        restart_delays_double(reconnect_delay_ms, supervisor.failures);
        backoff_is_bounded(reconnect_delay_ms, supervisor.failures);
    }
}

/// A failure is reported as the loss of the microphone and then the error; when the device rests, that
/// is reported too.
pub proof fn failures_are_reported<S>(error: Seq<char>)
    ensures
        failure_report::<S>(error).len() == 2,
        failure_report::<S>(error)[0].message == MessageView::<S>::AudioDeviceChanged(None),
        failure_report::<S>(error)[1].message == MessageView::<S>::AudioError(error),
        !failure_report::<S>(error)[0].droppable && !failure_report::<S>(error)[1].droppable,
        breaker_report::<S>().len() == 1 && breaker_report::<S>()[0].message is AudioError,
{
}

} // verus!
