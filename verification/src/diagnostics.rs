//! Decisions of the diagnostic commands: soak tests and listings.

use crate::domain::AudioDeviceInfo;
use crate::metrics::{counted, CoreMetrics};
use crate::runtime::NANOS_PER_MILLI;
use vstd::prelude::*;

verus! {

/// What a read of the microphone gave during a soak test.
#[derive(Debug, Clone, Copy, PartialEq, Eq, Structural)]
pub enum SoakEvent {
    /// A block.
    Received,
    /// Nothing in time.
    Nothing,
    /// A failure.
    Failed,
}

/// What a soak test does next.
#[derive(Debug, Clone, Copy, PartialEq, Eq, Structural)]
pub enum SoakStep {
    /// Read again.
    Continue,
    /// Open the device again.
    Reopen,
}

/// A soak test of an open device.
#[derive(Debug, Clone, Copy, PartialEq, Eq, Structural)]
pub struct Soak {
    /// When the last block came, in nanoseconds.
    pub last_audio: u64,
    /// Longest time without a block.
    pub stall_timeout_ms: u64,
}

impl Soak {
    /// Whether a device has been silent for too long.
    pub open spec fn stalled(self, now: u64) -> bool {
        now >= self.last_audio + self.stall_timeout_ms * NANOS_PER_MILLI
    }

    /// Begins with an open device.
    pub fn new(stall_timeout_ms: u64, now: u64) -> (soak: Self)
        ensures
            soak == (Soak { last_audio: now, stall_timeout_ms }),
    {
        Soak { last_audio: now, stall_timeout_ms }
    }

    /// Takes the outcome of a read; a failure or too long a silence is counted as a reconnect.
    pub fn observe(&mut self, event: SoakEvent, metrics: &mut CoreMetrics, now: u64) -> (step: SoakStep)
        ensures
            step == if event is Failed || (event is Nothing && old(self).stalled(now)) {
                SoakStep::Reopen
            } else {
                SoakStep::Continue
            },
            *final(self) == if event is Received {
                Soak { last_audio: now, ..*old(self) }
            } else {
                *old(self)
            },
            *final(metrics) == if step is Reopen {
                CoreMetrics {
                    audio_reconnects: counted(old(metrics).audio_reconnects),
                    ..*old(metrics)
                }
            } else {
                *old(metrics)
            },
    {
        match event {
            SoakEvent::Received => {
                self.last_audio = now;
                SoakStep::Continue
            },
            SoakEvent::Nothing => if now as u128 >= self.last_audio as u128
                + self.stall_timeout_ms as u128 * NANOS_PER_MILLI {
                metrics.audio_reconnected();
                SoakStep::Reopen
            } else {
                SoakStep::Continue
            },
            SoakEvent::Failed => {
                metrics.audio_reconnected();
                SoakStep::Reopen
            },
        }
    }
}

/// Writes the line that lists a device.
pub fn device_line(device: &AudioDeviceInfo) -> (line: String)
    ensures
        line@ == device@.name + if device@.is_default {
            " (default)"@
        } else {
            Seq::empty()
        },
{
    let mut line = device.name.clone();
    if device.is_default {
        line.append(" (default)");
    }
    assert(line@ =~= device@.name + if device@.is_default {
        " (default)"@
    } else {
        Seq::empty()
    });
    line
}

/// A device stalls when as many milliseconds as configured passed since its last block, and not before.
pub proof fn devices_stall_after_their_time(soak: Soak, now: u64)
    ensures
        soak.stalled(now) <==> now - soak.last_audio >= soak.stall_timeout_ms * 1_000_000,
{
}

} // verus!
