//! Operational counters of the real-time and asynchronous parts of the core.

use vstd::prelude::*;

verus! {

/// Counters for the real-time and asynchronous parts of the core. They have one owner, so that every
/// count is seen by whoever reads them; a [`MetricsSnapshot`] is what is handed out.
#[derive(Debug, PartialEq, Eq, Structural)]
pub struct CoreMetrics {
    /// Frames currently waiting for the audio worker.
    pub audio_queue_depth: u64,
    /// Highest observed audio queue depth.
    pub audio_queue_max_depth: u64,
    /// Frames rejected by full callback queue.
    pub audio_frames_dropped: u64,
    /// Audio device reopen attempts.
    pub audio_reconnects: u64,
    /// Requests currently waiting for STT.
    pub stt_queue_depth: u64,
    /// Highest observed STT queue depth.
    pub stt_queue_max_depth: u64,
    /// Native STT workers recreated by the supervisor.
    pub stt_restarts: u64,
    /// STT restart budgets exhausted.
    pub stt_faults: u64,
    /// Recoverable component failures.
    pub recoverable_errors: u64,
    /// Successfully completed typed commands.
    pub commands_completed: u64,
    /// Most recent wake-word frame latency in microseconds.
    pub kws_last_us: u64,
    /// Highest wake-word frame latency in microseconds.
    pub kws_max_us: u64,
    /// Most recent STT request latency in milliseconds.
    pub stt_last_ms: u64,
    /// Highest STT request latency in milliseconds.
    pub stt_max_ms: u64,
    /// Most recent handler latency in milliseconds.
    pub handler_last_ms: u64,
    /// Highest handler latency in milliseconds.
    pub handler_max_ms: u64,
}

/// Point-in-time metrics exposed through IPC.
#[derive(Debug, Clone, Copy, PartialEq, Eq, Structural)]
pub struct MetricsSnapshot {
    /// Frames currently waiting for the audio worker.
    pub audio_queue_depth: u64,
    /// Highest observed audio queue depth.
    pub audio_queue_max_depth: u64,
    /// Frames rejected by full callback queue.
    pub audio_frames_dropped: u64,
    /// Audio device reopen attempts.
    pub audio_reconnects: u64,
    /// Requests currently waiting for STT.
    pub stt_queue_depth: u64,
    /// Highest observed STT queue depth.
    pub stt_queue_max_depth: u64,
    /// Native STT workers recreated by the supervisor.
    pub stt_restarts: u64,
    /// STT restart budgets exhausted.
    pub stt_faults: u64,
    /// Recoverable component failures.
    pub recoverable_errors: u64,
    /// Successfully completed typed commands.
    pub commands_completed: u64,
    /// Most recent wake-word frame latency in microseconds.
    pub kws_last_us: u64,
    /// Highest wake-word frame latency in microseconds.
    pub kws_max_us: u64,
    /// Most recent STT request latency in milliseconds.
    pub stt_last_ms: u64,
    /// Highest STT request latency in milliseconds.
    pub stt_max_ms: u64,
    /// Most recent handler latency in milliseconds.
    pub handler_last_ms: u64,
    /// Highest handler latency in milliseconds.
    pub handler_max_ms: u64,
    /// Current process working set; zero when unsupported.
    pub process_working_set_bytes: u64,
    /// Accumulated process user plus kernel CPU time; zero when unsupported.
    pub process_cpu_time_ms: u64,
}

/// The next value of a counter, which wraps around at its limit.
pub open spec fn counted(value: u64) -> u64 {
    if value == u64::MAX {
        0
    } else {
        (value + 1) as u64
    }
}

/// The previous value of a counter, which wraps around at zero.
pub open spec fn uncounted(value: u64) -> u64 {
    if value == 0 {
        u64::MAX
    } else {
        (value - 1) as u64
    }
}

/// The larger of two values.
pub open spec fn larger(left: u64, right: u64) -> u64 {
    if left < right {
        right
    } else {
        left
    }
}

/// The larger of two values.
fn max_of(left: u64, right: u64) -> (value: u64)
    ensures
        value == larger(left, right),
{
    if left < right {
        right
    } else {
        left
    }
}

impl Default for CoreMetrics {
    fn default() -> (metrics: Self)
        ensures
            metrics == zero_metrics(),
    {
        CoreMetrics {
            audio_queue_depth: 0,
            audio_queue_max_depth: 0,
            audio_frames_dropped: 0,
            audio_reconnects: 0,
            stt_queue_depth: 0,
            stt_queue_max_depth: 0,
            stt_restarts: 0,
            stt_faults: 0,
            recoverable_errors: 0,
            commands_completed: 0,
            kws_last_us: 0,
            kws_max_us: 0,
            stt_last_ms: 0,
            stt_max_ms: 0,
            handler_last_ms: 0,
            handler_max_ms: 0,
        }
    }
}

/// Metrics before anything was counted.
pub open spec fn zero_metrics() -> CoreMetrics {
    CoreMetrics {
        audio_queue_depth: 0,
        audio_queue_max_depth: 0,
        audio_frames_dropped: 0,
        audio_reconnects: 0,
        stt_queue_depth: 0,
        stt_queue_max_depth: 0,
        stt_restarts: 0,
        stt_faults: 0,
        recoverable_errors: 0,
        commands_completed: 0,
        kws_last_us: 0,
        kws_max_us: 0,
        stt_last_ms: 0,
        stt_max_ms: 0,
        handler_last_ms: 0,
        handler_max_ms: 0,
    }
}

impl CoreMetrics {
    /// Whether every maximum is at least the value it is the maximum of.
    pub open spec fn consistent(self) -> bool {
        &&& self.audio_queue_depth <= self.audio_queue_max_depth
        &&& self.stt_queue_depth <= self.stt_queue_max_depth
        &&& self.kws_last_us <= self.kws_max_us
        &&& self.stt_last_ms <= self.stt_max_ms
        &&& self.handler_last_ms <= self.handler_max_ms
    }

    /// Records a successful audio enqueue.
    pub fn audio_queued(&mut self)
        ensures
            *final(self) == (CoreMetrics {
                audio_queue_depth: counted(old(self).audio_queue_depth),
                audio_queue_max_depth: larger(old(self).audio_queue_max_depth, counted(old(self).audio_queue_depth)),
                ..*old(self)
            }),
            old(self).consistent() ==> final(self).consistent(),
    {
        self.audio_queue_depth = self.audio_queue_depth.wrapping_add(1);
        self.audio_queue_max_depth = max_of(self.audio_queue_max_depth, self.audio_queue_depth);
    }

    /// Records removal or rollback of one queued audio block.
    pub fn audio_dequeued(&mut self)
        ensures
            *final(self) == (CoreMetrics {
                audio_queue_depth: uncounted(old(self).audio_queue_depth),
                ..*old(self)
            }),
            old(self).consistent() && old(self).audio_queue_depth > 0 ==> final(self).consistent(),
    {
        self.audio_queue_depth = self.audio_queue_depth.wrapping_sub(1);
    }

    /// Resets current queue depth when an input stream closes.
    pub fn reset_audio_queue(&mut self)
        ensures
            *final(self) == (CoreMetrics { audio_queue_depth: 0, ..*old(self) }),
            old(self).consistent() ==> final(self).consistent(),
    {
        self.audio_queue_depth = 0;
    }

    /// Counts one block dropped by callback backpressure.
    pub fn audio_dropped(&mut self)
        ensures
            *final(self) == (CoreMetrics {
                audio_frames_dropped: counted(old(self).audio_frames_dropped),
                ..*old(self)
            }),
            old(self).consistent() ==> final(self).consistent(),
    {
        self.audio_frames_dropped = self.audio_frames_dropped.wrapping_add(1);
    }

    /// Counts one device reopen attempt.
    pub fn audio_reconnected(&mut self)
        ensures
            *final(self) == (CoreMetrics {
                audio_reconnects: counted(old(self).audio_reconnects),
                ..*old(self)
            }),
            old(self).consistent() ==> final(self).consistent(),
    {
        self.audio_reconnects = self.audio_reconnects.wrapping_add(1);
    }

    /// Records one STT job entering the bounded queue.
    pub fn stt_queued(&mut self)
        ensures
            *final(self) == (CoreMetrics {
                stt_queue_depth: counted(old(self).stt_queue_depth),
                stt_queue_max_depth: larger(old(self).stt_queue_max_depth, counted(old(self).stt_queue_depth)),
                ..*old(self)
            }),
            old(self).consistent() ==> final(self).consistent(),
    {
        self.stt_queue_depth = self.stt_queue_depth.wrapping_add(1);
        self.stt_queue_max_depth = max_of(self.stt_queue_max_depth, self.stt_queue_depth);
    }

    /// Records one STT job leaving the bounded queue.
    pub fn stt_dequeued(&mut self)
        ensures
            *final(self) == (CoreMetrics {
                stt_queue_depth: uncounted(old(self).stt_queue_depth),
                ..*old(self)
            }),
            old(self).consistent() && old(self).stt_queue_depth > 0 ==> final(self).consistent(),
    {
        self.stt_queue_depth = self.stt_queue_depth.wrapping_sub(1);
    }

    /// Resets current STT queue depth when a failed worker generation is abandoned.
    pub fn reset_stt_queue(&mut self)
        ensures
            *final(self) == (CoreMetrics { stt_queue_depth: 0, ..*old(self) }),
            old(self).consistent() ==> final(self).consistent(),
    {
        self.stt_queue_depth = 0;
    }

    /// Counts one supervised STT worker replacement.
    pub fn stt_restarted(&mut self)
        ensures
            *final(self) == (CoreMetrics {
                stt_restarts: counted(old(self).stt_restarts),
                ..*old(self)
            }),
            old(self).consistent() ==> final(self).consistent(),
    {
        self.stt_restarts = self.stt_restarts.wrapping_add(1);
    }

    /// Counts one exhausted STT restart budget.
    pub fn stt_faulted(&mut self)
        ensures
            *final(self) == (CoreMetrics {
                stt_faults: counted(old(self).stt_faults),
                ..*old(self)
            }),
            old(self).consistent() ==> final(self).consistent(),
    {
        self.stt_faults = self.stt_faults.wrapping_add(1);
    }

    /// Counts one component recovery.
    pub fn recoverable_error(&mut self)
        ensures
            *final(self) == (CoreMetrics {
                recoverable_errors: counted(old(self).recoverable_errors),
                ..*old(self)
            }),
            old(self).consistent() ==> final(self).consistent(),
    {
        self.recoverable_errors = self.recoverable_errors.wrapping_add(1);
    }

    /// Counts one successfully completed command.
    pub fn command_completed(&mut self)
        ensures
            *final(self) == (CoreMetrics {
                commands_completed: counted(old(self).commands_completed),
                ..*old(self)
            }),
            old(self).consistent() ==> final(self).consistent(),
    {
        self.commands_completed = self.commands_completed.wrapping_add(1);
    }

    /// Records latest and maximum KWS frame latency.
    pub fn observe_kws(&mut self, micros: u64)
        ensures
            *final(self) == (CoreMetrics {
                kws_last_us: micros,
                kws_max_us: larger(old(self).kws_max_us, micros),
                ..*old(self)
            }),
            old(self).consistent() ==> final(self).consistent(),
    {
        self.kws_last_us = micros;
        self.kws_max_us = max_of(self.kws_max_us, micros);
    }

    /// Records latest and maximum STT latency.
    pub fn observe_stt(&mut self, millis: u64)
        ensures
            *final(self) == (CoreMetrics {
                stt_last_ms: millis,
                stt_max_ms: larger(old(self).stt_max_ms, millis),
                ..*old(self)
            }),
            old(self).consistent() ==> final(self).consistent(),
    {
        self.stt_last_ms = millis;
        self.stt_max_ms = max_of(self.stt_max_ms, millis);
    }

    /// Records latest and maximum command-handler latency.
    pub fn observe_handler(&mut self, millis: u64)
        ensures
            *final(self) == (CoreMetrics {
                handler_last_ms: millis,
                handler_max_ms: larger(old(self).handler_max_ms, millis),
                ..*old(self)
            }),
            old(self).consistent() ==> final(self).consistent(),
    {
        self.handler_last_ms = millis;
        self.handler_max_ms = max_of(self.handler_max_ms, millis);
    }

    /// Returns a point-in-time snapshot without process usage.
    pub fn snapshot(&self) -> (snapshot: MetricsSnapshot)
        ensures
            snapshot == (MetricsSnapshot {
                audio_queue_depth: self.audio_queue_depth,
                audio_queue_max_depth: self.audio_queue_max_depth,
                audio_frames_dropped: self.audio_frames_dropped,
                audio_reconnects: self.audio_reconnects,
                stt_queue_depth: self.stt_queue_depth,
                stt_queue_max_depth: self.stt_queue_max_depth,
                stt_restarts: self.stt_restarts,
                stt_faults: self.stt_faults,
                recoverable_errors: self.recoverable_errors,
                commands_completed: self.commands_completed,
                kws_last_us: self.kws_last_us,
                kws_max_us: self.kws_max_us,
                stt_last_ms: self.stt_last_ms,
                stt_max_ms: self.stt_max_ms,
                handler_last_ms: self.handler_last_ms,
                handler_max_ms: self.handler_max_ms,
                process_working_set_bytes: 0,
                process_cpu_time_ms: 0,
            }),
    {
        MetricsSnapshot {
            audio_queue_depth: self.audio_queue_depth,
            audio_queue_max_depth: self.audio_queue_max_depth,
            audio_frames_dropped: self.audio_frames_dropped,
            audio_reconnects: self.audio_reconnects,
            stt_queue_depth: self.stt_queue_depth,
            stt_queue_max_depth: self.stt_queue_max_depth,
            stt_restarts: self.stt_restarts,
            stt_faults: self.stt_faults,
            recoverable_errors: self.recoverable_errors,
            commands_completed: self.commands_completed,
            kws_last_us: self.kws_last_us,
            kws_max_us: self.kws_max_us,
            stt_last_ms: self.stt_last_ms,
            stt_max_ms: self.stt_max_ms,
            handler_last_ms: self.handler_last_ms,
            handler_max_ms: self.handler_max_ms,
            process_working_set_bytes: 0,
            process_cpu_time_ms: 0,
        }
    }
}

impl MetricsSnapshot {
    /// The snapshot with the counts that the owner of the runtime keeps: errors, commands, and the
    /// latencies of recognition and handlers.
    pub fn with_runtime(self, runtime: MetricsSnapshot) -> (snapshot: Self)
        ensures
            snapshot == (MetricsSnapshot {
                recoverable_errors: runtime.recoverable_errors,
                commands_completed: runtime.commands_completed,
                stt_last_ms: runtime.stt_last_ms,
                stt_max_ms: runtime.stt_max_ms,
                handler_last_ms: runtime.handler_last_ms,
                handler_max_ms: runtime.handler_max_ms,
                ..self
            }),
    {
        let mut snapshot = self;
        snapshot.recoverable_errors = runtime.recoverable_errors;
        snapshot.commands_completed = runtime.commands_completed;
        snapshot.stt_last_ms = runtime.stt_last_ms;
        snapshot.stt_max_ms = runtime.stt_max_ms;
        snapshot.handler_last_ms = runtime.handler_last_ms;
        snapshot.handler_max_ms = runtime.handler_max_ms;
        snapshot
    }

    /// The snapshot with the usage of the process added.
    pub fn with_process_usage(self, working_set_bytes: u64, cpu_time_ms: u64) -> (snapshot: Self)
        ensures
            snapshot == (MetricsSnapshot {
                process_working_set_bytes: working_set_bytes,
                process_cpu_time_ms: cpu_time_ms,
                ..self
            }),
    {
        let mut snapshot = self;
        snapshot.process_working_set_bytes = working_set_bytes;
        snapshot.process_cpu_time_ms = cpu_time_ms;
        snapshot
    }
}

/// Milliseconds in a time of hundred-nanosecond units that comes in two halves.
pub fn filetime_millis(high: u32, low: u32) -> (millis: u64)
    ensures
        millis == (high * 0x1_0000_0000 + low) / 10_000,
{
    (high as u64 * 0x1_0000_0000u64 + low as u64) / 10_000
}

/// Kernel plus user time of a process in milliseconds.
pub fn process_cpu_millis(kernel: (u32, u32), user: (u32, u32)) -> (millis: u64)
    ensures
        millis == (kernel.0 * 0x1_0000_0000 + kernel.1) / 10_000 + (user.0 * 0x1_0000_0000 + user.1)
            / 10_000,
{
    filetime_millis(kernel.0, kernel.1) + filetime_millis(user.0, user.1)
}

/// A counter grows by one, from its limit to zero, and shrinks by the same; a maximum is the larger of
/// two values.
pub proof fn counters_count(value: u64, other: u64)
    ensures
        value < u64::MAX ==> counted(value) == value + 1,
        value == u64::MAX ==> counted(value) == 0,
        uncounted(counted(value)) == value,
        larger(value, other) >= value && larger(value, other) >= other,
        larger(value, other) == value || larger(value, other) == other,
        zero_metrics().consistent(),
{
}

} // verus!
