//! Laws of a microphone session: when captures begin and end, what is passed on, and what is forgotten.

use crate::config::ConfigView;
use crate::domain::TranscriptUnavailableReason;
use crate::float32::Real32;
use crate::session::{
    duration_samples, reopens, session_settings, Frame, ManualCapture, MessageView, MissedWakeWord, OutgoingView,
    SessionView,
};
use crate::signal::VadDecision;
use vstd::prelude::*;

verus! {

/// The samples of a duration are those that begin within it.
pub proof fn durations_are_counted_in_samples(sample_rate: u32, milliseconds: u32)
    requires
        sample_rate * milliseconds / 1_000 <= usize::MAX,
    ensures
        duration_samples(sample_rate, milliseconds) * 1_000 <= sample_rate * milliseconds,
        sample_rate * milliseconds < (duration_samples(sample_rate, milliseconds) + 1) * 1_000,
{
}

/// The limits of a session at sixteen thousand samples per second: sixteen for each configured
/// millisecond, and batches of a tenth of a second.
pub proof fn limits_follow_the_configuration(config: ConfigView)
    requires
        config.audio.target_sample_rate == 16_000,
        config.audio.frame_ms <= 60_000,
        config.audio.pre_roll_ms <= 60_000,
        config.audio.command_min_ms <= 60_000,
        config.audio.command_max_ms <= 60_000,
        config.audio.trailing_silence_ms <= 60_000,
    ensures
        ({
            let settings = session_settings(config);
            &&& settings.sample_rate == 16_000
            &&& settings.frame_samples == 16 * config.audio.frame_ms
            &&& settings.chunk_samples == 1_600
            &&& settings.pre_roll_samples == 16 * config.audio.pre_roll_ms
            &&& settings.min_samples == 16 * config.audio.command_min_ms
            &&& settings.max_samples == 16 * config.audio.command_max_ms
            &&& settings.trailing_silence_samples == 16 * config.audio.trailing_silence_ms
            &&& settings.vad_threshold == config.audio.vad_threshold
            &&& settings.cooldown_ms == config.wake_word.cooldown_ms
            &&& settings.stall_timeout_ms == config.audio.stall_timeout_ms
        }),
{
}

/// A session begins with nothing heard, without a capture and without a cooldown.
pub proof fn sessions_begin_empty<S>(
    config: ConfigView,
    active_id: Seq<char>,
    using_fallback: bool,
    now: u64,
)
    ensures
        ({
            let session = SessionView::<S>::opened(config, active_id, using_fallback, now);
            &&& session.settings == session_settings(config)
            &&& session.device_id == config.audio.device_id && session.active_id == active_id
            &&& session.using_fallback == using_fallback
            &&& session.pipeline.collector is None && session.pipeline.ring.len() == 0
            &&& session.pipeline.pre_roll_samples == session.settings.pre_roll_samples
            &&& session.pipeline.min_samples == session.settings.min_samples
            &&& session.pipeline.max_samples == session.settings.max_samples
            &&& session.pipeline.trailing_silence_samples == session.settings.trailing_silence_samples
            &&& session.buffered.len() == 0 && session.stream_buffer.len() == 0
            &&& !session.authorized && !session.speech && !session.missed.speech
            &&& session.detects(ManualCapture::Idle, now)
            &&& session.last_audio == now && session.devices_due == now + 1_000 * 1_000_000
        }),
{
}

/// The spotter hears every frame, but in a cooldown, during a manual capture, and where a command is
/// being captured already.
pub proof fn the_spotter_hears_what_is_open<S>(session: SessionView<S>, manual: ManualCapture, now: u64)
    ensures
        session.detects(manual, now) <==> manual is Idle && now >= session.cooldown_until && (
        session.pipeline.collector is None || !session.authorized),
{
}

/// While nothing is captured, a capture begins exactly with the wake word, or with speech where every
/// utterance is captured and neither a manual capture nor a cooldown is active. Only the wake word
/// allows commands. The announcement comes first; without a capture the frame goes to the pre-roll only.
pub proof fn captures_begin_when_they_should<S>(
    session: SessionView<S>,
    frame: Frame<S>,
    manual: ManualCapture,
    now: u64,
)
    requires
        session.pipeline.collector is None,
    ensures
        ({
            let heard = session.end_frame(frame, manual, now);
            let later = heard.session;
            let loud = session.settings.vad_threshold.at_most_spec(frame.level);
            let by_speech = !frame.detected && frame.continuous && loud && manual is Idle && now
                >= session.cooldown_until;
            &&& later.pipeline.collector is Some <==> frame.detected || by_speech
            &&& later.pipeline == session.pipeline.listened(frame.samples, frame.detected || by_speech)
            &&& heard.manual == manual
            &&& frame.detected ==> heard.messages.len() > 0 && heard.messages[0] == (OutgoingView {
                message: MessageView::<S>::WakeWord(session.settings.sample_rate),
                droppable: false,
            }) && later.authorized && later.speech == loud && !later.missed.speech
            &&& by_speech ==> heard.messages.len() > 0 && heard.messages[0] == (OutgoingView {
                message: MessageView::<S>::Speech(session.settings.sample_rate),
                droppable: false,
            }) && !later.authorized && later.speech && !later.missed.speech
            &&& !frame.detected && !by_speech ==> later.authorized == session.authorized
                && later.stream_buffer == session.stream_buffer
            &&& later.cooldown_until == session.cooldown_until
            &&& forall|i: int|
                0 <= i < heard.messages.len() ==> (#[trigger] heard.messages[i]).message !is Command
        }),
{
    assert(session.stream_buffer + Seq::<S>::empty() =~= session.stream_buffer);
}

/// While a capture goes on, each frame belongs to it. With its last frame the utterance is handed over,
/// allowed to be a command where the wake word was heard before or is heard now; a manual capture
/// without speech is reported instead. A cooldown follows exactly the utterances that may be commands,
/// and a manual capture is over.
pub proof fn captures_end_when_they_should<S>(
    session: SessionView<S>,
    frame: Frame<S>,
    manual: ManualCapture,
    now: u64,
)
    requires
        session.pipeline.collector is Some,
    ensures
        ({
            let heard = session.end_frame(frame, manual, now);
            let later = heard.session;
            let loud = session.settings.vad_threshold.at_most_spec(frame.level);
            let (pipeline, completed) = session.pipeline.captured(
                frame.samples,
                if loud {
                    VadDecision::Speech
                } else {
                    VadDecision::Silence
                },
            );
            let spoken = session.speech || loud;
            let allowed = session.authorized || frame.detected;
            &&& later.pipeline == pipeline
            &&& later.authorized == allowed
            &&& later.speech == spoken
            &&& completed is None ==> heard.manual == manual && later.cooldown_until
                == session.cooldown_until && forall|i: int|
                0 <= i < heard.messages.len() ==> (#[trigger] heard.messages[i]).message !is Command
                    && heard.messages[i].message !is CaptureUnavailable
            &&& completed matches Some(samples) ==> {
                &&& heard.manual is Idle
                &&& later.stream_buffer.len() == 0
                &&& heard.messages.len() > 0
                &&& !heard.messages.last().droppable
                &&& heard.messages.last().message == if manual is Idle || spoken {
                    MessageView::<S>::Command {
                        samples,
                        sample_rate: session.settings.sample_rate,
                        authorized: allowed,
                    }
                } else {
                    MessageView::<S>::CaptureUnavailable(TranscriptUnavailableReason::Silence)
                }
                &&& allowed ==> later.cooldown_until == now + session.settings.cooldown_ms * 1_000_000
                &&& !allowed ==> later.cooldown_until == session.cooldown_until
            }
        }),
{
}

/// A frame that belongs to a capture is streamed whole, once; one that begins a capture by speech with
/// the pre-roll before it; any other is not. A full batch is handed over at once.
pub proof fn captures_are_streamed<S>(
    session: SessionView<S>,
    frame: Frame<S>,
    manual: ManualCapture,
    now: u64,
)
    ensures
        session.pipeline.collector is Some ==> session.streamed(frame, manual, now) == frame.samples,
        session.pipeline.collector is None && frame.detected ==> session.streamed(frame, manual, now)
            == frame.samples,
        session.pipeline.collector is None && !frame.detected && session.end_frame(
            frame,
            manual,
            now,
        ).session.pipeline.collector is None ==> session.streamed(frame, manual, now).len() == 0,
        session.pipeline.collector is Some && session.stream_buffer.len() + frame.samples.len()
            >= session.settings.chunk_samples ==> session.end_frame(
            frame,
            manual,
            now,
        ).session.stream_buffer.len() == 0,
        ({
            let later = session.end_frame(frame, manual, now).session;
            session.pipeline.collector is Some && later.pipeline.collector is Some
                && session.stream_buffer.len() + frame.samples.len() < session.settings.chunk_samples
                ==> later.stream_buffer == session.stream_buffer + frame.samples
        }),
{
}

/// Speech that stays without a wake word is reported once, when enough silence followed it: silence
/// adds up behind speech, and speech begins it anew.
pub proof fn unanswered_speech_is_reported<S>(
    session: SessionView<S>,
    frame: Frame<S>,
    manual: ManualCapture,
    now: u64,
)
    requires
        session.pipeline.collector is None,
        !frame.detected,
        manual is Idle,
        now >= session.cooldown_until,
        !(frame.continuous && session.settings.vad_threshold.at_most_spec(frame.level)),
        session.missed.silence_samples + frame.samples.len() <= usize::MAX,
    ensures
        ({
            let heard = session.end_frame(frame, manual, now);
            let loud = session.settings.vad_threshold.at_most_spec(frame.level);
            let silence = if loud {
                0
            } else {
                session.missed.silence_samples + frame.samples.len()
            };
            let reported = (session.missed.speech || loud) && silence
                >= session.settings.trailing_silence_samples;
            &&& reported ==> heard.messages == seq![
                OutgoingView {
                    message: MessageView::<S>::TranscriptUnavailable(
                        TranscriptUnavailableReason::WakeWordNotDetected,
                    ),
                    droppable: true,
                },
            ] && heard.session.missed == (MissedWakeWord { speech: false, silence_samples: 0 })
            &&& !reported ==> heard.messages.len() == 0
            &&& !reported && (session.missed.speech || loud) ==> heard.session.missed.speech
                && heard.session.missed.silence_samples == silence
            &&& !session.missed.speech && !loud ==> heard.session.missed == session.missed
        }),
{
    let heard = session.end_frame(frame, manual, now);
    assert(session.stream_buffer + Seq::<S>::empty() =~= session.stream_buffer);
    let loud = session.settings.vad_threshold.at_most_spec(frame.level);
    let silence = if loud {
        0
    } else {
        session.missed.silence_samples + frame.samples.len()
    };
    if (session.missed.speech || loud) && silence >= session.settings.trailing_silence_samples {
        assert(heard.messages =~= seq![
            OutgoingView {
                message: MessageView::<S>::TranscriptUnavailable(
                    TranscriptUnavailableReason::WakeWordNotDetected,
                ),
                droppable: true,
            },
        ]);
    }
}

/// A manual capture begins with the frame that follows the request: from nothing, or from the capture
/// that is going on, and either way with commands allowed.
pub proof fn manual_captures_begin<S>(session: SessionView<S>, level: Real32, now: u64)
    ensures
        ({
            let heard = session.begin_frame(level, ManualCapture::Begin, now);
            &&& heard.manual is Active
            &&& heard.session.pipeline.collector is Some
            &&& heard.session.authorized
            &&& session.pipeline.collector is Some ==> heard.session.pipeline == session.pipeline
                && heard.session.speech == session.speech
            &&& session.pipeline.collector is None ==> !heard.session.speech
                && heard.session.pipeline.collector->0.samples.len() == 0
                && heard.session.pipeline.collector->0.silence_samples == 0
            &&& heard.session.stream_buffer == session.stream_buffer
            &&& heard.messages.last() == (OutgoingView {
                message: MessageView::<S>::StreamBegin(session.settings.sample_rate),
                droppable: false,
            })
        }),
{
}

/// A manual capture ends with the frame that follows the request: nothing of it is left, what was not
/// streamed yet is, and a cooldown follows.
pub proof fn manual_captures_end<S>(session: SessionView<S>, level: Real32, now: u64)
    ensures
        ({
            let heard = session.begin_frame(level, ManualCapture::Finish, now);
            &&& heard.manual is Idle
            &&& heard.session.pipeline.collector is None && heard.session.pipeline.ring.len() == 0
            &&& heard.session.stream_buffer.len() == 0
            &&& heard.session.cooldown_until == now + session.settings.cooldown_ms * 1_000_000
            &&& heard.messages.len() > 0
            &&& session.stream_buffer.len() > 0 ==> heard.messages.len() > 1
                && heard.messages[heard.messages.len() - 2].message == MessageView::<S>::StreamChunk(
                session.stream_buffer,
            )
            &&& !heard.messages.last().droppable
        }),
{
}

/// Without a request of an application the start of a frame only measures: the level is reported where
/// a tenth of a second passed since the last report, and the message may get lost.
pub proof fn frames_begin_with_their_level<S>(
    session: SessionView<S>,
    level: Real32,
    manual: ManualCapture,
    now: u64,
)
    requires
        manual !is Begin,
        manual !is Finish,
    ensures
        ({
            let heard = session.begin_frame(level, manual, now);
            &&& heard.manual == manual
            &&& now >= session.level_due ==> heard.messages == seq![
                OutgoingView { message: MessageView::<S>::AudioLevel(level), droppable: true },
            ] && heard.session.level_due == now + 100 * 1_000_000
            &&& now < session.level_due ==> heard.messages.len() == 0 && heard.session.level_due
                == session.level_due
            &&& heard.session == (SessionView {
                level_due: heard.session.level_due,
                ..session
            })
        }),
{
}

/// While nobody listens, what was heard before is forgotten.
pub proof fn pauses_forget<S>(session: SessionView<S>)
    ensures
        ({
            let paused = session.paused();
            &&& paused.pipeline.collector is None && paused.pipeline.ring.len() == 0
            &&& paused.buffered.len() == 0 && paused.stream_buffer.len() == 0
            &&& paused.missed == (MissedWakeWord { speech: false, silence_samples: 0 })
            &&& !paused.processing
            &&& paused.cooldown_until == session.cooldown_until && paused.settings == session.settings
        }),
{
}

/// An input is opened again where the default device changed under a session that follows it, and where
/// the selected device came back; a selected device that is in use stays.
pub proof fn inputs_are_reopened_for_a_reason(
    configured: Seq<char>,
    active: Seq<char>,
    current: Seq<char>,
    using_fallback: bool,
    available: bool,
)
    ensures
        !using_fallback && configured != "default"@ ==> !reopens(
            configured,
            active,
            current,
            using_fallback,
            available,
        ),
        using_fallback && available ==> reopens(configured, active, current, using_fallback, available),
        using_fallback && !available ==> (reopens(
            configured,
            active,
            current,
            using_fallback,
            available,
        ) <==> active != current),
        !using_fallback && configured == "default"@ ==> (reopens(
            configured,
            active,
            current,
            using_fallback,
            available,
        ) <==> active != current),
{
}

/// A session watches the devices where it follows the default one, by configuration or as a
/// replacement.
pub proof fn sessions_follow_the_default_device<S>(session: SessionView<S>)
    ensures
        session.watches_devices() <==> session.using_fallback || session.device_id == "default"@,
{
}

} // verus!
