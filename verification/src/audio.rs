//! Input devices and blocks: which device is meant, how a full queue is accounted for, and how long
//! resampled audio is.

pub use crate::domain::AudioDeviceInfo;

use crate::domain::DeviceView;
use crate::metrics::{counted, larger, uncounted, CoreMetrics};
use crate::session::DEFAULT_DEVICE;
use crate::text::{option_view, same_text};
use vstd::prelude::*;

verus! {

/// Audio device, stream and WAV failures.
#[derive(Debug, Clone, PartialEq, Eq)]
pub enum AudioError {
    /// Device enumeration or configuration failed.
    Device(String),
    /// Stream creation or capture failed.
    Stream(String),
    /// The bounded stream channel disconnected.
    Disconnected,
    /// WAV decoding or encoding failed.
    Wav(String),
}

/// What an [`AudioError`] says.
pub enum AudioErrorView {
    /// Device enumeration or configuration failed.
    Device(Seq<char>),
    /// Stream creation or capture failed.
    Stream(Seq<char>),
    /// The bounded stream channel disconnected.
    Disconnected,
    /// WAV decoding or encoding failed.
    Wav(Seq<char>),
}

impl View for AudioError {
    type V = AudioErrorView;

    open spec fn view(&self) -> AudioErrorView {
        match self {
            AudioError::Device(message) => AudioErrorView::Device(message@),
            AudioError::Stream(message) => AudioErrorView::Stream(message@),
            AudioError::Disconnected => AudioErrorView::Disconnected,
            AudioError::Wav(message) => AudioErrorView::Wav(message@),
        }
    }
}

impl AudioErrorView {
    /// The message that describes the error.
    pub open spec fn message(self) -> Seq<char> {
        match self {
            AudioErrorView::Device(message) => "audio device error: "@ + message,
            AudioErrorView::Stream(message) => "audio stream error: "@ + message,
            AudioErrorView::Disconnected => "audio input disconnected"@,
            AudioErrorView::Wav(message) => "WAV error: "@ + message,
        }
    }
}

impl AudioError {
    /// The message that describes the error.
    pub fn to_string(&self) -> (text: String)
        ensures
            text@ == self@.message(),
    {
        let (label, message) = match self {
            AudioError::Device(message) => ("audio device error: ", message),
            AudioError::Stream(message) => ("audio stream error: ", message),
            AudioError::Disconnected => {
                return "audio input disconnected".to_owned();
            },
            AudioError::Wav(message) => ("WAV error: ", message),
        };
        let mut text = label.to_owned();
        text.append(message);
        text
    }
}

/// Whether a device has a name.
pub open spec fn is_named(name: Option<Seq<char>>, id: Seq<char>) -> bool {
    name == Some(id)
}

/// Selects an input device by its name among those present, of which some tell none: the first
/// one with the name, or the default one.
pub fn select_input_device(device_id: &str, has_default: bool, names: &Vec<Option<String>>) -> (selected:
    Result<Option<usize>, AudioError>)
    ensures
        match selected {
            Ok(None) => device_id@ == DEFAULT_DEVICE@ && has_default,
            Ok(Some(index)) => {
                &&& device_id@ != DEFAULT_DEVICE@
                &&& index < names@.len()
                &&& names@[index as int] matches Some(name) && name@ == device_id@
                &&& is_named(option_view(names@[index as int]), device_id@)
                &&& forall|i: int|
                    0 <= i < index ==> !is_named(option_view(#[trigger] names@[i]), device_id@)
            },
            Err(error) => if device_id@ == DEFAULT_DEVICE@ {
                !has_default && error@ == AudioErrorView::Device("no default input device"@)
            } else {
                &&& error@ == AudioErrorView::Device("input device not found: "@ + device_id@)
                &&& forall|i: int|
                    0 <= i < names@.len() ==> ((#[trigger] names@[i]) matches Some(name) ==> name@
                        != device_id@)
                &&& forall|i: int|
                    0 <= i < names@.len() ==> !is_named(
                        option_view(#[trigger] names@[i]),
                        device_id@,
                    )
            },
        },
{
    if same_text(device_id, DEFAULT_DEVICE) {
        return if has_default {
            Ok(None)
        } else {
            Err(AudioError::Device("no default input device".to_owned()))
        };
    }
    let mut i: usize = 0;
    while i < names.len()
        invariant
            0 <= i <= names@.len(),
            device_id@ != DEFAULT_DEVICE@,
            forall|j: int|
                0 <= j < i ==> !is_named(option_view(#[trigger] names@[j]), device_id@),
        decreases names@.len() - i,
    {
        if let Some(name) = &names[i] {
            if same_text(name, device_id) {
                return Ok(Some(i));
            }
        }
        i = i + 1;
    }
    let mut message = "input device not found: ".to_owned();
    message.append(device_id);
    Err(AudioError::Device(message))
}

/// Describes a device by its name.
pub fn describe_device(name: &str, default_name: &Option<String>) -> (device: AudioDeviceInfo)
    ensures
        device@ == (DeviceView {
            id: name@,
            name: name@,
            is_default: is_named(option_view(*default_name), name@),
        }),
{
    AudioDeviceInfo {
        id: name.to_owned(),
        name: name.to_owned(),
        is_default: match default_name {
            Some(default) => same_text(default, name),
            None => false,
        },
    }
}

/// What became of a block that was to be queued.
#[derive(Debug, Clone, Copy, PartialEq, Eq, Structural)]
pub enum Enqueued {
    /// It is queued.
    Queued,
    /// The queue is full, and the block is lost.
    Full,
    /// Nobody reads the queue any more.
    Disconnected,
}

/// Accounts for a block that was to be queued: only a block that stays in the queue counts as
/// waiting, and only one that a full queue refused counts as lost.
pub fn account_for_block(metrics: &mut CoreMetrics, outcome: Enqueued)
    ensures
        ({
            let depth = counted(old(metrics).audio_queue_depth);
            *final(metrics) == CoreMetrics {
                audio_queue_depth: if outcome is Queued {
                    depth
                } else {
                    uncounted(depth)
                },
                audio_queue_max_depth: larger(old(metrics).audio_queue_max_depth, depth),
                audio_frames_dropped: if outcome is Full {
                    counted(old(metrics).audio_frames_dropped)
                } else {
                    old(metrics).audio_frames_dropped
                },
                ..*old(metrics)
            }
        }),
{
    metrics.audio_queued();
    match outcome {
        Enqueued::Queued => {},
        Enqueued::Full => {
            metrics.audio_dequeued();
            metrics.audio_dropped();
        },
        Enqueued::Disconnected => metrics.audio_dequeued(),
    }
}

/// How many samples audio has at another sample rate.
pub fn resampled_len(samples: usize, source_rate: u32, target_rate: u32) -> (length: u64)
    requires
        samples == 0 || source_rate == target_rate || (source_rate > 0 && samples * target_rate
            <= u64::MAX),
    ensures
        length == if samples == 0 || source_rate == target_rate {
            samples as int
        } else {
            samples * target_rate / source_rate as int
        },
{
    if samples == 0 || source_rate == target_rate {
        return samples as u64;
    }
    samples as u64 * target_rate as u64 / source_rate as u64
}

/// Resampling preserves duration: whole seconds at one rate are as many whole seconds at another.
pub proof fn resampling_keeps_seconds(seconds: nat, source_rate: nat, target_rate: nat)
    requires
        source_rate > 0,
    ensures
        seconds * source_rate * target_rate / source_rate == seconds * target_rate,
{
    assert(seconds * source_rate * target_rate == (seconds * target_rate) * source_rate)
        by (nonlinear_arith);
    vstd::arithmetic::div_mod::lemma_div_multiples_vanish(
        (seconds * target_rate) as int,
        source_rate as int,
    );
}

/// The message of an audio error ends with what went wrong.
pub proof fn audio_errors_tell_the_cause(cause: Seq<char>)
    ensures
        forall|error: AudioErrorView|
            (error == AudioErrorView::Device(cause) || error == AudioErrorView::Stream(cause) || error
                == AudioErrorView::Wav(cause)) ==> (#[trigger] error.message()).len() >= cause.len()
                && error.message().skip(error.message().len() - cause.len()) == cause,
{
    assert forall|error: AudioErrorView|
        (error == AudioErrorView::Device(cause) || error == AudioErrorView::Stream(cause) || error
            == AudioErrorView::Wav(cause)) implies (#[trigger] error.message()).len() >= cause.len()
        && error.message().skip(error.message().len() - cause.len()) == cause by {
        assert(error.message().skip(error.message().len() - cause.len()) =~= cause);
    }
}

} // verus!
