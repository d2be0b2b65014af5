//! What the messages of a microphone session ask of the runtime.

use crate::domain::{AssistantEvent, EventView};
use crate::runtime::RuntimeView;
use crate::service::{reaction, Control, ReactionView};
use crate::session::{MessageView, PipelineMessage};
use crate::state::{Daemon, DaemonView};
use crate::text::option_view;
use vstd::prelude::*;

verus! {

/// Controls in order.
pub struct Plan<S> {
    /// The first control.
    pub first: Option<Control<S>>,
    /// The second control.
    pub next: Option<Control<S>>,
    /// Whether the second control depends on the success of the first one.
    pub next_needs_success: bool,
}

/// Whether an optional control publishes an event.
pub open spec fn publishes<S>(control: Option<Control<S>>, event: EventView) -> bool {
    control matches Some(Control::Publish(published)) && published@ == event
}

/// Whether a plan begins a capture, and then incremental STT if the runtime agreed.
pub open spec fn begins_with<S>(plan: Plan<S>, sample_rate: u32) -> bool {
    plan.next == Some(Control::<S>::BeginStream(sample_rate)) && plan.next_needs_success
}

impl DaemonView {
    /// The daemon after a message of the microphone session.
    pub open spec fn told<S>(self, message: MessageView<S>) -> DaemonView {
        match message {
            MessageView::AudioDeviceChanged(device) => DaemonView {
                device_observed: true,
                active_device: device,
                ..self
            },
            MessageView::AudioError(text) => DaemonView { last_error: Some(text), ..self },
            _ => self,
        }
    }

    /// Whether a plan is what a message of the microphone session asks for.
    pub open spec fn plans<S>(self, message: PipelineMessage<S>, plan: Plan<S>) -> bool {
        match message {
            PipelineMessage::WakeWord(rate) => plan.first == Some(Control::<S>::BeginCapture)
                && begins_with(plan, rate),
            PipelineMessage::Speech(rate) => plan.first == Some(Control::<S>::BeginSpeech)
                && begins_with(plan, rate),
            PipelineMessage::StreamBegin(rate) => plan.first == Some(
                Control::<S>::BeginStream(rate),
            ) && plan.next is None,
            PipelineMessage::StreamChunk(samples) => plan.first == Some(
                Control::PushStream(samples),
            ) && plan.next is None,
            PipelineMessage::Command { request, authorized } => plan.first == Some(
                Control::Captured { request, authorized },
            ) && plan.next is None,
            PipelineMessage::CaptureCancelled => plan.first == Some(Control::<S>::CancelCapture)
                && plan.next is None,
            PipelineMessage::CaptureUnavailable(reason) => publishes(
                plan.first,
                EventView::TranscriptUnavailable { reason },
            ) && plan.next == Some(Control::<S>::CancelCapture) && !plan.next_needs_success,
            PipelineMessage::TranscriptUnavailable(reason) => publishes(
                plan.first,
                EventView::TranscriptUnavailable { reason },
            ) && plan.next is None,
            PipelineMessage::AudioLevel(rms) => publishes(
                plan.first,
                EventView::AudioLevel { rms },
            ) && plan.next is None,
            PipelineMessage::AudioDeviceChanged(device) => plan.next is None && if self.device_observed
                && self.active_device == option_view(device) {
                plan.first is None
            } else {
                publishes(
                    plan.first,
                    EventView::AudioDeviceChanged { device: option_view(device) },
                )
            },
            PipelineMessage::AudioDeviceFallback { requested_device_id, device } => publishes(
                plan.first,
                EventView::AudioDeviceFallback {
                    requested_device_id: requested_device_id@,
                    device: device@,
                },
            ) && plan.next is None,
            PipelineMessage::AudioError(text) => {
                &&& plan.next is None
                &&& plan.first matches Some(Control::Recover { component, message })
                &&& component@ == "audio"@
                &&& message@ == text@
            },
        }
    }
}

impl Daemon {
    /// Takes a message of the microphone session.
    pub fn pipeline_message<S>(&mut self, message: PipelineMessage<S>) -> (plan: Plan<S>)
        ensures
            old(self)@.plans(message, plan),
            final(self)@ == old(self)@.told(message@),
    {
        match message {
            PipelineMessage::WakeWord(rate) => Plan {
                first: Some(Control::BeginCapture),
                next: Some(Control::BeginStream(rate)),
                next_needs_success: true,
            },
            PipelineMessage::Speech(rate) => Plan {
                first: Some(Control::BeginSpeech),
                next: Some(Control::BeginStream(rate)),
                next_needs_success: true,
            },
            PipelineMessage::StreamBegin(rate) => single(Control::BeginStream(rate)),
            PipelineMessage::StreamChunk(samples) => single(Control::PushStream(samples)),
            PipelineMessage::Command { request, authorized } => single(
                Control::Captured { request, authorized },
            ),
            PipelineMessage::CaptureCancelled => single(Control::CancelCapture),
            PipelineMessage::CaptureUnavailable(reason) => Plan {
                first: Some(Control::Publish(AssistantEvent::TranscriptUnavailable { reason })),
                next: Some(Control::CancelCapture),
                next_needs_success: false,
            },
            PipelineMessage::TranscriptUnavailable(reason) => single(
                Control::Publish(AssistantEvent::TranscriptUnavailable { reason }),
            ),
            PipelineMessage::AudioLevel(rms) => single(
                Control::Publish(AssistantEvent::AudioLevel { rms }),
            ),
            PipelineMessage::AudioDeviceChanged(device) => {
                if self.set_active_audio_device(&device) {
                    single(Control::Publish(AssistantEvent::AudioDeviceChanged { device }))
                } else {
                    Plan { first: None, next: None, next_needs_success: false }
                }
            },
            PipelineMessage::AudioDeviceFallback { requested_device_id, device } => single(
                Control::Publish(
                    AssistantEvent::AudioDeviceFallback { requested_device_id, device },
                ),
            ),
            PipelineMessage::AudioError(text) => {
                self.set_last_error(Some(text.clone()));
                single(Control::Recover { component: "audio".to_owned(), message: text })
            },
        }
    }
}

/// A plan of one control.
fn single<S>(control: Control<S>) -> (plan: Plan<S>)
    ensures
        plan.first == Some(control),
        plan.next is None,
{
    Plan { first: Some(control), next: None, next_needs_success: false }
}

/// Speech that no wake word authorized reaches transcription, never command matching: the
/// transcription that an utterance without authorization leads to is unauthorized itself.
pub proof fn unauthorized_speech_stays_unauthorized<S>(
    daemon: DaemonView,
    message: PipelineMessage<S>,
    plan: Plan<S>,
    runtime: RuntimeView,
    now: u64,
)
    requires
        daemon.plans(message, plan),
        message matches PipelineMessage::Command { authorized, .. } && !authorized,
    ensures
        plan.first is Some,
        reaction(runtime, plan.first->0, now).1 matches ReactionView::Transcribe { authorized, .. }
            ==> !authorized,
        reaction(runtime, plan.first->0, now).1 !is Run,
{
}

} // verus!
