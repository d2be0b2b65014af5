//! The state of the daemon, and the health that it reports.

use crate::config::{ConfigView, CoreConfig, CURRENT_CONFIG_VERSION};
use crate::domain::{
    AssistantState, AudioDeviceInfo, ComponentHealth, ComponentStatus, ComponentView, DeviceView, HealthSnapshot,
    HealthView, ModelStatus, ModelStatusView, CORE_API_VERSION, CORE_VERSION, PROTOCOL_VERSION,
};
use crate::metrics::{counted, MetricsSnapshot};
use crate::session::ManualCapture;
use crate::text::{option_view, same_text};
use crate::text_map::Duplicate;
use vstd::prelude::*;

verus! {

/// What the daemon knows about itself.
pub struct Daemon {
    /// Active configuration.
    config: CoreConfig,
    /// Model lifecycle.
    model_status: ModelStatus,
    /// Whether models are being installed.
    model_installing: bool,
    /// Whether the installation is to stop.
    model_cancel: bool,
    /// Whether the engine is being loaded.
    stt_loading: bool,
    /// Whether loading is to stop.
    stt_cancel: bool,
    /// Directory of the active transcription model.
    stt_model: Option<String>,
    /// Directory of the active wake-word model.
    wake_model: Option<String>,
    /// Number of the current microphone settings.
    audio_generation: u64,
    /// Whether the microphone produces frames.
    audio_ready: bool,
    /// Whether automatic recovery of the microphone pauses.
    audio_faulted: bool,
    /// Whether the microphone was reported at all.
    device_observed: bool,
    /// Microphone in use.
    active_device: Option<AudioDeviceInfo>,
    /// Manual capture.
    manual: ManualCapture,
    /// Whether every utterance is captured.
    continuous: bool,
    /// Whether the microphone is listened to.
    listening: bool,
    /// Whether the daemon stops.
    stopping: bool,
    /// Last error, when present.
    last_error: Option<String>,
}

/// What a [`Daemon`] holds.
pub struct DaemonView {
    /// Active configuration.
    pub config: ConfigView,
    /// Model lifecycle.
    pub model_status: ModelStatusView,
    /// Whether models are being installed.
    pub model_installing: bool,
    /// Whether the installation is to stop.
    pub model_cancel: bool,
    /// Whether the engine is being loaded.
    pub stt_loading: bool,
    /// Whether loading is to stop.
    pub stt_cancel: bool,
    /// Directory of the active transcription model.
    pub stt_model: Option<Seq<char>>,
    /// Directory of the active wake-word model.
    pub wake_model: Option<Seq<char>>,
    /// Number of the current microphone settings.
    pub audio_generation: u64,
    /// Whether the microphone produces frames.
    pub audio_ready: bool,
    /// Whether automatic recovery of the microphone pauses.
    pub audio_faulted: bool,
    /// Whether the microphone was reported at all.
    pub device_observed: bool,
    /// Microphone in use.
    pub active_device: Option<DeviceView>,
    /// Manual capture.
    pub manual: ManualCapture,
    /// Whether every utterance is captured.
    pub continuous: bool,
    /// Whether the microphone is listened to.
    pub listening: bool,
    /// Whether the daemon stops.
    pub stopping: bool,
    /// Last error, when present.
    pub last_error: Option<Seq<char>>,
}

impl View for Daemon {
    type V = DaemonView;

    closed spec fn view(&self) -> DaemonView {
        DaemonView {
            config: self.config@,
            model_status: self.model_status@,
            model_installing: self.model_installing,
            model_cancel: self.model_cancel,
            stt_loading: self.stt_loading,
            stt_cancel: self.stt_cancel,
            stt_model: option_view(self.stt_model),
            wake_model: option_view(self.wake_model),
            audio_generation: self.audio_generation,
            audio_ready: self.audio_ready,
            audio_faulted: self.audio_faulted,
            device_observed: self.device_observed,
            active_device: option_view(self.active_device),
            manual: self.manual,
            continuous: self.continuous,
            listening: self.listening,
            stopping: self.stopping,
            last_error: option_view(self.last_error),
        }
    }
}

/// A daemon that begins with a configuration.
pub open spec fn new_daemon(config: ConfigView) -> DaemonView {
    DaemonView {
        config,
        model_status: ModelStatusView::Loading {
            progress: 0,
            stage: "locating model"@,
            active: false,
        },
        model_installing: false,
        model_cancel: false,
        stt_loading: false,
        stt_cancel: false,
        stt_model: None,
        wake_model: None,
        audio_generation: 0,
        audio_ready: false,
        audio_faulted: false,
        device_observed: false,
        active_device: None,
        manual: ManualCapture::Idle,
        continuous: false,
        listening: false,
        stopping: false,
        last_error: None,
    }
}

/// The condition of the microphone.
pub open spec fn audio_condition(daemon: DaemonView) -> ComponentStatus {
    if daemon.audio_faulted {
        ComponentStatus::Faulted
    } else if daemon.audio_ready {
        ComponentStatus::Ready
    } else {
        ComponentStatus::Recovering
    }
}

/// The condition of transcription.
pub open spec fn stt_condition(daemon: DaemonView, metrics: MetricsSnapshot) -> ComponentStatus {
    if metrics.stt_faults > 0 {
        ComponentStatus::Faulted
    } else if daemon.model_status is Ready {
        ComponentStatus::Ready
    } else {
        ComponentStatus::Recovering
    }
}

/// The condition of the model.
pub open spec fn model_condition(status: ModelStatusView) -> ComponentStatus {
    match status {
        ModelStatusView::Ready { .. } => ComponentStatus::Ready,
        ModelStatusView::Failed { .. } => ComponentStatus::Faulted,
        ModelStatusView::Missing | ModelStatusView::Cancelled => ComponentStatus::Stopped,
        ModelStatusView::Installing { .. } | ModelStatusView::Loading { .. } =>
            ComponentStatus::Recovering,
    }
}

/// A count within thirty-two bits.
pub open spec fn restart_count(count: u64) -> u32 {
    if count > u32::MAX {
        u32::MAX
    } else {
        count as u32
    }
}

/// The conditions of the five supervised components.
pub open spec fn components(daemon: DaemonView, state: AssistantState, metrics: MetricsSnapshot) -> Seq<
    ComponentView,
> {
    seq![
        ComponentView {
            name: "audio"@,
            status: audio_condition(daemon),
            restart_count: restart_count(metrics.audio_reconnects),
            last_error: daemon.last_error,
        },
        ComponentView {
            name: "stt"@,
            status: stt_condition(daemon, metrics),
            restart_count: restart_count(metrics.stt_restarts),
            last_error: if metrics.stt_faults > 0 {
                Some("STT restart budget exhausted"@)
            } else {
                None
            },
        },
        ComponentView {
            name: "runtime"@,
            status: if state is Faulted {
                ComponentStatus::Faulted
            } else {
                ComponentStatus::Ready
            },
            restart_count: 0,
            last_error: None,
        },
        ComponentView {
            name: "model"@,
            status: model_condition(daemon.model_status),
            restart_count: 0,
            last_error: match daemon.model_status {
                ModelStatusView::Failed { message } => Some(message),
                _ => None,
            },
        },
        ComponentView {
            name: "ipc"@,
            status: ComponentStatus::Ready,
            restart_count: 0,
            last_error: None,
        },
    ]
}

/// Whether a recognizer is active: a model is ready, or one stays active while another loads.
pub open spec fn recognizer_active(status: ModelStatusView) -> bool {
    match status {
        ModelStatusView::Ready { .. } => true,
        ModelStatusView::Loading { active, .. } => active,
        _ => false,
    }
}

/// The health that a daemon reports.
#[verifier::opaque]
pub open spec fn health_of(daemon: DaemonView, state: AssistantState, metrics: MetricsSnapshot) -> HealthView {
    HealthView {
        state,
        core_version: CORE_VERSION@,
        audio_ready: daemon.audio_ready,
        active_audio_device: daemon.active_device,
        model_ready: recognizer_active(daemon.model_status),
        config_version: CURRENT_CONFIG_VERSION,
        core_api_version: CORE_API_VERSION,
        protocol_version: PROTOCOL_VERSION,
        last_error: daemon.last_error,
        components: components(daemon, state, metrics),
    }
}

impl Daemon {
    /// Begins with a configuration.
    pub fn new(config: CoreConfig) -> (daemon: Self)
        ensures
            daemon@ == new_daemon(config@),
    {
        Daemon {
            config,
            model_status: ModelStatus::Loading {
                progress: 0,
                stage: "locating model".to_owned(),
                active: false,
            },
            model_installing: false,
            model_cancel: false,
            stt_loading: false,
            stt_cancel: false,
            stt_model: None,
            wake_model: None,
            audio_generation: 0,
            audio_ready: false,
            audio_faulted: false,
            device_observed: false,
            active_device: None,
            manual: ManualCapture::Idle,
            continuous: false,
            listening: false,
            stopping: false,
            last_error: None,
        }
    }

    /// Reports readiness, versions and the condition of every component.
    pub fn health(&self, state: AssistantState, metrics: &MetricsSnapshot) -> (health: HealthSnapshot)
        ensures
            health@ == health_of(self@, state, *metrics),
    {
        reveal(health_of);
        let last_error = copied(&self.last_error);
        let audio = ComponentHealth {
            name: "audio".to_owned(),
            status: if self.audio_faulted {
                ComponentStatus::Faulted
            } else if self.audio_ready {
                ComponentStatus::Ready
            } else {
                ComponentStatus::Recovering
            },
            restart_count: bounded_count(metrics.audio_reconnects),
            last_error: copied(&self.last_error),
        };
        let stt = ComponentHealth {
            name: "stt".to_owned(),
            status: if metrics.stt_faults > 0 {
                ComponentStatus::Faulted
            } else if matches!(&self.model_status, ModelStatus::Ready { .. }) {
                ComponentStatus::Ready
            } else {
                ComponentStatus::Recovering
            },
            restart_count: bounded_count(metrics.stt_restarts),
            last_error: if metrics.stt_faults > 0 {
                Some("STT restart budget exhausted".to_owned())
            } else {
                None
            },
        };
        let runtime = ComponentHealth {
            name: "runtime".to_owned(),
            status: if matches!(state, AssistantState::Faulted) {
                ComponentStatus::Faulted
            } else {
                ComponentStatus::Ready
            },
            restart_count: 0,
            last_error: None,
        };
        let model = ComponentHealth {
            name: "model".to_owned(),
            status: match &self.model_status {
                ModelStatus::Ready { .. } => ComponentStatus::Ready,
                ModelStatus::Failed { .. } => ComponentStatus::Faulted,
                ModelStatus::Missing | ModelStatus::Cancelled => ComponentStatus::Stopped,
                ModelStatus::Installing { .. } | ModelStatus::Loading { .. } =>
                    ComponentStatus::Recovering,
            },
            restart_count: 0,
            last_error: match &self.model_status {
                ModelStatus::Failed { message } => Some(message.clone()),
                _ => None,
            },
        };
        let ipc = ComponentHealth {
            name: "ipc".to_owned(),
            status: ComponentStatus::Ready,
            restart_count: 0,
            last_error: None,
        };
        let health = HealthSnapshot {
            state,
            core_version: CORE_VERSION.to_owned(),
            audio_ready: self.audio_ready,
            active_audio_device: match &self.active_device {
                Some(device) => Some(device.duplicate()),
                None => None,
            },
            model_ready: match &self.model_status {
                ModelStatus::Ready { .. } => true,
                ModelStatus::Loading { active, .. } => *active,
                _ => false,
            },
            config_version: CURRENT_CONFIG_VERSION,
            core_api_version: CORE_API_VERSION,
            protocol_version: PROTOCOL_VERSION,
            last_error,
            components: vec![audio, stt, runtime, model, ipc],
        };
        assert(health@.components =~= components(self@, state, *metrics));
        health
    }

    /// Tells whether models are being installed.
    pub fn installing(&self) -> (answer: bool)
        ensures
            answer == self@.model_installing,
    {
        self.model_installing
    }

    /// Sets whether models are being installed.
    pub fn set_model_installing(&mut self, value: bool)
        ensures
            final(self)@ == (DaemonView { model_installing: value, ..old(self)@ }),
    {
        self.model_installing = value;
    }

    /// Tells whether the installation is to stop.
    pub fn model_cancelled(&self) -> (answer: bool)
        ensures
            answer == self@.model_cancel,
    {
        self.model_cancel
    }

    /// Sets whether the installation is to stop.
    pub fn set_model_cancel(&mut self, value: bool)
        ensures
            final(self)@ == (DaemonView { model_cancel: value, ..old(self)@ }),
    {
        self.model_cancel = value;
    }

    /// Tells whether the engine is being loaded.
    pub fn loading(&self) -> (answer: bool)
        ensures
            answer == self@.stt_loading,
    {
        self.stt_loading
    }

    /// Sets whether the engine is being loaded.
    pub fn set_stt_loading(&mut self, value: bool)
        ensures
            final(self)@ == (DaemonView { stt_loading: value, ..old(self)@ }),
    {
        self.stt_loading = value;
    }

    /// Tells whether loading is to stop.
    pub fn loading_cancelled(&self) -> (answer: bool)
        ensures
            answer == self@.stt_cancel,
    {
        self.stt_cancel
    }

    /// Sets whether loading is to stop.
    pub fn set_stt_cancel(&mut self, value: bool)
        ensures
            final(self)@ == (DaemonView { stt_cancel: value, ..old(self)@ }),
    {
        self.stt_cancel = value;
    }

    /// Tells whether the microphone produces frames.
    pub fn is_audio_ready(&self) -> (answer: bool)
        ensures
            answer == self@.audio_ready,
    {
        self.audio_ready
    }

    /// Sets whether the microphone produces frames.
    pub fn set_audio_ready(&mut self, value: bool)
        ensures
            final(self)@ == (DaemonView { audio_ready: value, ..old(self)@ }),
    {
        self.audio_ready = value;
    }

    /// Sets whether automatic recovery of the microphone pauses.
    pub fn set_audio_faulted(&mut self, value: bool)
        ensures
            final(self)@ == (DaemonView { audio_faulted: value, ..old(self)@ }),
    {
        self.audio_faulted = value;
    }

    /// Tells whether every utterance is captured.
    pub fn is_continuous(&self) -> (answer: bool)
        ensures
            answer == self@.continuous,
    {
        self.continuous
    }

    /// Sets whether every utterance is captured.
    pub fn set_continuous(&mut self, value: bool)
        ensures
            final(self)@ == (DaemonView { continuous: value, ..old(self)@ }),
    {
        self.continuous = value;
    }

    /// Tells whether the microphone is listened to.
    pub fn is_listening(&self) -> (answer: bool)
        ensures
            answer == self@.listening,
    {
        self.listening
    }

    /// Sets whether the microphone is listened to.
    pub fn set_listening(&mut self, value: bool)
        ensures
            final(self)@ == (DaemonView { listening: value, ..old(self)@ }),
    {
        self.listening = value;
    }

    /// Tells whether the daemon stops.
    pub fn is_stopping(&self) -> (answer: bool)
        ensures
            answer == self@.stopping,
    {
        self.stopping
    }

    /// Sets whether the daemon stops.
    pub fn set_stopping(&mut self, value: bool)
        ensures
            final(self)@ == (DaemonView { stopping: value, ..old(self)@ }),
    {
        self.stopping = value;
    }

    /// The active configuration.
    pub fn config(&self) -> (config: &CoreConfig)
        ensures
            config@ == self@.config,
    {
        &self.config
    }

    /// Replaces the active configuration.
    pub fn set_config(&mut self, config: CoreConfig)
        ensures
            final(self)@ == (DaemonView { config: config@, ..old(self)@ }),
    {
        self.config = config;
    }

    /// The model lifecycle.
    pub fn model_status(&self) -> (status: &ModelStatus)
        ensures
            status@ == self@.model_status,
    {
        &self.model_status
    }

    /// Sets the model lifecycle.
    pub fn set_model_status(&mut self, status: ModelStatus)
        ensures
            final(self)@ == (DaemonView { model_status: status@, ..old(self)@ }),
    {
        self.model_status = status;
    }

    /// The directory of the active transcription model.
    pub fn stt_model(&self) -> (path: Option<String>)
        ensures
            option_view(path) == self@.stt_model,
    {
        copied(&self.stt_model)
    }

    /// The directory of the active wake-word model.
    pub fn wake_model(&self) -> (path: Option<String>)
        ensures
            option_view(path) == self@.wake_model,
    {
        copied(&self.wake_model)
    }

    /// Sets the directories of the active models.
    pub fn set_models(&mut self, stt_model: String, wake_model: String)
        ensures
            final(self)@ == (DaemonView {
                stt_model: Some(stt_model@),
                wake_model: Some(wake_model@),
                ..old(self)@
            }),
    {
        self.stt_model = Some(stt_model);
        self.wake_model = Some(wake_model);
    }

    /// The number of the current microphone settings.
    pub fn audio_generation(&self) -> (generation: u64)
        ensures
            generation == self@.audio_generation,
    {
        self.audio_generation
    }

    /// Numbers new microphone settings.
    pub fn next_audio_generation(&mut self)
        ensures
            final(self)@ == (DaemonView {
                audio_generation: counted(old(self)@.audio_generation),
                ..old(self)@
            }),
    {
        self.audio_generation = self.audio_generation.wrapping_add(1);
    }

    /// The manual capture.
    pub fn manual(&self) -> (manual: ManualCapture)
        ensures
            manual == self@.manual,
    {
        self.manual
    }

    /// Sets the manual capture.
    pub fn set_manual(&mut self, manual: ManualCapture)
        ensures
            final(self)@ == (DaemonView { manual, ..old(self)@ }),
    {
        self.manual = manual;
    }

    /// The last error, when present.
    pub fn last_error(&self) -> (message: Option<String>)
        ensures
            option_view(message) == self@.last_error,
    {
        copied(&self.last_error)
    }

    /// Sets the last error.
    pub fn set_last_error(&mut self, message: Option<String>)
        ensures
            final(self)@ == (DaemonView { last_error: option_view(message), ..old(self)@ }),
    {
        self.last_error = message;
    }

    /// Takes the microphone in use; tells whether it is news.
    pub fn set_active_audio_device(&mut self, device: &Option<AudioDeviceInfo>) -> (changed: bool)
        ensures
            changed == !(old(self)@.device_observed && old(self)@.active_device == option_view(
                *device,
            )),
            final(self)@ == (DaemonView {
                device_observed: true,
                active_device: option_view(*device),
                ..old(self)@
            }),
    {
        if self.device_observed && same_device(&self.active_device, device) {
            return false;
        }
        self.device_observed = true;
        self.active_device = match device {
            Some(device) => Some(device.duplicate()),
            None => None,
        };
        true
    }
}

/// Tells whether two devices are the same.
fn same_device(left: &Option<AudioDeviceInfo>, right: &Option<AudioDeviceInfo>) -> (same: bool)
    ensures
        same == (option_view(*left) == option_view(*right)),
{
    match (left, right) {
        (None, None) => true,
        (Some(left), Some(right)) => same_text(&left.id, &right.id) && same_text(
            &left.name,
            &right.name,
        ) && left.is_default == right.is_default,
        _ => false,
    }
}

/// Copies an optional text.
fn copied(text: &Option<String>) -> (copy: Option<String>)
    ensures
        option_view(copy) == option_view(*text),
{
    match text {
        Some(text) => Some(text.clone()),
        None => None,
    }
}

/// Brings a count within thirty-two bits.
fn bounded_count(count: u64) -> (bounded: u32)
    ensures
        bounded == restart_count(count),
{
    if count > u32::MAX as u64 {
        u32::MAX
    } else {
        count as u32
    }
}

} // verus!
