//! How models become active: installation, loading, activation and their reports.

use crate::config::ConfigView;
use crate::domain::{result_view, AssistantEvent, AssistantState, CoreError, EventView, ModelStatus, ModelStatusView};
use crate::metrics::counted;
use crate::models::{
    catalog, find_model, model_spec, unsupported_model, ModelError, ModelErrorView, ModelInstallProgress, ModelSpec,
    ModelView,
};
use crate::signal::saturated;
use crate::state::{Daemon, DaemonView};
use crate::stt::LoadStage;
use crate::text::{option_view, same_text};
use vstd::prelude::*;

verus! {

/// The revision of the configured transcription model.
pub open spec fn revision_of(config: ConfigView) -> Seq<char> {
    match find_model(catalog(), config.inference.model, 0) {
        Some(model) => model.revision,
        None => "unknown"@,
    }
}

/// How many files an installation of the configured models has.
pub open spec fn install_total(stt: ModelView, wake: ModelView) -> int {
    stt.files.len() + if stt.id == wake.id {
        0
    } else {
        wake.files.len() as int
    }
}

impl DaemonView {
    /// The daemon with an active model.
    pub open spec fn with_ready_model(self) -> DaemonView {
        DaemonView {
            model_status: ModelStatusView::Ready { revision: revision_of(self.config) },
            last_error: None,
            ..self
        }
    }

    /// The daemon with a model that failed.
    pub open spec fn with_failed_model(self, message: Seq<char>) -> DaemonView {
        DaemonView {
            model_status: ModelStatusView::Failed { message },
            last_error: Some(message),
            ..self
        }
    }

    /// The daemon with a model that is being loaded.
    pub open spec fn with_loading_model(self, stage: LoadStage, active: bool) -> DaemonView {
        DaemonView {
            model_status: ModelStatusView::Loading {
                progress: stage.percent(),
                stage: stage.label(),
                active,
            },
            ..self
        }
    }

    /// The daemon after activation failed: cancelled, or with the failure.
    pub open spec fn with_inactive_model(self, message: Seq<char>) -> DaemonView {
        if self.stt_cancel {
            DaemonView { model_status: ModelStatusView::Cancelled, ..self }
        } else {
            self.with_failed_model(message)
        }
    }
}

/// The event of a loading stage.
pub open spec fn stage_event(stage: LoadStage) -> EventView {
    EventView::ModelLoadProgress { progress: stage.percent(), stage: stage.label() }
}

/// The models that an installation brings.
pub struct InstallPlan {
    /// The transcription model.
    pub stt: ModelSpec,
    /// The wake-word model, where it is another one.
    pub wake: Option<ModelSpec>,
    /// Files of all models.
    pub total_files: usize,
}

impl InstallPlan {
    /// Whether a plan brings the configured models.
    pub open spec fn brings(self, stt: ModelView, wake: ModelView) -> bool {
        &&& self.stt@ == stt
        &&& match self.wake {
            Some(other) => stt.id != wake.id && other@ == wake,
            None => stt.id == wake.id,
        }
        &&& self.total_files == install_total(stt, wake)
    }

    /// The files of the models before the second one.
    pub open spec fn offset(self, second: bool) -> nat {
        if second {
            self.stt@.files.len()
        } else {
            0
        }
    }
}

/// What became of an installation.
pub enum InstallOutcome {
    /// The models are installed and active.
    Activated,
    /// The models are installed but could not be activated.
    NotActivated(String),
    /// The models are not installed.
    NotInstalled(ModelError),
    /// The task that installed them is gone.
    Lost(String),
}

impl DaemonView {
    /// The daemon with what became of an installation.
    pub open spec fn after_install(self, outcome: InstallOutcome) -> DaemonView {
        match outcome {
            InstallOutcome::Activated => self,
            InstallOutcome::NotActivated(message) => self.with_inactive_model(message@),
            InstallOutcome::NotInstalled(error) => match error@ {
                ModelErrorView::Cancelled => DaemonView {
                    model_status: ModelStatusView::Cancelled,
                    ..self
                },
                failure => self.with_failed_model(failure.message()),
            },
            InstallOutcome::Lost(message) => DaemonView {
                model_status: ModelStatusView::Failed { message: message@ },
                ..self
            },
        }
    }
}

/// When a model may be activated.
pub enum ActivationGate {
    /// Now.
    Open,
    /// Ask again after some milliseconds.
    Wait(u64),
    /// Never, for this reason.
    Closed(String),
}

/// Milliseconds between two attempts to activate a model.
pub const ACTIVATION_POLL_MS: u64 = 100;

impl Daemon {
    /// Marks the configured model as active.
    pub fn set_model_ready(&mut self) -> (event: AssistantEvent)
        ensures
            final(self)@ == old(self)@.with_ready_model(),
            event@ == (EventView::ModelReady { revision: revision_of(old(self)@.config) }),
    {
        let revision = match model_spec(&self.config().inference.model) {
            Ok(model) => model.revision().to_owned(),
            Err(_) => "unknown".to_owned(),
        };
        self.set_model_status(ModelStatus::Ready { revision: revision.clone() });
        self.set_last_error(None);
        AssistantEvent::ModelReady { revision }
    }

    /// Begins to load the engine; one load at a time.
    pub fn begin_loading(&mut self, active: bool) -> (event: Result<AssistantEvent, String>)
        ensures
            match event {
                Ok(event) => !old(self)@.stt_loading && event@ == stage_event(LoadStage::Scheduled)
                    && final(self)@ == (DaemonView {
                    stt_loading: true,
                    stt_cancel: false,
                    ..old(self)@
                }).with_loading_model(LoadStage::Scheduled, active),
                Err(message) => old(self)@.stt_loading && final(self)@ == old(self)@ && message@
                    == "STT loading is already running"@,
            },
    {
        if self.loading() {
            return Err("STT loading is already running".to_owned());
        }
        self.set_stt_loading(true);
        self.set_stt_cancel(false);
        Ok(self.loading_stage(LoadStage::Scheduled, active))
    }

    /// Reports a stage of loading.
    pub fn loading_stage(&mut self, stage: LoadStage, active: bool) -> (event: AssistantEvent)
        ensures
            event@ == stage_event(stage),
            final(self)@ == old(self)@.with_loading_model(stage, active),
    {
        self.set_model_status(
            ModelStatus::Loading {
                progress: stage.progress(),
                stage: stage.name().to_owned(),
                active,
            },
        );
        AssistantEvent::ModelLoadProgress {
            progress: stage.progress(),
            stage: stage.name().to_owned(),
        }
    }

    /// Ends loading. Where it failed and another recognizer stays active, that one is ready.
    pub fn end_loading(&mut self, loaded: bool, active: bool, revision: &str)
        ensures
            final(self)@ == (DaemonView {
                stt_loading: false,
                model_status: if !loaded && active {
                    ModelStatusView::Ready { revision: revision@ }
                } else {
                    old(self)@.model_status
                },
                ..old(self)@
            }),
    {
        self.set_stt_loading(false);
        if !loaded && active {
            self.set_model_status(ModelStatus::Ready { revision: revision.to_owned() });
        }
    }

    /// Decides whether a model may be activated: between commands, and not while stopping.
    pub fn activation_gate(&self, state: AssistantState) -> (gate: ActivationGate)
        ensures
            match gate {
                ActivationGate::Open => state is Starting || state is IdleListening || state
                    is Suspended,
                ActivationGate::Wait(millis) => !(state is Starting || state is IdleListening
                    || state is Suspended) && !self@.stopping && millis == ACTIVATION_POLL_MS,
                ActivationGate::Closed(message) => !(state is Starting || state is IdleListening
                    || state is Suspended) && self@.stopping && message@
                    == "STT loading cancelled"@,
            },
    {
        match state {
            AssistantState::Starting | AssistantState::IdleListening | AssistantState::Suspended =>
                ActivationGate::Open,
            _ => if self.is_stopping() {
                ActivationGate::Closed("STT loading cancelled".to_owned())
            } else {
                ActivationGate::Wait(ACTIVATION_POLL_MS)
            },
        }
    }

    /// Takes that the runtime uses the models in these directories.
    pub fn model_activated(&mut self, stt_model: String, wake_model: String) -> (event: AssistantEvent)
        ensures
            final(self)@ == (DaemonView {
                stt_model: Some(stt_model@),
                wake_model: Some(wake_model@),
                audio_generation: counted(old(self)@.audio_generation),
                ..old(self)@
            }).with_ready_model(),
            event@ == (EventView::ModelReady { revision: revision_of(old(self)@.config) }),
    {
        self.set_models(stt_model, wake_model);
        self.next_audio_generation();
        self.set_model_ready()
    }

    /// Takes that the configured models are not installed.
    pub fn models_missing(&mut self)
        ensures
            final(self)@ == (DaemonView { model_status: ModelStatusView::Missing, ..old(self)@ }),
    {
        self.set_model_status(ModelStatus::Missing);
    }

    /// Takes that the configured models could not be activated at startup; a daemon that stops
    /// does not care.
    pub fn initialization_failed(&mut self, message: String)
        ensures
            final(self)@ == if old(self)@.stopping {
                old(self)@
            } else {
                old(self)@.with_inactive_model(message@)
            },
    {
        if !self.is_stopping() {
            self.activation_failed(message);
        }
    }

    fn activation_failed(&mut self, message: String)
        ensures
            final(self)@ == old(self)@.with_inactive_model(message@),
    {
        if self.loading_cancelled() {
            self.set_model_status(ModelStatus::Cancelled);
        } else {
            self.model_failed(message);
        }
    }

    fn model_failed(&mut self, message: String)
        ensures
            final(self)@ == old(self)@.with_failed_model(message@),
    {
        self.set_model_status(ModelStatus::Failed { message: message.clone() });
        self.set_last_error(Some(message));
    }

    /// Takes the outcome of starting the runtime: from then on the daemon listens.
    pub fn runtime_started(&mut self, result: Result<(), CoreError>)
        ensures
            final(self)@ == match result_view(result) {
                Ok(_) => DaemonView { listening: true, ..old(self)@ },
                Err(error) => DaemonView { last_error: Some(error.message()), ..old(self)@ },
            },
    {
        match result {
            Ok(_) => self.set_listening(true),
            Err(error) => self.set_last_error(Some(error.to_string())),
        }
    }

    /// Begins to install the configured models; one installation at a time. It counts as running
    /// from the moment it is asked for, also where the configuration names a model that the catalog
    /// does not know.
    pub fn begin_install(&mut self) -> (plan: Result<InstallPlan, String>)
        ensures
            ({
                let config = old(self)@.config;
                let stt = find_model(catalog(), config.inference.model, 0);
                let wake = find_model(catalog(), config.wake_word.model, 0);
                match plan {
                    Ok(plan) => {
                        &&& !old(self)@.model_installing
                        &&& stt is Some && wake is Some
                        &&& plan.brings(stt->0, wake->0)
                        &&& final(self)@ == (DaemonView {
                            model_installing: true,
                            model_cancel: false,
                            model_status: ModelStatusView::Installing {
                                completed_files: 0,
                                total_files: plan.total_files,
                                file: None,
                            },
                            ..old(self)@
                        })
                    },
                    Err(message) => {
                        &&& final(self)@ == (DaemonView { model_installing: true, ..old(self)@ })
                        &&& old(self)@.model_installing || stt is None || wake is None
                        &&& message@ == if old(self)@.model_installing {
                            "model installation is already running"@
                        } else if stt is None {
                            unsupported_model(config.inference.model).message()
                        } else {
                            unsupported_model(config.wake_word.model).message()
                        }
                    },
                }
            }),
    {
        if self.installing() {
            return Err("model installation is already running".to_owned());
        }
        self.set_model_installing(true);
        let stt = match model_spec(&self.config().inference.model) {
            Ok(model) => model,
            Err(error) => {
                return Err(error.to_string());
            },
        };
        let wake = match model_spec(&self.config().wake_word.model) {
            Ok(model) => model,
            Err(error) => {
                return Err(error.to_string());
            },
        };
        let stt_files: usize = stt.file_count();
        let shared = same_text(stt.id(), wake.id());
        let total_files: usize = if shared {
            stt_files
        } else {
            stt_files + wake.file_count()
        };
        self.set_model_cancel(false);
        self.set_model_status(
            ModelStatus::Installing { completed_files: 0, total_files, file: None },
        );
        Ok(
            InstallPlan {
                stt,
                wake: if shared {
                    None
                } else {
                    Some(wake)
                },
                total_files,
            },
        )
    }

    /// Reports how far the installation of the first or the second model is, counted over both.
    pub fn install_progress(&mut self, plan: &InstallPlan, second: bool, progress: ModelInstallProgress) -> (event:
        AssistantEvent)
        ensures
            ({
                let completed_files = saturated(
                    plan.offset(second) + progress.completed_files as nat,
                ) as usize;
                let file = option_view(progress.file);
                &&& event@ == (EventView::ModelInstallProgress {
                    completed_files,
                    total_files: plan.total_files,
                    file,
                })
                &&& final(self)@ == (DaemonView {
                    model_status: ModelStatusView::Installing {
                        completed_files,
                        total_files: plan.total_files,
                        file,
                    },
                    ..old(self)@
                })
            }),
    {
        let offset: usize = if second {
            plan.stt.file_count()
        } else {
            0
        };
        let completed_files: usize = offset.saturating_add(progress.completed_files);
        let copy = match &progress.file {
            Some(file) => Some(file.clone()),
            None => None,
        };
        self.set_model_status(
            ModelStatus::Installing {
                completed_files,
                total_files: plan.total_files,
                file: copy,
            },
        );
        AssistantEvent::ModelInstallProgress {
            completed_files,
            total_files: plan.total_files,
            file: progress.file,
        }
    }

    /// Ends an installation.
    pub fn install_finished(&mut self, outcome: InstallOutcome)
        ensures
            final(self)@ == (DaemonView {
                model_installing: false,
                ..old(self)@.after_install(outcome)
            }),
    {
        let ghost expected = self@.after_install(outcome);
        match outcome {
            InstallOutcome::Activated => {},
            InstallOutcome::NotActivated(message) => self.activation_failed(message),
            InstallOutcome::NotInstalled(error) => match error {
                ModelError::Cancelled => self.set_model_status(ModelStatus::Cancelled),
                _ => {
                    let message = error.to_string();
                    self.model_failed(message);
                },
            },
            InstallOutcome::Lost(message) => self.set_model_status(ModelStatus::Failed { message }),
        }
        assert(self@ == expected);
        self.set_model_installing(false);
    }
}

/// Only an active model counts as ready: a daemon whose model is missing, failed, cancelled or
/// being installed has no recognizer.
pub proof fn readiness_is_activation(daemon: DaemonView, message: Seq<char>, stage: LoadStage)
    ensures
        crate::state::recognizer_active(daemon.with_ready_model().model_status),
        !crate::state::recognizer_active(daemon.with_failed_model(message).model_status),
        !crate::state::recognizer_active(daemon.with_inactive_model(message).model_status),
        forall|active: bool|
            crate::state::recognizer_active(
                #[trigger] daemon.with_loading_model(stage, active).model_status,
            ) == active,
{
}

/// A model that became active is reported with the revision that the catalog has for the configured
/// one, and the last error is forgotten; a failure is the status and the last error, but a cancellation
/// is no error. Nothing else of the daemon changes.
pub proof fn model_states_are_reported(daemon: DaemonView, message: Seq<char>, stage: LoadStage, active: bool)
    ensures
        ({
            let ready = daemon.with_ready_model();
            let failed = daemon.with_failed_model(message);
            let inactive = daemon.with_inactive_model(message);
            let loading = daemon.with_loading_model(stage, active);
            &&& ready.model_status matches ModelStatusView::Ready { revision } && (find_model(
                catalog(),
                daemon.config.inference.model,
                0,
            ) matches Some(model) ==> revision == model.revision)
            &&& ready.last_error is None
            &&& ready == (DaemonView {
                model_status: ready.model_status,
                last_error: ready.last_error,
                ..daemon
            })
            &&& failed == (DaemonView {
                model_status: ModelStatusView::Failed { message },
                last_error: Some(message),
                ..daemon
            })
            &&& daemon.stt_cancel ==> inactive == (DaemonView {
                model_status: ModelStatusView::Cancelled,
                ..daemon
            })
            &&& !daemon.stt_cancel ==> inactive == failed
            &&& loading.model_status matches ModelStatusView::Loading { progress, active: stays, .. }
                && stays == active && progress == stage.percent()
            &&& loading == (DaemonView { model_status: loading.model_status, ..daemon })
        }),
{
}

/// An installation that was cancelled is no failure; what could not be installed or activated is, and
/// models that were activated stay as the activation left them.
pub proof fn installations_are_reported(daemon: DaemonView, outcome: InstallOutcome)
    ensures
        ({
            let later = daemon.after_install(outcome);
            &&& outcome is Activated ==> later == daemon
            &&& outcome matches InstallOutcome::NotInstalled(error) ==> (later.model_status is Cancelled
                <==> error@ is Cancelled) && (later.model_status is Failed <==> error@ !is Cancelled)
            &&& outcome matches InstallOutcome::NotInstalled(error) ==> (error@ !is Cancelled
                ==> later.last_error == Some(error@.message()))
            &&& outcome matches InstallOutcome::NotActivated(message) ==> (!daemon.stt_cancel
                ==> later.model_status == (ModelStatusView::Failed { message: message@ })
                && later.last_error == Some(message@))
            &&& outcome matches InstallOutcome::Lost(message) ==> later.model_status == (
            ModelStatusView::Failed { message: message@ })
            &&& later == (DaemonView {
                model_status: later.model_status,
                last_error: later.last_error,
                ..daemon
            })
        }),
{
}

/// An installation counts the files of both models, once where one model serves both purposes; the
/// files of the first model come before those of the second.
pub proof fn installations_count_their_files(stt: ModelView, wake: ModelView, plan: InstallPlan)
    ensures
        stt.id == wake.id ==> install_total(stt, wake) == stt.files.len(),
        stt.id != wake.id ==> install_total(stt, wake) == stt.files.len() + wake.files.len(),
        plan.offset(false) == 0,
        plan.offset(true) == plan.stt@.files.len(),
        plan.brings(stt, wake) ==> plan.stt@ == stt && (plan.wake is Some <==> stt.id != wake.id) && (
        plan.wake matches Some(second) ==> second@ == wake) && plan.total_files == install_total(
            stt,
            wake,
        ),
{
}

} // verus!
