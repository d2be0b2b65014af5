//! Applying a configuration to a running daemon, step by step, with a way back.

use crate::config::{ConfigView, CoreConfig};
use crate::daemon::{is_reloadable, reloadable};
use crate::domain::{result_view, AssistantEvent, AssistantState, CoreError, ErrorView, EventView};
use crate::ipc::IpcErrorCode;
use crate::lifecycle::revision_of;
use crate::metrics::counted;
use crate::reload::{
    audio_session_changed, build_restart_limits, build_runtime_update, changed_limits, inference_worker_changed,
    is_difference, session_changed, worker_changed,
};
use crate::runtime::RuntimeUpdate;
use crate::state::{Daemon, DaemonView};
use crate::stt::RestartLimits;
use crate::text::{option_view, same_text, views};
use crate::text_map::Comparable;
use vstd::prelude::*;

verus! {

/// What happens to the recognizer of the runtime.
#[derive(Debug, Clone, Copy, PartialEq, Eq, Structural)]
pub enum RecognizerChange {
    /// It stays.
    Keep,
    /// The one that was loaded last takes its place.
    Loaded,
    /// One that refuses every request takes its place.
    Unavailable,
}

/// Where the application of a configuration stands.
pub enum ApplyPhase {
    /// A recognizer for the new configuration is being loaded.
    Loading,
    /// The runtime is being reconfigured.
    Reconfiguring,
    /// The configuration is being written.
    Saving,
    /// Writing failed; a recognizer for the previous configuration is being loaded.
    Reloading(String),
    /// Writing failed; the runtime is being given the previous configuration.
    Reverting(String),
}

/// What an [`ApplyPhase`] is.
pub enum ApplyPhaseView {
    /// A recognizer for the new configuration is being loaded.
    Loading,
    /// The runtime is being reconfigured.
    Reconfiguring,
    /// The configuration is being written.
    Saving,
    /// Writing failed; a recognizer is being loaded.
    Reloading(Seq<char>),
    /// Writing failed; the runtime is being given the previous configuration.
    Reverting(Seq<char>),
}

impl View for ApplyPhase {
    type V = ApplyPhaseView;

    open spec fn view(&self) -> ApplyPhaseView {
        match self {
            ApplyPhase::Loading => ApplyPhaseView::Loading,
            ApplyPhase::Reconfiguring => ApplyPhaseView::Reconfiguring,
            ApplyPhase::Saving => ApplyPhaseView::Saving,
            ApplyPhase::Reloading(message) => ApplyPhaseView::Reloading(message@),
            ApplyPhase::Reverting(message) => ApplyPhaseView::Reverting(message@),
        }
    }
}

/// A configuration that is being applied.
pub struct Apply {
    /// The new configuration.
    pub config: CoreConfig,
    /// Whether the recognizer is replaced.
    pub replace_stt: bool,
    /// Directory of the active transcription model.
    pub model: Option<String>,
    /// Where it stands.
    pub phase: ApplyPhase,
}

/// What an [`Apply`] holds.
pub struct ApplyView {
    /// The new configuration.
    pub config: ConfigView,
    /// Whether the recognizer is replaced.
    pub replace_stt: bool,
    /// Directory of the active transcription model.
    pub model: Option<Seq<char>>,
    /// Where it stands.
    pub phase: ApplyPhaseView,
}

impl View for Apply {
    type V = ApplyView;

    open spec fn view(&self) -> ApplyView {
        ApplyView {
            config: self.config@,
            replace_stt: self.replace_stt,
            model: option_view(self.model),
            phase: self.phase@,
        }
    }
}

/// What has to be done next.
pub enum ApplyAction {
    /// Load a recognizer from a model directory.
    Load {
        /// The directory.
        model: String,
        /// Whether the previous configuration sets its limits.
        previous: bool,
    },
    /// Reconfigure the runtime.
    Reconfigure {
        /// What it replaces.
        update: RuntimeUpdate,
        /// What happens to its recognizer.
        recognizer: RecognizerChange,
        /// Restart limits that the recognizer takes from now on, where they change.
        limits: Option<RestartLimits>,
    },
    /// Write the new configuration.
    Save,
}

/// What happened.
pub enum ApplyEvent {
    /// Loading ended.
    Loaded(Result<(), String>),
    /// Reconfiguring ended.
    Reconfigured(Result<(), CoreError>),
    /// Writing ended.
    Saved(Result<(), String>),
}

impl ApplyView {
    /// Whether an event answers the action of the phase.
    pub open spec fn expects(self, event: ApplyEvent) -> bool {
        match self.phase {
            ApplyPhaseView::Loading | ApplyPhaseView::Reloading(_) => event is Loaded,
            ApplyPhaseView::Reconfiguring | ApplyPhaseView::Reverting(_) => event is Reconfigured,
            ApplyPhaseView::Saving => event is Saved,
        }
    }

    /// Whether the recognizer of an installed model is replaced.
    pub open spec fn reloads_model(self) -> bool {
        self.replace_stt && self.model is Some
    }
}

/// Why a valid configuration is not applied.
pub open spec fn apply_error(old: ConfigView, new: ConfigView, state: AssistantState) -> Option<
    (IpcErrorCode, Seq<char>),
> {
    if !reloadable(state) {
        Some((IpcErrorCode::RuntimeBusy, "runtime is busy"@))
    } else if new.ipc != old.ipc {
        Some(
            (IpcErrorCode::Configuration, "IPC pipe name and timeout require daemon restart"@),
        )
    } else if new.inference.model != old.inference.model || new.wake_word.model
        != old.wake_word.model {
        Some((IpcErrorCode::Configuration, "model selection requires daemon restart"@))
    } else {
        None
    }
}

/// How the application of a configuration ended, or how it goes on.
pub enum ApplyStep {
    /// An action follows.
    Continue(Apply, ApplyAction),
    /// It is over.
    Done(Result<(), (IpcErrorCode, String)>),
}

/// What an application has done, with the events that precede what follows.
pub struct Applied {
    /// Events to publish, in order.
    pub events: Vec<AssistantEvent>,
    /// What follows.
    pub step: ApplyStep,
}

/// Whether a step goes on with loading a recognizer.
pub open spec fn loads(step: ApplyStep, apply: ApplyView, directory: Seq<char>, from_previous: bool) -> bool {
    match step {
        ApplyStep::Continue(next, ApplyAction::Load { model, previous }) => next@ == apply && model@
            == directory && previous == from_previous,
        _ => false,
    }
}

/// Whether a step goes on with reconfiguring the runtime from one configuration to another.
pub open spec fn reconfigures(
    step: ApplyStep,
    apply: ApplyView,
    from: ConfigView,
    to: ConfigView,
    change: RecognizerChange,
) -> bool {
    match step {
        ApplyStep::Continue(next, ApplyAction::Reconfigure { update, recognizer, limits }) => next@
            == apply && is_difference(update, from, to) && recognizer == change && limits
            == changed_limits(from, to),
        _ => false,
    }
}

/// Whether a step is a failure.
pub open spec fn fails(step: ApplyStep, code: IpcErrorCode, text: Seq<char>) -> bool {
    step matches ApplyStep::Done(Err(failure)) && failure.0 == code && failure.1@ == text
}

impl DaemonView {
    /// The daemon with a new configuration in force.
    pub open spec fn committed(self, config: ConfigView) -> DaemonView {
        DaemonView {
            config,
            audio_generation: if session_changed(self.config, config) {
                counted(self.audio_generation)
            } else {
                self.audio_generation
            },
            ..self
        }
    }

    /// The daemon with its model ready again, where it was replaced.
    pub open spec fn with_restored_model(self, restored: bool) -> DaemonView {
        if restored {
            self.with_ready_model()
        } else {
            self
        }
    }

    /// The event of a model that is ready again.
    pub open spec fn restoration(self, restored: bool) -> Seq<EventView> {
        if restored {
            seq![EventView::ModelReady { revision: revision_of(self.config) }]
        } else {
            Seq::empty()
        }
    }
}

impl Daemon {
    /// Begins to apply a valid configuration.
    pub fn begin_apply(&self, config: CoreConfig, state: AssistantState) -> (step: ApplyStep)
        ensures
            match apply_error(self@.config, config@, state) {
                Some(failure) => fails(step, failure.0, failure.1),
                None => {
                    let apply = ApplyView {
                        config: config@,
                        replace_stt: worker_changed(self@.config, config@),
                        model: self@.stt_model,
                        phase: ApplyPhaseView::Loading,
                    };
                    if apply.reloads_model() {
                        loads(step, apply, self@.stt_model->0, false)
                    } else {
                        reconfigures(
                            step,
                            ApplyView { phase: ApplyPhaseView::Reconfiguring, ..apply },
                            self@.config,
                            config@,
                            RecognizerChange::Keep,
                        )
                    }
                },
            },
    {
        if !is_reloadable(state) {
            return ApplyStep::Done(Err((IpcErrorCode::RuntimeBusy, "runtime is busy".to_owned())));
        }
        let old = self.config();
        if !config.ipc.same_as(&old.ipc) {
            return ApplyStep::Done(
                Err(
                    (
                        IpcErrorCode::Configuration,
                        "IPC pipe name and timeout require daemon restart".to_owned(),
                    ),
                ),
            );
        }
        if !same_text(&config.inference.model, &old.inference.model) || !same_text(
            &config.wake_word.model,
            &old.wake_word.model,
        ) {
            return ApplyStep::Done(
                Err(
                    (
                        IpcErrorCode::Configuration,
                        "model selection requires daemon restart".to_owned(),
                    ),
                ),
            );
        }
        let replace_stt = inference_worker_changed(old, &config);
        let model = self.stt_model();
        if replace_stt {
            if let Some(path) = &model {
                let path = path.clone();
                return ApplyStep::Continue(
                    Apply { config, replace_stt, model, phase: ApplyPhase::Loading },
                    ApplyAction::Load { model: path, previous: false },
                );
            }
        }
        let update = build_runtime_update(old, &config);
        let limits = build_restart_limits(old, &config);
        ApplyStep::Continue(
            Apply { config, replace_stt, model, phase: ApplyPhase::Reconfiguring },
            ApplyAction::Reconfigure { update, recognizer: RecognizerChange::Keep, limits },
        )
    }

    /// Takes what happened to a configuration that is being applied.
    pub fn advance_apply(&mut self, apply: Apply, event: ApplyEvent) -> (applied: Applied)
        requires
            apply@.expects(event),
        ensures
            match event {
                ApplyEvent::Loaded(loaded) => old(self)@.after_load(
                    final(self)@,
                    apply@,
                    loaded,
                    applied,
                ),
                ApplyEvent::Reconfigured(result) => old(self)@.after_reconfigure(
                    final(self)@,
                    apply@,
                    result_view(result),
                    applied,
                ),
                ApplyEvent::Saved(saved) => old(self)@.after_save(
                    final(self)@,
                    apply@,
                    saved,
                    applied,
                ),
            },
    {
        match event {
            ApplyEvent::Loaded(loaded) => self.recognizer_loaded(apply, loaded),
            ApplyEvent::Reconfigured(result) => self.runtime_reconfigured(apply, result),
            ApplyEvent::Saved(saved) => self.config_saved(apply, saved),
        }
    }

    fn recognizer_loaded(&mut self, apply: Apply, loaded: Result<(), String>) -> (applied: Applied)
        requires
            apply@.phase is Loading || apply@.phase is Reloading,
        ensures
            old(self)@.after_load(final(self)@, apply@, loaded, applied),
    {
        match apply.phase {
            ApplyPhase::Reloading(message) => {
                let update = build_runtime_update(&apply.config, self.config());
                let limits = build_restart_limits(&apply.config, self.config());
                without_events(
                    ApplyStep::Continue(
                        Apply {
                            config: apply.config,
                            replace_stt: apply.replace_stt,
                            model: apply.model,
                            phase: ApplyPhase::Reverting(message),
                        },
                        ApplyAction::Reconfigure {
                            update,
                            recognizer: if loaded.is_ok() {
                                RecognizerChange::Loaded
                            } else {
                                RecognizerChange::Keep
                            },
                            limits,
                        },
                    ),
                )
            },
            _ => match loaded {
                Err(message) => without_events(ApplyStep::Done(Err((IpcErrorCode::Model, message)))),
                Ok(_) => {
                    let update = build_runtime_update(self.config(), &apply.config);
                    let limits = build_restart_limits(self.config(), &apply.config);
                    without_events(
                        ApplyStep::Continue(
                            Apply {
                                config: apply.config,
                                replace_stt: apply.replace_stt,
                                model: apply.model,
                                phase: ApplyPhase::Reconfiguring,
                            },
                            ApplyAction::Reconfigure {
                                update,
                                recognizer: RecognizerChange::Loaded,
                                limits,
                            },
                        ),
                    )
                },
            },
        }
    }

    fn runtime_reconfigured(&mut self, apply: Apply, result: Result<(), CoreError>) -> (applied: Applied)
        requires
            apply@.phase is Reconfiguring || apply@.phase is Reverting,
        ensures
            old(self)@.after_reconfigure(final(self)@, apply@, result_view(result), applied),
    {
        let restored = apply.replace_stt && apply.model.is_some();
        match apply.phase {
            ApplyPhase::Reverting(message) => {
                let events = self.restore_ready_status(restored);
                Applied { events, step: ApplyStep::Done(Err((IpcErrorCode::Configuration, message))) }
            },
            _ => match result {
                Err(error) => {
                    let events = self.restore_ready_status(restored);
                    Applied {
                        events,
                        step: ApplyStep::Done(Err((IpcErrorCode::RuntimeBusy, error.to_string()))),
                    }
                },
                Ok(_) => without_events(
                    ApplyStep::Continue(
                        Apply {
                            config: apply.config,
                            replace_stt: apply.replace_stt,
                            model: apply.model,
                            phase: ApplyPhase::Saving,
                        },
                        ApplyAction::Save,
                    ),
                ),
            },
        }
    }

    fn config_saved(&mut self, apply: Apply, saved: Result<(), String>) -> (applied: Applied)
        requires
            apply@.phase is Saving,
        ensures
            old(self)@.after_save(final(self)@, apply@, saved, applied),
    {
        let restored = apply.replace_stt && apply.model.is_some();
        match saved {
            Ok(_) => {
                if audio_session_changed(self.config(), &apply.config) {
                    self.next_audio_generation();
                }
                self.set_config(apply.config);
                assert(self@ == old(self)@.committed(apply@.config));
                let events = self.restore_ready_status(restored);
                Applied { events, step: ApplyStep::Done(Ok(())) }
            },
            Err(message) => {
                if apply.replace_stt {
                    if let Some(path) = &apply.model {
                        let path = path.clone();
                        return without_events(
                            ApplyStep::Continue(
                                Apply {
                                    config: apply.config,
                                    replace_stt: apply.replace_stt,
                                    model: apply.model,
                                    phase: ApplyPhase::Reloading(message),
                                },
                                ApplyAction::Load { model: path, previous: true },
                            ),
                        );
                    }
                }
                let update = build_runtime_update(&apply.config, self.config());
                let limits = build_restart_limits(&apply.config, self.config());
                let recognizer = if apply.replace_stt {
                    RecognizerChange::Unavailable
                } else {
                    RecognizerChange::Keep
                };
                without_events(
                    ApplyStep::Continue(
                        Apply {
                            config: apply.config,
                            replace_stt: apply.replace_stt,
                            model: apply.model,
                            phase: ApplyPhase::Reverting(message),
                        },
                        ApplyAction::Reconfigure { update, recognizer, limits },
                    ),
                )
            },
        }
    }

    fn restore_ready_status(&mut self, ready: bool) -> (events: Vec<AssistantEvent>)
        ensures
            final(self)@ == old(self)@.with_restored_model(ready),
            views(events@) == old(self)@.restoration(ready),
    {
        let mut events: Vec<AssistantEvent> = Vec::new();
        if ready {
            events.push(self.set_model_ready());
        }
        assert(views(events@) =~= old(self)@.restoration(ready));
        events
    }
}

/// A step without events.
fn without_events(step: ApplyStep) -> (applied: Applied)
    ensures
        views(applied.events@) == Seq::<EventView>::empty(),
        applied.step == step,
{
    let applied = Applied { events: Vec::new(), step };
    assert(views(applied.events@) =~= Seq::empty());
    applied
}

impl DaemonView {
    /// What follows the loading of a recognizer. Without one for the new configuration nothing
    /// changes; without one for the previous configuration the newer one stays.
    pub open spec fn after_load(
        self,
        later: DaemonView,
        apply: ApplyView,
        loaded: Result<(), String>,
        applied: Applied,
    ) -> bool {
        &&& later == self
        &&& views(applied.events@) == Seq::<EventView>::empty()
        &&& match apply.phase {
            ApplyPhaseView::Reloading(message) => reconfigures(
                applied.step,
                ApplyView { phase: ApplyPhaseView::Reverting(message), ..apply },
                apply.config,
                self.config,
                if loaded is Ok {
                    RecognizerChange::Loaded
                } else {
                    RecognizerChange::Keep
                },
            ),
            _ => match loaded {
                Ok(_) => reconfigures(
                    applied.step,
                    ApplyView { phase: ApplyPhaseView::Reconfiguring, ..apply },
                    self.config,
                    apply.config,
                    RecognizerChange::Loaded,
                ),
                Err(message) => fails(applied.step, IpcErrorCode::Model, message@),
            },
        }
    }

    /// What follows a reconfiguration of the runtime: the configuration is written, or the
    /// failure is reported.
    pub open spec fn after_reconfigure(
        self,
        later: DaemonView,
        apply: ApplyView,
        result: Result<(), ErrorView>,
        applied: Applied,
    ) -> bool {
        match (apply.phase, result) {
            (ApplyPhaseView::Reverting(message), _) => {
                &&& later == self.with_restored_model(apply.reloads_model())
                &&& views(applied.events@) == self.restoration(apply.reloads_model())
                &&& fails(applied.step, IpcErrorCode::Configuration, message)
            },
            (_, Err(error)) => {
                &&& later == self.with_restored_model(apply.reloads_model())
                &&& views(applied.events@) == self.restoration(apply.reloads_model())
                &&& fails(applied.step, IpcErrorCode::RuntimeBusy, error.message())
            },
            (_, Ok(_)) => {
                &&& later == self
                &&& views(applied.events@) == Seq::<EventView>::empty()
                &&& applied.step matches ApplyStep::Continue(next, ApplyAction::Save) && next@ == (
                ApplyView { phase: ApplyPhaseView::Saving, ..apply })
            },
        }
    }

    /// What follows the writing of a configuration: it is in force, or the runtime goes back.
    pub open spec fn after_save(
        self,
        later: DaemonView,
        apply: ApplyView,
        saved: Result<(), String>,
        applied: Applied,
    ) -> bool {
        match saved {
            Ok(_) => {
                let committed = self.committed(apply.config);
                &&& later == committed.with_restored_model(apply.reloads_model())
                &&& views(applied.events@) == committed.restoration(apply.reloads_model())
                &&& applied.step == ApplyStep::Done(Ok(()))
            },
            Err(message) => {
                &&& later == self
                &&& views(applied.events@) == Seq::<EventView>::empty()
                &&& if apply.reloads_model() {
                    loads(
                        applied.step,
                        ApplyView { phase: ApplyPhaseView::Reloading(message@), ..apply },
                        apply.model->0,
                        true,
                    )
                } else {
                    reconfigures(
                        applied.step,
                        ApplyView { phase: ApplyPhaseView::Reverting(message@), ..apply },
                        apply.config,
                        self.config,
                        if apply.replace_stt {
                            RecognizerChange::Unavailable
                        } else {
                            RecognizerChange::Keep
                        },
                    )
                }
            },
        }
    }
}

/// A configuration that could not be applied leaves the one in force and the microphone session
/// as they were; one that was applied is in force.
pub proof fn applications_are_atomic(
    before: DaemonView,
    later: DaemonView,
    apply: ApplyView,
    loaded: Result<(), String>,
    result: Result<(), ErrorView>,
    saved: Result<(), String>,
    applied: Applied,
)
    requires
        ({
            ||| before.after_load(later, apply, loaded, applied)
            ||| before.after_reconfigure(later, apply, result, applied)
            ||| before.after_save(later, apply, saved, applied)
        }),
    ensures
        applied.step matches ApplyStep::Done(Err(_)) ==> later.config == before.config
            && later.audio_generation == before.audio_generation,
        applied.step matches ApplyStep::Continue(_, _) ==> later == before,
        applied.step matches ApplyStep::Done(Ok(_)) ==> later.config == apply.config,
{
}

} // verus!
