//! What a change of the configuration means for the parts of a running daemon.

use crate::builtins::{builtin_handlers, builtin_registry, builtin_verdicts_agree, handlers_error, BuiltinHandler};
use crate::commands::{CommandRegistry, RegistryView};
use crate::config::{
    AudioConfig, AudioView, CommandView, ConfigError, ConfigErrorView, ConfigView, CoreConfig, WakeWordConfig, WakeWordView,
};
use crate::domain::{CoreError, ErrorView};
use crate::models::{catalog, find_model, model_spec, unsupported_model};
use crate::runtime::RuntimeUpdate;
use crate::service::RuntimeComponents;
use crate::stt::RestartLimits;
use crate::text::{same_text, views};
use crate::text_map::{duplicate_all, same_all, Comparable, Duplicate};
use crate::validation::validation_error;
use vstd::prelude::*;

verus! {

/// The built-in handlers for commands.
pub open spec fn stock_handlers(commands: Seq<CommandView>) -> Seq<(Seq<char>, BuiltinHandler)> {
    choose|handlers: Seq<(Seq<char>, BuiltinHandler)>| builtin_registry(handlers, commands)
}

/// What is wrong with a configuration of the stock daemon.
pub open spec fn stock_error(config: ConfigView) -> Option<Seq<char>> {
    match validation_error(config) {
        Some(message) => Some(message),
        None => match handlers_error(
            stock_handlers(config.commands),
            config.commands,
            config.commands.len() as int,
        ) {
            Some(message) => Some(message),
            None => match (
                find_model(catalog(), config.inference.model, 0),
                find_model(catalog(), config.wake_word.model, 0),
            ) {
                (None, _) => Some(unsupported_model(config.inference.model).message()),
                (Some(_), None) => Some(unsupported_model(config.wake_word.model).message()),
                (Some(_), Some(wake)) => if wake.wakes() {
                    None
                } else {
                    Some("model "@ + wake.id + " cannot be used for wake-word detection"@)
                },
            },
        },
    }
}

/// Validates a configuration for the stock daemon: its structure, its commands against the
/// built-in handlers, and its models against the catalog.
pub fn validate_stock_config(config: &CoreConfig) -> (checked: Result<(), ConfigError>)
    ensures
        match (checked, stock_error(config@)) {
            (Ok(_), None) => true,
            (Err(error), Some(message)) => error@ == ConfigErrorView::Validation(message),
            _ => false,
        },
{
    let handlers = match builtin_handlers(&config.commands) {
        Ok(handlers) => handlers,
        Err(error) => {
            return Err(ConfigError::Validation(error.to_string()));
        },
    };
    proof {
        assert(builtin_registry(handlers@, config@.commands));
        builtin_verdicts_agree(
            handlers@,
            stock_handlers(config@.commands),
            config@.commands,
            config@.commands,
            config@.commands.len() as int,
        );
    }
    match config.validate_with_handlers(&handlers) {
        Err(error) => {
            return Err(error);
        },
        Ok(_) => {},
    }
    match model_spec(&config.inference.model) {
        Err(error) => {
            return Err(ConfigError::Validation(error.to_string()));
        },
        Ok(_) => {},
    }
    match model_spec(&config.wake_word.model) {
        Err(error) => Err(ConfigError::Validation(error.to_string())),
        Ok(model) => if model.supports_wake_word() {
            Ok(())
        } else {
            let mut message = "model ".to_owned();
            message.append(model.id());
            message.append(" cannot be used for wake-word detection");
            Err(ConfigError::Validation(message))
        },
    }
}

/// Whether a new STT worker is needed.
pub open spec fn worker_changed(old: ConfigView, new: ConfigView) -> bool {
    ||| old.inference.model != new.inference.model
    ||| old.inference.threads != new.inference.threads
    ||| old.inference.queue_capacity != new.inference.queue_capacity
}

/// Tells whether a new STT worker is needed.
pub fn inference_worker_changed(old: &CoreConfig, new: &CoreConfig) -> (changed: bool)
    ensures
        changed == worker_changed(old@, new@),
{
    !same_text(&old.inference.model, &new.inference.model) || old.inference.threads
        != new.inference.threads || old.inference.queue_capacity != new.inference.queue_capacity
}

/// The restart limits that a running STT worker is given when the configuration changes.
pub open spec fn changed_limits(old: ConfigView, new: ConfigView) -> Option<RestartLimits> {
    if old.inference.max_restarts == new.inference.max_restarts && old.inference.restart_backoff_ms
        == new.inference.restart_backoff_ms {
        None
    } else {
        Some(
            RestartLimits {
                max_restarts: new.inference.max_restarts,
                backoff_ms: new.inference.restart_backoff_ms,
            },
        )
    }
}

/// Works out the restart limits that a running STT worker has to be given.
pub fn build_restart_limits(old: &CoreConfig, new: &CoreConfig) -> (limits: Option<RestartLimits>)
    ensures
        limits == changed_limits(old@, new@),
{
    if old.inference.max_restarts == new.inference.max_restarts && old.inference.restart_backoff_ms
        == new.inference.restart_backoff_ms {
        None
    } else {
        Some(
            RestartLimits {
                max_restarts: new.inference.max_restarts,
                backoff_ms: new.inference.restart_backoff_ms,
            },
        )
    }
}

/// Tells whether one model serves both transcription and wake-word detection.
pub fn models_are_shared(config: &CoreConfig) -> (shared: bool)
    ensures
        shared == (config@.inference.model == config@.wake_word.model),
{
    same_text(&config.inference.model, &config.wake_word.model)
}

/// Whether audio settings say the same; levels are compared as numbers.
pub open spec fn same_audio(old: AudioView, new: AudioView) -> bool {
    old.vad_threshold.same_number(new.vad_threshold) && (AudioView {
        vad_threshold: new.vad_threshold,
        ..old
    }) == new
}

/// Whether wake-word settings say the same; score and threshold are compared as numbers.
pub open spec fn same_wake_word(old: WakeWordView, new: WakeWordView) -> bool {
    old.score.same_number(new.score) && old.threshold.same_number(new.threshold) && (WakeWordView {
        score: new.score,
        threshold: new.threshold,
        ..old
    }) == new
}

/// Whether the microphone session has to start anew.
pub open spec fn session_changed(old: ConfigView, new: ConfigView) -> bool {
    !same_audio(old.audio, new.audio) || !same_wake_word(old.wake_word, new.wake_word)
}

fn audio_matches(old: &AudioConfig, new: &AudioConfig) -> (same: bool)
    ensures
        same == same_audio(old@, new@),
{
    same_text(&old.device_id, &new.device_id) && old.target_sample_rate == new.target_sample_rate
        && old.channels == new.channels && old.frame_ms == new.frame_ms && old.pre_roll_ms
        == new.pre_roll_ms && old.queue_capacity_frames == new.queue_capacity_frames
        && old.vad_threshold.equals(new.vad_threshold) && old.command_min_ms == new.command_min_ms
        && old.command_max_ms == new.command_max_ms && old.trailing_silence_ms
        == new.trailing_silence_ms && old.reconnect_delay_ms == new.reconnect_delay_ms
        && old.stall_timeout_ms == new.stall_timeout_ms
}

fn wake_word_matches(old: &WakeWordConfig, new: &WakeWordConfig) -> (same: bool)
    ensures
        same == same_wake_word(old@, new@),
{
    same_text(&old.model, &new.model) && same_text(&old.keyword, &new.keyword) && same_all(
        &old.aliases,
        &new.aliases,
    ) && old.score.equals(new.score) && old.threshold.equals(new.threshold) && old.cooldown_ms
        == new.cooldown_ms
}

/// Tells whether the microphone session has to start anew.
pub fn audio_session_changed(old: &CoreConfig, new: &CoreConfig) -> (changed: bool)
    ensures
        changed == session_changed(old@, new@),
{
    !audio_matches(&old.audio, &new.audio) || !wake_word_matches(&old.wake_word, &new.wake_word)
}

/// The command matcher of a configuration.
pub open spec fn registry_of(config: ConfigView) -> RegistryView {
    RegistryView { commands: config.commands, normalize_yo: config.matching.normalize_yo }
}

/// Whether an update holds exactly what a change of the configuration concerns.
pub open spec fn is_difference(update: RuntimeUpdate, old: ConfigView, new: ConfigView) -> bool {
    &&& match update.commands {
        Some(registry) => registry@ == registry_of(new) && (old.commands != new.commands
            || old.matching != new.matching),
        None => old.commands == new.commands && old.matching == new.matching,
    }
    &&& match update.wake_words {
        Some(wake_words) => views(wake_words@) == new.wake_word.phrases() && (old.wake_word.keyword
            != new.wake_word.keyword || old.wake_word.aliases != new.wake_word.aliases),
        None => old.wake_word.keyword == new.wake_word.keyword && old.wake_word.aliases
            == new.wake_word.aliases,
    }
    &&& match update.policy {
        Some(policy) => policy@ == new.policy && old.policy != new.policy,
        None => old.policy == new.policy,
    }
    &&& update.stt_timeout_ms == if old.inference.timeout_ms != new.inference.timeout_ms {
        Some(new.inference.timeout_ms)
    } else {
        None
    }
    &&& update.cooldown_ms == if old.wake_word.cooldown_ms != new.wake_word.cooldown_ms {
        Some(new.wake_word.cooldown_ms)
    } else {
        None
    }
}

/// Works out what the runtime has to replace when the configuration changes.
pub fn build_runtime_update(old: &CoreConfig, new: &CoreConfig) -> (update: RuntimeUpdate)
    ensures
        is_difference(update, old@, new@),
{
    RuntimeUpdate {
        commands: if !same_all(&old.commands, &new.commands) || old.matching != new.matching {
            Some(CommandRegistry::new(duplicate_all(&new.commands), new.matching.normalize_yo))
        } else {
            None
        },
        wake_words: if !same_text(&old.wake_word.keyword, &new.wake_word.keyword) || !same_all(
            &old.wake_word.aliases,
            &new.wake_word.aliases,
        ) {
            Some(new.wake_word.wake_words())
        } else {
            None
        },
        policy: if !old.policy.same_as(&new.policy) {
            Some(new.policy.duplicate())
        } else {
            None
        },
        stt_timeout_ms: if old.inference.timeout_ms != new.inference.timeout_ms {
            Some(new.inference.timeout_ms)
        } else {
            None
        },
        cooldown_ms: if old.wake_word.cooldown_ms != new.wake_word.cooldown_ms {
            Some(new.wake_word.cooldown_ms)
        } else {
            None
        },
    }
}

/// Builds what the runtime needs besides a recognizer.
pub fn build_runtime_components_without_stt(config: &CoreConfig) -> (components: Result<
    RuntimeComponents,
    CoreError,
>)
    ensures
        match (components, match validation_error(config@) {
            Some(message) => Some(message),
            None => handlers_error(
                stock_handlers(config@.commands),
                config@.commands,
                config@.commands.len() as int,
            ),
        }) {
            (Ok(components), None) => {
                &&& components.commands@ == registry_of(config@)
                &&& views(components.wake_words@) == config@.wake_word.phrases()
                &&& components.policy@ == config@.policy
                &&& components.stt_timeout_ms == config@.inference.timeout_ms
                &&& components.cooldown_ms == config@.wake_word.cooldown_ms
            },
            (Err(error), Some(message)) => error@ == ErrorView::Command(
                ConfigErrorView::Validation(message).message(),
            ),
            _ => false,
        },
{
    let handlers = match builtin_handlers(&config.commands) {
        Ok(handlers) => handlers,
        Err(error) => {
            return Err(error);
        },
    };
    proof {
        assert(builtin_registry(handlers@, config@.commands));
        builtin_verdicts_agree(
            handlers@,
            stock_handlers(config@.commands),
            config@.commands,
            config@.commands,
            config@.commands.len() as int,
        );
    }
    match config.validate_with_handlers(&handlers) {
        Err(error) => {
            return Err(CoreError::Command(error.to_string()));
        },
        Ok(_) => {},
    }
    Ok(
        RuntimeComponents {
            commands: CommandRegistry::new(
                duplicate_all(&config.commands),
                config.matching.normalize_yo,
            ),
            wake_words: config.wake_word.wake_words(),
            policy: config.policy.duplicate(),
            stt_timeout_ms: config.inference.timeout_ms,
            cooldown_ms: config.wake_word.cooldown_ms,
        },
    )
}

/// Changes of commands, confirmations, the microphone, and of timeouts and restarts do not recreate
/// STT; only a change of its model, its threads or its queue does.
pub proof fn other_changes_keep_stt(old: ConfigView, new: ConfigView)
    requires
        old.inference.model == new.inference.model,
        old.inference.threads == new.inference.threads,
        old.inference.queue_capacity == new.inference.queue_capacity,
    ensures
        !worker_changed(old, new),
{
}

/// A configuration that does not change leaves the runtime as it is, and a microphone session
/// whose levels are numbers goes on.
pub proof fn no_change_no_update(update: RuntimeUpdate, config: ConfigView)
    requires
        is_difference(update, config, config),
    ensures
        update.commands is None && update.wake_words is None && update.policy is None
            && update.stt_timeout_ms is None && update.cooldown_ms is None,
        !config.audio.vad_threshold.nan() && !config.wake_word.score.nan()
            && !config.wake_word.threshold.nan() ==> !session_changed(config, config),
{
}

/// A change of the configuration hands the runtime what changed, in its new form, and leaves out what
/// did not.
pub proof fn updates_hold_what_changed(update: RuntimeUpdate, old: ConfigView, new: ConfigView)
    requires
        is_difference(update, old, new),
    ensures
        update.commands is Some <==> old.commands != new.commands || old.matching != new.matching,
        update.commands matches Some(registry) ==> registry@.commands == new.commands
            && registry@.normalize_yo == new.matching.normalize_yo,
        update.wake_words is Some <==> old.wake_word.keyword != new.wake_word.keyword
            || old.wake_word.aliases != new.wake_word.aliases,
        update.wake_words matches Some(wake_words) ==> views(wake_words@) == seq![new.wake_word.keyword]
            + new.wake_word.aliases,
        update.policy is Some <==> old.policy != new.policy,
        update.policy matches Some(policy) ==> policy@ == new.policy,
        update.stt_timeout_ms is Some <==> old.inference.timeout_ms != new.inference.timeout_ms,
        update.stt_timeout_ms matches Some(timeout) ==> timeout == new.inference.timeout_ms,
        update.cooldown_ms is Some <==> old.wake_word.cooldown_ms != new.wake_word.cooldown_ms,
        update.cooldown_ms matches Some(cooldown) ==> cooldown == new.wake_word.cooldown_ms,
{
}

/// A configuration serves the stock daemon exactly if it is valid, the built-in handlers take its
/// commands, and the catalog has both models, the one for the wake word fit to spot keywords.
pub proof fn stock_configurations_are_complete(config: ConfigView)
    ensures
        stock_error(config) is None <==> {
            &&& validation_error(config) is None
            &&& handlers_error(
                stock_handlers(config.commands),
                config.commands,
                config.commands.len() as int,
            ) is None
            &&& find_model(catalog(), config.inference.model, 0) is Some
            &&& find_model(catalog(), config.wake_word.model, 0) matches Some(wake) && wake.mode
                is Streaming && wake.files.contains("lang/bpe.model"@)
        },
{
}

} // verus!
