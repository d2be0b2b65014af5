//! Structure, schema versions and application paths of configurations.

use assistant_core::builtins::builtin_handlers;
use assistant_core::config::{
    check_schema_version, check_toml_schema, AppPaths, AudioConfig, CommandActionConfig, CommandConfig, ConfigError,
    CoreConfig, InferenceConfig, IpcConfig, MatchingConfig, PolicyConfig, RiskLevel, SlotConfig, SlotType,
    WakeWordConfig, CURRENT_CONFIG_VERSION, DEFAULT_MODEL_ID,
};
use assistant_core::domain::CommandParameters;
use assistant_core::float32::Real32;
use assistant_core::reload::{
    audio_session_changed, build_restart_limits, build_runtime_components_without_stt, build_runtime_update,
    inference_worker_changed, models_are_shared, validate_stock_config,
};
use assistant_core::stt::{RestartBudget, RestartLimits};
use assistant_core::text_map::TextMap;

fn parameters(pairs: &[(&str, &str)]) -> CommandParameters {
    let mut map = TextMap::new();
    for (key, value) in pairs {
        map.insert(key.to_string(), value.to_string());
    }
    map
}

fn command(id: &str, phrases: &[&str], handler: &str, values: &[(&str, &str)]) -> CommandConfig {
    CommandConfig {
        id: id.into(),
        enabled: true,
        phrases: phrases.iter().map(|phrase| phrase.to_string()).collect(),
        slots: TextMap::new(),
        handler: handler.into(),
        risk: RiskLevel::Low,
        requires_confirmation: false,
        timeout_ms: 10_000,
        parameters: parameters(values),
        actions: Vec::new(),
    }
}

fn valid_config() -> CoreConfig {
    let mut volume = command("set_volume_voice", &["установи громкость {level}"], "set_volume", &[("level", "{level}")]);
    volume.slots.insert(
        "level".into(),
        SlotConfig { value_type: SlotType::Integer, min: Some(0), max: Some(100), values: Vec::new() },
    );
    let mut demo = command("browser_demo", &["покажи демо"], "", &[]);
    demo.risk = RiskLevel::High;
    demo.actions = vec![
        CommandActionConfig {
            handler: "open_url".into(),
            delay_ms: 0,
            parameters: parameters(&[("url", "https://example.com")]),
        },
        CommandActionConfig {
            handler: "click_mouse".into(),
            delay_ms: 500,
            parameters: parameters(&[("x", "100"), ("y", "200")]),
        },
    ];
    CoreConfig {
        schema_version: CURRENT_CONFIG_VERSION,
        audio: AudioConfig::default(),
        matching: MatchingConfig::default(),
        wake_word: WakeWordConfig::default(),
        inference: InferenceConfig::default(),
        policy: PolicyConfig::default(),
        ipc: IpcConfig::default(),
        commands: vec![
            command("open_notepad", &["открой блокнот", "запусти блокнот"], "launch_app", &[("executable", "notepad.exe")]),
            volume,
            demo,
        ],
    }
}

fn problem(config: &CoreConfig) -> String {
    config.validate().unwrap_err().to_string()
}

#[test]
fn example_is_valid() {
    valid_config().validate().unwrap();
    validate_stock_config(&valid_config()).unwrap();
}

#[test]
fn empty_audio_device_id_is_rejected_with_actionable_error() {
    let mut config = valid_config();
    config.audio.device_id = "  ".into();
    assert_eq!(
        problem(&config),
        "invalid config: audio.device_id must be non-empty; use \"default\" for the system input device"
    );
}

#[test]
fn normalized_phrase_collisions_are_rejected() {
    let mut config = valid_config();
    let mut duplicate = config.commands[0].clone();
    duplicate.id = "duplicate".into();
    duplicate.phrases = vec!["ОТКРОЙ, БЛОКНОТ!".into()];
    config.commands.push(duplicate);
    assert!(config.validate().is_err());
}

#[test]
fn parameter_slot_must_be_captured_by_every_phrase() {
    let mut config = valid_config();
    config.commands[1].phrases.push("установи обычную громкость".into());
    assert!(config.validate().is_err());
}

fn migrates(version: u16) {
    let text = format!("schema_version = {version}\n[audio]\ndevice_id = \"default\"\n");
    check_toml_schema(&text).unwrap();
    let mut config = valid_config();
    config.schema_version = version;
    assert_eq!(config.migrate().unwrap().schema_version, CURRENT_CONFIG_VERSION);
}

#[test]
fn schema_one_is_migrated() {
    migrates(1);
}

#[test]
fn schema_two_is_migrated() {
    migrates(2);
}

#[test]
fn schema_three_is_migrated() {
    migrates(3);
    assert_eq!(InferenceConfig::default().model, DEFAULT_MODEL_ID);
    assert_eq!(WakeWordConfig::default().model, DEFAULT_MODEL_ID);
}

#[test]
fn schema_four_is_migrated() {
    migrates(4);
}

#[test]
fn schema_five_is_migrated() {
    migrates(5);
}

#[test]
fn unknown_schemas_are_rejected() {
    let mut config = valid_config();
    config.schema_version = 7;
    assert_eq!(config.migrate().unwrap_err().to_string(), "invalid config: unsupported schema_version 7");
    assert!(matches!(check_toml_schema("schema_version = "), Err(ConfigError::Toml(_))));
    assert_eq!(
        check_toml_schema("audio = 1").unwrap_err(),
        ConfigError::Validation("schema_version is required".into())
    );
    assert_eq!(
        check_toml_schema("schema_version = -1").unwrap_err(),
        ConfigError::Validation("unsupported schema_version -1".into())
    );
    assert!(check_schema_version(Some(6)).is_ok());
    assert!(check_schema_version(None).is_err());
}

#[test]
fn duplicate_normalized_wake_word_alias_is_rejected() {
    let mut config = valid_config();
    config.wake_word.aliases = vec!["АССИСТЕНТ!".into()];
    assert!(config.validate().is_err());
}

#[test]
fn mouse_click_requires_high_risk_command() {
    let mut config = valid_config();
    config.commands[2].risk = RiskLevel::Low;
    let handlers = builtin_handlers(&config.commands).ok().unwrap();
    assert!(config.validate_with_handlers(&handlers).is_err());
}

#[test]
fn limits_are_checked() {
    let mut slow = valid_config();
    slow.audio.frame_ms = 4;
    assert!(slow.validate().is_err());
    let mut loud = valid_config();
    loud.audio.vad_threshold = Real32::from_bits(1.5f32.to_bits());
    assert!(loud.validate().is_err());
    let mut pipe = valid_config();
    pipe.ipc.pipe_name = "..\\other".into();
    assert_eq!(problem(&pipe), "invalid config: IPC pipe name or timeout is invalid");
    let mut version = valid_config();
    version.schema_version = 5;
    assert!(version.validate().is_err());
    let mut commandless = valid_config();
    commandless.commands.clear();
    assert!(commandless.validate().is_ok());
}

#[test]
fn models_must_be_in_the_catalog() {
    let mut unknown = valid_config();
    unknown.inference.model = "someone/else".into();
    assert_eq!(
        validate_stock_config(&unknown).unwrap_err().to_string(),
        "invalid config: model manifest failed: unsupported model: someone/else"
    );
    let mut deaf = valid_config();
    deaf.wake_word.model = "alphacep/vosk-model-tg".into();
    assert_eq!(
        validate_stock_config(&deaf).unwrap_err().to_string(),
        "invalid config: model alphacep/vosk-model-tg cannot be used for wake-word detection"
    );
}

#[test]
fn non_inference_config_changes_do_not_replace_stt() {
    let old = valid_config();
    let mut commands = old.clone();
    commands.commands[0].enabled = !commands.commands[0].enabled;
    let mut policy = old.clone();
    policy.policy.confirmations_enabled = !policy.policy.confirmations_enabled;
    let mut device = old.clone();
    device.audio.device_id = "another-device".into();
    for changed in [commands, policy, device] {
        assert!(!inference_worker_changed(&old, &changed));
    }
}

#[test]
fn only_worker_inference_settings_replace_stt() {
    let old = valid_config();
    let mut timeout = old.clone();
    timeout.inference.timeout_ms += 1;
    assert!(!inference_worker_changed(&old, &timeout));

    let mut threads = old.clone();
    threads.inference.threads += 1;
    assert!(inference_worker_changed(&old, &threads));
}

#[test]
fn restart_limits_reach_the_running_worker() {
    let old = valid_config();
    assert_eq!(build_restart_limits(&old, &old), None);
    let mut restarts = old.clone();
    restarts.inference.max_restarts = 7;
    restarts.inference.restart_backoff_ms = 900;
    assert!(!inference_worker_changed(&old, &restarts));
    let limits = build_restart_limits(&old, &restarts).unwrap();
    assert_eq!(limits, RestartLimits { max_restarts: 7, backoff_ms: 900 });
    let mut budget = RestartBudget::new(1, 500);
    assert_eq!(budget.take_restart().ok(), Some(500));
    assert!(budget.take_restart().is_err());
    budget.limit(limits);
    assert_eq!(budget.take_restart().ok(), Some(1_800));
    let mut queue = old.clone();
    queue.inference.queue_capacity += 1;
    assert!(inference_worker_changed(&old, &queue));
}

#[test]
fn updates_hold_only_what_changed() {
    let old = valid_config();
    let same = build_runtime_update(&old, &old);
    assert!(same.commands.is_none() && same.wake_words.is_none() && same.policy.is_none());
    assert!(same.stt_timeout_ms.is_none() && same.cooldown_ms.is_none());
    let mut new = old.clone();
    new.wake_word.aliases = vec!["помощник".into()];
    new.wake_word.cooldown_ms += 1;
    new.commands[0].enabled = false;
    let update = build_runtime_update(&old, &new);
    assert!(update.commands.is_some());
    assert_eq!(update.wake_words.unwrap(), ["ассистент", "помощник"]);
    assert_eq!(update.cooldown_ms, Some(new.wake_word.cooldown_ms));
    assert!(update.policy.is_none() && update.stt_timeout_ms.is_none());
    assert!(audio_session_changed(&old, &new));
    assert!(!audio_session_changed(&old, &old));
}

#[test]
fn components_come_from_a_valid_configuration() {
    let components = build_runtime_components_without_stt(&valid_config()).ok().unwrap();
    assert_eq!(components.wake_words, ["ассистент"]);
    assert!(components.commands.find("запусти блокнот").is_some());
    let mut broken = valid_config();
    broken.commands[0].handler = "format_disk".into();
    assert_eq!(
        build_runtime_components_without_stt(&broken).err().unwrap().to_string(),
        "command failed: invalid config: command open_notepad: command failed: unknown handler: format_disk"
    );
}

#[test]
fn identical_stt_and_wake_models_share_verification() {
    let mut config = valid_config();
    config.wake_word.model.clone_from(&config.inference.model);
    assert!(models_are_shared(&config));
    config.wake_word.model.push_str("-other");
    assert!(!models_are_shared(&config));
}

#[test]
fn application_paths_lie_below_local_data() {
    for local in ["/home/a/.local", "C:\\Users\\a\\AppData\\Local", "D:\\", "D:", "1:", "data/"] {
        let paths = AppPaths::discover(Some(local.into())).unwrap();
        let root = std::path::Path::new(local).join("VoiceAssistantCore");
        assert_eq!(std::path::Path::new(&paths.root), root);
        assert_eq!(std::path::Path::new(&paths.config), root.join("assistant.toml"));
        assert_eq!(std::path::Path::new(&paths.models), root.join("models"));
        assert_eq!(std::path::Path::new(&paths.logs), root.join("logs"));
        assert!(paths.root.starts_with(local) && paths.root.ends_with("VoiceAssistantCore"));
    }
    let separator = std::path::MAIN_SEPARATOR;
    let paths = AppPaths::discover(Some("local".into())).unwrap();
    assert_eq!(paths.root, format!("local{separator}VoiceAssistantCore"));
    assert_eq!(paths.models, format!("local{separator}VoiceAssistantCore{separator}models"));
    assert_eq!(AppPaths::discover(Some("data/".into())).unwrap().root, "data/VoiceAssistantCore");
    assert_eq!(
        AppPaths::discover(None).unwrap_err().to_string(),
        "invalid config: LOCALAPPDATA is unavailable on Windows"
    );
}

#[test]
fn command_ids_are_unique() {
    let mut config = valid_config();
    let mut twin = config.commands[0].clone();
    twin.phrases = vec!["что-то другое".into()];
    config.commands.push(twin);
    assert!(config.validate().is_err());
}
