//! Matching of phrases, handler schemas and the allowlists of built-in handlers.

use assistant_core::builtins::{
    builtin_handlers, builtin_schemas, parameter_allowlist, parse_click, parse_volume, require_allowlisted,
    validate_url, Invocation, LaunchAppExecutor,
};
use assistant_core::commands::{normalize, placeholder, CommandRegistry};
use assistant_core::config::{CommandActionConfig, CommandConfig, RiskLevel, SlotConfig, SlotType};
use assistant_core::domain::{CommandParameters, CommandResult, CoreError};
use assistant_core::handlers::{CommandHandler, HandlerRegistry, HandlerSchema};
use assistant_core::text_map::TextMap;

fn parameters(pairs: &[(&str, &str)]) -> CommandParameters {
    let mut map = TextMap::new();
    for (key, value) in pairs {
        map.insert(key.to_string(), value.to_string());
    }
    map
}

fn slots(name: &str, slot: SlotConfig) -> TextMap<SlotConfig> {
    let mut map = TextMap::new();
    map.insert(name.to_string(), slot);
    map
}

fn level_slot() -> SlotConfig {
    SlotConfig { value_type: SlotType::Integer, min: Some(0), max: Some(100), values: Vec::new() }
}

fn command(id: &str, phrase: &str, handler: &str, values: &[(&str, &str)]) -> CommandConfig {
    CommandConfig {
        id: id.into(),
        enabled: true,
        phrases: vec![phrase.into()],
        slots: TextMap::new(),
        handler: handler.into(),
        risk: RiskLevel::Low,
        requires_confirmation: false,
        timeout_ms: 1_000,
        parameters: parameters(values),
        actions: Vec::new(),
    }
}

fn volume_command() -> CommandConfig {
    let mut volume = command("volume", "громкость {level}", "set_volume", &[("level", "{level}")]);
    volume.slots = slots("level", level_slot());
    volume
}

#[test]
fn normalizes_russian_phrase() {
    assert_eq!(normalize("  Открой, Ёлку! ", true), "открой елку");
}

#[test]
fn normalization_keeps_yo_on_request() {
    assert_eq!(normalize("  Открой, Ёлку! ", false), "открой ёлку");
    assert_eq!(normalize("...", true), "");
    assert_eq!(normalize("A-1_b", true), "a 1 b");
}

#[test]
fn matches_command_after_known_wake_word_only() {
    let registry = CommandRegistry::new(
        vec![command("open", "открой блокнот", "launch_app", &[("executable", "notepad.exe")])],
        true,
    );
    assert!(registry.find_after_wake_word("ассистент, открой блокнот", "ассистент").is_some());
    assert!(registry.find_after_wake_word("что-нибудь открой блокнот", "ассистент").is_none());
    assert!(registry
        .find_after_wake_words(
            "помощник, открой блокнот",
            &vec!["ассистент".to_string(), "помощник".to_string()],
        )
        .is_some());
}

#[test]
fn captures_and_validates_typed_integer_slot() {
    let registry = CommandRegistry::new(vec![volume_command()], true);
    let matched = registry.match_text("Громкость 35").unwrap();
    assert_eq!(matched.slots.get("level").unwrap(), "35");
    assert!(registry.match_text("громкость 101").is_none());
}

#[test]
fn integer_slots_hold_canonical_numbers() {
    let registry = CommandRegistry::new(vec![volume_command()], true);
    assert_eq!(registry.match_text("громкость 007").unwrap().slots.get("level").unwrap(), "7");
    assert!(registry.match_text("громкость").is_none());
    assert!(registry.match_text("громкость много").is_none());
}

#[test]
fn text_and_boolean_slots_follow_their_policy() {
    let text = SlotConfig {
        value_type: SlotType::Text,
        min: None,
        max: None,
        values: vec!["Ёлка".into(), "дуб".into()],
    };
    assert_eq!(text.canonicalize("ЕЛКА", true).unwrap(), "елка");
    assert_eq!(text.canonicalize("елка", false), None);
    assert_eq!(text.sample(true).unwrap(), "елка");
    let flag = SlotConfig { value_type: SlotType::Boolean, min: None, max: None, values: Vec::new() };
    assert_eq!(flag.canonicalize("true", true).unwrap(), "true");
    assert_eq!(flag.canonicalize("yes", true), None);
    assert_eq!(flag.sample(true).unwrap(), "false");
    assert_eq!(level_slot().sample(true).unwrap(), "0");
}

#[test]
fn disabled_commands_are_not_selected() {
    let mut disabled = command("open", "открой блокнот", "launch_app", &[]);
    disabled.enabled = false;
    let registry = CommandRegistry::new(vec![disabled], true);
    assert!(registry.find("открой блокнот").is_none());
}

#[test]
fn placeholders_are_whole_braced_names() {
    assert_eq!(placeholder("{level}").unwrap(), "level");
    assert_eq!(placeholder("{}"), None);
    assert_eq!(placeholder("level}"), None);
    assert_eq!(placeholder("{a{b}"), None);
}

struct EchoHandler;

impl EchoHandler {
    fn execute(&self, parameters: &CommandParameters) -> Result<CommandResult, CoreError> {
        Ok(CommandResult { message: parameters.get("value").unwrap().clone() })
    }
}

impl CommandHandler for EchoHandler {
    fn schema(&self) -> HandlerSchema {
        HandlerSchema::new("echo", &vec!["value"], &Vec::new())
    }

    fn validate_parameters(&self, parameters: &CommandParameters) -> Result<(), CoreError> {
        self.schema().validate(parameters)
    }
}

#[test]
fn extension_handler_is_schema_checked_and_executed() {
    let mut handlers = HandlerRegistry::new();
    handlers.register(EchoHandler).unwrap();
    let accepted = parameters(&[("value", "ok")]);
    let found = handlers.authorize("echo", &accepted).unwrap();
    assert_eq!(found.execute(&accepted).unwrap().message, "ok");
    assert!(handlers.authorize("echo", &parameters(&[])).is_err());
    assert_eq!(handlers.schemas()[0].name, "echo");
    assert_eq!(handlers.handler_names(), vec!["echo".to_string()]);
}

#[test]
fn handlers_register_once_under_a_stable_name() {
    let mut handlers = HandlerRegistry::new();
    handlers.register(EchoHandler).unwrap();
    assert!(matches!(handlers.register(EchoHandler), Err(CoreError::Command(_))));
    assert!(matches!(
        handlers.authorize("missing", &parameters(&[])),
        Err(CoreError::Command(message)) if message == "unknown handler: missing"
    ));
    assert!(matches!(
        handlers.authorize("echo", &parameters(&[("value", "ok"), ("other", "x")])),
        Err(CoreError::Command(_))
    ));
}

#[test]
fn builtin_handler_values_are_validated() {
    let handlers = builtin_handlers(&Vec::new()).ok().unwrap();
    assert!(handlers.validate_action("open_url", &parameters(&[("url", "file:///secret")])).is_err());
    assert!(handlers.validate_action("set_volume", &parameters(&[("level", "101")])).is_err());
    assert!(handlers
        .validate_action("click_mouse", &parameters(&[("x", "10"), ("y", "20"), ("duration_ms", "0")]))
        .is_err());
}

#[test]
fn builtin_handler_values_within_limits_are_accepted() {
    let handlers = builtin_handlers(&Vec::new()).ok().unwrap();
    assert!(handlers.validate_action("open_url", &parameters(&[("url", "HTTPS://example.com/a?b")])).is_ok());
    assert!(validate_url("https://").is_err());
    assert!(validate_url("https://exa mple.com").is_err());
    assert_eq!(parse_volume(&parameters(&[("level", "100")])).unwrap(), 100);
    assert_eq!(parse_click(&parameters(&[("x", "-5"), ("y", "20")])).unwrap(), (-5, 20, 350));
    assert_eq!(
        parse_click(&parameters(&[("x", "1"), ("y", "2"), ("duration_ms", "10000")])).unwrap(),
        (1, 2, 10_000)
    );
    assert!(parse_click(&parameters(&[("x", "1"), ("y", "2"), ("duration_ms", "10001")])).is_err());
}

#[test]
fn builtin_handler_rejects_parameters_outside_command_allowlist() {
    let site = command("site", "site", "open_url", &[("url", "https://example.com")]);
    let handlers = builtin_handlers(&vec![site]).ok().unwrap();
    let outside = parameters(&[("_command_id", "site"), ("url", "https://example.org")]);
    let handler = handlers.authorize("open_url", &outside).ok().unwrap();
    assert!(handler.prepare(&outside).is_err());
}

#[test]
fn builtin_handlers_prepare_configured_actions() {
    let commands = vec![
        command("site", "site", "open_url", &[("url", "https://example.com")]),
        command("note", "note", "launch_app", &[("executable", "notepad.exe")]),
        volume_command(),
    ];
    let handlers = builtin_handlers(&commands).ok().unwrap();
    let site = parameters(&[("_command_id", "site"), ("url", "https://example.com")]);
    let prepared = handlers.authorize("open_url", &site).ok().unwrap().prepare(&site).unwrap();
    assert_eq!(prepared.invocation, Invocation::OpenUrl { url: "https://example.com".into() });
    let volume = parameters(&[("_command_id", "volume"), ("level", "35")]);
    let prepared = handlers.authorize("set_volume", &volume).ok().unwrap().prepare(&volume).unwrap();
    assert_eq!(prepared.invocation, Invocation::SetVolume { level: 35 });
    let note = parameters(&[("_command_id", "note"), ("executable", "notepad.exe")]);
    let prepared = LaunchAppExecutor::from_commands(&commands).prepare("launch_app", &note).unwrap();
    assert_eq!(prepared.invocation, Invocation::LaunchApp { executable: "notepad.exe".into() });
    assert_eq!(prepared.message, "launched note");
    let other = parameters(&[("_command_id", "other"), ("executable", "notepad.exe")]);
    assert!(LaunchAppExecutor::from_commands(&commands).prepare("launch_app", &other).is_err());
}

#[test]
fn builtin_allowlist_accepts_only_values_allowed_by_slot() {
    let allowlist = parameter_allowlist(&vec![volume_command()], "set_volume");
    assert!(require_allowlisted(&allowlist, &parameters(&[("_command_id", "volume"), ("level", "35")])).is_ok());
    assert!(require_allowlisted(&allowlist, &parameters(&[("_command_id", "volume"), ("level", "101")])).is_err());
}

#[test]
fn actions_of_a_sequence_are_allowlisted_for_their_handlers() {
    let mut sequence = command("demo", "demo", "", &[]);
    sequence.actions = vec![
        CommandActionConfig {
            handler: "open_url".into(),
            delay_ms: 0,
            parameters: parameters(&[("url", "https://example.com")]),
        },
        CommandActionConfig {
            handler: "set_volume".into(),
            delay_ms: 500,
            parameters: parameters(&[("level", "35")]),
        },
    ];
    let commands = vec![sequence];
    assert_eq!(parameter_allowlist(&commands, "open_url").len(), 1);
    assert_eq!(parameter_allowlist(&commands, "set_volume").len(), 1);
    assert_eq!(parameter_allowlist(&commands, "launch_app").len(), 0);
}

#[test]
fn builtin_schemas_are_sorted_by_name() {
    let names: Vec<String> = builtin_schemas(&Vec::new()).into_iter().map(|schema| schema.name).collect();
    assert_eq!(names, ["click_mouse", "launch_app", "open_url", "set_volume"]);
}

#[test]
fn exact_phrases_select_their_command() {
    let commands = vec![
        command("open", "открой блокнот", "launch_app", &[]),
        command("close", "закрой блокнот", "launch_app", &[]),
        volume_command(),
    ];
    let registry = CommandRegistry::new(commands, true);
    assert_eq!(registry.find("Закрой блокнот!").unwrap().id, "close");
    assert_eq!(registry.find("открой  блокнот").unwrap().id, "open");
    assert_eq!(registry.find("громкость 5").unwrap().id, "volume");
    assert!(registry.find("открой блокнот пожалуйста").is_none());
    assert_eq!(registry.normalized("Ёж"), "еж");
    let words = vec!["ассистент".to_string()];
    assert_eq!(registry.match_after_wake_words("ассистент громкость 7", &words).unwrap().command.id, "volume");
}

#[test]
fn canonical_values_stay_canonical() {
    let slot = level_slot();
    let canonical = slot.canonicalize("+035", true).unwrap();
    assert_eq!(canonical, "35");
    assert_eq!(slot.canonicalize(&canonical, true).unwrap(), canonical);
}

#[test]
fn normal_forms_stay_as_they_are() {
    for text in ["  Открой, Ёлку! ", "A-1_b", "ÅNGSTRÖM\u{a0}ΣΊΣΥΦΟΣ", "İstanbul", "...", "", "\t7\n"] {
        for fold in [true, false] {
            let form = normalize(text, fold);
            assert_eq!(normalize(&form, fold), form);
            assert_eq!(form.split(' ').filter(|word| !word.is_empty()).collect::<Vec<_>>().join(" "), form);
            assert!(form.chars().all(|c| c == ' ' || c.is_alphanumeric()));
            assert!(!fold || !form.contains('ё'));
        }
    }
}

#[test]
fn rests_behind_wake_words_are_texts_of_their_own() {
    let registry = CommandRegistry::new(vec![volume_command()], true);
    let words = vec!["Ассистент".to_string(), "Помощник".to_string()];
    for text in ["Ассистент, громкость 7", "помощник: громкость 7!", "помощникгромкость 7"] {
        let matched = registry.match_after_wake_words(text, &words).unwrap();
        let alone = registry.match_text("громкость 7").unwrap();
        assert_eq!(matched.command.id, alone.command.id);
        assert_eq!(matched.slots.get("level"), alone.slots.get("level"));
    }
    assert!(registry.match_after_wake_words("ассистент", &words).is_none());
}

#[test]
fn canonical_texts_stay_canonical() {
    let slot = SlotConfig {
        value_type: SlotType::Text,
        min: None,
        max: None,
        values: vec!["Ёлка".into(), "дуб".into()],
    };
    for (value, fold, expected) in [("ЁЛКА!", true, "елка"), ("Ёлка", false, "ёлка"), ("Дуб", true, "дуб")] {
        let canonical = slot.canonicalize(value, fold).unwrap();
        assert_eq!(canonical, expected);
        assert_eq!(slot.canonicalize(&canonical, fold).unwrap(), canonical);
    }
}
