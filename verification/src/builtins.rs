//! Built-in handlers: which actions they admit and what they ask of the system.

use crate::commands::{normalize, normalized, placeholder, placeholder_name};
use crate::config::{
    CommandConfig, CommandView, ConfigError, ConfigErrorView, CoreConfig, RiskLevel, SlotConfig, SlotType, SlotView,
};
use crate::domain::{CommandParameters, CoreError, ErrorView, Parameters};
use crate::handlers::{
    command_problem, fails_with, is_internal, set_of, CommandHandler, HandlerRegistry, HandlerSchema, SchemaView,
};
use crate::number::{
    decimal, in_range, parse_i32, parse_u64, parse_u8, push_decimal, signed_decimal, signed_decimal_text,
    signed_numeral, unsigned_numeral,
};
use crate::text::{char_is_whitespace, chars_of, is_whitespace, precedes, precedes_irreflexive, same_text, views};
use crate::text_map::{keys_increase, lookup, lookup_entry, lookup_position, Duplicate, TextMap};
use crate::validation::validation_error;
use vstd::prelude::*;

verus! {

/// What an allowlist admits as one parameter value.
pub enum AllowedValue {
    /// The configured value only.
    Exact(String),
    /// Whatever the slot's policy admits.
    Slot(SlotConfig),
}

/// What an [`AllowedValue`] admits.
pub enum RuleView {
    /// The configured value only.
    Exact(Seq<char>),
    /// Whatever the slot's policy admits.
    Slot(SlotView),
}

impl View for AllowedValue {
    type V = RuleView;

    open spec fn view(&self) -> RuleView {
        match self {
            AllowedValue::Exact(value) => RuleView::Exact(value@),
            AllowedValue::Slot(slot) => RuleView::Slot(slot@),
        }
    }
}

impl RuleView {
    /// Whether a value is admitted.
    pub open spec fn admits(self, value: Seq<char>) -> bool {
        match self {
            RuleView::Exact(expected) => expected == value,
            RuleView::Slot(slot) => if slot.value_type is Text {
                exists|i: int|
                    0 <= i < slot.values.len() && same_form(#[trigger] slot.values[i], value)
            } else {
                slot.canonical(value, false) is Some
            },
        }
    }
}

/// Whether two texts have the same normal form, with or without `ё`.
pub open spec fn same_form(left: Seq<char>, right: Seq<char>) -> bool {
    normalized(left, true) == normalized(right, true) || normalized(left, false) == normalized(
        right,
        false,
    )
}

/// Tells whether a value is admitted.
fn allowed_value_matches(rule: &AllowedValue, value: &str) -> (admitted: bool)
    ensures
        admitted == rule@.admits(value@),
{
    match rule {
        AllowedValue::Exact(expected) => same_text(expected, value),
        AllowedValue::Slot(slot) => {
            if matches!(slot.value_type, SlotType::Text) {
                let folded = normalize(value, true);
                let plain = normalize(value, false);
                let mut i: usize = 0;
                while i < slot.values.len()
                    invariant
                        0 <= i <= slot.values@.len(),
                        folded@ == normalized(value@, true),
                        plain@ == normalized(value@, false),
                        slot.value_type is Text,
                        rule@ == RuleView::Slot(slot@),
                        forall|j: int|
                            0 <= j < i ==> !same_form(#[trigger] slot@.values[j], value@),
                    decreases slot.values@.len() - i,
                {
                    assert(slot@.values[i as int] == slot.values@[i as int]@);
                    if normalize(&slot.values[i], true) == folded || normalize(&slot.values[i], false)
                        == plain {
                        return true;
                    }
                    i = i + 1;
                }
                false
            } else {
                slot.canonicalize(value, false).is_some()
            }
        },
    }
}

/// One admitted action of one command.
pub struct AllowedAction {
    /// Command identifier.
    pub command_id: String,
    /// Rules for the parameters.
    pub parameters: TextMap<AllowedValue>,
}

/// What an [`AllowedAction`] admits.
pub struct AllowedView {
    /// Command identifier.
    pub command_id: Seq<char>,
    /// Rules for the parameters.
    pub parameters: Seq<(Seq<char>, RuleView)>,
}

impl View for AllowedAction {
    type V = AllowedView;

    open spec fn view(&self) -> AllowedView {
        AllowedView { command_id: self.command_id@, parameters: self.parameters@ }
    }
}

/// The actions that a built-in handler admits.
pub type ParameterAllowlist = Vec<AllowedAction>;

/// The rule for one configured parameter value.
pub open spec fn rule_for(command: CommandView, value: Seq<char>) -> RuleView {
    match placeholder_name(value) {
        Some(name) => match lookup(command.slots, name) {
            Some(slot) => RuleView::Slot(slot),
            None => RuleView::Exact(value),
        },
        None => RuleView::Exact(value),
    }
}

/// The rules for the parameters of one action.
pub open spec fn rules_for(command: CommandView, parameters: Parameters) -> Seq<(Seq<char>, RuleView)> {
    Seq::new(
        parameters.len(),
        |i: int| (parameters[i].0, rule_for(command, parameters[i].1)),
    )
}

/// The first `count` actions of a command that go to a handler, as allowlist entries.
pub open spec fn allowed_actions(command: CommandView, handler: Seq<char>, count: int) -> Seq<AllowedView>
    decreases count,
{
    if count <= 0 {
        Seq::empty()
    } else {
        let earlier = allowed_actions(command, handler, count - 1);
        let action = command.resolved()[count - 1];
        if action.handler == handler {
            earlier.push(
                AllowedView {
                    command_id: command.id,
                    parameters: rules_for(command, action.parameters),
                },
            )
        } else {
            earlier
        }
    }
}

/// The allowlist of a handler that the first `count` commands make.
pub open spec fn allowlist(commands: Seq<CommandView>, handler: Seq<char>, count: int) -> Seq<AllowedView>
    decreases count,
{
    if count <= 0 {
        Seq::empty()
    } else {
        let earlier = allowlist(commands, handler, count - 1);
        let command = commands[count - 1];
        if command.enabled {
            earlier + allowed_actions(command, handler, command.resolved().len() as int)
        } else {
            earlier
        }
    }
}

/// The rule for one configured parameter value.
fn allowed_value(command: &CommandConfig, value: &str) -> (rule: AllowedValue)
    ensures
        rule@ == rule_for(command@, value@),
{
    match placeholder(value) {
        Some(name) => match command.slots.get(&name) {
            Some(slot) => AllowedValue::Slot(slot.duplicate()),
            None => AllowedValue::Exact(value.to_owned()),
        },
        None => AllowedValue::Exact(value.to_owned()),
    }
}

/// The rules for the parameters of one action.
fn allowed_parameters(command: &CommandConfig, parameters: &CommandParameters) -> (rules: TextMap<
    AllowedValue,
>)
    ensures
        rules@ == rules_for(command@, parameters@),
{
    let ghost all = rules_for(command@, parameters@);
    let mut rules: TextMap<AllowedValue> = TextMap::new();
    let mut i: usize = 0;
    let count: usize = parameters.len();
    assert(all.take(0) =~= rules@);
    while i < count
        invariant
            0 <= i <= count == parameters@.len(),
            all == rules_for(command@, parameters@),
            rules@ == all.take(i as int),
            crate::text_map::keys_increase(parameters@),
        decreases count - i,
    {
        proof {
            crate::text_map::inserted_last(all.take(i as int), all[i as int].0, all[i as int].1);
            assert(all.take(i + 1) =~= all.take(i as int).push(all[i as int]));
        }
        rules.insert(
            parameters.key_at(i).clone(),
            allowed_value(command, parameters.value_at(i)),
        );
        i = i + 1;
    }
    assert(all.take(i as int) =~= all);
    rules
}

/// Builds the allowlist of a handler from enabled commands.
pub fn parameter_allowlist(commands: &Vec<CommandConfig>, handler: &str) -> (list: ParameterAllowlist)
    ensures
        views(list@) == allowlist(views(commands@), handler@, commands@.len() as int),
{
    let mut list: ParameterAllowlist = Vec::new();
    assert(views(list@) =~= Seq::<AllowedView>::empty());
    let mut k: usize = 0;
    while k < commands.len()
        invariant
            0 <= k <= commands@.len(),
            views(list@) == allowlist(views(commands@), handler@, k as int),
        decreases commands@.len() - k,
    {
        let command = &commands[k];
        assert(views(commands@)[k as int] == command@);
        if command.enabled {
            let ghost earlier = views(list@);
            let actions = command.resolved_actions();
            let mut i: usize = 0;
            assert(earlier + allowed_actions(command@, handler@, 0) =~= earlier);
            while i < actions.len()
                invariant
                    0 <= i <= actions@.len(),
                    views(actions@) == command@.resolved(),
                    views(list@) == earlier + allowed_actions(command@, handler@, i as int),
                decreases actions@.len() - i,
            {
                assert(command@.resolved()[i as int] == actions@[i as int]@);
                if same_text(&actions[i].handler, handler) {
                    let ghost before = views(list@);
                    let entry = AllowedAction {
                        command_id: command.id.clone(),
                        parameters: allowed_parameters(command, &actions[i].parameters),
                    };
                    let ghost added = entry@;
                    list.push(entry);
                    assert(views(list@) =~= before.push(added));
                    assert(views(list@) =~= earlier + allowed_actions(command@, handler@, i + 1));
                }
                i = i + 1;
            }
        }
        k = k + 1;
    }
    list
}

/// The value of a parameter.
pub open spec fn parameter_value(parameters: Parameters, name: Seq<char>) -> Result<Seq<char>, ErrorView> {
    match lookup(parameters, name) {
        Some(value) => Ok(value),
        None => Err(ErrorView::Command("missing parameter: "@ + name)),
    }
}

/// Reads a parameter.
fn parameter<'a>(parameters: &'a CommandParameters, name: &str) -> (value: Result<&'a String, CoreError>)
    ensures
        match (value, parameter_value(parameters@, name@)) {
            (Ok(value), Ok(expected)) => value@ == expected,
            (Err(error), Err(expected)) => error@ == expected,
            _ => false,
        },
{
    match parameters.get(name) {
        Some(value) => Ok(value),
        None => {
            let mut message = "missing parameter: ".to_owned();
            message.append(name);
            Err(CoreError::Command(message))
        },
    }
}

/// How many of the first `count` parameters do not belong to the runtime.
pub open spec fn configured_count(parameters: Parameters, count: int) -> nat
    decreases count,
{
    if count <= 0 {
        0
    } else {
        configured_count(parameters, count - 1) + if is_internal(parameters[count - 1].0) {
            0nat
        } else {
            1nat
        }
    }
}

/// Whether an allowlist entry covers configured parameters: the same number, and every rule
/// admits the value under its name.
pub open spec fn covers(rules: Seq<(Seq<char>, RuleView)>, parameters: Parameters) -> bool {
    &&& rules.len() == configured_count(parameters, parameters.len() as int)
    &&& forall|i: int|
        0 <= i < rules.len() ==> rule_holds(#[trigger] rules[i], parameters)
}

/// Whether a rule admits the configured value under its name.
pub open spec fn rule_holds(rule: (Seq<char>, RuleView), parameters: Parameters) -> bool {
    !is_internal(rule.0) && (lookup(parameters, rule.0) matches Some(value) && rule.1.admits(value))
}

/// What is wrong with an action for an allowlist.
pub open spec fn allowlist_problem(list: Seq<AllowedView>, parameters: Parameters) -> Option<ErrorView> {
    match parameter_value(parameters, "_command_id"@) {
        Err(error) => Some(error),
        Ok(command_id) => if exists|i: int|
            0 <= i < list.len() && (#[trigger] list[i]).command_id == command_id && covers(
                list[i].parameters,
                parameters,
            ) {
            None
        } else {
            Some(ErrorView::Command("action is not allowlisted"@))
        },
    }
}

/// Counts the parameters that do not belong to the runtime.
fn count_configured(parameters: &CommandParameters) -> (count: usize)
    ensures
        count == configured_count(parameters@, parameters@.len() as int),
{
    let mut count: usize = 0;
    let mut i: usize = 0;
    while i < parameters.len()
        invariant
            0 <= i <= parameters@.len(),
            count <= i,
            count == configured_count(parameters@, i as int),
        decreases parameters@.len() - i,
    {
        if !crate::handlers::internal(parameters.key_at(i)) {
            count = count + 1;
        }
        i = i + 1;
    }
    count
}

/// Tells whether an allowlist entry covers configured parameters.
fn entry_covers(rules: &TextMap<AllowedValue>, parameters: &CommandParameters) -> (answer: bool)
    ensures
        answer == covers(rules@, parameters@),
{
    if rules.len() != count_configured(parameters) {
        return false;
    }
    let mut i: usize = 0;
    while i < rules.len()
        invariant
            0 <= i <= rules@.len(),
            forall|j: int| 0 <= j < i ==> rule_holds(#[trigger] rules@[j], parameters@),
        decreases rules@.len() - i,
    {
        let name = rules.key_at(i);
        let holds = match parameters.get(name) {
            Some(value) => !crate::handlers::internal(name) && allowed_value_matches(
                rules.value_at(i),
                value,
            ),
            None => false,
        };
        assert(holds == rule_holds(rules@[i as int], parameters@));
        if !holds {
            return false;
        }
        i = i + 1;
    }
    true
}

/// Rejects an action that no allowlist entry of its command covers.
pub fn require_allowlisted(list: &ParameterAllowlist, parameters: &CommandParameters) -> (checked: Result<
    (),
    CoreError,
>)
    ensures
        fails_with(checked, allowlist_problem(views(list@), parameters@)),
{
    let command_id = match parameter(parameters, "_command_id") {
        Ok(value) => value,
        Err(error) => {
            return Err(error);
        },
    };
    let mut i: usize = 0;
    while i < list.len()
        invariant
            0 <= i <= list@.len(),
            parameter_value(parameters@, "_command_id"@) == Ok::<Seq<char>, ErrorView>(command_id@),
            forall|j: int|
                0 <= j < i ==> !((#[trigger] views(list@)[j]).command_id == command_id@ && covers(
                    views(list@)[j].parameters,
                    parameters@,
                )),
        decreases list@.len() - i,
    {
        assert(views(list@)[i as int] == list@[i as int]@);
        if same_text(&list[i].command_id, command_id) && entry_covers(
            &list[i].parameters,
            parameters,
        ) {
            return Ok(());
        }
        i = i + 1;
    }
    Err(CoreError::Command("action is not allowlisted".to_owned()))
}

/// The position of the first `://` from `from` on.
pub open spec fn scheme_end(url: Seq<char>, from: int) -> Option<int>
    decreases url.len() - from,
{
    if from < 0 || from + 3 > url.len() {
        None
    } else if url[from] == ':' && url[from + 1] == '/' && url[from + 2] == '/' {
        Some(from)
    } else {
        scheme_end(url, from + 1)
    }
}

/// An ASCII upper-case letter in lower case; any other character unchanged.
pub open spec fn ascii_lower(c: char) -> char {
    if 'A' <= c <= 'Z' {
        (c as u32 + 32) as char
    } else {
        c
    }
}

/// A text with its ASCII letters in lower case.
pub open spec fn ascii_lowered(text: Seq<char>) -> Seq<char> {
    text.map_values(|c: char| ascii_lower(c))
}

/// Whether a text is a web scheme, in any case.
pub open spec fn is_web_scheme(scheme: Seq<char>) -> bool {
    let lowered = ascii_lowered(scheme);
    lowered == seq!['h', 't', 't', 'p'] || lowered == seq!['h', 't', 't', 'p', 's']
}

/// What is wrong with a URL.
pub open spec fn url_problem(url: Seq<char>) -> Option<ErrorView> {
    match scheme_end(url, 0) {
        None => Some(ErrorView::Command("url must use http or https"@)),
        Some(end) => if is_web_scheme(url.take(end)) && end + 3 < url.len() && (forall|i: int|
            0 <= i < url.len() ==> !is_whitespace(#[trigger] url[i])) {
            None
        } else {
            Some(
                ErrorView::Command(
                    "url must be a non-empty HTTP(S) URL without whitespace"@,
                ),
            )
        },
    }
}

/// Tells whether a character equals a lower-case letter, in any case.
fn same_letter(c: char, lower: char) -> (same: bool)
    requires
        'a' <= lower <= 'z',
    ensures
        same == (ascii_lower(c) == lower),
{
    if c >= 'A' && c <= 'Z' {
        c as u32 + 32 == lower as u32
    } else {
        c == lower
    }
}

/// Tells whether the first characters are a web scheme.
fn has_web_scheme(chars: &Vec<char>, end: usize) -> (answer: bool)
    requires
        end <= chars@.len(),
    ensures
        answer == is_web_scheme(chars@.take(end as int)),
{
    let ghost lowered = ascii_lowered(chars@.take(end as int));
    if end != 4 && end != 5 {
        assert(lowered.len() == end);
        assert(seq!['h', 't', 't', 'p'].len() == 4);
        assert(seq!['h', 't', 't', 'p', 's'].len() == 5);
        return false;
    }
    let http = same_letter(chars[0], 'h') && same_letter(chars[1], 't') && same_letter(
        chars[2],
        't',
    ) && same_letter(chars[3], 'p');
    let secure = end == 4 || same_letter(chars[4], 's');
    proof {
        assert(lowered.len() == end);
        assert(lowered[0] == ascii_lower(chars@[0]));
        assert(lowered[1] == ascii_lower(chars@[1]));
        assert(lowered[2] == ascii_lower(chars@[2]));
        assert(lowered[3] == ascii_lower(chars@[3]));
        if end == 4 {
            assert(http ==> lowered =~= seq!['h', 't', 't', 'p']);
        } else {
            assert(lowered[4] == ascii_lower(chars@[4]));
            assert(http && secure ==> lowered =~= seq!['h', 't', 't', 'p', 's']);
        }
    }
    http && secure
}

/// Validates a URL.
pub fn validate_url(url: &str) -> (checked: Result<(), CoreError>)
    ensures
        fails_with(checked, url_problem(url@)),
{
    let chars = chars_of(url);
    let mut end: usize = 0;
    while end < chars.len() && chars.len() - end >= 3 && !(chars[end] == ':' && chars[end + 1] == '/'
        && chars[end + 2] == '/')
        invariant
            0 <= end <= chars@.len(),
            chars@ == url@,
            scheme_end(url@, 0) == scheme_end(url@, end as int),
        decreases chars@.len() - end,
    {
        end = end + 1;
    }
    if chars.len() - end < 3 {
        return Err(CoreError::Command("url must use http or https".to_owned()));
    }
    let mut i: usize = 0;
    let mut spaced: bool = false;
    while i < chars.len()
        invariant
            0 <= i <= chars@.len(),
            chars@ == url@,
            !spaced ==> forall|j: int| 0 <= j < i ==> !is_whitespace(#[trigger] url@[j]),
            spaced ==> exists|j: int| 0 <= j < i && is_whitespace(#[trigger] url@[j]),
        decreases chars@.len() - i,
    {
        if char_is_whitespace(chars[i]) {
            assert(is_whitespace(url@[i as int]));
            spaced = true;
        }
        i = i + 1;
    }
    if !has_web_scheme(&chars, end) || end + 3 == chars.len() || spaced {
        return Err(
            CoreError::Command(
                "url must be a non-empty HTTP(S) URL without whitespace".to_owned(),
            ),
        );
    }
    Ok(())
}

/// The volume level that parameters name.
pub open spec fn volume_level(parameters: Parameters) -> Result<int, ErrorView> {
    match parameter_value(parameters, "level"@) {
        Err(error) => Err(error),
        Ok(text) => match in_range(unsigned_numeral(text), 0, 100) {
            Some(level) => Ok(level),
            None => Err(ErrorView::Command("level must be an integer from 0 to 100"@)),
        },
    }
}

/// Reads the volume level.
pub fn parse_volume(parameters: &CommandParameters) -> (level: Result<u8, CoreError>)
    ensures
        match (level, volume_level(parameters@)) {
            (Ok(level), Ok(expected)) => level == expected,
            (Err(error), Err(expected)) => error@ == expected,
            _ => false,
        },
{
    match parameter(parameters, "level") {
        Err(error) => Err(error),
        Ok(text) => {
            match parse_u8(text) {
                Some(level) => {
                    if level <= 100 {
                        return Ok(level);
                    }
                },
                None => {},
            }
            Err(CoreError::Command("level must be an integer from 0 to 100".to_owned()))
        },
    }
}

/// The coordinate that a parameter names.
pub open spec fn coordinate(parameters: Parameters, name: Seq<char>) -> Result<int, ErrorView> {
    match parameter_value(parameters, name) {
        Err(error) => Err(error),
        Ok(text) => match in_range(signed_numeral(text), i32::MIN as int, i32::MAX as int) {
            Some(value) => Ok(value),
            None => Err(ErrorView::Command(name + " must be a 32-bit integer"@)),
        },
    }
}

/// Reads a coordinate.
fn parse_coordinate(parameters: &CommandParameters, name: &str) -> (value: Result<i32, CoreError>)
    ensures
        match (value, coordinate(parameters@, name@)) {
            (Ok(value), Ok(expected)) => value == expected,
            (Err(error), Err(expected)) => error@ == expected,
            _ => false,
        },
{
    match parameter(parameters, name) {
        Err(error) => Err(error),
        Ok(text) => match parse_i32(text) {
            Some(value) => Ok(value),
            None => {
                let mut message = name.to_owned();
                message.append(" must be a 32-bit integer");
                Err(CoreError::Command(message))
            },
        },
    }
}

/// The duration of a click movement that parameters name, 350 ms where they name none.
pub open spec fn click_duration(parameters: Parameters) -> Result<int, ErrorView> {
    let duration = match lookup(parameters, "duration_ms"@) {
        None => Some(350int),
        Some(text) => in_range(unsigned_numeral(text), 0, u64::MAX as int),
    };
    match duration {
        None => Err(ErrorView::Command("duration_ms must be an integer"@)),
        Some(duration) => if 100 <= duration <= 10_000 {
            Ok(duration)
        } else {
            Err(ErrorView::Command("duration_ms must be from 100 to 10000"@))
        },
    }
}

/// The click that parameters describe.
pub open spec fn click_target(parameters: Parameters) -> Result<(int, int, int), ErrorView> {
    match click_duration(parameters) {
        Err(error) => Err(error),
        Ok(duration) => match coordinate(parameters, "x"@) {
            Err(error) => Err(error),
            Ok(x) => match coordinate(parameters, "y"@) {
                Err(error) => Err(error),
                Ok(y) => Ok((x, y, duration)),
            },
        },
    }
}

/// Reads the click that parameters describe.
pub fn parse_click(parameters: &CommandParameters) -> (click: Result<(i32, i32, u64), CoreError>)
    ensures
        match (click, click_target(parameters@)) {
            (Ok(click), Ok(expected)) => click.0 == expected.0 && click.1 == expected.1 && click.2
                == expected.2,
            (Err(error), Err(expected)) => error@ == expected,
            _ => false,
        },
{
    let duration_ms: u64 = match parameters.get("duration_ms") {
        None => 350,
        Some(text) => match parse_u64(text) {
            Some(value) => value,
            None => {
                return Err(CoreError::Command("duration_ms must be an integer".to_owned()));
            },
        },
    };
    if !(100 <= duration_ms && duration_ms <= 10_000) {
        return Err(CoreError::Command("duration_ms must be from 100 to 10000".to_owned()));
    }
    let x: i32 = match parse_coordinate(parameters, "x") {
        Ok(value) => value,
        Err(error) => {
            return Err(error);
        },
    };
    let y: i32 = match parse_coordinate(parameters, "y") {
        Ok(value) => value,
        Err(error) => {
            return Err(error);
        },
    };
    Ok((x, y, duration_ms))
}

/// One effect on the system that a built-in handler asks for.
#[derive(Debug, Clone, PartialEq, Eq)]
pub enum Invocation {
    /// Start an executable.
    LaunchApp {
        /// The executable.
        executable: String,
    },
    /// Open a URL in the default browser.
    OpenUrl {
        /// The URL.
        url: String,
    },
    /// Set the volume of the default render endpoint.
    SetVolume {
        /// Level in percent.
        level: u8,
    },
    /// Move the cursor smoothly and click.
    ClickMouse {
        /// Horizontal screen coordinate.
        x: i32,
        /// Vertical screen coordinate.
        y: i32,
        /// Duration of the movement.
        duration_ms: u64,
    },
}

/// What an [`Invocation`] asks for.
pub enum InvocationView {
    /// Start an executable.
    LaunchApp { executable: Seq<char> },
    /// Open a URL.
    OpenUrl { url: Seq<char> },
    /// Set the volume.
    SetVolume { level: int },
    /// Move the cursor and click.
    ClickMouse { x: int, y: int, duration_ms: int },
}

impl View for Invocation {
    type V = InvocationView;

    open spec fn view(&self) -> InvocationView {
        match self {
            Invocation::LaunchApp { executable } => InvocationView::LaunchApp {
                executable: executable@,
            },
            Invocation::OpenUrl { url } => InvocationView::OpenUrl { url: url@ },
            Invocation::SetVolume { level } => InvocationView::SetVolume { level: *level as int },
            Invocation::ClickMouse { x, y, duration_ms } => InvocationView::ClickMouse {
                x: *x as int,
                y: *y as int,
                duration_ms: *duration_ms as int,
            },
        }
    }
}

/// An admitted invocation with the message that reports its success.
#[derive(Debug, Clone, PartialEq, Eq)]
pub struct Prepared {
    /// The effect to carry out.
    pub invocation: Invocation,
    /// The result message once it is carried out.
    pub message: String,
}

/// Whether a preparation came out as expected.
pub open spec fn prepares(
    prepared: Result<Prepared, CoreError>,
    expected: Result<(InvocationView, Seq<char>), ErrorView>,
) -> bool {
    match (prepared, expected) {
        (Ok(prepared), Ok((invocation, message))) => prepared.invocation@ == invocation
            && prepared.message@ == message,
        (Err(error), Err(expected)) => error@ == expected,
        _ => false,
    }
}

/// The invocation that `launch_app` makes of parameters.
pub open spec fn launch_plan(list: Seq<AllowedView>, parameters: Parameters) -> Result<
    (InvocationView, Seq<char>),
    ErrorView,
> {
    match allowlist_problem(list, parameters) {
        Some(error) => Err(error),
        None => match parameter_value(parameters, "executable"@) {
            Err(error) => Err(error),
            Ok(executable) => Ok(
                (
                    InvocationView::LaunchApp { executable },
                    "launched "@ + parameter_value(parameters, "_command_id"@)->Ok_0,
                ),
            ),
        },
    }
}

/// The invocation that `open_url` makes of parameters.
pub open spec fn url_plan(list: Seq<AllowedView>, parameters: Parameters) -> Result<
    (InvocationView, Seq<char>),
    ErrorView,
> {
    match allowlist_problem(list, parameters) {
        Some(error) => Err(error),
        None => match parameter_value(parameters, "url"@) {
            Err(error) => Err(error),
            Ok(url) => Ok((InvocationView::OpenUrl { url }, "opened URL"@)),
        },
    }
}

/// The invocation that `set_volume` makes of parameters.
pub open spec fn volume_plan(list: Seq<AllowedView>, parameters: Parameters) -> Result<
    (InvocationView, Seq<char>),
    ErrorView,
> {
    match allowlist_problem(list, parameters) {
        Some(error) => Err(error),
        None => match volume_level(parameters) {
            Err(error) => Err(error),
            Ok(level) => Ok(
                (
                    InvocationView::SetVolume { level },
                    "volume set to "@ + decimal(level as nat),
                ),
            ),
        },
    }
}

/// The invocation that `click_mouse` makes of parameters.
pub open spec fn click_plan(list: Seq<AllowedView>, parameters: Parameters) -> Result<
    (InvocationView, Seq<char>),
    ErrorView,
> {
    match allowlist_problem(list, parameters) {
        Some(error) => Err(error),
        None => match click_target(parameters) {
            Err(error) => Err(error),
            Ok((x, y, duration_ms)) => Ok(
                (
                    InvocationView::ClickMouse { x, y, duration_ms },
                    "clicked at "@ + signed_decimal(x) + ","@ + signed_decimal(y),
                ),
            ),
        },
    }
}

/// Built-in executor for configured application allowlist entries.
pub struct LaunchAppExecutor {
    allowlist: ParameterAllowlist,
}

impl View for LaunchAppExecutor {
    type V = Seq<AllowedView>;

    closed spec fn view(&self) -> Seq<AllowedView> {
        views(self.allowlist@)
    }
}

impl LaunchAppExecutor {
    /// Builds an executable allowlist from enabled `launch_app` commands.
    pub fn from_commands(commands: &Vec<CommandConfig>) -> (executor: Self)
        ensures
            executor@ == allowlist(views(commands@), "launch_app"@, commands@.len() as int),
    {
        LaunchAppExecutor { allowlist: parameter_allowlist(commands, "launch_app") }
    }

    /// Admits one launch of an allowlisted executable.
    pub fn prepare(&self, handler: &str, parameters: &CommandParameters) -> (prepared: Result<
        Prepared,
        CoreError,
    >)
        ensures
            handler@ != "launch_app"@ ==> prepares(
                prepared,
                Err(ErrorView::Command("handler is not allowlisted"@)),
            ),
            handler@ == "launch_app"@ ==> prepares(prepared, launch_plan(self@, parameters@)),
    {
        if !same_text(handler, "launch_app") {
            return Err(CoreError::Command("handler is not allowlisted".to_owned()));
        }
        match require_allowlisted(&self.allowlist, parameters) {
            Err(error) => {
                return Err(error);
            },
            Ok(_) => {},
        }
        match parameter(parameters, "executable") {
            Err(error) => Err(error),
            Ok(executable) => {
                let mut message = "launched ".to_owned();
                match parameters.get("_command_id") {
                    Some(command_id) => {
                        message.append(command_id);
                    },
                    None => {},
                }
                Ok(
                    Prepared {
                        invocation: Invocation::LaunchApp { executable: executable.clone() },
                        message,
                    },
                )
            },
        }
    }
}

/// Built-in `launch_app` extension restricted to configured command IDs.
pub struct LaunchAppHandler(LaunchAppExecutor);

impl View for LaunchAppHandler {
    type V = Seq<AllowedView>;

    closed spec fn view(&self) -> Seq<AllowedView> {
        self.0@
    }
}

impl LaunchAppHandler {
    /// Builds the executable allowlist from validated commands.
    pub fn from_commands(commands: &Vec<CommandConfig>) -> (handler: Self)
        ensures
            handler@ == allowlist(views(commands@), "launch_app"@, commands@.len() as int),
    {
        LaunchAppHandler(LaunchAppExecutor::from_commands(commands))
    }

    /// Admits one launch of an allowlisted executable.
    pub fn prepare(&self, parameters: &CommandParameters) -> (prepared: Result<Prepared, CoreError>)
        ensures
            prepares(prepared, launch_plan(self@, parameters@)),
    {
        self.0.prepare("launch_app", parameters)
    }
}

/// Built-in `open_url` extension restricted to configured HTTP(S) URLs.
pub struct OpenUrlHandler {
    allowlist: ParameterAllowlist,
}

impl View for OpenUrlHandler {
    type V = Seq<AllowedView>;

    closed spec fn view(&self) -> Seq<AllowedView> {
        views(self.allowlist@)
    }
}

impl OpenUrlHandler {
    /// Builds the URL allowlist from validated commands.
    pub fn from_commands(commands: &Vec<CommandConfig>) -> (handler: Self)
        ensures
            handler@ == allowlist(views(commands@), "open_url"@, commands@.len() as int),
    {
        OpenUrlHandler { allowlist: parameter_allowlist(commands, "open_url") }
    }

    /// Admits one allowlisted URL.
    pub fn prepare(&self, parameters: &CommandParameters) -> (prepared: Result<Prepared, CoreError>)
        ensures
            prepares(prepared, url_plan(self@, parameters@)),
    {
        match require_allowlisted(&self.allowlist, parameters) {
            Err(error) => {
                return Err(error);
            },
            Ok(_) => {},
        }
        match parameter(parameters, "url") {
            Err(error) => Err(error),
            Ok(url) => Ok(
                Prepared {
                    invocation: Invocation::OpenUrl { url: url.clone() },
                    message: "opened URL".to_owned(),
                },
            ),
        }
    }
}

/// Built-in `set_volume` extension for the default render endpoint.
pub struct SetVolumeHandler {
    allowlist: ParameterAllowlist,
}

impl View for SetVolumeHandler {
    type V = Seq<AllowedView>;

    closed spec fn view(&self) -> Seq<AllowedView> {
        views(self.allowlist@)
    }
}

impl SetVolumeHandler {
    /// Builds the level allowlist from validated commands.
    pub fn from_commands(commands: &Vec<CommandConfig>) -> (handler: Self)
        ensures
            handler@ == allowlist(views(commands@), "set_volume"@, commands@.len() as int),
    {
        SetVolumeHandler { allowlist: parameter_allowlist(commands, "set_volume") }
    }

    /// Admits one allowlisted level.
    pub fn prepare(&self, parameters: &CommandParameters) -> (prepared: Result<Prepared, CoreError>)
        ensures
            prepares(prepared, volume_plan(self@, parameters@)),
    {
        match require_allowlisted(&self.allowlist, parameters) {
            Err(error) => {
                return Err(error);
            },
            Ok(_) => {},
        }
        match parse_volume(parameters) {
            Err(error) => Err(error),
            Ok(level) => {
                let mut message = "volume set to ".to_owned();
                push_decimal(&mut message, level as u64);
                Ok(Prepared { invocation: Invocation::SetVolume { level }, message })
            },
        }
    }
}

/// Built-in high-risk mouse click with bounded smooth cursor movement.
pub struct ClickMouseHandler {
    allowlist: ParameterAllowlist,
}

impl View for ClickMouseHandler {
    type V = Seq<AllowedView>;

    closed spec fn view(&self) -> Seq<AllowedView> {
        views(self.allowlist@)
    }
}

impl ClickMouseHandler {
    /// Builds the click allowlist from validated commands.
    pub fn from_commands(commands: &Vec<CommandConfig>) -> (handler: Self)
        ensures
            handler@ == allowlist(views(commands@), "click_mouse"@, commands@.len() as int),
    {
        ClickMouseHandler { allowlist: parameter_allowlist(commands, "click_mouse") }
    }

    /// Admits one allowlisted click.
    pub fn prepare(&self, parameters: &CommandParameters) -> (prepared: Result<Prepared, CoreError>)
        ensures
            prepares(prepared, click_plan(self@, parameters@)),
    {
        match require_allowlisted(&self.allowlist, parameters) {
            Err(error) => {
                return Err(error);
            },
            Ok(_) => {},
        }
        match parse_click(parameters) {
            Err(error) => Err(error),
            Ok((x, y, duration_ms)) => {
                let mut message = "clicked at ".to_owned();
                message.append(&signed_decimal_text(x as i64));
                message.append(",");
                message.append(&signed_decimal_text(y as i64));
                Ok(Prepared { invocation: Invocation::ClickMouse { x, y, duration_ms }, message })
            },
        }
    }
}

/// The schema of a built-in handler.
pub open spec fn builtin_schema(name: Seq<char>, required: Seq<Seq<char>>, optional: Seq<Seq<char>>) -> SchemaView {
    SchemaView {
        name,
        required: set_of(required, required.len() as int),
        optional: set_of(optional, optional.len() as int),
    }
}

/// The schema of `launch_app`.
pub open spec fn launch_schema() -> SchemaView {
    builtin_schema("launch_app"@, seq!["executable"@], Seq::empty())
}

/// The schema of `open_url`.
pub open spec fn url_schema() -> SchemaView {
    builtin_schema("open_url"@, seq!["url"@], Seq::empty())
}

/// The schema of `set_volume`.
pub open spec fn volume_schema() -> SchemaView {
    builtin_schema("set_volume"@, seq!["level"@], Seq::empty())
}

/// The schema of `click_mouse`.
pub open spec fn click_schema() -> SchemaView {
    builtin_schema("click_mouse"@, seq!["x"@, "y"@], seq!["duration_ms"@])
}

/// One of the built-in handlers.
pub enum BuiltinHandler {
    /// `launch_app`.
    LaunchApp(LaunchAppHandler),
    /// `open_url`.
    OpenUrl(OpenUrlHandler),
    /// `set_volume`.
    SetVolume(SetVolumeHandler),
    /// `click_mouse`.
    ClickMouse(ClickMouseHandler),
}

impl BuiltinHandler {
    /// The actions that the handler admits.
    pub open spec fn admits(self) -> Seq<AllowedView> {
        match self {
            BuiltinHandler::LaunchApp(handler) => handler@,
            BuiltinHandler::OpenUrl(handler) => handler@,
            BuiltinHandler::SetVolume(handler) => handler@,
            BuiltinHandler::ClickMouse(handler) => handler@,
        }
    }

    /// The invocation that the handler makes of parameters.
    pub open spec fn plan(self, parameters: Parameters) -> Result<(InvocationView, Seq<char>), ErrorView> {
        match self {
            BuiltinHandler::LaunchApp(handler) => launch_plan(handler@, parameters),
            BuiltinHandler::OpenUrl(handler) => url_plan(handler@, parameters),
            BuiltinHandler::SetVolume(handler) => volume_plan(handler@, parameters),
            BuiltinHandler::ClickMouse(handler) => click_plan(handler@, parameters),
        }
    }

    /// Admits one allowlisted invocation.
    pub fn prepare(&self, parameters: &CommandParameters) -> (prepared: Result<Prepared, CoreError>)
        ensures
            prepares(prepared, self.plan(parameters@)),
    {
        match self {
            BuiltinHandler::LaunchApp(handler) => handler.prepare(parameters),
            BuiltinHandler::OpenUrl(handler) => handler.prepare(parameters),
            BuiltinHandler::SetVolume(handler) => handler.prepare(parameters),
            BuiltinHandler::ClickMouse(handler) => handler.prepare(parameters),
        }
    }
}

/// The error of a result, if it has one.
pub open spec fn error_of<T>(result: Result<T, ErrorView>) -> Option<ErrorView> {
    match result {
        Ok(_) => None,
        Err(error) => Some(error),
    }
}

impl CommandHandler for BuiltinHandler {
    open spec fn declares(&self) -> SchemaView {
        match self {
            BuiltinHandler::LaunchApp(_) => launch_schema(),
            BuiltinHandler::OpenUrl(_) => url_schema(),
            BuiltinHandler::SetVolume(_) => volume_schema(),
            BuiltinHandler::ClickMouse(_) => click_schema(),
        }
    }

    open spec fn rejects(&self, parameters: Parameters) -> Option<ErrorView> {
        match self.declares().error(parameters) {
            Some(error) => Some(error),
            None => match self {
                BuiltinHandler::LaunchApp(_) => None,
                BuiltinHandler::OpenUrl(_) => match parameter_value(parameters, "url"@) {
                    Err(error) => Some(error),
                    Ok(url) => url_problem(url),
                },
                BuiltinHandler::SetVolume(_) => error_of(volume_level(parameters)),
                BuiltinHandler::ClickMouse(_) => error_of(click_target(parameters)),
            },
        }
    }

    fn schema(&self) -> (schema: HandlerSchema) {
        let none: Vec<&str> = Vec::new();
        assert(views(none@) =~= Seq::<Seq<char>>::empty());
        match self {
            BuiltinHandler::LaunchApp(_) => {
                let required: Vec<&str> = vec!["executable"];
                assert(views(required@) =~= seq!["executable"@]);
                HandlerSchema::new("launch_app", &required, &none)
            },
            BuiltinHandler::OpenUrl(_) => {
                let required: Vec<&str> = vec!["url"];
                assert(views(required@) =~= seq!["url"@]);
                HandlerSchema::new("open_url", &required, &none)
            },
            BuiltinHandler::SetVolume(_) => {
                let required: Vec<&str> = vec!["level"];
                assert(views(required@) =~= seq!["level"@]);
                HandlerSchema::new("set_volume", &required, &none)
            },
            BuiltinHandler::ClickMouse(_) => {
                let required: Vec<&str> = vec!["x", "y"];
                let optional: Vec<&str> = vec!["duration_ms"];
                assert(views(required@) =~= seq!["x"@, "y"@]);
                assert(views(optional@) =~= seq!["duration_ms"@]);
                HandlerSchema::new("click_mouse", &required, &optional)
            },
        }
    }

    fn validate_parameters(&self, parameters: &CommandParameters) -> (checked: Result<(), CoreError>) {
        match self.schema().validate(parameters) {
            Err(error) => {
                return Err(error);
            },
            Ok(_) => {},
        }
        match self {
            BuiltinHandler::LaunchApp(_) => Ok(()),
            BuiltinHandler::OpenUrl(_) => match parameter(parameters, "url") {
                Err(error) => Err(error),
                Ok(url) => validate_url(url),
            },
            BuiltinHandler::SetVolume(_) => match parse_volume(parameters) {
                Err(error) => Err(error),
                Ok(_) => Ok(()),
            },
            BuiltinHandler::ClickMouse(_) => match parse_click(parameters) {
                Err(error) => Err(error),
                Ok(_) => Ok(()),
            },
        }
    }
}

/// Whether a text is the name of a built-in handler.
pub open spec fn is_builtin_name(name: Seq<char>) -> bool {
    name == "launch_app"@ || name == "open_url"@ || name == "set_volume"@ || name == "click_mouse"@
}

/// Whether a registry holds the four built-in handlers, each under its name with the allowlist
/// that the commands make for it, and nothing else.
pub open spec fn builtin_registry(
    handlers: Seq<(Seq<char>, BuiltinHandler)>,
    commands: Seq<CommandView>,
) -> bool {
    forall|name: Seq<char>|
        match #[trigger] lookup(handlers, name) {
            Some(handler) => is_builtin_name(name) && handler.declares().name == name
                && handler.admits() == allowlist(commands, name, commands.len() as int),
            None => !is_builtin_name(name),
        }
}

proof fn builtin_schemas_are_registrable()
    ensures
        crate::handlers::handler_name_valid("launch_app"@),
        crate::handlers::handler_name_valid("open_url"@),
        crate::handlers::handler_name_valid("set_volume"@),
        crate::handlers::handler_name_valid("click_mouse"@),
        "launch_app"@ != "open_url"@,
        "launch_app"@ != "set_volume"@,
        "launch_app"@ != "click_mouse"@,
        "open_url"@ != "set_volume"@,
        "open_url"@ != "click_mouse"@,
        "set_volume"@ != "click_mouse"@,
        crate::handlers::disjoint(launch_schema()),
        crate::handlers::disjoint(url_schema()),
        crate::handlers::disjoint(volume_schema()),
        crate::handlers::disjoint(click_schema()),
{
    reveal_strlit("launch_app");
    reveal_strlit("open_url");
    reveal_strlit("set_volume");
    reveal_strlit("click_mouse");
    reveal_strlit("x");
    reveal_strlit("y");
    reveal_strlit("duration_ms");
    assert("launch_app"@[0] == 'l' && "open_url"@[0] == 'o' && "set_volume"@[0] == 's'
        && "click_mouse"@[0] == 'c');
    reveal_with_fuel(set_of, 3);
    reveal_with_fuel(lookup, 2);
    let required = click_schema().required;
    assert forall|i: int| 0 <= i < required.len() implies !crate::handlers::holds(
        click_schema().optional,
        (#[trigger] required[i]).0,
    ) by {
        let one = set_of(seq!["x"@, "y"@], 1);
        crate::text_map::inserted_entries(one, "y"@, true, i);
        assert("x"@.len() == 1 && "y"@.len() == 1 && "duration_ms"@.len() == 11);
        if required[i] != ("y"@, true) {
            let j = choose|j: int| 0 <= j < one.len() && #[trigger] one[j] == required[i];
            crate::text_map::inserted_entries(
                Seq::<(Seq<char>, bool)>::empty(),
                "x"@,
                true,
                j,
            );
        }
        crate::text_map::lookup_after_insert(
            Seq::<(Seq<char>, bool)>::empty(),
            "duration_ms"@,
            true,
            required[i].0,
        );
    }
}

/// Adds a built-in handler whose name is free.
fn add_builtin(
    handlers: &mut HandlerRegistry<BuiltinHandler>,
    handler: BuiltinHandler,
) -> (added: Result<(), CoreError>)
    requires
        lookup(old(handlers)@, handler.declares().name) is None,
        crate::handlers::handler_name_valid(handler.declares().name),
        crate::handlers::disjoint(handler.declares()),
    ensures
        added is Ok,
        forall|name: Seq<char>|
            #[trigger] lookup(final(handlers)@, name) == if name == handler.declares().name {
                Some(handler)
            } else {
                lookup(old(handlers)@, name)
            },
{
    let added = handlers.register(handler);
    proof {
        assert forall|name: Seq<char>|
            #[trigger] lookup(handlers@, name) == if name == handler.declares().name {
                Some(handler)
            } else {
                lookup(old(handlers)@, name)
            } by {
            crate::text_map::lookup_after_insert(
                old(handlers)@,
                handler.declares().name,
                handler,
                name,
            );
        }
    }
    added
}

/// Creates the built-in handler set used by the stock daemon.
pub fn builtin_handlers(commands: &Vec<CommandConfig>) -> (handlers: Result<
    HandlerRegistry<BuiltinHandler>,
    CoreError,
>)
    ensures
        handlers matches Ok(handlers) && builtin_registry(handlers@, views(commands@)),
{
    proof {
        builtin_schemas_are_registrable();
    }
    let mut handlers: HandlerRegistry<BuiltinHandler> = HandlerRegistry::new();
    let _ = add_builtin(
        &mut handlers,
        BuiltinHandler::LaunchApp(LaunchAppHandler::from_commands(commands)),
    );
    let _ = add_builtin(
        &mut handlers,
        BuiltinHandler::OpenUrl(OpenUrlHandler::from_commands(commands)),
    );
    let _ = add_builtin(
        &mut handlers,
        BuiltinHandler::SetVolume(SetVolumeHandler::from_commands(commands)),
    );
    let _ = add_builtin(
        &mut handlers,
        BuiltinHandler::ClickMouse(ClickMouseHandler::from_commands(commands)),
    );
    Ok(handlers)
}

/// The schemas of the built-in handlers in the order of their names.
pub open spec fn stock_schemas() -> Seq<SchemaView> {
    seq![click_schema(), launch_schema(), url_schema(), volume_schema()]
}

proof fn builtins_by_name(
    handlers: Seq<(Seq<char>, BuiltinHandler)>,
    commands: Seq<CommandView>,
)
    requires
        builtin_registry(handlers, commands),
        keys_increase(handlers),
        forall|i: int|
            0 <= i < handlers.len() ==> (#[trigger] handlers[i]).0 == handlers[i].1.declares().name,
    ensures
        handlers.len() == 4,
        forall|i: int| 0 <= i < 4 ==> (#[trigger] handlers[i]).1.declares() == stock_schemas()[i],
{
    builtin_schemas_are_registrable();
    reveal_strlit("launch_app");
    reveal_strlit("open_url");
    reveal_strlit("set_volume");
    reveal_strlit("click_mouse");
    assert(lookup(handlers, "click_mouse"@) is Some);
    assert(lookup(handlers, "launch_app"@) is Some);
    assert(lookup(handlers, "open_url"@) is Some);
    assert(lookup(handlers, "set_volume"@) is Some);
    let click = lookup_position(handlers, "click_mouse"@);
    let launch = lookup_position(handlers, "launch_app"@);
    let url = lookup_position(handlers, "open_url"@);
    let volume = lookup_position(handlers, "set_volume"@);
    assert("launch_app"@[0] == 'l' && "open_url"@[0] == 'o' && "set_volume"@[0] == 's'
        && "click_mouse"@[0] == 'c');
    assert(click < launch < url < volume);
    assert forall|i: int|
        #![trigger handlers[i]]
        0 <= i < handlers.len() implies i == click || i == launch || i == url || i == volume by {
        lookup_entry(handlers, i);
        precedes_irreflexive(handlers[i].0);
        assert(is_builtin_name(handlers[i].0));
    }
    let first = handlers[0];
    let second = handlers[1];
    let third = handlers[2];
    let fourth = handlers[3];
    let fifth = handlers[4];
    assert(click == 0 && launch == 1 && url == 2 && volume == 3);
}

/// Lists the schemas of the built-in handlers in the order of their names.
pub fn builtin_schemas(commands: &Vec<CommandConfig>) -> (schemas: Vec<HandlerSchema>)
    ensures
        views(schemas@) == stock_schemas(),
{
    match builtin_handlers(commands) {
        Ok(handlers) => {
            let schemas = handlers.schemas();
            proof {
                let entries = handlers@;
                assert forall|i: int, j: int| 0 <= i < j < entries.len() implies precedes(
                    #[trigger] entries[i].0,
                    #[trigger] entries[j].0,
                ) by {
                    assert(schemas@[i]@.name == entries[i].0 && schemas@[j]@.name == entries[j].0);
                }
                builtins_by_name(entries, views(commands@));
                assert(views(schemas@) =~= stock_schemas());
            }
            schemas
        },
        Err(_) => Vec::new(),
    }
}

/// Whether a command moves the mouse.
pub open spec fn clicks(command: CommandView) -> bool {
    exists|i: int|
        0 <= i < command.resolved().len() && (#[trigger] command.resolved()[i]).handler
            == "click_mouse"@
}

/// What handlers find wrong with the first `count` commands.
pub open spec fn handlers_error<H: CommandHandler>(
    handlers: Seq<(Seq<char>, H)>,
    commands: Seq<CommandView>,
    count: int,
) -> Option<Seq<char>>
    decreases count,
{
    if count <= 0 {
        None
    } else {
        match handlers_error(handlers, commands, count - 1) {
            Some(message) => Some(message),
            None => {
                let command = commands[count - 1];
                match command_problem(handlers, command, command.resolved().len() as int) {
                    Some(error) => Some("command "@ + command.id + ": "@ + error.message()),
                    None => if command.risk !is High && clicks(command) {
                        Some(
                            "command "@ + command.id + ": click_mouse requires risk = \"high\""@,
                        )
                    } else {
                        None
                    },
                }
            },
        }
    }
}

proof fn handlers_error_stays<H: CommandHandler>(
    handlers: Seq<(Seq<char>, H)>,
    commands: Seq<CommandView>,
    count: int,
    total: int,
)
    requires
        handlers_error(handlers, commands, count) is Some,
        count <= total,
    ensures
        handlers_error(handlers, commands, total) == handlers_error(handlers, commands, count),
    decreases total,
{
    if count < total && total > 0 {
        handlers_error_stays(handlers, commands, count, total - 1);
    }
}

/// What the built-in handlers find wrong with commands depends on the commands alone.
pub proof fn builtin_verdicts_agree(
    left: Seq<(Seq<char>, BuiltinHandler)>,
    right: Seq<(Seq<char>, BuiltinHandler)>,
    allowed: Seq<CommandView>,
    commands: Seq<CommandView>,
    count: int,
)
    requires
        builtin_registry(left, allowed),
        builtin_registry(right, allowed),
    ensures
        handlers_error(left, commands, count) == handlers_error(right, commands, count),
    decreases count,
{
    if count > 0 {
        builtin_verdicts_agree(left, right, allowed, commands, count - 1);
        let command = commands[count - 1];
        builtin_problems_agree(left, right, allowed, command, command.resolved().len() as int);
    }
}

proof fn builtin_problems_agree(
    left: Seq<(Seq<char>, BuiltinHandler)>,
    right: Seq<(Seq<char>, BuiltinHandler)>,
    allowed: Seq<CommandView>,
    command: CommandView,
    count: int,
)
    requires
        builtin_registry(left, allowed),
        builtin_registry(right, allowed),
    ensures
        command_problem(left, command, count) == command_problem(right, command, count),
    decreases count,
{
    if count > 0 {
        builtin_problems_agree(left, right, allowed, command, count - 1);
        builtin_schemas_are_registrable();
        let handler = command.resolved()[count - 1].handler;
        assert(lookup(left, handler) is Some == lookup(right, handler) is Some);
    }
}

/// Tells whether a command moves the mouse.
fn command_clicks(command: &CommandConfig) -> (answer: bool)
    ensures
        answer == clicks(command@),
{
    let actions = command.resolved_actions();
    let mut i: usize = 0;
    while i < actions.len()
        invariant
            0 <= i <= actions@.len(),
            views(actions@) == command@.resolved(),
            forall|j: int|
                0 <= j < i ==> (#[trigger] command@.resolved()[j]).handler != "click_mouse"@,
        decreases actions@.len() - i,
    {
        assert(command@.resolved()[i as int] == actions@[i as int]@);
        if same_text(&actions[i].handler, "click_mouse") {
            return true;
        }
        i = i + 1;
    }
    false
}

impl CoreConfig {
    /// Validates handler names and parameters against installed extensions.
    pub fn validate_with_handlers<H: CommandHandler>(&self, handlers: &HandlerRegistry<H>) -> (checked:
        Result<(), ConfigError>)
        ensures
            match (checked, match validation_error(self@) {
                Some(message) => Some(message),
                None => handlers_error(handlers@, self@.commands, self@.commands.len() as int),
            }) {
                (Ok(_), None) => true,
                (Err(error), Some(message)) => error@ == ConfigErrorView::Validation(message),
                _ => false,
            },
    {
        match self.validate() {
            Err(error) => {
                return Err(error);
            },
            Ok(_) => {},
        }
        let mut k: usize = 0;
        while k < self.commands.len()
            invariant
                0 <= k <= self.commands@.len(),
                validation_error(self@) is None,
                handlers_error(handlers@, self@.commands, k as int) is None,
            decreases self.commands@.len() - k,
        {
            let command = &self.commands[k];
            assert(self@.commands[k as int] == command@);
            proof {
                if handlers_error(handlers@, self@.commands, k + 1) is Some {
                    handlers_error_stays(
                        handlers@,
                        self@.commands,
                        k + 1,
                        self@.commands.len() as int,
                    );
                }
            }
            match handlers.validate_command(command) {
                Err(error) => {
                    let mut message = "command ".to_owned();
                    message.append(&command.id);
                    message.append(": ");
                    message.append(&error.to_string());
                    return Err(ConfigError::Validation(message));
                },
                Ok(_) => {},
            }
            if !matches!(command.risk, RiskLevel::High) && command_clicks(command) {
                let mut message = "command ".to_owned();
                message.append(&command.id);
                message.append(": click_mouse requires risk = \"high\"");
                return Err(ConfigError::Validation(message));
            }
            k = k + 1;
        }
        Ok(())
    }
}

/// A preparation that succeeds holds the effect and the message that were planned, and one that fails
/// the error.
pub proof fn preparations_keep_their_plan(
    prepared: Result<Prepared, CoreError>,
    expected: Result<(InvocationView, Seq<char>), ErrorView>,
)
    requires
        prepares(prepared, expected),
    ensures
        prepared is Ok <==> expected is Ok,
        prepared matches Ok(done) ==> expected == Ok::<_, ErrorView>((done.invocation@, done.message@)),
        prepared matches Err(error) ==> expected == Err::<(InvocationView, Seq<char>), _>(error@),
{
}

} // verus!
