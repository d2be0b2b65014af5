//! Structural validation of a configuration: ranges, cross-field rules and unambiguous phrases.

use crate::commands::{
    literals, normalize, normalized, pattern_tokens, phrase_tokens, placeholder, placeholder_name, TokenView,
};
use crate::config::{
    default_audio, default_policy, default_wake_word, CommandActionConfig, CommandConfig, CommandView, ConfigError, ConfigErrorView, ConfigView, CoreConfig, AudioView,
    InferenceView, IpcView, PolicyView, SlotConfig, SlotType, SlotView, WakeWordView, CURRENT_CONFIG_VERSION,
};
use crate::domain::Parameters;
use crate::float32::{Real32, HUNDRED_BITS, ONE_BITS, ZERO_BITS};
use crate::number::{decimal, push_decimal};
use crate::text::{
    blank, char_is_whitespace, chars_of, contains_char, is_blank, is_whitespace, is_word, join, joined, option_view,
    same_text, views, words, words_of,
};
use crate::text_map::{contains_text, duplicate_all, entries_view, lookup, lookup_absent, TextMap};
use vstd::arithmetic::power2::pow2;
use vstd::prelude::*;

verus! {

/// Whether no text normalizes to nothing and no two normalize to the same.
pub open spec fn distinct_forms(texts: Seq<Seq<char>>, normalize_yo: bool) -> bool {
    &&& forall|i: int|
        0 <= i < texts.len() ==> (#[trigger] normalized(texts[i], normalize_yo)).len() > 0
    &&& forall|i: int, j: int|
        0 <= i < j < texts.len() ==> #[trigger] normalized(texts[i], normalize_yo)
            != #[trigger] normalized(texts[j], normalize_yo)
}

/// The texts, each in its normal form.
pub open spec fn forms(texts: Seq<Seq<char>>, normalize_yo: bool) -> Seq<Seq<char>> {
    Seq::new(texts.len(), |i: int| normalized(texts[i], normalize_yo))
}

/// Tells whether no text normalizes to nothing and no two normalize to the same.
fn have_distinct_forms(texts: &Vec<String>, normalize_yo: bool) -> (distinct: bool)
    ensures
        distinct == distinct_forms(views(texts@), normalize_yo),
{
    let ghost given = views(texts@);
    let mut seen: Vec<String> = Vec::new();
    let mut i: usize = 0;
    while i < texts.len()
        invariant
            0 <= i <= texts@.len(),
            given == views(texts@),
            views(seen@) == forms(given.take(i as int), normalize_yo),
            distinct_forms(given.take(i as int), normalize_yo),
        decreases texts@.len() - i,
    {
        let form = normalize(&texts[i], normalize_yo);
        let ghost earlier = given.take(i as int);
        let ghost extended = given.take(i + 1);
        assert(given[i as int] == texts@[i as int]@);
        if form.as_str().is_empty() {
            assert(normalized(given[i as int], normalize_yo).len() == 0);
            return false;
        }
        if contains_text(&seen, &form) {
            proof {
                let j = choose|j: int| 0 <= j < views(seen@).len() && views(seen@)[j] == form@;
                assert(normalized(given[j], normalize_yo) == normalized(
                    given[i as int],
                    normalize_yo,
                ));
            }
            return false;
        }
        proof {
            assert forall|a: int| 0 <= a < extended.len() implies (#[trigger] normalized(
                extended[a],
                normalize_yo,
            )).len() > 0 by {
                if a < i {
                    assert(normalized(earlier[a], normalize_yo).len() > 0);
                }
            }
            assert forall|a: int, b: int| 0 <= a < b < extended.len() implies #[trigger] normalized(
                extended[a],
                normalize_yo,
            ) != #[trigger] normalized(extended[b], normalize_yo) by {
                if b < i {
                    assert(normalized(earlier[a], normalize_yo) != normalized(
                        earlier[b],
                        normalize_yo,
                    ));
                } else {
                    assert(views(seen@)[a] == normalized(earlier[a], normalize_yo));
                }
            }
        }
        let ghost before = seen@;
        let ghost form_view = form@;
        seen.push(form);
        assert(views(seen@) =~= views(before).push(form_view));
        assert(views(seen@) =~= forms(extended, normalize_yo));
        i = i + 1;
    }
    assert(given.take(i as int) =~= given);
    true
}

/// Whether the audio format is the canonical one.
pub open spec fn canonical_audio(audio: AudioView) -> bool {
    audio.target_sample_rate == 16_000 && audio.channels == 1
}

/// Whether a value lies between zero and one.
pub open spec fn unit_interval(value: Real32) -> bool {
    &&& value.finite()
    &&& (Real32 { bits: ZERO_BITS }).at_most_spec(value)
    &&& value.at_most_spec(Real32 { bits: ONE_BITS })
}

/// Tells whether a value lies between zero and one.
fn in_unit_interval(value: Real32) -> (answer: bool)
    ensures
        answer == unit_interval(value),
{
    value.is_finite() && Real32::from_bits(ZERO_BITS).at_most(value) && value.at_most(
        Real32::from_bits(ONE_BITS),
    )
}

/// Whether audio timing, queue capacity and VAD threshold are in range.
pub open spec fn audio_in_range(audio: AudioView) -> bool {
    &&& 5 <= audio.frame_ms <= 100
    &&& audio.pre_roll_ms <= 5_000
    &&& 1 <= audio.queue_capacity_frames <= 4_096
    &&& unit_interval(audio.vad_threshold)
    &&& audio.frame_ms <= audio.command_min_ms <= audio.command_max_ms
    &&& 250 <= audio.command_max_ms <= 60_000
    &&& audio.frame_ms <= audio.trailing_silence_ms <= audio.command_max_ms
    &&& 100 <= audio.reconnect_delay_ms <= 60_000
    &&& 500 <= audio.stall_timeout_ms <= 60_000
}

/// Whether the wake words are usable and their score, threshold and cooldown in range.
pub open spec fn wake_word_valid(wake_word: WakeWordView, normalize_yo: bool) -> bool {
    &&& distinct_forms(wake_word.phrases(), normalize_yo)
    &&& unit_interval(wake_word.threshold)
    &&& wake_word.score.finite()
    &&& !wake_word.score.at_most_spec(Real32 { bits: ZERO_BITS })
    &&& wake_word.score.at_most_spec(Real32 { bits: HUNDRED_BITS })
    &&& wake_word.cooldown_ms <= 60_000
}

/// Whether inference threads, queue, timeout and restart budget are in range.
pub open spec fn inference_in_range(inference: InferenceView) -> bool {
    &&& 0 <= inference.threads <= 64
    &&& 1 <= inference.queue_capacity <= 64
    &&& 100 <= inference.timeout_ms <= 300_000
    &&& inference.max_restarts <= 20
    &&& 100 <= inference.restart_backoff_ms <= 60_000
}

/// Whether confirmation phrases are usable and the protection limits in range.
pub open spec fn policy_valid(policy: PolicyView, normalize_yo: bool) -> bool {
    &&& 100 <= policy.confirmation_timeout_ms <= 300_000
    &&& distinct_forms(
        policy.confirmation_accept_phrases + policy.confirmation_cancel_phrases,
        normalize_yo,
    )
    &&& policy.confirmation_accept_phrases.len() > 0
    &&& policy.confirmation_cancel_phrases.len() > 0
    &&& policy.handler_rate_limit_ms <= 300_000
    &&& policy.handler_failure_threshold <= 100
    &&& 100 <= policy.handler_circuit_breaker_ms <= 3_600_000
}

/// Whether a character is an ASCII letter or digit.
pub open spec fn is_ascii_alphanumeric(c: char) -> bool {
    'a' <= c <= 'z' || 'A' <= c <= 'Z' || '0' <= c <= '9'
}

/// Whether a text can be the suffix of a named pipe: ASCII letters, digits and hyphens.
pub open spec fn pipe_name_valid(name: Seq<char>) -> bool {
    &&& name.len() > 0
    &&& forall|i: int| 0 <= i < name.len() ==> is_ascii_alphanumeric(#[trigger] name[i]) || name[i] == '-'
}

/// Tells whether a text can be the suffix of a named pipe.
pub fn is_pipe_name(name: &str) -> (valid: bool)
    ensures
        valid == pipe_name_valid(name@),
{
    let chars = chars_of(name);
    let mut i: usize = 0;
    while i < chars.len()
        invariant
            0 <= i <= chars@.len(),
            chars@ == name@,
            forall|j: int|
                0 <= j < i ==> is_ascii_alphanumeric(#[trigger] chars@[j]) || chars@[j] == '-',
        decreases chars@.len() - i,
    {
        let c = chars[i];
        if !((c >= 'a' && c <= 'z') || (c >= 'A' && c <= 'Z') || (c >= '0' && c <= '9') || c == '-') {
            return false;
        }
        i = i + 1;
    }
    chars.len() > 0
}

/// Whether the pipe settings are usable.
pub open spec fn ipc_valid(ipc: IpcView) -> bool {
    pipe_name_valid(ipc.pipe_name) && 100 <= ipc.io_timeout_ms <= 300_000
}

/// Whether a slot name is made of ASCII lower-case letters, digits and underscores.
pub open spec fn slot_name_valid(name: Seq<char>) -> bool {
    &&& name.len() > 0
    &&& forall|i: int|
        0 <= i < name.len() ==> ('a' <= #[trigger] name[i] <= 'z' || '0' <= name[i] <= '9'
            || name[i] == '_')
}

/// Whether a slot's values or bounds fit its type.
pub open spec fn slot_policy_valid(slot: SlotView, normalize_yo: bool) -> bool {
    match slot.value_type {
        SlotType::Text => {
            &&& slot.min is None
            &&& slot.max is None
            &&& 0 < slot.values.len() <= 256
            &&& distinct_forms(slot.values, normalize_yo)
            &&& forall|i: int|
                0 <= i < slot.values.len() ==> is_word(
                    #[trigger] normalized(slot.values[i], normalize_yo),
                )
        },
        SlotType::Integer => slot.values.len() == 0 && (slot.min matches Some(low) && slot.max matches Some(high)
            && low <= high),
        SlotType::Boolean => slot.values.len() == 0 && slot.min is None && slot.max is None,
    }
}

/// Tells whether a slot name is valid.
fn is_slot_name(name: &str) -> (valid: bool)
    ensures
        valid == slot_name_valid(name@),
{
    let chars = chars_of(name);
    let mut i: usize = 0;
    while i < chars.len()
        invariant
            0 <= i <= chars@.len(),
            chars@ == name@,
            forall|j: int|
                0 <= j < i ==> ('a' <= #[trigger] chars@[j] <= 'z' || '0' <= chars@[j] <= '9'
                    || chars@[j] == '_'),
        decreases chars@.len() - i,
    {
        let c = chars[i];
        if !((c >= 'a' && c <= 'z') || (c >= '0' && c <= '9') || c == '_') {
            return false;
        }
        i = i + 1;
    }
    chars.len() > 0
}

/// Tells whether a text is one word.
fn is_one_word(text: &str) -> (answer: bool)
    ensures
        answer == is_word(text@),
{
    let chars = chars_of(text);
    let mut i: usize = 0;
    while i < chars.len()
        invariant
            0 <= i <= chars@.len(),
            chars@ == text@,
            forall|j: int| 0 <= j < i ==> !is_whitespace(#[trigger] chars@[j]),
        decreases chars@.len() - i,
    {
        if char_is_whitespace(chars[i]) {
            return false;
        }
        i = i + 1;
    }
    chars.len() > 0
}

/// Tells whether a slot's values or bounds fit its type.
fn is_slot_policy(slot: &SlotConfig, normalize_yo: bool) -> (valid: bool)
    ensures
        valid == slot_policy_valid(slot@, normalize_yo),
{
    match slot.value_type {
        SlotType::Text => {
            if slot.min.is_some() || slot.max.is_some() || slot.values.len() == 0
                || slot.values.len() > 256 || !have_distinct_forms(&slot.values, normalize_yo) {
                return false;
            }
            let mut i: usize = 0;
            while i < slot.values.len()
                invariant
                    0 <= i <= slot.values@.len(),
                    slot.value_type is Text,
                    forall|j: int|
                        0 <= j < i ==> is_word(#[trigger] normalized(slot@.values[j], normalize_yo)),
                decreases slot.values@.len() - i,
            {
                assert(slot@.values[i as int] == slot.values@[i as int]@);
                if !is_one_word(&normalize(&slot.values[i], normalize_yo)) {
                    return false;
                }
                i = i + 1;
            }
            true
        },
        SlotType::Integer => {
            slot.values.len() == 0 && match (slot.min, slot.max) {
                (Some(low), Some(high)) => low <= high,
                _ => false,
            }
        },
        SlotType::Boolean => slot.values.len() == 0 && slot.min.is_none() && slot.max.is_none(),
    }
}

/// The words of a phrase pattern up to token `count`: `{}` for a known slot, normalized words for
/// plain text, nothing where a token has stray braces or names an unknown slot.
pub open spec fn pattern_words(
    tokens: Seq<Seq<char>>,
    normalize_yo: bool,
    slots: Seq<(Seq<char>, SlotView)>,
    count: int,
) -> Option<Seq<Seq<char>>>
    decreases count,
{
    if count <= 0 {
        Some(Seq::empty())
    } else {
        let token = tokens[count - 1];
        match pattern_words(tokens, normalize_yo, slots, count - 1) {
            None => None,
            Some(earlier) => match placeholder_name(token) {
                Some(name) => if lookup(slots, name) is Some {
                    Some(earlier.push("{}"@))
                } else {
                    None
                },
                None => if token.contains('{') || token.contains('}') {
                    None
                } else {
                    Some(earlier + words(normalized(token, normalize_yo)))
                },
            },
        }
    }
}

/// The form by which two phrases are told apart.
pub open spec fn phrase_pattern(
    phrase: Seq<char>,
    normalize_yo: bool,
    slots: Seq<(Seq<char>, SlotView)>,
) -> Option<Seq<char>> {
    let tokens = words(phrase);
    match pattern_words(tokens, normalize_yo, slots, tokens.len() as int) {
        Some(found) => Some(joined(found)),
        None => None,
    }
}

/// The form by which two phrases are told apart, or nothing for a malformed placeholder.
pub fn normalize_pattern(
    phrase: &str,
    normalize_yo: bool,
    slots: &TextMap<SlotConfig>,
) -> (pattern: Option<String>)
    ensures
        option_view(pattern) == phrase_pattern(phrase@, normalize_yo, slots@),
{
    let tokens = words_of(phrase);
    let ghost given = views(tokens@);
    let mut found: Vec<String> = Vec::new();
    assert(views(found@) =~= Seq::<Seq<char>>::empty());
    let mut i: usize = 0;
    while i < tokens.len()
        invariant
            0 <= i <= tokens@.len(),
            given == views(tokens@),
            given == words(phrase@),
            pattern_words(given, normalize_yo, slots@, i as int) == Some(views(found@)),
        decreases tokens@.len() - i,
    {
        proof {
            assert(given[i as int] == tokens@[i as int]@);
            if pattern_words(given, normalize_yo, slots@, i + 1) is None {
                pattern_words_none(given, normalize_yo, slots@, i + 1, given.len() as int);
            }
        }
        let ghost before = found@;
        match placeholder(&tokens[i]) {
            Some(name) => {
                if !slots.contains_key(&name) {
                    return None;
                }
                found.push("{}".to_owned());
                assert(views(found@) =~= views(before).push("{}"@));
            },
            None => {
                if contains_char(&tokens[i], '{') || contains_char(&tokens[i], '}') {
                    return None;
                }
                let mut more = words_of(&normalize(&tokens[i], normalize_yo));
                let ghost added = more@;
                found.append(&mut more);
                assert(views(found@) =~= views(before) + views(added));
            },
        }
        i = i + 1;
    }
    Some(join(&found))
}

proof fn pattern_words_none(
    tokens: Seq<Seq<char>>,
    normalize_yo: bool,
    slots: Seq<(Seq<char>, SlotView)>,
    count: int,
    total: int,
)
    requires
        pattern_words(tokens, normalize_yo, slots, count) is None,
        count <= total,
    ensures
        pattern_words(tokens, normalize_yo, slots, total) is None,
    decreases total,
{
    if count < total && total > 0 {
        pattern_words_none(tokens, normalize_yo, slots, count, total - 1);
    }
}

/// The first invalid slot among the first `count`, as a message.
pub open spec fn slot_error(command: CommandView, normalize_yo: bool, count: int) -> Option<Seq<char>>
    decreases count,
{
    if count <= 0 {
        None
    } else {
        match slot_error(command, normalize_yo, count - 1) {
            Some(message) => Some(message),
            None => {
                let (name, slot) = command.slots[count - 1];
                if slot_name_valid(name) && slot_policy_valid(slot, normalize_yo) {
                    None
                } else {
                    Some("command "@ + command.id + " has invalid slot "@ + name)
                }
            },
        }
    }
}

/// Finds the first invalid slot.
fn find_slot_error(command: &CommandConfig, normalize_yo: bool) -> (message: Option<String>)
    ensures
        option_view(message) == slot_error(command@, normalize_yo, command@.slots.len() as int),
{
    let mut i: usize = 0;
    while i < command.slots.len()
        invariant
            0 <= i <= command.slots@.len(),
            slot_error(command@, normalize_yo, i as int) is None,
        decreases command.slots@.len() - i,
    {
        let name = command.slots.key_at(i);
        if !is_slot_name(name) || !is_slot_policy(command.slots.value_at(i), normalize_yo) {
            let mut message = "command ".to_owned();
            message.append(&command.id);
            message.append(" has invalid slot ");
            message.append(name);
            proof {
                slot_error_stays(command@, normalize_yo, i + 1, command@.slots.len() as int);
            }
            return Some(message);
        }
        i = i + 1;
    }
    None
}

proof fn slot_error_stays(command: CommandView, normalize_yo: bool, count: int, total: int)
    requires
        slot_error(command, normalize_yo, count) is Some,
        count <= total,
    ensures
        slot_error(command, normalize_yo, total) == slot_error(command, normalize_yo, count),
    decreases total,
{
    if count < total && total > 0 {
        slot_error_stays(command, normalize_yo, count, total - 1);
    }
}

/// The first action without a handler or with too long a delay among the first `count`.
pub open spec fn action_error(command: CommandView, count: int) -> Option<Seq<char>>
    decreases count,
{
    if count <= 0 {
        None
    } else {
        match action_error(command, count - 1) {
            Some(message) => Some(message),
            None => {
                let action = command.resolved()[count - 1];
                if is_blank(action.handler) {
                    Some("handler is empty: "@ + command.id)
                } else if action.delay_ms > 60_000 {
                    Some("action delay_ms is out of range: "@ + command.id)
                } else {
                    None
                }
            },
        }
    }
}

/// Finds the first action without a handler or with too long a delay.
fn find_action_error(command: &CommandConfig, actions: &Vec<CommandActionConfig>) -> (message: Option<
    String,
>)
    requires
        views(actions@) == command@.resolved(),
    ensures
        option_view(message) == action_error(command@, command@.resolved().len() as int),
{
    let mut i: usize = 0;
    while i < actions.len()
        invariant
            0 <= i <= actions@.len(),
            views(actions@) == command@.resolved(),
            action_error(command@, i as int) is None,
        decreases actions@.len() - i,
    {
        assert(views(actions@)[i as int] == actions@[i as int]@);
        if blank(&actions[i].handler) {
            let mut message = "handler is empty: ".to_owned();
            message.append(&command.id);
            proof {
                action_error_stays(command@, i + 1, actions@.len() as int);
            }
            return Some(message);
        }
        if actions[i].delay_ms > 60_000 {
            let mut message = "action delay_ms is out of range: ".to_owned();
            message.append(&command.id);
            proof {
                action_error_stays(command@, i + 1, actions@.len() as int);
            }
            return Some(message);
        }
        i = i + 1;
    }
    None
}

proof fn action_error_stays(command: CommandView, count: int, total: int)
    requires
        action_error(command, count) is Some,
        count <= total,
    ensures
        action_error(command, total) == action_error(command, count),
    decreases total,
{
    if count < total && total > 0 {
        action_error_stays(command, count, total - 1);
    }
}

/// The patterns of the first `count` phrases of a command, each with the command's identifier.
pub open spec fn patterns_of(command: CommandView, normalize_yo: bool, count: int) -> Seq<
    (Seq<char>, Seq<char>),
>
    decreases count,
{
    if count <= 0 {
        Seq::empty()
    } else {
        patterns_of(command, normalize_yo, count - 1).push(
            (phrase_pattern(command.phrases[count - 1], normalize_yo, command.slots)->0, command.id),
        )
    }
}

/// The patterns of all phrases of the first `count` commands.
pub open spec fn patterns_before(commands: Seq<CommandView>, normalize_yo: bool, count: int) -> Seq<
    (Seq<char>, Seq<char>),
>
    decreases count,
{
    if count <= 0 {
        Seq::empty()
    } else {
        patterns_before(commands, normalize_yo, count - 1) + patterns_of(
            commands[count - 1],
            normalize_yo,
            commands[count - 1].phrases.len() as int,
        )
    }
}

/// The first malformed, empty or ambiguous phrase among the first `count` of a command, given
/// the patterns of the commands before it.
pub open spec fn phrase_error(
    earlier: Seq<(Seq<char>, Seq<char>)>,
    command: CommandView,
    normalize_yo: bool,
    count: int,
) -> Option<Seq<char>>
    decreases count,
{
    if count <= 0 {
        None
    } else {
        match phrase_error(earlier, command, normalize_yo, count - 1) {
            Some(message) => Some(message),
            None => match phrase_pattern(command.phrases[count - 1], normalize_yo, command.slots) {
                None => Some("command "@ + command.id + " has an invalid slot placeholder"@),
                Some(pattern) => if pattern.len() == 0 {
                    Some("command phrase is empty after normalization: "@ + command.id)
                } else {
                    match lookup(earlier + patterns_of(command, normalize_yo, count - 1), pattern) {
                        Some(previous) => Some(
                            "command phrase is ambiguous: "@ + previous + " and "@ + command.id,
                        ),
                        None => None,
                    }
                },
            },
        }
    }
}

proof fn phrase_error_stays(
    earlier: Seq<(Seq<char>, Seq<char>)>,
    command: CommandView,
    normalize_yo: bool,
    count: int,
    total: int,
)
    requires
        phrase_error(earlier, command, normalize_yo, count) is Some,
        count <= total,
    ensures
        phrase_error(earlier, command, normalize_yo, total) == phrase_error(
            earlier,
            command,
            normalize_yo,
            count,
        ),
    decreases total,
{
    if count < total && total > 0 {
        phrase_error_stays(earlier, command, normalize_yo, count, total - 1);
    }
}

/// Finds the identifier that stands behind a pattern.
fn find_owner(seen: &Vec<(String, String)>, pattern: &str) -> (owner: Option<String>)
    ensures
        option_view(owner) == lookup(entries_view(seen@), pattern@),
{
    let mut i: usize = 0;
    assert(entries_view(seen@).skip(0) =~= entries_view(seen@));
    while i < seen.len()
        invariant
            0 <= i <= seen@.len(),
            lookup(entries_view(seen@).skip(i as int), pattern@) == lookup(
                entries_view(seen@),
                pattern@,
            ),
        decreases seen@.len() - i,
    {
        if same_text(&seen[i].0, pattern) {
            return Some(seen[i].1.clone());
        }
        assert(entries_view(seen@).skip(i as int).drop_first() =~= entries_view(seen@).skip(i + 1));
        i = i + 1;
    }
    None
}

/// Finds the first malformed, empty or ambiguous phrase and adds the patterns before it.
fn find_phrase_error(
    seen: &mut Vec<(String, String)>,
    command: &CommandConfig,
    normalize_yo: bool,
) -> (message: Option<String>)
    ensures
        option_view(message) == phrase_error(
            entries_view(old(seen)@),
            command@,
            normalize_yo,
            command@.phrases.len() as int,
        ),
        message is None ==> entries_view(final(seen)@) == entries_view(old(seen)@) + patterns_of(
            command@,
            normalize_yo,
            command@.phrases.len() as int,
        ),
{
    let ghost earlier = entries_view(seen@);
    let ghost total = command@.phrases.len() as int;
    let mut i: usize = 0;
    assert(earlier + patterns_of(command@, normalize_yo, 0) =~= earlier);
    while i < command.phrases.len()
        invariant
            0 <= i <= command.phrases@.len(),
            total == command@.phrases.len(),
            earlier == entries_view(old(seen)@),
            entries_view(seen@) == earlier + patterns_of(command@, normalize_yo, i as int),
            phrase_error(earlier, command@, normalize_yo, i as int) is None,
        decreases command.phrases@.len() - i,
    {
        assert(command@.phrases[i as int] == command.phrases@[i as int]@);
        match normalize_pattern(&command.phrases[i], normalize_yo, &command.slots) {
            None => {
                let mut message = "command ".to_owned();
                message.append(&command.id);
                message.append(" has an invalid slot placeholder");
                proof {
                    phrase_error_stays(earlier, command@, normalize_yo, i + 1, total);
                }
                return Some(message);
            },
            Some(pattern) => {
                if pattern.as_str().is_empty() {
                    let mut message = "command phrase is empty after normalization: ".to_owned();
                    message.append(&command.id);
                    proof {
                        phrase_error_stays(earlier, command@, normalize_yo, i + 1, total);
                    }
                    return Some(message);
                }
                match find_owner(seen, &pattern) {
                    Some(previous) => {
                        let mut message = "command phrase is ambiguous: ".to_owned();
                        message.append(&previous);
                        message.append(" and ");
                        message.append(&command.id);
                        proof {
                            phrase_error_stays(earlier, command@, normalize_yo, i + 1, total);
                        }
                        return Some(message);
                    },
                    None => {
                        let ghost before = seen@;
                        let ghost pattern_view = pattern@;
                        seen.push((pattern, command.id.clone()));
                        assert(entries_view(seen@) =~= entries_view(before).push(
                            (pattern_view, command@.id),
                        ));
                        assert(entries_view(seen@) =~= earlier + patterns_of(
                            command@,
                            normalize_yo,
                            i + 1,
                        ));
                    },
                }
            },
        }
        i = i + 1;
    }
    None
}

/// Whether a phrase holds the placeholder of a slot.
pub open spec fn phrase_captures(phrase: Seq<char>, name: Seq<char>) -> bool {
    exists|i: int|
        0 <= i < words(phrase).len() && placeholder_name(#[trigger] words(phrase)[i]) == Some(name)
}

/// Whether a slot exists and every phrase captures it.
pub open spec fn captured_everywhere(command: CommandView, name: Seq<char>) -> bool {
    &&& lookup(command.slots, name) is Some
    &&& forall|p: int|
        0 <= p < command.phrases.len() ==> phrase_captures(#[trigger] command.phrases[p], name)
}

/// Tells whether a phrase holds the placeholder of a slot.
fn captures(phrase: &str, name: &str) -> (answer: bool)
    ensures
        answer == phrase_captures(phrase@, name@),
{
    let tokens = words_of(phrase);
    let mut i: usize = 0;
    while i < tokens.len()
        invariant
            0 <= i <= tokens@.len(),
            views(tokens@) == words(phrase@),
            forall|j: int|
                0 <= j < i ==> placeholder_name(#[trigger] words(phrase@)[j]) != Some(name@),
        decreases tokens@.len() - i,
    {
        assert(words(phrase@)[i as int] == tokens@[i as int]@);
        match placeholder(&tokens[i]) {
            Some(found) => {
                if same_text(&found, name) {
                    return true;
                }
            },
            None => {},
        }
        i = i + 1;
    }
    false
}

/// Tells whether a slot exists and every phrase captures it.
fn is_captured_everywhere(command: &CommandConfig, name: &str) -> (answer: bool)
    ensures
        answer == captured_everywhere(command@, name@),
{
    if !command.slots.contains_key(name) {
        return false;
    }
    let mut i: usize = 0;
    while i < command.phrases.len()
        invariant
            0 <= i <= command.phrases@.len(),
            forall|p: int|
                0 <= p < i ==> phrase_captures(#[trigger] command@.phrases[p], name@),
        decreases command.phrases@.len() - i,
    {
        assert(command@.phrases[i as int] == command.phrases@[i as int]@);
        if !captures(&command.phrases[i], name) {
            return false;
        }
        i = i + 1;
    }
    true
}

/// The first parameter value among the first `count` that names a slot not captured everywhere.
pub open spec fn parameter_error(command: CommandView, parameters: Parameters, count: int) -> Option<
    Seq<char>,
>
    decreases count,
{
    if count <= 0 {
        None
    } else {
        match parameter_error(command, parameters, count - 1) {
            Some(message) => Some(message),
            None => match placeholder_name(parameters[count - 1].1) {
                Some(name) => if captured_everywhere(command, name) {
                    None
                } else {
                    Some(
                        "command "@ + command.id + " parameter references slot "@ + name
                            + " not captured by every phrase"@,
                    )
                },
                None => None,
            },
        }
    }
}

proof fn parameter_error_stays(
    command: CommandView,
    parameters: Parameters,
    count: int,
    total: int,
)
    requires
        parameter_error(command, parameters, count) is Some,
        count <= total,
    ensures
        parameter_error(command, parameters, total) == parameter_error(command, parameters, count),
    decreases total,
{
    if count < total && total > 0 {
        parameter_error_stays(command, parameters, count, total - 1);
    }
}

/// Finds the first parameter value that names a slot not captured everywhere.
fn find_parameter_error(command: &CommandConfig, parameters: &TextMap<String>) -> (message: Option<
    String,
>)
    ensures
        option_view(message) == parameter_error(
            command@,
            parameters@,
            parameters@.len() as int,
        ),
{
    let mut i: usize = 0;
    while i < parameters.len()
        invariant
            0 <= i <= parameters@.len(),
            parameter_error(command@, parameters@, i as int) is None,
        decreases parameters@.len() - i,
    {
        match placeholder(parameters.value_at(i)) {
            Some(name) => {
                if !is_captured_everywhere(command, &name) {
                    let mut message = "command ".to_owned();
                    message.append(&command.id);
                    message.append(" parameter references slot ");
                    message.append(&name);
                    message.append(" not captured by every phrase");
                    proof {
                        parameter_error_stays(
                            command@,
                            parameters@,
                            i + 1,
                            parameters@.len() as int,
                        );
                    }
                    return Some(message);
                }
            },
            None => {},
        }
        i = i + 1;
    }
    None
}

/// The first action among the first `count` with a parameter error.
pub open spec fn reference_error(command: CommandView, count: int) -> Option<Seq<char>>
    decreases count,
{
    if count <= 0 {
        None
    } else {
        match reference_error(command, count - 1) {
            Some(message) => Some(message),
            None => {
                let parameters = command.resolved()[count - 1].parameters;
                parameter_error(command, parameters, parameters.len() as int)
            },
        }
    }
}

proof fn reference_error_stays(command: CommandView, count: int, total: int)
    requires
        reference_error(command, count) is Some,
        count <= total,
    ensures
        reference_error(command, total) == reference_error(command, count),
    decreases total,
{
    if count < total && total > 0 {
        reference_error_stays(command, count, total - 1);
    }
}

/// Finds the first action with a parameter error.
fn find_reference_error(command: &CommandConfig, actions: &Vec<CommandActionConfig>) -> (message:
    Option<String>)
    requires
        views(actions@) == command@.resolved(),
    ensures
        option_view(message) == reference_error(command@, command@.resolved().len() as int),
{
    let mut i: usize = 0;
    while i < actions.len()
        invariant
            0 <= i <= actions@.len(),
            views(actions@) == command@.resolved(),
            reference_error(command@, i as int) is None,
        decreases actions@.len() - i,
    {
        assert(views(actions@)[i as int] == actions@[i as int]@);
        let error = find_parameter_error(command, &actions[i].parameters);
        if error.is_some() {
            proof {
                reference_error_stays(command@, i + 1, actions@.len() as int);
            }
            return error;
        }
        i = i + 1;
    }
    None
}

/// What is wrong with one command, given the commands before it.
pub open spec fn command_error(commands: Seq<CommandView>, normalize_yo: bool, k: int) -> Option<
    Seq<char>,
> {
    let command = commands[k];
    let repeated = exists|j: int| 0 <= j < k && #[trigger] commands[j].id == command.id;
    let slot_message = slot_error(command, normalize_yo, command.slots.len() as int);
    let action_message = action_error(command, command.resolved().len() as int);
    let phrase_message = phrase_error(
        patterns_before(commands, normalize_yo, k),
        command,
        normalize_yo,
        command.phrases.len() as int,
    );
    if is_blank(command.id) || command.phrases.len() == 0 || repeated {
        Some("command ids must be unique and phrases non-empty: "@ + command.id)
    } else if command.actions.len() > 32 || (command.actions.len() > 0 && (command.handler.len() > 0
        || command.parameters.len() > 0)) {
        Some("command "@ + command.id + " must use either one handler or 1..=32 actions"@)
    } else if slot_message is Some {
        slot_message
    } else if action_message is Some {
        action_message
    } else if !(1 <= command.timeout_ms <= 300_000) {
        Some("timeout_ms is out of range: "@ + command.id)
    } else if phrase_message is Some {
        phrase_message
    } else {
        reference_error(command, command.resolved().len() as int)
    }
}

/// The first error among the first `count` commands.
pub open spec fn commands_error(commands: Seq<CommandView>, normalize_yo: bool, count: int) -> Option<
    Seq<char>,
>
    decreases count,
{
    if count <= 0 {
        None
    } else {
        match commands_error(commands, normalize_yo, count - 1) {
            Some(message) => Some(message),
            None => command_error(commands, normalize_yo, count - 1),
        }
    }
}

proof fn commands_error_stays(
    commands: Seq<CommandView>,
    normalize_yo: bool,
    count: int,
    total: int,
)
    requires
        commands_error(commands, normalize_yo, count) is Some,
        count <= total,
    ensures
        commands_error(commands, normalize_yo, total) == commands_error(
            commands,
            normalize_yo,
            count,
        ),
    decreases total,
{
    if count < total && total > 0 {
        commands_error_stays(commands, normalize_yo, count, total - 1);
    }
}

/// Tells whether one of the first `count` commands has an identifier.
fn id_taken(commands: &Vec<CommandConfig>, count: usize, id: &str) -> (taken: bool)
    requires
        count <= commands@.len(),
    ensures
        taken == exists|j: int| 0 <= j < count && #[trigger] views(commands@)[j].id == id@,
{
    let mut i: usize = 0;
    while i < count
        invariant
            0 <= i <= count <= commands@.len(),
            forall|j: int| 0 <= j < i ==> #[trigger] views(commands@)[j].id != id@,
        decreases count - i,
    {
        if same_text(&commands[i].id, id) {
            assert(views(commands@)[i as int].id == id@);
            return true;
        }
        i = i + 1;
    }
    false
}

/// Finds what is wrong with one command and records its phrase patterns.
fn find_command_error(
    commands: &Vec<CommandConfig>,
    normalize_yo: bool,
    k: usize,
    seen: &mut Vec<(String, String)>,
) -> (message: Option<String>)
    requires
        k < commands@.len(),
        entries_view(old(seen)@) == patterns_before(views(commands@), normalize_yo, k as int),
    ensures
        option_view(message) == command_error(views(commands@), normalize_yo, k as int),
        message is None ==> entries_view(final(seen)@) == patterns_before(
            views(commands@),
            normalize_yo,
            k + 1,
        ),
{
    let command = &commands[k];
    assert(views(commands@)[k as int] == command@);
    if blank(&command.id) || command.phrases.len() == 0 || id_taken(commands, k, &command.id) {
        let mut message = "command ids must be unique and phrases non-empty: ".to_owned();
        message.append(&command.id);
        return Some(message);
    }
    if command.actions.len() > 32 || (command.actions.len() > 0
        && (!command.handler.as_str().is_empty() || !command.parameters.is_empty())) {
        let mut message = "command ".to_owned();
        message.append(&command.id);
        message.append(" must use either one handler or 1..=32 actions");
        return Some(message);
    }
    let slot_message = find_slot_error(command, normalize_yo);
    if slot_message.is_some() {
        return slot_message;
    }
    let actions = command.resolved_actions();
    let action_message = find_action_error(command, &actions);
    if action_message.is_some() {
        return action_message;
    }
    if !(1 <= command.timeout_ms && command.timeout_ms <= 300_000) {
        let mut message = "timeout_ms is out of range: ".to_owned();
        message.append(&command.id);
        return Some(message);
    }
    let phrase_message = find_phrase_error(seen, command, normalize_yo);
    if phrase_message.is_some() {
        return phrase_message;
    }
    find_reference_error(command, &actions)
}

/// Finds the first error among the commands.
fn find_commands_error(commands: &Vec<CommandConfig>, normalize_yo: bool) -> (message: Option<
    String,
>)
    ensures
        option_view(message) == commands_error(
            views(commands@),
            normalize_yo,
            commands@.len() as int,
        ),
{
    let ghost given = views(commands@);
    let mut seen: Vec<(String, String)> = Vec::new();
    assert(entries_view(seen@) =~= patterns_before(given, normalize_yo, 0));
    let mut k: usize = 0;
    while k < commands.len()
        invariant
            0 <= k <= commands@.len(),
            given == views(commands@),
            entries_view(seen@) == patterns_before(given, normalize_yo, k as int),
            commands_error(given, normalize_yo, k as int) is None,
        decreases commands@.len() - k,
    {
        let message = find_command_error(commands, normalize_yo, k, &mut seen);
        if message.is_some() {
            proof {
                commands_error_stays(given, normalize_yo, k + 1, given.len() as int);
            }
            return message;
        }
        k = k + 1;
    }
    None
}

/// The first rule that a configuration breaks, as a message.
pub open spec fn validation_error(config: ConfigView) -> Option<Seq<char>> {
    let yo = config.matching.normalize_yo;
    if config.schema_version != CURRENT_CONFIG_VERSION {
        Some("unsupported schema_version "@ + decimal(config.schema_version as nat))
    } else if !canonical_audio(config.audio) {
        Some("audio must use the canonical 16 kHz mono format"@)
    } else if is_blank(config.audio.device_id) {
        Some(
            "audio.device_id must be non-empty; use \"default\" for the system input device"@,
        )
    } else if !audio_in_range(config.audio) {
        Some("audio timing, queue capacity or VAD threshold is out of range"@)
    } else if !wake_word_valid(config.wake_word, yo) {
        Some("wake word must be non-empty, score positive and threshold within 0..=1"@)
    } else if is_blank(config.wake_word.model) || is_blank(config.inference.model) {
        Some("wake-word and STT model identifiers must be non-empty"@)
    } else if !inference_in_range(config.inference) {
        Some("inference threads, queue capacity or timeout is out of range"@)
    } else if !policy_valid(config.policy, yo) {
        Some("confirmation or handler protection policy is invalid"@)
    } else if !ipc_valid(config.ipc) {
        Some("IPC pipe name or timeout is invalid"@)
    } else {
        commands_error(config.commands, yo, config.commands.len() as int)
    }
}

impl CoreConfig {
    /// Tells whether audio timing, queue capacity and VAD threshold are in range.
    fn audio_is_in_range(&self) -> (valid: bool)
        ensures
            valid == audio_in_range(self@.audio),
    {
        let audio = &self.audio;
        5 <= audio.frame_ms && audio.frame_ms <= 100 && audio.pre_roll_ms <= 5_000 && 1
            <= audio.queue_capacity_frames && audio.queue_capacity_frames <= 4_096
            && in_unit_interval(audio.vad_threshold) && audio.frame_ms <= audio.command_min_ms
            && audio.command_min_ms <= audio.command_max_ms && 250 <= audio.command_max_ms
            && audio.command_max_ms <= 60_000 && audio.frame_ms <= audio.trailing_silence_ms
            && audio.trailing_silence_ms <= audio.command_max_ms && 100 <= audio.reconnect_delay_ms
            && audio.reconnect_delay_ms <= 60_000 && 500 <= audio.stall_timeout_ms
            && audio.stall_timeout_ms <= 60_000
    }

    /// Tells whether the wake-word settings are usable.
    fn wake_word_is_valid(&self) -> (valid: bool)
        ensures
            valid == wake_word_valid(self@.wake_word, self@.matching.normalize_yo),
    {
        let wake_word = &self.wake_word;
        let phrases = wake_word.wake_words();
        have_distinct_forms(&phrases, self.matching.normalize_yo) && in_unit_interval(
            wake_word.threshold,
        ) && wake_word.score.is_finite() && !wake_word.score.at_most(
            Real32::from_bits(ZERO_BITS),
        ) && wake_word.score.at_most(Real32::from_bits(HUNDRED_BITS)) && wake_word.cooldown_ms
            <= 60_000
    }

    /// Tells whether the inference limits are in range.
    fn inference_is_in_range(&self) -> (valid: bool)
        ensures
            valid == inference_in_range(self@.inference),
    {
        let inference = &self.inference;
        0 <= inference.threads && inference.threads <= 64 && 1 <= inference.queue_capacity
            && inference.queue_capacity <= 64 && 100 <= inference.timeout_ms
            && inference.timeout_ms <= 300_000 && inference.max_restarts <= 20 && 100
            <= inference.restart_backoff_ms && inference.restart_backoff_ms <= 60_000
    }

    /// Tells whether the policy is usable.
    fn policy_is_valid(&self) -> (valid: bool)
        ensures
            valid == policy_valid(self@.policy, self@.matching.normalize_yo),
    {
        let policy = &self.policy;
        let mut phrases = duplicate_all(&policy.confirmation_accept_phrases);
        let mut cancel = duplicate_all(&policy.confirmation_cancel_phrases);
        let ghost accepted = phrases@;
        let ghost cancelled = cancel@;
        phrases.append(&mut cancel);
        assert(views(phrases@) =~= views(accepted) + views(cancelled));
        100 <= policy.confirmation_timeout_ms && policy.confirmation_timeout_ms <= 300_000
            && have_distinct_forms(&phrases, self.matching.normalize_yo)
            && policy.confirmation_accept_phrases.len() > 0
            && policy.confirmation_cancel_phrases.len() > 0 && policy.handler_rate_limit_ms
            <= 300_000 && policy.handler_failure_threshold <= 100 && 100
            <= policy.handler_circuit_breaker_ms && policy.handler_circuit_breaker_ms <= 3_600_000
    }

    /// Finds the first rule that the configuration breaks.
    fn find_error(&self) -> (message: Option<String>)
        ensures
            option_view(message) == validation_error(self@),
    {
        if self.schema_version != CURRENT_CONFIG_VERSION {
            let mut message = "unsupported schema_version ".to_owned();
            push_decimal(&mut message, self.schema_version as u64);
            return Some(message);
        }
        if self.audio.target_sample_rate != 16_000 || self.audio.channels != 1 {
            return Some("audio must use the canonical 16 kHz mono format".to_owned());
        }
        if blank(&self.audio.device_id) {
            return Some(
                "audio.device_id must be non-empty; use \"default\" for the system input device".to_owned(),
            );
        }
        if !self.audio_is_in_range() {
            return Some(
                "audio timing, queue capacity or VAD threshold is out of range".to_owned(),
            );
        }
        if !self.wake_word_is_valid() {
            return Some(
                "wake word must be non-empty, score positive and threshold within 0..=1".to_owned(),
            );
        }
        if blank(&self.wake_word.model) || blank(&self.inference.model) {
            return Some("wake-word and STT model identifiers must be non-empty".to_owned());
        }
        if !self.inference_is_in_range() {
            return Some(
                "inference threads, queue capacity or timeout is out of range".to_owned(),
            );
        }
        if !self.policy_is_valid() {
            return Some("confirmation or handler protection policy is invalid".to_owned());
        }
        if !is_pipe_name(&self.ipc.pipe_name) || !(100 <= self.ipc.io_timeout_ms
            && self.ipc.io_timeout_ms <= 300_000) {
            return Some("IPC pipe name or timeout is invalid".to_owned());
        }
        find_commands_error(&self.commands, self.matching.normalize_yo)
    }

    /// Validates all structural ranges and cross-field invariants.
    pub fn validate(&self) -> (checked: Result<(), ConfigError>)
        ensures
            match (checked, validation_error(self@)) {
                (Ok(_), None) => true,
                (Err(error), Some(message)) => error@ == ConfigErrorView::Validation(message),
                _ => false,
            },
    {
        match self.find_error() {
            Some(message) => Err(ConfigError::Validation(message)),
            None => Ok(()),
        }
    }
}

proof fn each_command_is_valid(commands: Seq<CommandView>, normalize_yo: bool, count: int, k: int)
    requires
        commands_error(commands, normalize_yo, count) is None,
        0 <= k < count,
    ensures
        command_error(commands, normalize_yo, k) is None,
    decreases count,
{
    if k < count - 1 {
        each_command_is_valid(commands, normalize_yo, count - 1, k);
    }
}

proof fn each_phrase_is_valid(
    earlier: Seq<(Seq<char>, Seq<char>)>,
    command: CommandView,
    normalize_yo: bool,
    count: int,
    p: int,
)
    requires
        phrase_error(earlier, command, normalize_yo, count) is None,
        0 <= p < count,
    ensures
        phrase_pattern(command.phrases[p], normalize_yo, command.slots) matches Some(pattern)
            && pattern.len() > 0 && lookup(
            earlier + patterns_of(command, normalize_yo, p),
            pattern,
        ) is None,
    decreases count,
{
    if p < count - 1 {
        each_phrase_is_valid(earlier, command, normalize_yo, count - 1, p);
    }
}

proof fn patterns_of_entry(command: CommandView, normalize_yo: bool, count: int, p: int)
    requires
        0 <= p < count,
    ensures
        patterns_of(command, normalize_yo, count).len() == count,
        patterns_of(command, normalize_yo, count)[p].0 == phrase_pattern(
            command.phrases[p],
            normalize_yo,
            command.slots,
        )->0,
    decreases count,
{
    reveal_with_fuel(patterns_of, 2);
    if count > 1 {
        patterns_of_entry(command, normalize_yo, count - 1, if p < count - 1 {
            p
        } else {
            0
        });
    }
}

proof fn patterns_before_entry(
    commands: Seq<CommandView>,
    normalize_yo: bool,
    count: int,
    i: int,
    p: int,
) -> (at: int)
    requires
        0 <= i < count <= commands.len(),
        0 <= p < commands[i].phrases.len(),
    ensures
        0 <= at < patterns_before(commands, normalize_yo, count).len(),
        patterns_before(commands, normalize_yo, count)[at].0 == phrase_pattern(
            commands[i].phrases[p],
            normalize_yo,
            commands[i].slots,
        )->0,
    decreases count,
{
    let earlier = patterns_before(commands, normalize_yo, count - 1);
    if i == count - 1 {
        patterns_of_entry(commands[i], normalize_yo, commands[i].phrases.len() as int, p);
        earlier.len() + p
    } else {
        patterns_before_entry(commands, normalize_yo, count - 1, i, p)
    }
}

/// The commands of a valid configuration have different identifiers.
pub proof fn valid_ids_are_unique(config: ConfigView, i: int, j: int)
    requires
        validation_error(config) is None,
        0 <= i < j < config.commands.len(),
    ensures
        config.commands[i].id != config.commands[j].id,
{
    each_command_is_valid(
        config.commands,
        config.matching.normalize_yo,
        config.commands.len() as int,
        j,
    );
    assert(config.commands[i].id == config.commands[i].id);
}

/// Two phrases of a valid configuration, of one command or of two, never have the same pattern,
/// and no pattern is empty.
pub proof fn valid_phrases_are_unambiguous(config: ConfigView, i: int, p: int, j: int, q: int)
    requires
        validation_error(config) is None,
        0 <= i <= j < config.commands.len(),
        0 <= p < config.commands[i].phrases.len(),
        0 <= q < config.commands[j].phrases.len(),
        i < j || p < q,
    ensures
        ({
            let yo = config.matching.normalize_yo;
            let first = phrase_pattern(config.commands[i].phrases[p], yo, config.commands[i].slots);
            let second = phrase_pattern(config.commands[j].phrases[q], yo, config.commands[j].slots);
            first is Some && second is Some && first != second && first->0.len() > 0 && second->0.len() > 0
        }),
{
    let yo = config.matching.normalize_yo;
    let commands = config.commands;
    each_command_is_valid(commands, yo, commands.len() as int, i);
    each_command_is_valid(commands, yo, commands.len() as int, j);
    let before_i = patterns_before(commands, yo, i);
    let before_j = patterns_before(commands, yo, j);
    each_phrase_is_valid(before_i, commands[i], yo, commands[i].phrases.len() as int, p);
    each_phrase_is_valid(before_j, commands[j], yo, commands[j].phrases.len() as int, q);
    let second = phrase_pattern(commands[j].phrases[q], yo, commands[j].slots)->0;
    let seen = before_j + patterns_of(commands[j], yo, q);
    lookup_absent(seen, second);
    if i < j {
        let at = patterns_before_entry(commands, yo, j, i, p);
        assert(seen[at] == before_j[at]);
    } else {
        patterns_of_entry(commands[j], yo, q, p);
        assert(seen[before_j.len() + p] == patterns_of(commands[j], yo, q)[p]);
    }
}

/// The settings of a configuration are valid exactly if all of them are within their limits; what is
/// left then are its commands.
pub proof fn settings_are_valid_within_their_limits(config: ConfigView)
    ensures
        validation_error(config) is None <==> {
            let audio = config.audio;
            let wake_word = config.wake_word;
            let inference = config.inference;
            let policy = config.policy;
            let yo = config.matching.normalize_yo;
            let keywords = seq![wake_word.keyword] + wake_word.aliases;
            let answers = policy.confirmation_accept_phrases + policy.confirmation_cancel_phrases;
            &&& config.schema_version == 6
            &&& audio.target_sample_rate == 16_000 && audio.channels == 1
            &&& !is_blank(audio.device_id)
            &&& 5 <= audio.frame_ms && audio.frame_ms <= 100
            &&& audio.pre_roll_ms <= 5_000
            &&& 1 <= audio.queue_capacity_frames && audio.queue_capacity_frames <= 4_096
            &&& audio.vad_threshold.finite() && 0 <= audio.vad_threshold.scaled()
                && audio.vad_threshold.scaled() <= pow2(149)
            &&& audio.frame_ms <= audio.command_min_ms && audio.command_min_ms
                <= audio.command_max_ms
            &&& 250 <= audio.command_max_ms && audio.command_max_ms <= 60_000
            &&& audio.frame_ms <= audio.trailing_silence_ms && audio.trailing_silence_ms
                <= audio.command_max_ms
            &&& 100 <= audio.reconnect_delay_ms && audio.reconnect_delay_ms <= 60_000
            &&& 500 <= audio.stall_timeout_ms && audio.stall_timeout_ms <= 60_000
            &&& forall|i: int|
                0 <= i < keywords.len() ==> (#[trigger] normalized(keywords[i], yo)).len() > 0
            &&& forall|i: int, j: int|
                0 <= i < j < keywords.len() ==> #[trigger] normalized(keywords[i], yo)
                    != #[trigger] normalized(keywords[j], yo)
            &&& wake_word.threshold.finite() && 0 <= wake_word.threshold.scaled()
                && wake_word.threshold.scaled() <= pow2(149)
            &&& wake_word.score.finite() && 0 < wake_word.score.scaled() && wake_word.score.scaled()
                <= 100 * pow2(149)
            &&& wake_word.cooldown_ms <= 60_000
            &&& !is_blank(wake_word.model) && !is_blank(inference.model)
            &&& 0 <= inference.threads && inference.threads <= 64
            &&& 1 <= inference.queue_capacity && inference.queue_capacity <= 64
            &&& 100 <= inference.timeout_ms && inference.timeout_ms <= 300_000
            &&& inference.max_restarts <= 20
            &&& 100 <= inference.restart_backoff_ms && inference.restart_backoff_ms <= 60_000
            &&& 100 <= policy.confirmation_timeout_ms && policy.confirmation_timeout_ms <= 300_000
            &&& policy.confirmation_accept_phrases.len() > 0
            &&& policy.confirmation_cancel_phrases.len() > 0
            &&& forall|i: int|
                0 <= i < answers.len() ==> (#[trigger] normalized(answers[i], yo)).len() > 0
            &&& forall|i: int, j: int|
                0 <= i < j < answers.len() ==> #[trigger] normalized(answers[i], yo)
                    != #[trigger] normalized(answers[j], yo)
            &&& policy.handler_rate_limit_ms <= 300_000
            &&& policy.handler_failure_threshold <= 100
            &&& 100 <= policy.handler_circuit_breaker_ms && policy.handler_circuit_breaker_ms
                <= 3_600_000
            &&& config.ipc.pipe_name.len() > 0
            &&& forall|i: int|
                0 <= i < config.ipc.pipe_name.len() ==> {
                    let c = #[trigger] config.ipc.pipe_name[i];
                    ('a' <= c && c <= 'z') || ('A' <= c && c <= 'Z') || ('0' <= c && c <= '9') || c
                        == '-'
                }
            &&& 100 <= config.ipc.io_timeout_ms && config.ipc.io_timeout_ms <= 300_000
            &&& commands_error(config.commands, yo, config.commands.len() as int) is None
        },
{
    crate::float32::constants_are_exact();
    crate::float32::magnitude_order(0, 1);
    let audio = config.audio;
    let wake_word = config.wake_word;
    let zero = Real32 { bits: ZERO_BITS };
    assert(zero.finite());
    let answers = config.policy.confirmation_accept_phrases + config.policy.confirmation_cancel_phrases;
    let keywords = seq![wake_word.keyword] + wake_word.aliases;
    assert(wake_word.phrases() =~= keywords);
    if audio.vad_threshold.finite() {
        assert(!audio.vad_threshold.nan());
    }
    if wake_word.threshold.finite() {
        assert(!wake_word.threshold.nan());
    }
    if wake_word.score.finite() {
        assert(!wake_word.score.nan());
    }
    assert(pipe_name_valid(config.ipc.pipe_name) <==> config.ipc.pipe_name.len() > 0 && forall|i: int|
        0 <= i < config.ipc.pipe_name.len() ==> {
            let c = #[trigger] config.ipc.pipe_name[i];
            ('a' <= c && c <= 'z') || ('A' <= c && c <= 'Z') || ('0' <= c && c <= '9') || c == '-'
        });
}

proof fn slots_without_error(command: CommandView, normalize_yo: bool, count: int)
    requires
        0 <= count <= command.slots.len(),
    ensures
        slot_error(command, normalize_yo, count) is None <==> forall|i: int|
            0 <= i < count ==> slot_name_valid((#[trigger] command.slots[i]).0) && slot_policy_valid(
                command.slots[i].1,
                normalize_yo,
            ),
    decreases count,
{
    if count > 0 {
        slots_without_error(command, normalize_yo, count - 1);
        if slot_error(command, normalize_yo, count) is Some {
            if slot_error(command, normalize_yo, count - 1) is Some {
                let i = choose|i: int|
                    0 <= i < count - 1 && !(slot_name_valid((#[trigger] command.slots[i]).0)
                        && slot_policy_valid(command.slots[i].1, normalize_yo));
                assert(!(slot_name_valid(command.slots[i].0) && slot_policy_valid(
                    command.slots[i].1,
                    normalize_yo,
                )));
            } else {
                assert(!(slot_name_valid(command.slots[count - 1].0) && slot_policy_valid(
                    command.slots[count - 1].1,
                    normalize_yo,
                )));
            }
        }
    }
}

proof fn actions_without_error(command: CommandView, count: int)
    requires
        0 <= count <= command.resolved().len(),
    ensures
        action_error(command, count) is None <==> forall|i: int|
            0 <= i < count ==> !is_blank((#[trigger] command.resolved()[i]).handler)
                && command.resolved()[i].delay_ms <= 60_000,
    decreases count,
{
    if count > 0 {
        actions_without_error(command, count - 1);
        if action_error(command, count) is Some {
            if action_error(command, count - 1) is Some {
                let i = choose|i: int|
                    0 <= i < count - 1 && !(!is_blank((#[trigger] command.resolved()[i]).handler)
                        && command.resolved()[i].delay_ms <= 60_000);
                assert(!(!is_blank(command.resolved()[i].handler) && command.resolved()[i].delay_ms
                    <= 60_000));
            } else {
                assert(!(!is_blank(command.resolved()[count - 1].handler) && command.resolved()[count
                    - 1].delay_ms <= 60_000));
            }
        }
    }
}

proof fn parameters_without_error(command: CommandView, parameters: Parameters, count: int)
    requires
        0 <= count <= parameters.len(),
    ensures
        parameter_error(command, parameters, count) is None <==> forall|i: int|
            0 <= i < count ==> (placeholder_name((#[trigger] parameters[i]).1) matches Some(name)
                ==> captured_everywhere(command, name)),
    decreases count,
{
    if count > 0 {
        parameters_without_error(command, parameters, count - 1);
        if parameter_error(command, parameters, count) is Some {
            if parameter_error(command, parameters, count - 1) is Some {
                let i = choose|i: int|
                    0 <= i < count - 1 && !(placeholder_name((#[trigger] parameters[i]).1) matches Some(
                        name,
                    ) ==> captured_everywhere(command, name));
                assert(!(placeholder_name(parameters[i].1) matches Some(name) ==> captured_everywhere(
                    command,
                    name,
                )));
            } else {
                assert(!(placeholder_name(parameters[count - 1].1) matches Some(name)
                    ==> captured_everywhere(command, name)));
            }
        }
    }
}

proof fn references_without_error(command: CommandView, count: int)
    requires
        0 <= count <= command.resolved().len(),
    ensures
        reference_error(command, count) is None <==> forall|a: int|
            0 <= a < count ==> parameter_error(
                command,
                (#[trigger] command.resolved()[a]).parameters,
                command.resolved()[a].parameters.len() as int,
            ) is None,
    decreases count,
{
    if count > 0 {
        references_without_error(command, count - 1);
        if reference_error(command, count) is Some {
            if reference_error(command, count - 1) is Some {
                let a = choose|a: int|
                    0 <= a < count - 1 && parameter_error(
                        command,
                        (#[trigger] command.resolved()[a]).parameters,
                        command.resolved()[a].parameters.len() as int,
                    ) is Some;
                assert(parameter_error(
                    command,
                    command.resolved()[a].parameters,
                    command.resolved()[a].parameters.len() as int,
                ) is Some);
            } else {
                assert(parameter_error(
                    command,
                    command.resolved()[count - 1].parameters,
                    command.resolved()[count - 1].parameters.len() as int,
                ) is Some);
            }
        }
    }
}

/// What a valid command fulfils: it has an identifier and phrases, either one handler or up to 32
/// actions, slots with plain names, handlers and delays of at most a minute, a timeout of at most five
/// minutes, phrases that are neither malformed nor empty, and parameters whose slots every phrase
/// captures.
pub proof fn valid_commands_keep_their_limits(
    config: ConfigView,
    k: int,
    i: int,
    a: int,
    v: int,
    p: int,
)
    requires
        validation_error(config) is None,
        0 <= k < config.commands.len(),
    ensures
        ({
            let command = config.commands[k];
            let yo = config.matching.normalize_yo;
            &&& !is_blank(command.id)
            &&& command.phrases.len() > 0
            &&& command.actions.len() <= 32
            &&& command.actions.len() > 0 ==> command.handler.len() == 0 && command.parameters.len()
                == 0
            &&& 1 <= command.timeout_ms && command.timeout_ms <= 300_000
            &&& 0 <= i < command.slots.len() ==> {
                let (name, slot) = command.slots[i];
                &&& name.len() > 0
                &&& forall|c: int|
                    0 <= c < name.len() ==> ('a' <= #[trigger] name[c] && name[c] <= 'z') || ('0'
                        <= name[c] && name[c] <= '9') || name[c] == '_'
                &&& match slot.value_type {
                    SlotType::Text => {
                        &&& slot.min is None && slot.max is None
                        &&& 0 < slot.values.len() <= 256
                        &&& forall|v: int|
                            0 <= v < slot.values.len() ==> is_word(
                                #[trigger] normalized(slot.values[v], yo),
                            )
                        &&& forall|v: int, w: int|
                            0 <= v < w < slot.values.len() ==> #[trigger] normalized(
                                slot.values[v],
                                yo,
                            ) != #[trigger] normalized(slot.values[w], yo)
                    },
                    SlotType::Integer => slot.values.len() == 0 && slot.min is Some && slot.max is Some
                        && slot.min->0 <= slot.max->0,
                    SlotType::Boolean => slot.values.len() == 0 && slot.min is None && slot.max is None,
                }
            }
            &&& 0 <= a < command.resolved().len() ==> {
                let action = command.resolved()[a];
                &&& !is_blank(action.handler)
                &&& action.delay_ms <= 60_000
                &&& 0 <= v < action.parameters.len() ==> (placeholder_name(
                    action.parameters[v].1,
                ) matches Some(name) ==> lookup(command.slots, name) is Some && (0 <= p
                    < command.phrases.len() ==> exists|t: int|
                    0 <= t < words(command.phrases[p]).len() && placeholder_name(
                        #[trigger] words(command.phrases[p])[t],
                    ) == Some(name)))
            }
            &&& 0 <= p < command.phrases.len() ==> (phrase_pattern(
                command.phrases[p],
                yo,
                command.slots,
            ) matches Some(pattern) && pattern.len() > 0)
        }),
{
    let yo = config.matching.normalize_yo;
    let command = config.commands[k];
    each_command_is_valid(config.commands, yo, config.commands.len() as int, k);
    slots_without_error(command, yo, command.slots.len() as int);
    actions_without_error(command, command.resolved().len() as int);
    references_without_error(command, command.resolved().len() as int);
    if 0 <= i < command.slots.len() {
        assert(slot_name_valid(command.slots[i].0) && slot_policy_valid(command.slots[i].1, yo));
    }
    if 0 <= a < command.resolved().len() {
        let action = command.resolved()[a];
        assert(!is_blank(command.resolved()[a].handler));
        parameters_without_error(command, action.parameters, action.parameters.len() as int);
        if 0 <= v < action.parameters.len() {
            if let Some(name) = placeholder_name(action.parameters[v].1) {
                assert(captured_everywhere(command, name));
                if 0 <= p < command.phrases.len() {
                    assert(phrase_captures(command.phrases[p], name));
                }
            }
        }
    }
    if 0 <= p < command.phrases.len() {
        each_phrase_is_valid(
            patterns_before(config.commands, yo, k),
            command,
            yo,
            command.phrases.len() as int,
            p,
        );
    }
}

proof fn patterns_of_all(command: CommandView, normalize_yo: bool, count: int)
    requires
        0 <= count,
    ensures
        patterns_of(command, normalize_yo, count).len() == count,
        forall|p: int|
            0 <= p < count ==> (#[trigger] patterns_of(command, normalize_yo, count)[p]).0
                == phrase_pattern(command.phrases[p], normalize_yo, command.slots)->0,
    decreases count,
{
    if count > 0 {
        patterns_of_all(command, normalize_yo, count - 1);
        let shorter = patterns_of(command, normalize_yo, count - 1);
        let all = patterns_of(command, normalize_yo, count);
        assert forall|p: int| 0 <= p < count implies (#[trigger] all[p]).0 == phrase_pattern(
            command.phrases[p],
            normalize_yo,
            command.slots,
        )->0 by {
            if p < count - 1 {
                assert(all[p] == shorter[p]);
            }
        }
    }
}

proof fn patterns_before_all(commands: Seq<CommandView>, normalize_yo: bool, count: int, at: int) -> (origin: (
    int,
    int,
))
    requires
        0 <= count <= commands.len(),
        0 <= at < patterns_before(commands, normalize_yo, count).len(),
    ensures
        0 <= origin.0 < count,
        0 <= origin.1 < commands[origin.0].phrases.len(),
        patterns_before(commands, normalize_yo, count)[at].0 == phrase_pattern(
            commands[origin.0].phrases[origin.1],
            normalize_yo,
            commands[origin.0].slots,
        )->0,
    decreases count,
{
    let earlier = patterns_before(commands, normalize_yo, count - 1);
    if at < earlier.len() {
        patterns_before_all(commands, normalize_yo, count - 1, at)
    } else {
        let command = commands[count - 1];
        patterns_of_all(command, normalize_yo, command.phrases.len() as int);
        let p = at - earlier.len();
        assert(patterns_before(commands, normalize_yo, count)[at] == patterns_of(
            command,
            normalize_yo,
            command.phrases.len() as int,
        )[p]);
        (count - 1, p)
    }
}

proof fn phrases_without_error(commands: Seq<CommandView>, normalize_yo: bool, k: int, count: int)
    requires
        0 <= k < commands.len(),
        0 <= count <= commands[k].phrases.len(),
        forall|j: int, q: int|
            #![trigger commands[j].phrases[q]]
            0 <= j <= k && 0 <= q < commands[j].phrases.len() ==> (phrase_pattern(
                commands[j].phrases[q],
                normalize_yo,
                commands[j].slots,
            ) matches Some(pattern) && pattern.len() > 0),
        forall|i: int, p: int, j: int, q: int|
            #![trigger commands[i].phrases[p], commands[j].phrases[q]]
            0 <= i <= k && 0 <= j <= k && 0 <= p < commands[i].phrases.len() && 0 <= q
                < commands[j].phrases.len() && (i, p) != (j, q) ==> phrase_pattern(
                commands[i].phrases[p],
                normalize_yo,
                commands[i].slots,
            ) != phrase_pattern(commands[j].phrases[q], normalize_yo, commands[j].slots),
    ensures
        phrase_error(
            patterns_before(commands, normalize_yo, k),
            commands[k],
            normalize_yo,
            count,
        ) is None,
    decreases count,
{
    if count > 0 {
        phrases_without_error(commands, normalize_yo, k, count - 1);
        let command = commands[k];
        let earlier = patterns_before(commands, normalize_yo, k);
        let own = patterns_of(command, normalize_yo, count - 1);
        let phrase = command.phrases[count - 1];
        assert(commands[k].phrases[count - 1] == phrase);
        let pattern = phrase_pattern(phrase, normalize_yo, command.slots)->0;
        patterns_of_all(command, normalize_yo, count - 1);
        if lookup(earlier + own, pattern) is Some {
            let at = crate::text_map::lookup_position(earlier + own, pattern);
            if at < earlier.len() {
                let (j, q) = patterns_before_all(commands, normalize_yo, k, at);
                assert(commands[j].phrases[q] == commands[j].phrases[q]);
                assert((earlier + own)[at] == earlier[at]);
                assert(phrase_pattern(commands[j].phrases[q], normalize_yo, commands[j].slots)
                    != phrase_pattern(commands[k].phrases[count - 1], normalize_yo, commands[k].slots));
            } else {
                let q = at - earlier.len();
                assert((earlier + own)[at] == own[q]);
                assert(commands[k].phrases[q] == command.phrases[q]);
                assert(phrase_pattern(commands[k].phrases[q], normalize_yo, commands[k].slots)
                    != phrase_pattern(commands[k].phrases[count - 1], normalize_yo, commands[k].slots));
            }
        }
    }
}

proof fn no_command_errs(commands: Seq<CommandView>, normalize_yo: bool, count: int)
    requires
        0 <= count <= commands.len(),
        forall|k: int| 0 <= k < count ==> #[trigger] command_error(commands, normalize_yo, k) is None,
    ensures
        commands_error(commands, normalize_yo, count) is None,
    decreases count,
{
    if count > 0 {
        assert(command_error(commands, normalize_yo, count - 1) is None);
        no_command_errs(commands, normalize_yo, count - 1);
    }
}

/// Commands are refused for nothing else: where every command keeps its limits, identifiers differ,
/// and all phrases have patterns that are neither empty nor alike, there is no error.
pub proof fn commands_within_their_limits_are_valid(commands: Seq<CommandView>, normalize_yo: bool)
    requires
        forall|k: int|
            #![trigger commands[k]]
            0 <= k < commands.len() ==> {
                let command = commands[k];
                &&& !is_blank(command.id)
                &&& command.phrases.len() > 0
                &&& command.actions.len() <= 32
                &&& command.actions.len() > 0 ==> command.handler.len() == 0
                    && command.parameters.len() == 0
                &&& 1 <= command.timeout_ms && command.timeout_ms <= 300_000
                &&& forall|i: int|
                    0 <= i < command.slots.len() ==> slot_name_valid((#[trigger] command.slots[i]).0)
                        && slot_policy_valid(command.slots[i].1, normalize_yo)
                &&& forall|a: int|
                    0 <= a < command.resolved().len() ==> {
                        let action = #[trigger] command.resolved()[a];
                        &&& !is_blank(action.handler)
                        &&& action.delay_ms <= 60_000
                        &&& forall|v: int|
                            0 <= v < action.parameters.len() ==> (placeholder_name(
                                (#[trigger] action.parameters[v]).1,
                            ) matches Some(name) ==> captured_everywhere(command, name))
                    }
            },
        forall|i: int, j: int|
            0 <= i < j < commands.len() ==> (#[trigger] commands[i]).id != (#[trigger] commands[j]).id,
        forall|j: int, q: int|
            #![trigger commands[j].phrases[q]]
            0 <= j < commands.len() && 0 <= q < commands[j].phrases.len() ==> (phrase_pattern(
                commands[j].phrases[q],
                normalize_yo,
                commands[j].slots,
            ) matches Some(pattern) && pattern.len() > 0),
        forall|i: int, p: int, j: int, q: int|
            #![trigger commands[i].phrases[p], commands[j].phrases[q]]
            0 <= i < commands.len() && 0 <= j < commands.len() && 0 <= p < commands[i].phrases.len()
                && 0 <= q < commands[j].phrases.len() && (i, p) != (j, q) ==> phrase_pattern(
                commands[i].phrases[p],
                normalize_yo,
                commands[i].slots,
            ) != phrase_pattern(commands[j].phrases[q], normalize_yo, commands[j].slots),
    ensures
        commands_error(commands, normalize_yo, commands.len() as int) is None,
{
    assert forall|k: int| 0 <= k < commands.len() implies #[trigger] command_error(
        commands,
        normalize_yo,
        k,
    ) is None by {
        let command = commands[k];
        slots_without_error(command, normalize_yo, command.slots.len() as int);
        actions_without_error(command, command.resolved().len() as int);
        references_without_error(command, command.resolved().len() as int);
        assert forall|a: int| 0 <= a < command.resolved().len() implies parameter_error(
            command,
            (#[trigger] command.resolved()[a]).parameters,
            command.resolved()[a].parameters.len() as int,
        ) is None by {
            let action = command.resolved()[a];
            parameters_without_error(command, action.parameters, action.parameters.len() as int);
        }
        phrases_without_error(commands, normalize_yo, k, command.phrases.len() as int);
    }
    no_command_errs(commands, normalize_yo, commands.len() as int);
}

/// The settings that are in force where a configuration names none are within their limits.
pub proof fn defaults_are_within_their_limits()
    ensures
        ({
            let audio = default_audio();
            let wake_word = default_wake_word();
            let policy = default_policy();
            &&& canonical_audio(audio) && audio_in_range(audio)
            &&& audio.device_id == "default"@
            &&& wake_word.threshold.finite() && 0 <= wake_word.threshold.scaled()
                && wake_word.threshold.scaled() <= pow2(149)
            &&& wake_word.score.finite() && pow2(149) < wake_word.score.scaled()
                && wake_word.score.scaled() <= 100 * pow2(149)
            &&& wake_word.cooldown_ms <= 60_000 && wake_word.aliases.len() == 0
            &&& policy.confirmations_enabled && policy.voice_confirmations_enabled
            &&& 100 <= policy.confirmation_timeout_ms <= 300_000
            &&& policy.confirmation_accept_phrases.len() > 0
            &&& policy.confirmation_cancel_phrases.len() > 0
            &&& policy.handler_rate_limit_ms == 0
            &&& 0 < policy.handler_failure_threshold <= 100
            &&& 100 <= policy.handler_circuit_breaker_ms <= 3_600_000
        }),
{
    crate::float32::constants_are_exact();
    crate::float32::magnitude_order(0x3c75_c28f, 0x3f80_0000);
    crate::float32::magnitude_order(0x3eb3_3333, 0x3f80_0000);
    crate::float32::magnitude_order(0x3f80_0000, 0x3fc0_0000);
    crate::float32::magnitude_order(0x3fc0_0000, 0x42c8_0000);
    crate::float32::magnitude_order(0, 0x3c75_c28f);
    assert(!is_blank("default"@)) by {
        reveal_strlit("default");
        assert(!is_whitespace("default"@[0]));
    }
}

/// The names and policies of slots that are valid, and no others.
pub proof fn slots_are_valid_within_their_limits(name: Seq<char>, slot: SlotView, normalize_yo: bool)
    ensures
        slot_name_valid(name) <==> name.len() > 0 && forall|c: int|
            0 <= c < name.len() ==> ('a' <= #[trigger] name[c] && name[c] <= 'z') || ('0' <= name[c]
                && name[c] <= '9') || name[c] == '_',
        slot_policy_valid(slot, normalize_yo) <==> match slot.value_type {
            SlotType::Text => {
                &&& slot.min is None && slot.max is None
                &&& 0 < slot.values.len() && slot.values.len() <= 256
                &&& forall|v: int|
                    0 <= v < slot.values.len() ==> is_word(
                        #[trigger] normalized(slot.values[v], normalize_yo),
                    )
                &&& forall|v: int, w: int|
                    0 <= v < w < slot.values.len() ==> #[trigger] normalized(
                        slot.values[v],
                        normalize_yo,
                    ) != #[trigger] normalized(slot.values[w], normalize_yo)
            },
            SlotType::Integer => slot.values.len() == 0 && slot.min is Some && slot.max is Some
                && slot.min->0 <= slot.max->0,
            SlotType::Boolean => slot.values.len() == 0 && slot.min is None && slot.max is None,
        },
{
    if slot.value_type is Text && slot_policy_valid(slot, normalize_yo) {
        assert forall|v: int| 0 <= v < slot.values.len() implies is_word(
            #[trigger] normalized(slot.values[v], normalize_yo),
        ) by {}
    }
}

/// A parameter may refer to a slot exactly if the command has the slot and each of its phrases names it
/// in braces; where it may not although there is the slot, there is a phrase without it.
pub proof fn references_need_captured_slots(command: CommandView, name: Seq<char>, p: int) -> (missing: int)
    ensures
        captured_everywhere(command, name) ==> lookup(command.slots, name) is Some && (0 <= p
            < command.phrases.len() ==> exists|t: int|
            0 <= t < words(command.phrases[p]).len() && placeholder_name(
                #[trigger] words(command.phrases[p])[t],
            ) == Some(name)),
        !captured_everywhere(command, name) && lookup(command.slots, name) is Some ==> 0 <= missing
            < command.phrases.len() && forall|t: int|
            0 <= t < words(command.phrases[missing]).len() ==> placeholder_name(
                #[trigger] words(command.phrases[missing])[t],
            ) != Some(name),
{
    if captured_everywhere(command, name) {
        if 0 <= p < command.phrases.len() {
            assert(phrase_captures(command.phrases[p], name));
        }
        0
    } else if lookup(command.slots, name) is Some {
        let missing = choose|p: int|
            0 <= p < command.phrases.len() && !phrase_captures(#[trigger] command.phrases[p], name);
        assert(!phrase_captures(command.phrases[missing], name));
        missing
    } else {
        0
    }
}

/// The word that an element of a pattern contributes to what tells phrases apart.
pub open spec fn element_word(element: TokenView) -> Seq<char> {
    match element {
        TokenView::Literal(word) => word,
        TokenView::Slot(_) => "{}"@,
    }
}

proof fn pattern_words_are_elements(
    tokens: Seq<Seq<char>>,
    normalize_yo: bool,
    slots: Seq<(Seq<char>, SlotView)>,
    count: int,
)
    requires
        0 <= count <= tokens.len(),
    ensures
        pattern_words(tokens, normalize_yo, slots, count) matches Some(found) ==> found == pattern_tokens(
            tokens,
            normalize_yo,
            count,
        ).map_values(|element: TokenView| element_word(element)),
        pattern_words(tokens, normalize_yo, slots, count) is Some <==> forall|t: int|
            0 <= t < count ==> match placeholder_name(#[trigger] tokens[t]) {
                Some(name) => lookup(slots, name) is Some,
                None => !tokens[t].contains('{') && !tokens[t].contains('}'),
            },
    decreases count,
{
    let view = |element: TokenView| element_word(element);
    if count > 0 {
        pattern_words_are_elements(tokens, normalize_yo, slots, count - 1);
        let earlier = pattern_tokens(tokens, normalize_yo, count - 1);
        let token = tokens[count - 1];
        if let Some(found) = pattern_words(tokens, normalize_yo, slots, count) {
            match placeholder_name(token) {
                Some(name) => {
                    assert(earlier.push(TokenView::Slot(name)).map_values(view) =~= earlier.map_values(
                        view,
                    ).push("{}"@));
                },
                None => {
                    let plain = words(normalized(token, normalize_yo));
                    assert((earlier + literals(plain)).map_values(view) =~= earlier.map_values(view)
                        + plain);
                },
            }
        }
        if pattern_words(tokens, normalize_yo, slots, count) is None && pattern_words(
            tokens,
            normalize_yo,
            slots,
            count - 1,
        ) is None {
            let t = choose|t: int|
                0 <= t < count - 1 && !(match placeholder_name(#[trigger] tokens[t]) {
                    Some(name) => lookup(slots, name) is Some,
                    None => !tokens[t].contains('{') && !tokens[t].contains('}'),
                });
            assert(0 <= t < count);
            assert(tokens[t] == tokens[t]);
        }
    } else {
        assert(Seq::<Seq<char>>::empty() =~= Seq::<TokenView>::empty().map_values(view));
    }
}

/// Phrases are told apart by what they are matched against: their words in normal form, with `{}` for
/// every slot. A phrase has such a form exactly if each of its placeholders names a slot and no other
/// word holds a brace.
pub proof fn patterns_follow_the_matching(
    phrase: Seq<char>,
    normalize_yo: bool,
    slots: Seq<(Seq<char>, SlotView)>,
)
    ensures
        phrase_pattern(phrase, normalize_yo, slots) matches Some(pattern) ==> pattern == joined(
            phrase_tokens(phrase, normalize_yo).map_values(|element: TokenView| element_word(element)),
        ),
        phrase_pattern(phrase, normalize_yo, slots) is Some <==> forall|t: int|
            0 <= t < words(phrase).len() ==> match placeholder_name(#[trigger] words(phrase)[t]) {
                Some(name) => lookup(slots, name) is Some,
                None => !words(phrase)[t].contains('{') && !words(phrase)[t].contains('}'),
            },
{
    pattern_words_are_elements(words(phrase), normalize_yo, slots, words(phrase).len() as int);
}

} // verus!
