//! Text normalization and matching of configured command phrases.

use crate::text::{
    char_is_alphanumeric, char_is_whitespace, chars_of, contains_char, is_alphanumeric, is_whitespace, join, joined,
    joined_is_single_spaced, joining_restores, lowercase, same_text, single_spaced, starts_with, strip_prefix,
    text_between, to_lowercase, trim, trim_start, trimmed, views, words, words_are_words, words_keep, words_of,
};
use crate::config::{CommandConfig, CommandView, ConfigView, SlotConfig, SlotView};
use crate::validation::{pattern_words, phrase_pattern, valid_phrases_are_unambiguous, validation_error};
use crate::domain::{CommandParameters, Parameters};
use crate::text_map::{inserted, lookup, lookup_after_insert, TextMap};
use vstd::prelude::*;

verus! {

/// A text with every `ё` written `е`.
pub open spec fn yo_folded(text: Seq<char>) -> Seq<char> {
    text.map_values(|c: char| if c == 'ё' { 'е' } else { c })
}

/// Writes every `ё` as `е`.
pub fn fold_yo(text: &str) -> (folded: String)
    ensures
        folded@ == yo_folded(text@),
{
    let chars = chars_of(text);
    let mut folded = String::new();
    let mut i: usize = 0;
    while i < chars.len()
        invariant
            0 <= i <= chars@.len(),
            folded@ == yo_folded(chars@).take(i as int),
        decreases chars@.len() - i,
    {
        let c = chars[i];
        let next = if c == 'ё' {
            'е'
        } else {
            c
        };
        folded.push(next);
        assert(folded@ =~= yo_folded(chars@).take(i + 1));
        i = i + 1;
    }
    assert(folded@ =~= yo_folded(chars@));
    folded
}

/// A character as it stands between words: white space and alphanumeric ones are kept.
pub open spec fn separated_char(c: char, alphanumeric: bool) -> char {
    if alphanumeric || is_whitespace(c) {
        c
    } else {
        ' '
    }
}

/// Replaces a character that is neither alphanumeric nor white space by a space.
pub fn separate(c: char, alphanumeric: bool) -> (kept: char)
    ensures
        kept == separated_char(c, alphanumeric),
{
    if alphanumeric || char_is_whitespace(c) {
        c
    } else {
        ' '
    }
}

/// A text with everything but alphanumeric characters and white space replaced by spaces.
pub open spec fn separated(text: Seq<char>) -> Seq<char> {
    text.map_values(|c: char| separated_char(c, is_alphanumeric(c)))
}

/// The words of a text with single spaces between them.
pub fn collapse_whitespace(text: &str) -> (collapsed: String)
    ensures
        collapsed@ == joined(words(text@)),
{
    join(&words_of(text))
}

/// The words of a lower-cased text without punctuation, joined by single spaces.
pub open spec fn normalized_lowercase(lowered: Seq<char>, normalize_yo: bool) -> Seq<char> {
    let folded = if normalize_yo {
        yo_folded(lowered)
    } else {
        lowered
    };
    joined(words(separated(folded)))
}

/// Normalizes a text that is in lower case already.
pub fn normalize_lowercase(lowered: &str, normalize_yo: bool) -> (text: String)
    ensures
        text@ == normalized_lowercase(lowered@, normalize_yo),
{
    let folded = if normalize_yo {
        fold_yo(lowered)
    } else {
        lowered.to_owned()
    };
    let chars = chars_of(&folded);
    let mut kept = String::new();
    let mut i: usize = 0;
    while i < chars.len()
        invariant
            0 <= i <= chars@.len(),
            kept@ == separated(chars@).take(i as int),
        decreases chars@.len() - i,
    {
        kept.push(separate(chars[i], char_is_alphanumeric(chars[i])));
        assert(kept@ =~= separated(chars@).take(i + 1));
        i = i + 1;
    }
    assert(kept@ =~= separated(chars@));
    collapse_whitespace(&kept)
}

/// The normal form of a text: lower case, words only, single spaces, optionally without `ё`.
pub open spec fn normalized(text: Seq<char>, normalize_yo: bool) -> Seq<char> {
    normalized_lowercase(lowercase(text), normalize_yo)
}

/// Whether a character may stand in a word of a normal form.
pub open spec fn is_letter(c: char, normalize_yo: bool) -> bool {
    is_alphanumeric(c) && (normalize_yo ==> c != 'ё')
}

/// Whether a text has the shape of a normal form: words of alphanumeric characters with one space
/// between neighbours and none at the ends, and without `ё` where it is folded.
pub open spec fn has_normal_shape(text: Seq<char>, normalize_yo: bool) -> bool {
    &&& single_spaced(text)
    &&& forall|i: int|
        0 <= i < text.len() ==> (#[trigger] text[i]) == ' ' || is_letter(text[i], normalize_yo)
}

/// Whatever is normalized, the normal form has its shape.
pub proof fn normal_forms_have_their_shape(lowered: Seq<char>, normalize_yo: bool)
    ensures
        has_normal_shape(normalized_lowercase(lowered, normalize_yo), normalize_yo),
{
    let folded = if normalize_yo {
        yo_folded(lowered)
    } else {
        lowered
    };
    let kept = |c: char| is_letter(c, normalize_yo);
    let spaced = separated(folded);
    assert forall|i: int| 0 <= i < spaced.len() implies is_whitespace(#[trigger] spaced[i]) || kept(
        spaced[i],
    ) by {
        assert(spaced[i] == separated_char(folded[i], is_alphanumeric(folded[i])));
    }
    words_keep(spaced, kept);
    words_are_words(spaced);
    joined_is_single_spaced(words(spaced), kept);
}

/// A text that has the shape of a normal form and that lower-casing leaves as it is, is its own
/// normal form.
pub proof fn normal_forms_are_their_own(text: Seq<char>, normalize_yo: bool)
    requires
        has_normal_shape(text, normalize_yo),
        lowercase(text) == text,
    ensures
        normalized(text, normalize_yo) == text,
{
    if normalize_yo {
        assert(yo_folded(text) =~= text) by {
            assert forall|i: int| 0 <= i < text.len() implies yo_folded(text)[i] == #[trigger] text[i] by {}
        }
    }
    assert(separated(text) =~= text) by {
        assert forall|i: int| 0 <= i < text.len() implies separated(text)[i] == #[trigger] text[i] by {}
    }
    joining_restores(text);
}

/// Normalizing a normal form changes nothing, where lower-casing it changes nothing.
pub proof fn normalizing_twice_changes_nothing(text: Seq<char>, normalize_yo: bool)
    requires
        lowercase(normalized(text, normalize_yo)) == normalized(text, normalize_yo),
    ensures
        normalized(normalized(text, normalize_yo), normalize_yo) == normalized(text, normalize_yo),
{
    normal_forms_have_their_shape(lowercase(text), normalize_yo);
    normal_forms_are_their_own(normalized(text, normalize_yo), normalize_yo);
}

/// Normalizes case, punctuation, whitespace and optionally Russian `ё`.
pub fn normalize(text: &str, normalize_yo: bool) -> (result: String)
    ensures
        result@ == normalized(text@, normalize_yo),
        has_normal_shape(result@, normalize_yo),
{
    proof {
        normal_forms_have_their_shape(lowercase(text@), normalize_yo);
    }
    normalize_lowercase(&to_lowercase(text), normalize_yo)
}

/// The slot name in a `{name}` token: braces around at least one character that is no brace.
pub open spec fn placeholder_name(token: Seq<char>) -> Option<Seq<char>> {
    if token.len() > 2 && token[0] == '{' && token.last() == '}' {
        let name = token.subrange(1, token.len() - 1);
        if name.contains('{') || name.contains('}') {
            None
        } else {
            Some(name)
        }
    } else {
        None
    }
}

/// The slot name in a `{name}` token.
pub fn placeholder(token: &str) -> (name: Option<String>)
    ensures
        match name {
            Some(name) => placeholder_name(token@) == Some(name@),
            None => placeholder_name(token@) is None,
        },
{
    let chars = chars_of(token);
    if chars.len() > 2 && chars[0] == '{' && chars[chars.len() - 1] == '}' {
        let name = text_between(&chars, 1, chars.len() - 1);
        if contains_char(&name, '{') || contains_char(&name, '}') {
            None
        } else {
            Some(name)
        }
    } else {
        None
    }
}

/// One element of a phrase pattern.
enum PatternToken {
    /// A word that has to be said as it is.
    Literal(String),
    /// A named slot that one word fills.
    Slot(String),
}

/// What a phrase pattern asks of one word.
pub enum TokenView {
    /// A word that has to be said as it is.
    Literal(Seq<char>),
    /// A named slot that one word fills.
    Slot(Seq<char>),
}

impl View for PatternToken {
    type V = TokenView;

    closed spec fn view(&self) -> TokenView {
        match self {
            PatternToken::Literal(word) => TokenView::Literal(word@),
            PatternToken::Slot(name) => TokenView::Slot(name@),
        }
    }
}

/// Words as pattern elements.
pub open spec fn literals(found: Seq<Seq<char>>) -> Seq<TokenView> {
    found.map_values(|word: Seq<char>| TokenView::Literal(word))
}

/// The pattern of the first `count` tokens of a phrase: a slot for each placeholder, literal
/// words for the rest.
pub open spec fn pattern_tokens(tokens: Seq<Seq<char>>, normalize_yo: bool, count: int) -> Seq<TokenView>
    decreases count,
{
    if count <= 0 {
        Seq::empty()
    } else {
        let earlier = pattern_tokens(tokens, normalize_yo, count - 1);
        match placeholder_name(tokens[count - 1]) {
            Some(name) => earlier.push(TokenView::Slot(name)),
            None => earlier + literals(words(normalized(tokens[count - 1], normalize_yo))),
        }
    }
}

/// The pattern of a phrase.
pub open spec fn phrase_tokens(phrase: Seq<char>, normalize_yo: bool) -> Seq<TokenView> {
    pattern_tokens(words(phrase), normalize_yo, words(phrase).len() as int)
}

/// The slot values after the first `count` words, or nothing where one of them does not fit.
pub open spec fn captured(
    pattern: Seq<TokenView>,
    said: Seq<Seq<char>>,
    slots: Seq<(Seq<char>, SlotView)>,
    normalize_yo: bool,
    count: int,
) -> Option<Parameters>
    decreases count,
{
    if count <= 0 {
        Some(Seq::empty())
    } else {
        match captured(pattern, said, slots, normalize_yo, count - 1) {
            None => None,
            Some(values) => match pattern[count - 1] {
                TokenView::Literal(word) => if word == said[count - 1] {
                    Some(values)
                } else {
                    None
                },
                TokenView::Slot(name) => match lookup(slots, name) {
                    None => None,
                    Some(slot) => match slot.canonical(said[count - 1], normalize_yo) {
                        None => None,
                        Some(value) => if lookup(values, name) is Some && lookup(values, name)
                            != Some(value) {
                            None
                        } else {
                            Some(inserted(values, name, value))
                        },
                    },
                },
            },
        }
    }
}

/// The slot values with which a phrase matches a normalized text.
pub open spec fn phrase_match(
    phrase: Seq<char>,
    text: Seq<char>,
    slots: Seq<(Seq<char>, SlotView)>,
    normalize_yo: bool,
) -> Option<Parameters> {
    let pattern = phrase_tokens(phrase, normalize_yo);
    let said = words(text);
    if pattern.len() != said.len() {
        None
    } else {
        captured(pattern, said, slots, normalize_yo, said.len() as int)
    }
}

/// The first match among the phrases from `from` on.
pub open spec fn command_match(command: CommandView, text: Seq<char>, normalize_yo: bool, from: int) -> Option<
    Parameters,
>
    decreases command.phrases.len() - from,
{
    if !(0 <= from < command.phrases.len()) {
        None
    } else {
        match phrase_match(command.phrases[from], text, command.slots, normalize_yo) {
            Some(values) => Some(values),
            None => command_match(command, text, normalize_yo, from + 1),
        }
    }
}

/// The first enabled command from `from` on that matches a normalized text.
pub open spec fn first_match(
    commands: Seq<CommandView>,
    text: Seq<char>,
    normalize_yo: bool,
    from: int,
) -> Option<(int, Parameters)>
    decreases commands.len() - from,
{
    if !(0 <= from < commands.len()) {
        None
    } else {
        let found = command_match(commands[from], text, normalize_yo, 0);
        if commands[from].enabled && found is Some {
            Some((from, found->0))
        } else {
            first_match(commands, text, normalize_yo, from + 1)
        }
    }
}

/// The part of a text behind a wake word, where the text begins with it and says more.
pub open spec fn behind_wake_word(text: Seq<char>, wake_word: Seq<char>) -> Option<Seq<char>> {
    if starts_with(text, wake_word) && trimmed(text.skip(wake_word.len() as int)).len() > 0 {
        Some(trimmed(text.skip(wake_word.len() as int)))
    } else {
        None
    }
}

/// The match behind the first wake word, from `from` on, that leads to one.
pub open spec fn match_behind(
    commands: Seq<CommandView>,
    text: Seq<char>,
    wake_words: Seq<Seq<char>>,
    normalize_yo: bool,
    from: int,
) -> Option<(int, Parameters)>
    decreases wake_words.len() - from,
{
    if !(0 <= from < wake_words.len()) {
        None
    } else {
        let found = match behind_wake_word(text, normalized(wake_words[from], normalize_yo)) {
            Some(rest) => first_match(commands, rest, normalize_yo, 0),
            None => None,
        };
        if found is Some {
            found
        } else {
            match_behind(commands, text, wake_words, normalize_yo, from + 1)
        }
    }
}

/// What a [`CommandRegistry`] holds.
pub struct RegistryView {
    /// The commands, in order of preference.
    pub commands: Seq<CommandView>,
    /// Whether `ё` is normalized to `е`.
    pub normalize_yo: bool,
}

impl RegistryView {
    /// The command and slot values that a text selects.
    pub open spec fn selects(self, text: Seq<char>) -> Option<(int, Parameters)> {
        first_match(self.commands, normalized(text, self.normalize_yo), self.normalize_yo, 0)
    }

    /// The command and slot values that a text selects as it stands or behind a wake word.
    pub open spec fn selects_after(self, text: Seq<char>, wake_words: Seq<Seq<char>>) -> Option<
        (int, Parameters),
    > {
        let form = normalized(text, self.normalize_yo);
        match first_match(self.commands, form, self.normalize_yo, 0) {
            Some(found) => Some(found),
            None => match_behind(self.commands, form, wake_words, self.normalize_yo, 0),
        }
    }
}

impl RegistryView {
    /// The match of what a text says behind the first wake word, from `from` on, that leads to one;
    /// what stands behind a wake word counts as a text of its own.
    pub open spec fn selects_rest(self, form: Seq<char>, wake_words: Seq<Seq<char>>, from: int) -> Option<
        (int, Parameters),
    >
        decreases wake_words.len() - from,
    {
        if !(0 <= from < wake_words.len()) {
            None
        } else {
            let found = match behind_wake_word(form, normalized(wake_words[from], self.normalize_yo)) {
                Some(rest) => self.selects(rest),
                None => None,
            };
            if found is Some {
                found
            } else {
                self.selects_rest(form, wake_words, from + 1)
            }
        }
    }
}

/// What stands behind a wake word in a normal form has the shape of one.
proof fn rest_has_normal_shape(form: Seq<char>, wake_word: Seq<char>, normalize_yo: bool)
    requires
        has_normal_shape(form, normalize_yo),
        behind_wake_word(form, wake_word) is Some,
    ensures
        has_normal_shape(behind_wake_word(form, wake_word)->0, normalize_yo),
{
    let count = wake_word.len() as int;
    let said = form.skip(count);
    assert(said.len() > 0) by {
        if said.len() == 0 {
            assert(trimmed(said).len() == 0);
        }
    }
    assert(said.last() == form.last());
    let rest = if said[0] == ' ' {
        said.drop_first()
    } else {
        said
    };
    assert(form[count] == said[0]);
    if said[0] == ' ' {
        assert(said.len() > 1);
        assert(!(form[count] == ' ' && form[count + 1] == ' '));
        assert(rest[0] == form[count + 1]);
        assert(!is_whitespace(rest[0]));
    }
    assert(rest.last() == form[form.len() - 1]);
    assert(!is_whitespace(rest[0]) && !is_whitespace(rest.last()));
    assert(trim_start(rest) == rest);
    assert(trim_start(said) == rest);
    assert(trimmed(said) == rest);
    let offset = form.len() - rest.len();
    assert forall|i: int| 0 <= i < rest.len() implies #[trigger] rest[i] == form[i + offset] by {}
    assert forall|i: int, j: int| 0 <= i < j < rest.len() && j == i + 1 implies !((#[trigger] rest[i])
        == ' ' && (#[trigger] rest[j]) == ' ') by {
        assert(!(form[i + offset] == ' ' && form[j + offset] == ' '));
    }
    assert forall|i: int| 0 <= i < rest.len() implies ((#[trigger] rest[i]) == ' ' || !is_whitespace(
        rest[i],
    )) && (rest[i] == ' ' || is_letter(rest[i], normalize_yo)) by {
        assert(rest[i] == form[i + offset]);
    }
}

/// What stands behind a wake word is matched as a text of its own: a text selects what it selects as
/// it stands, or else what the rest behind the first wake word that leads to a match selects. This
/// holds wherever lower-casing leaves the rests of the normal form as they are.
pub proof fn rests_are_texts_of_their_own(registry: RegistryView, text: Seq<char>, wake_words: Seq<Seq<char>>)
    requires
        forall|i: int|
            0 <= i < wake_words.len() ==> (behind_wake_word(
                normalized(text, registry.normalize_yo),
                normalized(#[trigger] wake_words[i], registry.normalize_yo),
            ) matches Some(rest) ==> lowercase(rest) == rest),
    ensures
        registry.selects_after(text, wake_words) == match registry.selects(text) {
            Some(found) => Some(found),
            None => registry.selects_rest(
                normalized(text, registry.normalize_yo),
                wake_words,
                0,
            ),
        },
{
    normal_forms_have_their_shape(lowercase(text), registry.normalize_yo);
    rests_agree(registry, normalized(text, registry.normalize_yo), wake_words, 0);
}

proof fn rests_agree(registry: RegistryView, form: Seq<char>, wake_words: Seq<Seq<char>>, from: int)
    requires
        0 <= from <= wake_words.len(),
        has_normal_shape(form, registry.normalize_yo),
        forall|i: int|
            0 <= i < wake_words.len() ==> (behind_wake_word(
                form,
                normalized(#[trigger] wake_words[i], registry.normalize_yo),
            ) matches Some(rest) ==> lowercase(rest) == rest),
    ensures
        match_behind(registry.commands, form, wake_words, registry.normalize_yo, from)
            == registry.selects_rest(form, wake_words, from),
    decreases wake_words.len() - from,
{
    if from < wake_words.len() {
        let wake_word = normalized(wake_words[from], registry.normalize_yo);
        if behind_wake_word(form, wake_word) is Some {
            rest_has_normal_shape(form, wake_word, registry.normalize_yo);
            normal_forms_are_their_own(
                behind_wake_word(form, wake_word)->0,
                registry.normalize_yo,
            );
        }
        rests_agree(registry, form, wake_words, from + 1);
    }
}

/// One matched command and its validated typed slot values.
pub struct CommandMatch<'a> {
    /// Matched command configuration.
    pub command: &'a CommandConfig,
    /// Canonical values captured from phrase placeholders.
    pub slots: CommandParameters,
}

/// Whether a match is the one that was selected among the commands.
pub open spec fn is_selected(
    found: Option<CommandMatch<'_>>,
    commands: Seq<CommandView>,
    selected: Option<(int, Parameters)>,
) -> bool {
    match (found, selected) {
        (Some(found), Some((k, values))) => 0 <= k < commands.len() && found.command@ == commands[k]
            && found.slots@ == values,
        (None, None) => true,
        _ => false,
    }
}

/// Whether a command is the one that was selected among the commands.
pub open spec fn is_selected_command(
    found: Option<&CommandConfig>,
    commands: Seq<CommandView>,
    selected: Option<(int, Parameters)>,
) -> bool {
    match (found, selected) {
        (Some(found), Some((k, _))) => 0 <= k < commands.len() && found@ == commands[k],
        (None, None) => true,
        _ => false,
    }
}

/// Splits a phrase into its pattern.
fn tokens_of(phrase: &str, normalize_yo: bool) -> (pattern: Vec<PatternToken>)
    ensures
        views(pattern@) == phrase_tokens(phrase@, normalize_yo),
{
    let tokens = words_of(phrase);
    let ghost given = views(tokens@);
    let mut pattern: Vec<PatternToken> = Vec::new();
    assert(views(pattern@) =~= Seq::<TokenView>::empty());
    let mut i: usize = 0;
    while i < tokens.len()
        invariant
            0 <= i <= tokens@.len(),
            given == views(tokens@),
            views(pattern@) == pattern_tokens(given, normalize_yo, i as int),
        decreases tokens@.len() - i,
    {
        assert(given[i as int] == tokens@[i as int]@);
        let ghost before = views(pattern@);
        match placeholder(&tokens[i]) {
            Some(name) => {
                let ghost slot = TokenView::Slot(name@);
                pattern.push(PatternToken::Slot(name));
                assert(views(pattern@) =~= before.push(slot));
            },
            None => {
                let found = words_of(&normalize(&tokens[i], normalize_yo));
                let ghost said = views(found@);
                let mut j: usize = 0;
                assert(before + literals(said.take(0)) =~= before);
                while j < found.len()
                    invariant
                        0 <= j <= found@.len(),
                        said == views(found@),
                        views(pattern@) == before + literals(said.take(j as int)),
                    decreases found@.len() - j,
                {
                    let ghost partial = views(pattern@);
                    pattern.push(PatternToken::Literal(found[j].clone()));
                    assert(views(pattern@) =~= partial.push(TokenView::Literal(said[j as int])));
                    assert(literals(said.take(j + 1)) =~= literals(said.take(j as int)).push(
                        TokenView::Literal(said[j as int]),
                    ));
                    assert(views(pattern@) =~= before + literals(said.take(j + 1)));
                    j = j + 1;
                }
                assert(said.take(j as int) =~= said);
            },
        }
        i = i + 1;
    }
    pattern
}

proof fn captured_none(
    pattern: Seq<TokenView>,
    said: Seq<Seq<char>>,
    slots: Seq<(Seq<char>, SlotView)>,
    normalize_yo: bool,
    count: int,
    total: int,
)
    requires
        captured(pattern, said, slots, normalize_yo, count) is None,
        count <= total,
    ensures
        captured(pattern, said, slots, normalize_yo, total) is None,
    decreases total,
{
    if count < total && total > 0 {
        captured_none(pattern, said, slots, normalize_yo, count, total - 1);
    }
}

/// Matches one phrase against a normalized text.
fn match_phrase(
    phrase: &str,
    text: &str,
    slots: &TextMap<SlotConfig>,
    normalize_yo: bool,
) -> (values: Option<CommandParameters>)
    ensures
        match (values, phrase_match(phrase@, text@, slots@, normalize_yo)) {
            (Some(values), Some(expected)) => values@ == expected,
            (None, None) => true,
            _ => false,
        },
{
    let pattern = tokens_of(phrase, normalize_yo);
    let said = words_of(text);
    let ghost tokens = views(pattern@);
    let ghost spoken = views(said@);
    if pattern.len() != said.len() {
        return None;
    }
    let mut values: CommandParameters = TextMap::new();
    let mut i: usize = 0;
    while i < pattern.len()
        invariant
            0 <= i <= pattern@.len(),
            pattern@.len() == said@.len(),
            tokens == views(pattern@),
            spoken == views(said@),
            tokens == phrase_tokens(phrase@, normalize_yo),
            spoken == words(text@),
            captured(tokens, spoken, slots@, normalize_yo, i as int) == Some(values@),
        decreases pattern@.len() - i,
    {
        assert(tokens[i as int] == pattern@[i as int]@);
        assert(spoken[i as int] == said@[i as int]@);
        proof {
            if captured(tokens, spoken, slots@, normalize_yo, i + 1) is None {
                captured_none(tokens, spoken, slots@, normalize_yo, i + 1, spoken.len() as int);
            }
        }
        match &pattern[i] {
            PatternToken::Literal(word) => {
                if !same_text(word, &said[i]) {
                    return None;
                }
            },
            PatternToken::Slot(name) => {
                let value = match slots.get(name) {
                    None => {
                        return None;
                    },
                    Some(slot) => match slot.canonicalize(&said[i], normalize_yo) {
                        None => {
                            return None;
                        },
                        Some(value) => value,
                    },
                };
                match values.get(name) {
                    Some(earlier) => {
                        if !same_text(earlier, &value) {
                            return None;
                        }
                    },
                    None => {},
                }
                values.insert(name.clone(), value);
            },
        }
        i = i + 1;
    }
    Some(values)
}

/// Exact and typed-slot registry built from validated command configuration.
pub struct CommandRegistry {
    commands: Vec<CommandConfig>,
    normalize_yo: bool,
}

impl View for CommandRegistry {
    type V = RegistryView;

    closed spec fn view(&self) -> RegistryView {
        RegistryView { commands: views(self.commands@), normalize_yo: self.normalize_yo }
    }
}

impl CommandRegistry {
    /// Builds a registry and selects whether `ё` is normalized to `е`.
    pub fn new(commands: Vec<CommandConfig>, normalize_yo: bool) -> (registry: Self)
        ensures
            registry@ == (RegistryView { commands: views(commands@), normalize_yo }),
    {
        CommandRegistry { commands, normalize_yo }
    }

    /// Applies the registry's configured text normalization policy.
    pub fn normalized(&self, text: &str) -> (form: String)
        ensures
            form@ == normalized(text@, self@.normalize_yo),
    {
        normalize(text, self.normalize_yo)
    }

    /// Finds an enabled command by exact normalized phrase.
    pub fn find(&self, text: &str) -> (found: Option<&CommandConfig>)
        ensures
            is_selected_command(found, self@.commands, self@.selects(text@)),
    {
        match self.match_text(text) {
            Some(matched) => Some(matched.command),
            None => None,
        }
    }

    /// Matches an exact command, optionally after a known wake-word prefix.
    pub fn find_after_wake_word(&self, text: &str, wake_word: &str) -> (found: Option<&CommandConfig>)
        ensures
            is_selected_command(
                found,
                self@.commands,
                self@.selects_after(text@, seq![wake_word@]),
            ),
    {
        let wake_words: Vec<String> = vec![wake_word.to_owned()];
        assert(views(wake_words@) =~= seq![wake_word@]);
        match self.match_after_wake_words(text, &wake_words) {
            Some(matched) => Some(matched.command),
            None => None,
        }
    }

    /// Matches an exact command, optionally after any known wake-word prefix.
    pub fn find_after_wake_words(&self, text: &str, wake_words: &Vec<String>) -> (found: Option<
        &CommandConfig,
    >)
        ensures
            is_selected_command(
                found,
                self@.commands,
                self@.selects_after(text@, views(wake_words@)),
            ),
    {
        match self.match_after_wake_words(text, wake_words) {
            Some(matched) => Some(matched.command),
            None => None,
        }
    }

    /// Matches a command and returns validated values captured by `{slot}` tokens.
    pub fn match_text(&self, text: &str) -> (found: Option<CommandMatch<'_>>)
        ensures
            is_selected(found, self@.commands, self@.selects(text@)),
    {
        let form = normalize(text, self.normalize_yo);
        self.match_normalized(&form)
    }

    /// Matches a command with slots, optionally after any known wake-word prefix.
    pub fn match_after_wake_words(&self, text: &str, wake_words: &Vec<String>) -> (found: Option<
        CommandMatch<'_>,
    >)
        ensures
            is_selected(
                found,
                self@.commands,
                self@.selects_after(text@, views(wake_words@)),
            ),
    {
        let form = normalize(text, self.normalize_yo);
        let direct = self.match_normalized(&form);
        if direct.is_some() {
            return direct;
        }
        let ghost phrases = views(wake_words@);
        let mut i: usize = 0;
        while i < wake_words.len()
            invariant
                0 <= i <= wake_words@.len(),
                phrases == views(wake_words@),
                form@ == normalized(text@, self@.normalize_yo),
                first_match(self@.commands, form@, self@.normalize_yo, 0) is None,
                match_behind(self@.commands, form@, phrases, self@.normalize_yo, 0) == match_behind(
                    self@.commands,
                    form@,
                    phrases,
                    self@.normalize_yo,
                    i as int,
                ),
            decreases wake_words@.len() - i,
        {
            assert(phrases[i as int] == wake_words@[i as int]@);
            let wake_word = normalize(&wake_words[i], self.normalize_yo);
            match strip_prefix(&form, &wake_word) {
                Some(rest) => {
                    let rest = trim(&rest);
                    if !rest.as_str().is_empty() {
                        let found = self.match_normalized(&rest);
                        if found.is_some() {
                            return found;
                        }
                    }
                },
                None => {},
            }
            i = i + 1;
        }
        None
    }

    /// Finds the first enabled command with a phrase that matches a normalized text.
    fn match_normalized(&self, text: &str) -> (found: Option<CommandMatch<'_>>)
        ensures
            is_selected(
                found,
                self@.commands,
                first_match(self@.commands, text@, self@.normalize_yo, 0),
            ),
    {
        let mut k: usize = 0;
        while k < self.commands.len()
            invariant
                0 <= k <= self.commands@.len(),
                first_match(self@.commands, text@, self@.normalize_yo, 0) == first_match(
                    self@.commands,
                    text@,
                    self@.normalize_yo,
                    k as int,
                ),
            decreases self.commands@.len() - k,
        {
            let command = &self.commands[k];
            assert(self@.commands[k as int] == command@);
            if command.enabled {
                match match_command(command, text, self.normalize_yo) {
                    Some(slots) => {
                        return Some(CommandMatch { command, slots });
                    },
                    None => {},
                }
            }
            k = k + 1;
        }
        None
    }
}

/// Finds the first phrase of a command that matches a normalized text.
fn match_command(command: &CommandConfig, text: &str, normalize_yo: bool) -> (values: Option<
    CommandParameters,
>)
    ensures
        match (values, command_match(command@, text@, normalize_yo, 0)) {
            (Some(values), Some(expected)) => values@ == expected,
            (None, None) => true,
            _ => false,
        },
{
    let mut p: usize = 0;
    while p < command.phrases.len()
        invariant
            0 <= p <= command.phrases@.len(),
            command_match(command@, text@, normalize_yo, 0) == command_match(
                command@,
                text@,
                normalize_yo,
                p as int,
            ),
        decreases command.phrases@.len() - p,
    {
        assert(command@.phrases[p as int] == command.phrases@[p as int]@);
        let values = match_phrase(&command.phrases[p], text, &command.slots, normalize_yo);
        if values.is_some() {
            return values;
        }
        p = p + 1;
    }
    None
}

/// Whether a word fits one element of a pattern, given the values captured in the end.
pub open spec fn fits(
    token: TokenView,
    word: Seq<char>,
    slots: Seq<(Seq<char>, SlotView)>,
    normalize_yo: bool,
    values: Parameters,
) -> bool {
    match token {
        TokenView::Literal(expected) => word == expected,
        TokenView::Slot(name) => {
            &&& lookup(slots, name) is Some
            &&& lookup(slots, name)->0.canonical(word, normalize_yo) is Some
            &&& lookup(values, name) == lookup(slots, name)->0.canonical(word, normalize_yo)
        },
    }
}

/// Where words are accepted, every literal was said as it is and every slot holds the canonical
/// form of the word that filled it, which the slot's own policy admits.
pub proof fn captured_words_fit(
    pattern: Seq<TokenView>,
    said: Seq<Seq<char>>,
    slots: Seq<(Seq<char>, SlotView)>,
    normalize_yo: bool,
    count: int,
    i: int,
)
    requires
        0 <= i < count,
        captured(pattern, said, slots, normalize_yo, count) is Some,
    ensures
        fits(
            pattern[i],
            said[i],
            slots,
            normalize_yo,
            captured(pattern, said, slots, normalize_yo, count)->0,
        ),
    decreases count,
{
    let earlier = captured(pattern, said, slots, normalize_yo, count - 1)->0;
    if pattern[count - 1] is Slot {
        let name = pattern[count - 1]->Slot_0;
        let value = lookup(slots, name)->0.canonical(said[count - 1], normalize_yo)->0;
        lookup_after_insert(earlier, name, value, name);
        if i < count - 1 {
            captured_words_fit(pattern, said, slots, normalize_yo, count - 1, i);
            if pattern[i] is Slot {
                lookup_after_insert(earlier, name, value, pattern[i]->Slot_0);
            }
        }
    } else if i < count - 1 {
        captured_words_fit(pattern, said, slots, normalize_yo, count - 1, i);
    }
}

/// A selected command exists, is enabled and matches the text through one of its phrases.
pub proof fn selection_is_enabled(commands: Seq<CommandView>, text: Seq<char>, normalize_yo: bool, from: int)
    requires
        0 <= from,
        first_match(commands, text, normalize_yo, from) is Some,
    ensures
        ({
            let (k, values) = first_match(commands, text, normalize_yo, from)->0;
            &&& from <= k < commands.len()
            &&& commands[k].enabled
            &&& exists|p: int|
                0 <= p < commands[k].phrases.len() && #[trigger] phrase_match(
                    commands[k].phrases[p],
                    text,
                    commands[k].slots,
                    normalize_yo,
                ) == Some(values)
        }),
    decreases commands.len() - from,
{
    if commands[from].enabled && command_match(commands[from], text, normalize_yo, 0) is Some {
        command_match_phrase(commands[from], text, normalize_yo, 0);
    } else {
        selection_is_enabled(commands, text, normalize_yo, from + 1);
    }
}

proof fn command_match_phrase(command: CommandView, text: Seq<char>, normalize_yo: bool, from: int)
    requires
        0 <= from,
        command_match(command, text, normalize_yo, from) is Some,
    ensures
        exists|p: int|
            0 <= p < command.phrases.len() && #[trigger] phrase_match(
                command.phrases[p],
                text,
                command.slots,
                normalize_yo,
            ) == command_match(command, text, normalize_yo, from),
    decreases command.phrases.len() - from,
{
    if phrase_match(command.phrases[from], text, command.slots, normalize_yo) is None {
        command_match_phrase(command, text, normalize_yo, from + 1);
    }
}

proof fn literals_said(
    expected: Seq<Seq<char>>,
    said: Seq<Seq<char>>,
    slots: Seq<(Seq<char>, SlotView)>,
    normalize_yo: bool,
)
    requires
        expected.len() == said.len(),
        captured(literals(expected), said, slots, normalize_yo, said.len() as int) is Some,
    ensures
        said == expected,
{
    assert forall|i: int| 0 <= i < said.len() implies said[i] == expected[i] by {
        captured_words_fit(literals(expected), said, slots, normalize_yo, said.len() as int, i);
    }
    assert(said =~= expected);
}

proof fn plain_pattern(
    tokens: Seq<Seq<char>>,
    normalize_yo: bool,
    slots: Seq<(Seq<char>, SlotView)>,
    count: int,
)
    requires
        0 <= count <= tokens.len(),
        forall|i: int| 0 <= i < count ==> placeholder_name(#[trigger] tokens[i]) is None,
        pattern_words(tokens, normalize_yo, slots, count) is Some,
    ensures
        pattern_tokens(tokens, normalize_yo, count) == literals(
            pattern_words(tokens, normalize_yo, slots, count)->0,
        ),
    decreases count,
{
    if count > 0 {
        plain_pattern(tokens, normalize_yo, slots, count - 1);
        let earlier = pattern_words(tokens, normalize_yo, slots, count - 1)->0;
        let more = words(normalized(tokens[count - 1], normalize_yo));
        assert(literals(earlier + more) =~= literals(earlier) + literals(more));
    } else {
        assert(literals(Seq::empty()) =~= Seq::<TokenView>::empty());
    }
}

/// Whether a phrase has no slots.
pub open spec fn is_plain(phrase: Seq<char>) -> bool {
    forall|i: int| 0 <= i < words(phrase).len() ==> placeholder_name(#[trigger] words(phrase)[i]) is None
}

proof fn plain_match(
    phrase: Seq<char>,
    text: Seq<char>,
    slots: Seq<(Seq<char>, SlotView)>,
    normalize_yo: bool,
)
    requires
        is_plain(phrase),
        phrase_pattern(phrase, normalize_yo, slots) is Some,
        phrase_match(phrase, text, slots, normalize_yo) is Some,
    ensures
        phrase_pattern(phrase, normalize_yo, slots) == Some(joined(words(text))),
{
    let tokens = words(phrase);
    plain_pattern(tokens, normalize_yo, slots, tokens.len() as int);
    let expected = pattern_words(tokens, normalize_yo, slots, tokens.len() as int)->0;
    literals_said(expected, words(text), slots, normalize_yo);
}

/// In a valid configuration a text matches at most one phrase without slots, so exact phrases
/// never select two commands.
pub proof fn exact_phrases_select_one_command(
    config: ConfigView,
    text: Seq<char>,
    i: int,
    p: int,
    j: int,
    q: int,
)
    requires
        validation_error(config) is None,
        0 <= i < config.commands.len(),
        0 <= j < config.commands.len(),
        0 <= p < config.commands[i].phrases.len(),
        0 <= q < config.commands[j].phrases.len(),
        is_plain(config.commands[i].phrases[p]),
        is_plain(config.commands[j].phrases[q]),
        phrase_match(
            config.commands[i].phrases[p],
            text,
            config.commands[i].slots,
            config.matching.normalize_yo,
        ) is Some,
        phrase_match(
            config.commands[j].phrases[q],
            text,
            config.commands[j].slots,
            config.matching.normalize_yo,
        ) is Some,
    ensures
        i == j,
        p == q,
{
    let yo = config.matching.normalize_yo;
    if i != j || p != q {
        if i < j || (i == j && p < q) {
            valid_phrases_are_unambiguous(config, i, p, j, q);
        } else {
            valid_phrases_are_unambiguous(config, j, q, i, p);
        }
        plain_match(config.commands[i].phrases[p], text, config.commands[i].slots, yo);
        plain_match(config.commands[j].phrases[q], text, config.commands[j].slots, yo);
    }
}

/// Words that fit a pattern are captured, and every slot is bound to the canonical form of its word.
proof fn fitting_words_are_captured(
    pattern: Seq<TokenView>,
    said: Seq<Seq<char>>,
    slots: Seq<(Seq<char>, SlotView)>,
    normalize_yo: bool,
    count: int,
)
    requires
        0 <= count <= pattern.len(),
        pattern.len() == said.len(),
        forall|i: int|
            0 <= i < pattern.len() ==> match #[trigger] pattern[i] {
                TokenView::Literal(word) => word == said[i],
                TokenView::Slot(name) => lookup(slots, name) matches Some(slot) && slot.canonical(
                    said[i],
                    normalize_yo,
                ) is Some,
            },
        forall|i: int, j: int|
            #![trigger pattern[i], pattern[j]]
            0 <= i < j < pattern.len() && pattern[i] is Slot && pattern[i] == pattern[j] ==> lookup(
                slots,
                pattern[i]->Slot_0,
            )->0.canonical(said[i], normalize_yo) == lookup(slots, pattern[i]->Slot_0)->0.canonical(
                said[j],
                normalize_yo,
            ),
    ensures
        captured(pattern, said, slots, normalize_yo, count) matches Some(values) && {
            &&& forall|i: int|
                0 <= i < count && #[trigger] pattern[i] is Slot ==> lookup(
                    values,
                    pattern[i]->Slot_0,
                ) == lookup(slots, pattern[i]->Slot_0)->0.canonical(said[i], normalize_yo)
            &&& forall|name: Seq<char>|
                (#[trigger] lookup(values, name)) is Some ==> exists|i: int|
                    0 <= i < count && #[trigger] pattern[i] == TokenView::Slot(name)
        },
    decreases count,
{
    if count > 0 {
        fitting_words_are_captured(pattern, said, slots, normalize_yo, count - 1);
        let values = captured(pattern, said, slots, normalize_yo, count - 1)->0;
        if pattern[count - 1] is Slot {
            let name = pattern[count - 1]->Slot_0;
            let value = lookup(slots, name)->0.canonical(said[count - 1], normalize_yo)->0;
            if lookup(values, name) is Some {
                let i = choose|i: int|
                    0 <= i < count - 1 && #[trigger] pattern[i] == TokenView::Slot(name);
                assert(pattern[i] == pattern[count - 1]);
                assert(lookup(values, name) == Some(value));
            }
            let later = inserted(values, name, value);
            assert(captured(pattern, said, slots, normalize_yo, count) == Some(later));
            assert forall|i: int| 0 <= i < count && #[trigger] pattern[i] is Slot implies lookup(
                later,
                pattern[i]->Slot_0,
            ) == lookup(slots, pattern[i]->Slot_0)->0.canonical(said[i], normalize_yo) by {
                lookup_after_insert(values, name, value, pattern[i]->Slot_0);
                if i < count - 1 && pattern[i]->Slot_0 == name {
                    assert(pattern[i] == pattern[count - 1]);
                }
            }
            assert forall|other: Seq<char>| (#[trigger] lookup(later, other)) is Some implies exists|i: int|
                0 <= i < count && #[trigger] pattern[i] == TokenView::Slot(other) by {
                lookup_after_insert(values, name, value, other);
                if other == name {
                    assert(pattern[count - 1] == TokenView::Slot(other));
                } else {
                    let i = choose|i: int|
                        0 <= i < count - 1 && #[trigger] pattern[i] == TokenView::Slot(other);
                    assert(pattern[i] == TokenView::Slot(other));
                }
            }
        }
    }
}

proof fn matching_phrase_decides(command: CommandView, text: Seq<char>, normalize_yo: bool, from: int, p: int)
    requires
        0 <= from <= p < command.phrases.len(),
        phrase_match(command.phrases[p], text, command.slots, normalize_yo) is Some,
    ensures
        command_match(command, text, normalize_yo, from) is Some,
    decreases p - from,
{
    if phrase_match(command.phrases[from], text, command.slots, normalize_yo) is None {
        matching_phrase_decides(command, text, normalize_yo, from + 1, p);
    }
}

proof fn matching_command_decides(commands: Seq<CommandView>, text: Seq<char>, normalize_yo: bool, from: int, k: int)
    requires
        0 <= from <= k < commands.len(),
        commands[k].enabled,
        command_match(commands[k], text, normalize_yo, 0) is Some,
    ensures
        first_match(commands, text, normalize_yo, from) matches Some(found) && found.0 <= k,
    decreases k - from,
{
    if !(commands[from].enabled && command_match(commands[from], text, normalize_yo, 0) is Some) {
        matching_command_decides(commands, text, normalize_yo, from + 1, k);
    }
}

/// Matching is complete: where the words of a text are as many as a phrase of an enabled command
/// asks for, each literal is said as it is, each slot admits its word and repeated slots agree, the
/// text selects a command, this one unless an earlier one is selected.
pub proof fn fitting_phrases_are_selected(registry: RegistryView, text: Seq<char>, k: int, p: int)
    requires
        0 <= k < registry.commands.len(),
        registry.commands[k].enabled,
        0 <= p < registry.commands[k].phrases.len(),
        ({
            let slots = registry.commands[k].slots;
            let pattern = phrase_tokens(registry.commands[k].phrases[p], registry.normalize_yo);
            let said = words(normalized(text, registry.normalize_yo));
            &&& pattern.len() == said.len()
            &&& forall|i: int|
                0 <= i < pattern.len() ==> match #[trigger] pattern[i] {
                    TokenView::Literal(word) => word == said[i],
                    TokenView::Slot(name) => lookup(slots, name) matches Some(slot)
                        && slot.canonical(said[i], registry.normalize_yo) is Some,
                }
            &&& forall|i: int, j: int|
                #![trigger pattern[i], pattern[j]]
                0 <= i < j < pattern.len() && pattern[i] is Slot && pattern[i] == pattern[j] ==> lookup(
                    slots,
                    pattern[i]->Slot_0,
                )->0.canonical(said[i], registry.normalize_yo) == lookup(
                    slots,
                    pattern[i]->Slot_0,
                )->0.canonical(said[j], registry.normalize_yo)
        }),
    ensures
        registry.selects(text) matches Some(found) && 0 <= found.0 <= k
            && registry.commands[found.0].enabled,
{
    let yo = registry.normalize_yo;
    let form = normalized(text, yo);
    let command = registry.commands[k];
    let pattern = phrase_tokens(command.phrases[p], yo);
    fitting_words_are_captured(pattern, words(form), command.slots, yo, pattern.len() as int);
    matching_phrase_decides(command, form, yo, 0, p);
    matching_command_decides(registry.commands, form, yo, 0, k);
    selection_is_enabled(registry.commands, form, yo, 0);
}

/// Matching is sound: what a text selects is an enabled command with a phrase that asks for exactly
/// the words that were said, and each slot of the phrase is bound to the canonical form of its word.
pub proof fn selections_fit_a_phrase(registry: RegistryView, text: Seq<char>) -> (p: int)
    requires
        registry.selects(text) is Some,
    ensures
        ({
            let (k, values) = registry.selects(text)->0;
            &&& 0 <= k < registry.commands.len()
            &&& registry.commands[k].enabled
            &&& 0 <= p < registry.commands[k].phrases.len()
            &&& {
                let slots = registry.commands[k].slots;
                let pattern = phrase_tokens(registry.commands[k].phrases[p], registry.normalize_yo);
                let said = words(normalized(text, registry.normalize_yo));
                &&& pattern.len() == said.len()
                &&& forall|i: int|
                    0 <= i < pattern.len() ==> match #[trigger] pattern[i] {
                        TokenView::Literal(word) => word == said[i],
                        TokenView::Slot(name) => lookup(values, name) is Some && (lookup(
                            slots,
                            name,
                        ) matches Some(slot) && slot.canonical(said[i], registry.normalize_yo)
                            == lookup(values, name)),
                    }
            }
        }),
{
    let yo = registry.normalize_yo;
    let form = normalized(text, yo);
    let (k, values) = registry.selects(text)->0;
    selection_is_enabled(registry.commands, form, yo, 0);
    let command = registry.commands[k];
    let p = choose|p: int|
        0 <= p < command.phrases.len() && #[trigger] phrase_match(
            command.phrases[p],
            form,
            command.slots,
            yo,
        ) == Some(values);
    let pattern = phrase_tokens(command.phrases[p], yo);
    let said = words(form);
    assert forall|i: int| 0 <= i < pattern.len() implies match #[trigger] pattern[i] {
        TokenView::Literal(word) => word == said[i],
        TokenView::Slot(name) => lookup(values, name) is Some && (lookup(command.slots, name) matches Some(
            slot,
        ) && slot.canonical(said[i], yo) == lookup(values, name)),
    } by {
        captured_words_fit(pattern, said, command.slots, yo, said.len() as int, i);
    }
    p
}

proof fn simple_tokens(tokens: Seq<Seq<char>>, normalize_yo: bool, count: int)
    requires
        0 <= count <= tokens.len(),
        forall|i: int|
            0 <= i < tokens.len() ==> placeholder_name(#[trigger] tokens[i]) is Some || words(
                normalized(tokens[i], normalize_yo),
            ) == seq![tokens[i]],
    ensures
        pattern_tokens(tokens, normalize_yo, count).len() == count,
        forall|i: int|
            0 <= i < count ==> #[trigger] pattern_tokens(tokens, normalize_yo, count)[i]
                == match placeholder_name(tokens[i]) {
                Some(name) => TokenView::Slot(name),
                None => TokenView::Literal(tokens[i]),
            },
    decreases count,
{
    if count > 0 {
        simple_tokens(tokens, normalize_yo, count - 1);
        let earlier = pattern_tokens(tokens, normalize_yo, count - 1);
        let all = pattern_tokens(tokens, normalize_yo, count);
        let last = tokens[count - 1];
        if placeholder_name(last) is None {
            assert(literals(seq![last]) =~= seq![TokenView::Literal(last)]);
            assert(all =~= earlier.push(TokenView::Literal(last)));
        }
        assert forall|i: int| 0 <= i < count implies #[trigger] all[i] == match placeholder_name(
            tokens[i],
        ) {
            Some(name) => TokenView::Slot(name),
            None => TokenView::Literal(tokens[i]),
        } by {
            if i < count - 1 {
                assert(all[i] == earlier[i]);
            }
        }
    }
}

/// A phrase asks for one word for each of its tokens, however many they are: the slot of a
/// placeholder, or the token itself where it is a word in normal form.
pub proof fn phrases_ask_for_their_tokens(phrase: Seq<char>, normalize_yo: bool)
    requires
        forall|i: int|
            0 <= i < words(phrase).len() ==> placeholder_name(#[trigger] words(phrase)[i]) is Some
                || words(normalized(words(phrase)[i], normalize_yo)) == seq![words(phrase)[i]],
    ensures
        phrase_tokens(phrase, normalize_yo).len() == words(phrase).len(),
        forall|i: int|
            0 <= i < words(phrase).len() ==> #[trigger] phrase_tokens(phrase, normalize_yo)[i]
                == match placeholder_name(words(phrase)[i]) {
                Some(name) => TokenView::Slot(name),
                None => TokenView::Literal(words(phrase)[i]),
            },
{
    simple_tokens(words(phrase), normalize_yo, words(phrase).len() as int);
}

/// A placeholder is a name without braces between braces, and nothing else is one.
pub proof fn placeholders_are_names_in_braces(name: Seq<char>, token: Seq<char>)
    ensures
        name.len() > 0 && !name.contains('{') && !name.contains('}') ==> placeholder_name(
            seq!['{'] + name + seq!['}'],
        ) == Some(name),
        placeholder_name(token) matches Some(inner) ==> token == seq!['{'] + inner + seq!['}']
            && inner.len() > 0 && !inner.contains('{') && !inner.contains('}'),
{
    let written = seq!['{'] + name + seq!['}'];
    assert(written.subrange(1, written.len() - 1) =~= name);
    if let Some(inner) = placeholder_name(token) {
        assert(token =~= seq!['{'] + inner + seq!['}']);
    }
}

/// A text in normal form that is a phrase without slots selects a command, wherever the command of
/// the phrase is enabled; a text of other words does not match the phrase.
pub proof fn plain_phrases_select(registry: RegistryView, text: Seq<char>, k: int, p: int)
    requires
        0 <= k < registry.commands.len(),
        registry.commands[k].enabled,
        0 <= p < registry.commands[k].phrases.len(),
        is_plain(registry.commands[k].phrases[p]),
        forall|i: int|
            0 <= i < words(registry.commands[k].phrases[p]).len() ==> words(
                normalized(
                    #[trigger] words(registry.commands[k].phrases[p])[i],
                    registry.normalize_yo,
                ),
            ) == seq![words(registry.commands[k].phrases[p])[i]],
        words(normalized(text, registry.normalize_yo)) == words(registry.commands[k].phrases[p]),
    ensures
        registry.selects(text) matches Some(found) && found.0 <= k,
{
    let phrase = registry.commands[k].phrases[p];
    phrases_ask_for_their_tokens(phrase, registry.normalize_yo);
    fitting_phrases_are_selected(registry, text, k, p);
}

/// What stands behind a wake word is what follows it, without the space between them; a text that
/// does not begin with the wake word, or says nothing more, has nothing behind it.
pub proof fn rests_stand_behind_the_wake_word(text: Seq<char>, wake_word: Seq<char>, rest: Seq<char>)
    ensures
        rest.len() > 0 && !is_whitespace(rest[0]) && !is_whitespace(rest.last()) ==> behind_wake_word(
            wake_word + seq![' '] + rest,
            wake_word,
        ) == Some(rest),
        behind_wake_word(wake_word, wake_word) is None,
        !(text.len() >= wake_word.len() && text.take(wake_word.len() as int) == wake_word)
            ==> behind_wake_word(text, wake_word) is None,
{
    if rest.len() > 0 && !is_whitespace(rest[0]) && !is_whitespace(rest.last()) {
        let said = wake_word + seq![' '] + rest;
        assert(said.take(wake_word.len() as int) =~= wake_word);
        let tail = said.skip(wake_word.len() as int);
        assert(tail =~= seq![' '] + rest);
        assert(tail.drop_first() =~= rest);
        assert(trim_start(rest) == rest);
        assert(trim_start(tail) == rest);
    }
    assert(wake_word.skip(wake_word.len() as int) =~= Seq::<char>::empty());
    assert(wake_word.take(wake_word.len() as int) =~= wake_word);
}

proof fn rest_behind_decides(
    commands: Seq<CommandView>,
    form: Seq<char>,
    wake_words: Seq<Seq<char>>,
    normalize_yo: bool,
    from: int,
    i: int,
)
    requires
        0 <= from <= i < wake_words.len(),
        behind_wake_word(form, normalized(wake_words[i], normalize_yo)) matches Some(rest)
            && first_match(commands, rest, normalize_yo, 0) is Some,
    ensures
        match_behind(commands, form, wake_words, normalize_yo, from) is Some,
    decreases i - from,
{
    if from < i {
        rest_behind_decides(commands, form, wake_words, normalize_yo, from + 1, i);
    }
}

/// A command is found behind any of the wake words: a text whose normal form is one of them, a
/// space, and words that fit a phrase of an enabled command selects a command.
pub proof fn commands_are_found_behind_wake_words(
    registry: RegistryView,
    text: Seq<char>,
    wake_words: Seq<Seq<char>>,
    i: int,
    rest: Seq<char>,
    k: int,
    p: int,
)
    requires
        0 <= i < wake_words.len(),
        single_spaced(rest),
        rest.len() > 0,
        normalized(text, registry.normalize_yo) == normalized(wake_words[i], registry.normalize_yo)
            + seq![' '] + rest,
        0 <= k < registry.commands.len(),
        registry.commands[k].enabled,
        0 <= p < registry.commands[k].phrases.len(),
        ({
            let pattern = phrase_tokens(registry.commands[k].phrases[p], registry.normalize_yo);
            let said = words(rest);
            &&& pattern.len() == said.len()
            &&& forall|j: int|
                0 <= j < pattern.len() ==> match #[trigger] pattern[j] {
                    TokenView::Literal(word) => word == said[j],
                    TokenView::Slot(name) => lookup(registry.commands[k].slots, name) matches Some(slot)
                        && slot.canonical(said[j], registry.normalize_yo) is Some,
                }
            &&& forall|a: int, b: int|
                #![trigger pattern[a], pattern[b]]
                0 <= a < b < pattern.len() && pattern[a] is Slot ==> pattern[a] != pattern[b]
        }),
    ensures
        registry.selects_after(text, wake_words) is Some,
{
    let yo = registry.normalize_yo;
    let form = normalized(text, yo);
    let command = registry.commands[k];
    let pattern = phrase_tokens(command.phrases[p], yo);
    rests_stand_behind_the_wake_word(form, normalized(wake_words[i], yo), rest);
    assert(!is_whitespace(rest[0]) && !is_whitespace(rest[rest.len() - 1]));
    fitting_words_are_captured(pattern, words(rest), command.slots, yo, pattern.len() as int);
    matching_phrase_decides(command, rest, yo, 0, p);
    matching_command_decides(registry.commands, rest, yo, 0, k);
    rest_behind_decides(registry.commands, form, wake_words, yo, 0, i);
}

proof fn behind_has_a_wake_word(
    commands: Seq<CommandView>,
    form: Seq<char>,
    wake_words: Seq<Seq<char>>,
    normalize_yo: bool,
    from: int,
)
    requires
        0 <= from,
        match_behind(commands, form, wake_words, normalize_yo, from) is Some,
    ensures
        exists|i: int| #![trigger wake_words[i]]
            from <= i < wake_words.len() && form.len() > normalized(wake_words[i], normalize_yo).len()
                && form.take(normalized(wake_words[i], normalize_yo).len() as int) == normalized(
                wake_words[i],
                normalize_yo,
            ),
    decreases wake_words.len() - from,
{
    let wake_word = normalized(wake_words[from], normalize_yo);
    let found = match behind_wake_word(form, wake_word) {
        Some(rest) => first_match(commands, rest, normalize_yo, 0),
        None => None,
    };
    if found is Some {
        if form.len() == wake_word.len() {
            assert(form.skip(wake_word.len() as int) =~= Seq::<char>::empty());
        }
        assert(form.take(wake_word.len() as int) == wake_word);
        assert(wake_words[from] == wake_words[from]);
    } else {
        behind_has_a_wake_word(commands, form, wake_words, normalize_yo, from + 1);
    }
}

/// A text that does not select a command as it stands selects one only behind a wake word.
pub proof fn nothing_is_found_without_a_wake_word(
    registry: RegistryView,
    text: Seq<char>,
    wake_words: Seq<Seq<char>>,
)
    ensures
        registry.selects(text) is Some ==> registry.selects_after(text, wake_words)
            == registry.selects(text),
        registry.selects(text) is None && registry.selects_after(text, wake_words) is Some ==> {
            let form = normalized(text, registry.normalize_yo);
            exists|i: int| #![trigger wake_words[i]]
                0 <= i < wake_words.len() && form.len() > normalized(
                    wake_words[i],
                    registry.normalize_yo,
                ).len() && form.take(
                    normalized(wake_words[i], registry.normalize_yo).len() as int,
                ) == normalized(wake_words[i], registry.normalize_yo)
        },
{
    if registry.selects(text) is None && registry.selects_after(text, wake_words) is Some {
        behind_has_a_wake_word(
            registry.commands,
            normalized(text, registry.normalize_yo),
            wake_words,
            registry.normalize_yo,
            0,
        );
    }
}

/// Normalizing ignores case, punctuation and, where it is folded, the difference between `ё` and `е`.
pub proof fn normalizing_ignores_case_and_punctuation(
    first: Seq<char>,
    second: Seq<char>,
    normalize_yo: bool,
    i: int,
    mark: char,
)
    ensures
        lowercase(first) == lowercase(second) ==> normalized(first, normalize_yo) == normalized(
            second,
            normalize_yo,
        ),
        0 <= i < first.len() && !is_alphanumeric(mark) && mark != 'ё'
            && !is_whitespace(mark) ==> normalized_lowercase(first.update(i, mark), normalize_yo)
            == normalized_lowercase(first.update(i, ' '), normalize_yo),
        0 <= i < first.len() ==> normalized_lowercase(first.update(i, 'ё'), true)
            == normalized_lowercase(first.update(i, 'е'), true),
{
    if 0 <= i < first.len() {
        assert(yo_folded(first.update(i, 'ё')) =~= yo_folded(first.update(i, 'е')));
        if !is_alphanumeric(mark) && mark != 'ё' && !is_whitespace(mark) {
            assert(separated(first.update(i, mark)) =~= separated(first.update(i, ' ')));
            assert(separated(yo_folded(first.update(i, mark))) =~= separated(
                yo_folded(first.update(i, ' ')),
            ));
        }
    }
}

/// In a valid configuration a phrase without slots selects its own command, unless a phrase with slots
/// of an earlier command fits as well.
pub proof fn plain_phrases_select_their_own_command(config: ConfigView, text: Seq<char>, k: int, p: int)
    requires
        validation_error(config) is None,
        0 <= k < config.commands.len(),
        config.commands[k].enabled,
        0 <= p < config.commands[k].phrases.len(),
        is_plain(config.commands[k].phrases[p]),
        forall|i: int|
            0 <= i < words(config.commands[k].phrases[p]).len() ==> words(
                normalized(
                    #[trigger] words(config.commands[k].phrases[p])[i],
                    config.matching.normalize_yo,
                ),
            ) == seq![words(config.commands[k].phrases[p])[i]],
        words(normalized(text, config.matching.normalize_yo)) == words(config.commands[k].phrases[p]),
        forall|j: int, q: int|
            0 <= j < k && config.commands[j].enabled && 0 <= q < config.commands[j].phrases.len()
                ==> is_plain(#[trigger] config.commands[j].phrases[q]),
    ensures
        (RegistryView {
            commands: config.commands,
            normalize_yo: config.matching.normalize_yo,
        }).selects(text) matches Some(found) && found.0 == k,
{
    let registry = RegistryView {
        commands: config.commands,
        normalize_yo: config.matching.normalize_yo,
    };
    let yo = config.matching.normalize_yo;
    let form = normalized(text, yo);
    let phrase = config.commands[k].phrases[p];
    phrases_ask_for_their_tokens(phrase, yo);
    plain_phrases_select(registry, text, k, p);
    let found = registry.selects(text)->0;
    selection_is_enabled(registry.commands, form, yo, 0);
    let command = registry.commands[found.0];
    let q = choose|q: int|
        0 <= q < command.phrases.len() && #[trigger] phrase_match(
            command.phrases[q],
            form,
            command.slots,
            yo,
        ) == Some(found.1);
    if found.0 < k {
        let pattern = phrase_tokens(phrase, yo);
        fitting_words_are_captured(
            pattern,
            words(form),
            config.commands[k].slots,
            yo,
            pattern.len() as int,
        );
        assert(is_plain(config.commands[found.0].phrases[q]));
        exact_phrases_select_one_command(config, form, found.0, q, k, p);
    }
}

/// What a registry hands over is the selected command with the captured values, and nothing where
/// nothing was selected.
pub proof fn selections_are_handed_over(
    found: Option<CommandMatch<'_>>,
    command: Option<&CommandConfig>,
    commands: Seq<CommandView>,
    selected: Option<(int, Parameters)>,
)
    ensures
        is_selected(found, commands, selected) ==> {
            &&& found is Some <==> selected is Some
            &&& found matches Some(handed) ==> (selected matches Some((k, values)) && 0 <= k && k
                < commands.len() && handed.command@ == commands[k] && handed.slots@ == values)
        },
        is_selected_command(command, commands, selected) ==> {
            &&& command is Some <==> selected is Some
            &&& command matches Some(handed) ==> (selected matches Some((k, _)) && 0 <= k && k
                < commands.len() && handed@ == commands[k])
        },
{
}

} // verus!
