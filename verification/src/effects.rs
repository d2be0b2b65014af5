//! Laws of the built-in handlers: which actions they admit, and which effects they ask for.

use crate::builtins::{
    allowlist_problem, ascii_lower, ascii_lowered, builtin_registry, click_plan, click_target, clicks,
    configured_count, covers, handlers_error, is_web_scheme, launch_plan, rule_for, rule_holds, rules_for, same_form,
    scheme_end, url_plan, url_problem, volume_level, volume_plan, AllowedView, BuiltinHandler, InvocationView,
    RuleView,
};
use crate::commands::{normalized, placeholder_name};
use crate::config::{CommandView, SlotType};
use crate::domain::{ErrorView, Parameters};
use crate::handlers::{command_problem, filled, holds, is_internal, sampled, set_of, CommandHandler, SchemaView};
use crate::laws::{configures, only_configured_actions_run};
use crate::number::{
    decimal, decimal_round_trip, signed_decimal, signed_decimal_round_trip, signed_numeral, unsigned_numeral,
};
use crate::text::{is_blank, is_whitespace, precedes, precedes_irreflexive};
use crate::text_map::{keys_increase, lookup, lookup_after_insert, lookup_entry, lookup_position};
use vstd::prelude::*;

verus! {

proof fn first_separator(url: Seq<char>, from: int, at: int)
    requires
        0 <= from <= at,
        at + 3 <= url.len(),
        url[at] == ':' && url[at + 1] == '/' && url[at + 2] == '/',
        forall|i: int| from <= i < at ==> #[trigger] url[i] != ':',
    ensures
        scheme_end(url, from) == Some(at),
    decreases at - from,
{
    if from < at {
        assert(url[from] != ':');
        first_separator(url, from + 1, at);
    }
}

proof fn separators_are_found(url: Seq<char>, from: int)
    requires
        0 <= from,
    ensures
        scheme_end(url, from) matches Some(at) ==> from <= at && at + 3 <= url.len() && url[at] == ':'
            && url[at + 1] == '/' && url[at + 2] == '/',
    decreases url.len() - from,
{
    if from + 3 <= url.len() {
        separators_are_found(url, from + 1);
    }
}

/// A URL is opened exactly if it begins with `http://` or `https://`, in letters of any case, if
/// something follows, and if it holds no whitespace.
pub proof fn only_web_addresses_are_opened(url: Seq<char>)
    ensures
        url_problem(url) is None <==> {
            &&& url.len() > 7
            &&& url[0] == 'h' || url[0] == 'H'
            &&& url[1] == 't' || url[1] == 'T'
            &&& url[2] == 't' || url[2] == 'T'
            &&& url[3] == 'p' || url[3] == 'P'
            &&& {
                ||| url[4] == ':' && url[5] == '/' && url[6] == '/'
                ||| url.len() > 8 && (url[4] == 's' || url[4] == 'S') && url[5] == ':' && url[6] == '/'
                    && url[7] == '/'
            }
            &&& forall|i: int| 0 <= i < url.len() ==> !is_whitespace(#[trigger] url[i])
        },
{
    separators_are_found(url, 0);
    if url.len() > 7 {
        assert forall|i: int, lower: char|
            0 <= i < 5 && 'a' <= lower <= 'z' implies (#[trigger] ascii_lower(url[i]) == #[trigger] ascii_lower(
            lower,
        ) <==> url[i] == lower || url[i] as u32 + 32 == lower as u32) by {}
        assert(ascii_lower('h') == 'h' && ascii_lower('t') == 't' && ascii_lower('p') == 'p'
            && ascii_lower('s') == 's');
        let plain = (url[0] == 'h' || url[0] == 'H') && (url[1] == 't' || url[1] == 'T') && (url[2]
            == 't' || url[2] == 'T') && (url[3] == 'p' || url[3] == 'P');
        if plain && url[4] == ':' && url[5] == '/' && url[6] == '/' {
            first_separator(url, 0, 4);
            let lowered = ascii_lowered(url.take(4));
            assert(lowered =~= seq!['h', 't', 't', 'p']);
        }
        if plain && (url[4] == 's' || url[4] == 'S') && url[5] == ':' && url[6] == '/' && url[7] == '/'
            && url.len() > 8 {
            first_separator(url, 0, 5);
            let lowered = ascii_lowered(url.take(5));
            assert(lowered =~= seq!['h', 't', 't', 'p', 's']);
        }
    }
    if let Some(end) = scheme_end(url, 0) {
        let lowered = ascii_lowered(url.take(end));
        assert(lowered.len() == end);
        if is_web_scheme(url.take(end)) && end + 3 < url.len() {
            assert(end == 4 || end == 5) by {
                assert(seq!['h', 't', 't', 'p'].len() == 4);
                assert(seq!['h', 't', 't', 'p', 's'].len() == 5);
            }
            assert(lowered[0] == 'h' && lowered[1] == 't' && lowered[2] == 't' && lowered[3] == 'p');
            assert(lowered[0] == ascii_lower(url[0]) && lowered[1] == ascii_lower(url[1]) && lowered[2]
                == ascii_lower(url[2]) && lowered[3] == ascii_lower(url[3]));
            if end == 5 {
                assert(lowered[4] == 's' && lowered[4] == ascii_lower(url[4]));
            }
        }
    }
}

/// A volume is a whole number from 0 to 100: each of them is understood, written plainly or with a
/// sign, and nothing else is.
pub proof fn volumes_are_percentages(parameters: Parameters, level: int)
    ensures
        volume_level(parameters) matches Ok(level) ==> 0 <= level && level <= 100 && (lookup(
            parameters,
            "level"@,
        ) matches Some(text) && unsigned_numeral(text) == Some(level)),
        0 <= level <= 100 && lookup(parameters, "level"@) == Some(decimal(level as nat))
            ==> volume_level(parameters) == Ok::<int, ErrorView>(level),
        lookup(parameters, "level"@) is None ==> volume_level(parameters) is Err,
        (lookup(parameters, "level"@) matches Some(text) && unsigned_numeral(text) == Some(level)) && !(0
            <= level <= 100) ==> volume_level(parameters) is Err,
{
    if 0 <= level {
        decimal_round_trip(level as nat);
    }
}

/// A click goes to the two coordinates that its parameters name, and takes from a tenth of a second to
/// ten seconds, 350 ms where nothing else is said.
pub proof fn clicks_go_where_they_are_told(parameters: Parameters, x: int, y: int, duration: int)
    requires
        i32::MIN <= x <= i32::MAX,
        i32::MIN <= y <= i32::MAX,
        lookup(parameters, "x"@) == Some(signed_decimal(x)),
        lookup(parameters, "y"@) == Some(signed_decimal(y)),
        0 <= duration <= u64::MAX,
    ensures
        lookup(parameters, "duration_ms"@) is None ==> click_target(parameters) == Ok::<_, ErrorView>(
            (x, y, 350int),
        ),
        lookup(parameters, "duration_ms"@) == Some(decimal(duration as nat)) ==> (click_target(
            parameters,
        ) == Ok::<_, ErrorView>((x, y, duration)) <==> 100 <= duration && duration <= 10_000),
        lookup(parameters, "duration_ms"@) == Some(decimal(duration as nat)) ==> (click_target(
            parameters,
        ) is Ok <==> 100 <= duration && duration <= 10_000),
{
    signed_decimal_round_trip(x);
    signed_decimal_round_trip(y);
    decimal_round_trip(duration as nat);
}

/// A click without coordinates, or with anything that is no number of 32 bits, is refused.
pub proof fn clicks_need_coordinates(parameters: Parameters)
    ensures
        click_target(parameters) matches Ok((x, y, duration)) ==> {
            &&& i32::MIN <= x && x <= i32::MAX && i32::MIN <= y && y <= i32::MAX
            &&& 100 <= duration && duration <= 10_000
            &&& lookup(parameters, "x"@) matches Some(text) && signed_numeral(text) == Some(x)
            &&& lookup(parameters, "y"@) matches Some(text) && signed_numeral(text) == Some(y)
            &&& lookup(parameters, "duration_ms"@) is None ==> duration == 350
            &&& lookup(parameters, "duration_ms"@) matches Some(text) ==> unsigned_numeral(text)
                == Some(duration)
        },
{
}

/// A handler asks for the effect that its parameters name, for admitted actions only, and fails
/// otherwise.
pub proof fn handlers_do_what_the_parameters_say(list: Seq<AllowedView>, parameters: Parameters)
    ensures
        ({
            let admitted = allowlist_problem(list, parameters) is None;
            &&& launch_plan(list, parameters) is Ok <==> admitted && lookup(parameters, "executable"@)
                is Some
            &&& launch_plan(list, parameters) matches Ok((effect, message)) ==> effect
                == (InvocationView::LaunchApp { executable: lookup(parameters, "executable"@)->0 })
                && message == "launched "@ + lookup(parameters, "_command_id"@)->0
            &&& url_plan(list, parameters) is Ok <==> admitted && lookup(parameters, "url"@) is Some
            &&& url_plan(list, parameters) matches Ok((effect, message)) ==> effect
                == (InvocationView::OpenUrl { url: lookup(parameters, "url"@)->0 }) && message
                == "opened URL"@
            &&& volume_plan(list, parameters) is Ok <==> admitted && volume_level(parameters) is Ok
            &&& volume_plan(list, parameters) matches Ok((effect, _)) ==> effect
                == (InvocationView::SetVolume { level: volume_level(parameters)->Ok_0 })
            &&& click_plan(list, parameters) is Ok <==> admitted && click_target(parameters) is Ok
            &&& click_plan(list, parameters) matches Ok((effect, _)) ==> (effect matches
                InvocationView::ClickMouse { x, y, duration_ms } && click_target(parameters) == Ok::<
                _,
                ErrorView,
            >((x, y, duration_ms)))
        }),
{
}

/// The names of the configured parameters among the first `count`.
spec fn configured_names(parameters: Parameters, count: int) -> Seq<Seq<char>>
    decreases count,
{
    if count <= 0 {
        Seq::empty()
    } else if is_internal(parameters[count - 1].0) {
        configured_names(parameters, count - 1)
    } else {
        configured_names(parameters, count - 1).push(parameters[count - 1].0)
    }
}

proof fn configured_names_hold(parameters: Parameters, count: int)
    requires
        keys_increase(parameters),
        0 <= count <= parameters.len(),
    ensures
        configured_names(parameters, count).len() == configured_count(parameters, count),
        configured_names(parameters, count).no_duplicates(),
        forall|name: Seq<char>| #[trigger]
            configured_names(parameters, count).contains(name) ==> exists|i: int|
                0 <= i < count && (#[trigger] parameters[i]).0 == name && !is_internal(name),
        forall|i: int|
            0 <= i < count && !is_internal((#[trigger] parameters[i]).0) ==> configured_names(
                parameters,
                count,
            ).contains(parameters[i].0),
    decreases count,
{
    if count > 0 {
        configured_names_hold(parameters, count - 1);
        let earlier = configured_names(parameters, count - 1);
        let names = configured_names(parameters, count);
        let last = parameters[count - 1].0;
        if !is_internal(last) {
            assert(!earlier.contains(last)) by {
                if earlier.contains(last) {
                    let i = choose|i: int|
                        0 <= i < count - 1 && (#[trigger] parameters[i]).0 == last && !is_internal(last);
                    precedes_irreflexive(last);
                    assert(precedes(parameters[i].0, parameters[count - 1].0));
                }
            }
            assert(names.no_duplicates()) by {
                assert forall|i: int, j: int|
                    0 <= i < names.len() && 0 <= j < names.len() && i != j implies names[i] != names[j] by {
                    if i == names.len() - 1 {
                        assert(earlier[j] == names[j]);
                        assert(earlier.contains(names[j]));
                    } else if j == names.len() - 1 {
                        assert(earlier[i] == names[i]);
                        assert(earlier.contains(names[i]));
                    } else {
                        assert(earlier[i] == names[i] && earlier[j] == names[j]);
                    }
                }
            }
            assert forall|name: Seq<char>| #[trigger] names.contains(name) implies exists|i: int|
                0 <= i < count && (#[trigger] parameters[i]).0 == name && !is_internal(name) by {
                let k = choose|k: int| 0 <= k < names.len() && names[k] == name;
                if k < names.len() - 1 {
                    assert(earlier[k] == name);
                    assert(earlier.contains(name));
                    let i = choose|i: int|
                        0 <= i < count - 1 && (#[trigger] parameters[i]).0 == name && !is_internal(name);
                    assert(parameters[i].0 == name);
                } else {
                    assert(parameters[count - 1].0 == name);
                }
            }
            assert forall|i: int|
                0 <= i < count && !is_internal((#[trigger] parameters[i]).0) implies names.contains(
                parameters[i].0,
            ) by {
                if i < count - 1 {
                    assert(earlier.contains(parameters[i].0));
                    let k = choose|k: int| 0 <= k < earlier.len() && earlier[k] == parameters[i].0;
                    assert(names[k] == parameters[i].0);
                } else {
                    assert(names[names.len() - 1] == last);
                }
            }
        } else {
            assert forall|name: Seq<char>| #[trigger] names.contains(name) implies exists|i: int|
                0 <= i < count && (#[trigger] parameters[i]).0 == name && !is_internal(name) by {
                let i = choose|i: int|
                    0 <= i < count - 1 && (#[trigger] parameters[i]).0 == name && !is_internal(name);
                assert(parameters[i].0 == name);
            }
        }
    }
}

/// Nothing is slipped in beside the rules: where an allowlist entry covers parameters, each configured
/// parameter is under one of its rules.
pub proof fn every_parameter_is_under_a_rule(
    rules: Seq<(Seq<char>, RuleView)>,
    parameters: Parameters,
    name: Seq<char>,
)
    requires
        covers(rules, parameters),
        keys_increase(rules),
        keys_increase(parameters),
        lookup(parameters, name) is Some,
        !is_internal(name),
    ensures
        lookup(rules, name) is Some,
{
    configured_names_hold(parameters, parameters.len() as int);
    let names = configured_names(parameters, parameters.len() as int);
    let ruled = rules.map_values(|rule: (Seq<char>, RuleView)| rule.0);
    assert(ruled.no_duplicates()) by {
        assert forall|i: int, j: int|
            0 <= i < ruled.len() && 0 <= j < ruled.len() && i != j implies ruled[i] != ruled[j] by {
            precedes_irreflexive(ruled[i]);
            if i < j {
                assert(precedes(rules[i].0, rules[j].0));
            } else {
                assert(precedes(rules[j].0, rules[i].0));
            }
        }
    }
    assert(ruled.to_set().subset_of(names.to_set())) by {
        assert forall|x: Seq<char>| ruled.to_set().contains(x) implies names.to_set().contains(x) by {
            let i = choose|i: int| 0 <= i < ruled.len() && ruled[i] == x;
            assert(rule_holds(rules[i], parameters));
            let k = lookup_position(parameters, x);
            assert(parameters[k].0 == x);
            assert(names.contains(x));
        }
    }
    ruled.unique_seq_to_set();
    names.unique_seq_to_set();
    vstd::seq_lib::seq_to_set_is_finite(ruled);
    vstd::seq_lib::seq_to_set_is_finite(names);
    vstd::set_lib::lemma_subset_equality(ruled.to_set(), names.to_set());
    let k = lookup_position(parameters, name);
    assert(names.contains(name));
    assert(names.to_set().contains(name));
    assert(ruled.to_set().contains(name));
    let i = choose|i: int| 0 <= i < ruled.len() && ruled[i] == name;
    lookup_entry(rules, i);
}

/// What a built-in handler carries out, an enabled command configures under the identifier that the
/// invocation bears: fixed values as they are written, values of a text slot in a form that the slot
/// lists, numbers within the limits of the slot; and nothing that the command does not name.
pub proof fn effects_are_configured(
    handlers: Seq<(Seq<char>, BuiltinHandler)>,
    commands: Seq<CommandView>,
    name: Seq<char>,
    parameters: Parameters,
) -> (origin: (int, int))
    requires
        builtin_registry(handlers, commands),
        lookup(handlers, name) is Some,
        lookup(handlers, name)->0.plan(parameters) is Ok,
        keys_increase(parameters),
        forall|c: int, a: int|
            0 <= c < commands.len() && 0 <= a < commands[c].resolved().len() ==> keys_increase(
                (#[trigger] commands[c].resolved()[a]).parameters,
            ),
    ensures
        ({
            let (c, a) = origin;
            let command = commands[c];
            let configured = command.resolved()[a].parameters;
            &&& 0 <= c && c < commands.len()
            &&& 0 <= a && a < command.resolved().len()
            &&& command.enabled
            &&& lookup(parameters, "_command_id"@) == Some(command.id)
            &&& command.resolved()[a].handler == name
            &&& forall|i: int|
                0 <= i < configured.len() ==> {
                    let (key, value) = #[trigger] configured[i];
                    &&& lookup(parameters, key) matches Some(given)
                    &&& placeholder_name(value) is None ==> given == value
                    &&& placeholder_name(value) matches Some(slot_name) ==> (lookup(
                        command.slots,
                        slot_name,
                    ) matches Some(slot) ==> {
                        &&& slot.value_type is Text ==> exists|v: int|
                            0 <= v < slot.values.len() && (normalized(#[trigger] slot.values[v], true)
                                == normalized(given, true) || normalized(slot.values[v], false)
                                == normalized(given, false))
                        &&& slot.value_type !is Text ==> slot.canonical(given, false) is Some
                    })
                }
            &&& forall|key: Seq<char>| #[trigger]
                lookup(parameters, key) is Some && !is_internal(key) ==> lookup(configured, key) is Some
        }),
{
    only_configured_actions_run(handlers, commands, name, parameters);
    let id = lookup(parameters, "_command_id"@)->0;
    let (c, a) = choose|c: int, a: int| #[trigger]
        configures(commands, c, a, name, id, parameters);
    let command = commands[c];
    let configured = command.resolved()[a].parameters;
    let rules = rules_for(command, configured);
    assert forall|i: int| 0 <= i < configured.len() implies ({
        let (key, value) = #[trigger] configured[i];
        &&& lookup(parameters, key) matches Some(given)
        &&& placeholder_name(value) is None ==> given == value
        &&& placeholder_name(value) matches Some(slot_name) ==> (lookup(command.slots, slot_name) matches
            Some(slot) ==> {
            &&& slot.value_type is Text ==> exists|v: int|
                0 <= v < slot.values.len() && (normalized(#[trigger] slot.values[v], true) == normalized(
                    given,
                    true,
                ) || normalized(slot.values[v], false) == normalized(given, false))
            &&& slot.value_type !is Text ==> slot.canonical(given, false) is Some
        })
    }) by {
        assert(rule_holds(rules[i], parameters));
        let given = lookup(parameters, configured[i].0)->0;
        assert(rule_for(command, configured[i].1).admits(given));
        if let Some(slot_name) = placeholder_name(configured[i].1) {
            if let Some(slot) = lookup(command.slots, slot_name) {
                if slot.value_type is Text {
                    let v = choose|v: int|
                        0 <= v < slot.values.len() && same_form(
                            #[trigger] slot.values[v],
                            given,
                        );
                    assert(normalized(slot.values[v], true) == normalized(given, true) || normalized(
                        slot.values[v],
                        false,
                    ) == normalized(given, false));
                }
            }
        }
    }
    assert(keys_increase(rules)) by {
        assert forall|i: int, j: int| 0 <= i < j < rules.len() implies precedes(
            #[trigger] rules[i].0,
            #[trigger] rules[j].0,
        ) by {
            assert(precedes(configured[i].0, configured[j].0));
        }
    }
    assert forall|key: Seq<char>| #[trigger]
        lookup(parameters, key) is Some && !is_internal(key) implies lookup(configured, key) is Some by {
        every_parameter_is_under_a_rule(rules, parameters, key);
        let i = lookup_position(rules, key);
        assert(configured[i].0 == key);
        lookup_entry(configured, i);
    }
    (c, a)
}

proof fn sets_hold_their_texts(texts: Seq<Seq<char>>, count: int, text: Seq<char>)
    requires
        0 <= count <= texts.len(),
    ensures
        holds(set_of(texts, count), text) <==> exists|i: int| 0 <= i < count && #[trigger] texts[i] == text,
    decreases count,
{
    if count > 0 {
        sets_hold_their_texts(texts, count - 1, text);
        lookup_after_insert(set_of(texts, count - 1), texts[count - 1], true, text);
        if exists|i: int| 0 <= i < count && #[trigger] texts[i] == text {
            let i = choose|i: int| 0 <= i < count && #[trigger] texts[i] == text;
            if i < count - 1 {
                assert(texts[i] == text);
            }
        }
        if holds(set_of(texts, count), text) && text != texts[count - 1] {
            let i = choose|i: int| 0 <= i < count - 1 && #[trigger] texts[i] == text;
            assert(texts[i] == text);
        }
    }
}

/// A schema admits parameters exactly if all required ones are there, no other than the required and
/// optional ones are, and none is blank; what the runtime adds does not count.
pub proof fn schemas_admit_what_they_declare(schema: SchemaView, parameters: Parameters)
    requires
        keys_increase(schema.required),
        keys_increase(parameters),
    ensures
        schema.error(parameters) is None <==> {
            &&& forall|key: Seq<char>| #[trigger]
                lookup(schema.required, key) is Some ==> !(key.len() > 0 && key[0] == '_') && lookup(
                    parameters,
                    key,
                ) is Some
            &&& forall|key: Seq<char>|
                (#[trigger] lookup(parameters, key) is Some && !(key.len() > 0 && key[0] == '_')) ==> (
                lookup(schema.required, key) is Some || lookup(schema.optional, key) is Some)
                    && !is_blank(lookup(parameters, key)->0)
        },
        schema.error(parameters) matches Some(error) ==> error is Command,
{
    let required = forall|key: Seq<char>| #[trigger]
        lookup(schema.required, key) is Some ==> !(key.len() > 0 && key[0] == '_') && lookup(
            parameters,
            key,
        ) is Some;
    let declared = forall|key: Seq<char>|
        (#[trigger] lookup(parameters, key) is Some && !(key.len() > 0 && key[0] == '_')) ==> (lookup(
            schema.required,
            key,
        ) is Some || lookup(schema.optional, key) is Some) && !is_blank(lookup(parameters, key)->0);
    if schema.error(parameters) is None {
        assert forall|key: Seq<char>| #[trigger] lookup(schema.required, key) is Some implies !(key.len()
            > 0 && key[0] == '_') && lookup(parameters, key) is Some by {
            let i = lookup_position(schema.required, key);
            assert(!is_internal(schema.required[i].0));
        }
        assert forall|key: Seq<char>|
            (#[trigger] lookup(parameters, key) is Some && !(key.len() > 0 && key[0] == '_')) implies (
        lookup(schema.required, key) is Some || lookup(schema.optional, key) is Some) && !is_blank(
            lookup(parameters, key)->0,
        ) by {
            let i = lookup_position(parameters, key);
            assert(!is_internal(parameters[i].0));
        }
    }
    if required && declared {
        assert forall|i: int| 0 <= i < schema.required.len() implies !is_internal(
            (#[trigger] schema.required[i]).0,
        ) && lookup(parameters, schema.required[i].0) is Some by {
            lookup_entry(schema.required, i);
        }
        assert forall|i: int|
            0 <= i < parameters.len() && !is_internal((#[trigger] parameters[i]).0) implies (holds(
            schema.required,
            parameters[i].0,
        ) || holds(schema.optional, parameters[i].0)) && !is_blank(parameters[i].1) by {
            lookup_entry(parameters, i);
        }
        assert(schema.complete(parameters));
        assert(schema.declared(parameters));
        assert(filled(parameters));
    }
}

/// The parameters of the four built-in handlers: an executable, a URL, a level, or two coordinates with
/// an optional duration.
pub proof fn builtin_parameters_are_known(handler: BuiltinHandler, key: Seq<char>)
    ensures
        ({
            let schema = handler.declares();
            match handler {
                BuiltinHandler::LaunchApp(_) => schema.name == "launch_app"@ && (lookup(
                    schema.required,
                    key,
                ) is Some <==> key == "executable"@) && lookup(schema.optional, key) is None,
                BuiltinHandler::OpenUrl(_) => schema.name == "open_url"@ && (lookup(
                    schema.required,
                    key,
                ) is Some <==> key == "url"@) && lookup(schema.optional, key) is None,
                BuiltinHandler::SetVolume(_) => schema.name == "set_volume"@ && (lookup(
                    schema.required,
                    key,
                ) is Some <==> key == "level"@) && lookup(schema.optional, key) is None,
                BuiltinHandler::ClickMouse(_) => schema.name == "click_mouse"@ && (lookup(
                    schema.required,
                    key,
                ) is Some <==> key == "x"@ || key == "y"@) && (lookup(schema.optional, key) is Some
                    <==> key == "duration_ms"@),
            }
        }),
{
    let none = Seq::<Seq<char>>::empty();
    sets_hold_their_texts(none, 0, key);
    sets_hold_their_texts(seq!["executable"@], 1, key);
    assert(seq!["executable"@][0] == "executable"@);
    sets_hold_their_texts(seq!["url"@], 1, key);
    assert(seq!["url"@][0] == "url"@);
    sets_hold_their_texts(seq!["level"@], 1, key);
    assert(seq!["level"@][0] == "level"@);
    sets_hold_their_texts(seq!["x"@, "y"@], 2, key);
    assert(seq!["x"@, "y"@][0] == "x"@ && seq!["x"@, "y"@][1] == "y"@);
    sets_hold_their_texts(seq!["duration_ms"@], 1, key);
    assert(seq!["duration_ms"@][0] == "duration_ms"@);
}

/// A built-in handler rejects parameters exactly if its schema does, or if the URL, the volume or the
/// click that they name is not in order.
pub proof fn builtin_values_are_checked(handler: BuiltinHandler, parameters: Parameters)
    ensures
        handler.rejects(parameters) is None <==> handler.declares().error(parameters) is None
            && match handler {
            BuiltinHandler::LaunchApp(_) => true,
            BuiltinHandler::OpenUrl(_) => lookup(parameters, "url"@) matches Some(url) && url_problem(
                url,
            ) is None,
            BuiltinHandler::SetVolume(_) => volume_level(parameters) is Ok,
            BuiltinHandler::ClickMouse(_) => click_target(parameters) is Ok,
        },
{
}

/// A sample of an action keeps its fixed parameters and has a value of the slot for each placeholder.
pub proof fn samples_stand_for_placeholders(
    command: CommandView,
    parameters: Parameters,
    count: int,
    i: int,
)
    requires
        keys_increase(parameters),
        0 <= i < count <= parameters.len(),
        sampled(command, parameters, count) is Ok,
    ensures
        ({
            let sample = sampled(command, parameters, count)->Ok_0;
            let (key, value) = parameters[i];
            &&& placeholder_name(value) is None ==> lookup(sample, key) == Some(value)
            &&& placeholder_name(value) matches Some(name) ==> (lookup(command.slots, name) matches Some(
                slot,
            ) && slot.sample_value(true) is Some && lookup(sample, key) == slot.sample_value(true))
        }),
    decreases count,
{
    let (last, _) = parameters[count - 1];
    let earlier = sampled(command, parameters, count - 1)->Ok_0;
    let added = match placeholder_name(parameters[count - 1].1) {
        None => parameters[count - 1].1,
        Some(name) => lookup(command.slots, name)->0.sample_value(true)->0,
    };
    lookup_after_insert(earlier, last, added, parameters[i].0);
    if i < count - 1 {
        samples_stand_for_placeholders(command, parameters, count - 1, i);
        precedes_irreflexive(last);
        assert(precedes(parameters[i].0, parameters[count - 1].0));
    }
}

proof fn problems_name_an_action<H: CommandHandler>(
    handlers: Seq<(Seq<char>, H)>,
    command: CommandView,
    count: int,
)
    requires
        0 <= count <= command.resolved().len(),
    ensures
        command_problem(handlers, command, count) is None <==> forall|a: int|
            0 <= a < count ==> {
                let action = #[trigger] command.resolved()[a];
                &&& sampled(command, action.parameters, action.parameters.len() as int) matches Ok(sample)
                &&& lookup(handlers, action.handler) matches Some(handler)
                &&& handler.rejects(sample) is None
            },
    decreases count,
{
    if count > 0 {
        problems_name_an_action(handlers, command, count - 1);
        let last = command.resolved()[count - 1];
        if command_problem(handlers, command, count) is Some && command_problem(
            handlers,
            command,
            count - 1,
        ) is Some {
            let a = choose|a: int|
                0 <= a < count - 1 && !({
                    let action = #[trigger] command.resolved()[a];
                    &&& sampled(command, action.parameters, action.parameters.len() as int) matches Ok(
                        sample,
                    )
                    &&& lookup(handlers, action.handler) matches Some(handler)
                    &&& handler.rejects(sample) is None
                });
            assert(0 <= a < count);
            assert(command.resolved()[a] == command.resolved()[a]);
        }
    }
}

/// Commands pass the handlers exactly if every action goes to a registered handler that takes a sample
/// of its parameters, and if no command below high risk moves the mouse.
pub proof fn commands_pass_their_handlers<H: CommandHandler>(
    handlers: Seq<(Seq<char>, H)>,
    commands: Seq<CommandView>,
    count: int,
)
    requires
        0 <= count <= commands.len(),
    ensures
        handlers_error(handlers, commands, count) is None <==> forall|k: int|
            0 <= k < count ==> {
                let command = #[trigger] commands[k];
                &&& forall|a: int|
                    0 <= a < command.resolved().len() ==> {
                        let action = #[trigger] command.resolved()[a];
                        &&& sampled(
                            command,
                            action.parameters,
                            action.parameters.len() as int,
                        ) matches Ok(sample)
                        &&& lookup(handlers, action.handler) matches Some(handler)
                        &&& handler.rejects(sample) is None
                        &&& action.handler == "click_mouse"@ ==> command.risk is High
                    }
            },
    decreases count,
{
    if count > 0 {
        commands_pass_their_handlers(handlers, commands, count - 1);
        let command = commands[count - 1];
        problems_name_an_action(handlers, command, command.resolved().len() as int);
        if command.risk !is High && clicks(command) {
            let a = choose|a: int|
                0 <= a < command.resolved().len() && (#[trigger] command.resolved()[a]).handler
                    == "click_mouse"@;
            assert(command.resolved()[a].handler == "click_mouse"@);
        }
    }
}

} // verus!
