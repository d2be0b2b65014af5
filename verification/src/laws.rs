//! What holds of the command pipeline as a whole.

use crate::builtins::{
    allowed_actions, allowlist, allowlist_problem, builtin_registry, configured_count, covers, rule_for, rule_holds,
    rules_for, same_form, AllowedView, BuiltinHandler,
};
use crate::commands::{normalized, placeholder_name};
use crate::config::{canonical_is_stable, canonical_obeys_the_slot, CommandView};
use crate::domain::{AssistantState, ErrorView, EventView, Parameters};
use crate::handlers::is_internal;
use crate::number::{hexadecimal, hexadecimal_injective};
use crate::runtime::{
    confirmation_token, filled_action, filled_parameters, guard_of, nothing_pending, passed, slot_reference,
    substituted, ExecutionEventView, ExecutionView, HandlerGuard, Outcome, RuntimeView, StepView,
    TranscriptionOutcomeView, MAX_SUBMITTED_TEXT_BYTES, NANOS_PER_MILLI,
};
use crate::text::{is_blank, lowercase, precedes};
use crate::text_map::{
    inserted, inserted_between, keys_increase, lookup, lookup_after_insert, lookup_entry, lookup_position,
};
use vstd::prelude::*;
use vstd::utf8::encode_utf8;

verus! {

/// Whether an outcome carries a command on.
pub open spec fn runs(result: Result<StepView, ErrorView>) -> bool {
    result matches Ok(step) && step !is Done
}

/// Whether an event says that a command was matched, started or finished.
pub open spec fn about_command(event: EventView) -> bool {
    event is CommandMatched || event is CommandStarted || event is CommandFinished
        || event is ConfirmationRequired
}

/// Whether events were only added, and none of them says that a command was selected or run.
pub open spec fn quiet(before: RuntimeView, later: RuntimeView) -> bool {
    &&& before.events.len() <= later.events.len()
    &&& forall|i: int| 0 <= i < before.events.len() ==> later.events[i] == before.events[i]
    &&& forall|i: int|
        before.events.len() <= i < later.events.len() ==> !about_command(#[trigger] later.events[i])
}

proof fn quiet_recover(before: RuntimeView, r: RuntimeView, component: Seq<char>, message: Seq<char>)
    requires
        quiet(before, r),
    ensures
        quiet(before, r.recover(component, message)),
{
    reveal(RuntimeView::recover);
}

/// Speech that no wake word authorized is transcribed but never selects, confirms or runs a command.
/// What is pending stays so, unless recognition fails.
pub proof fn unauthorized_speech_runs_nothing(
    r: RuntimeView,
    session_id: u64,
    outcome: TranscriptionOutcomeView,
    elapsed_ms: u64,
    now: u64,
)
    ensures
        !runs(r.finish_speech(session_id, false, outcome, elapsed_ms, now).result),
        quiet(r, r.finish_speech(session_id, false, outcome, elapsed_ms, now).runtime),
        outcome is Transcribed ==> r.finish_speech(
            session_id,
            false,
            outcome,
            elapsed_ms,
            now,
        ).runtime.pending == r.pending,
{
    reveal(RuntimeView::report_silence);
    reveal(RuntimeView::take_transcript);
    let observed = r.observe_stt(elapsed_ms);
    match outcome {
        TranscriptionOutcomeView::Failed(error) => {
            let reported = if error is Unavailable {
                observed.emit(
                    EventView::TranscriptUnavailable {
                        reason: crate::domain::TranscriptUnavailableReason::ModelUnavailable,
                    },
                )
            } else {
                observed
            };
            quiet_recover(r, reported, "stt"@, error.message());
        },
        TranscriptionOutcomeView::TimedOut(recovery) => {
            quiet_recover(
                r,
                observed,
                "stt"@,
                ErrorView::Recognition(crate::runtime::timeout_message(recovery)).message(),
            );
        },
        TranscriptionOutcomeView::Transcribed(_, _) => {},
    }
}

/// A pending confirmation is answered after a wake word only: speech without one that was heard in
/// its place returns to it.
pub proof fn confirmations_wait_for_a_wake_word(
    r: RuntimeView,
    session_id: u64,
    outcome: TranscriptionOutcomeView,
    elapsed_ms: u64,
    now: u64,
)
    requires
        r.confirming_by_voice,
        r.state is Transcribing,
        outcome is Transcribed,
    ensures
        r.finish_speech(session_id, false, outcome, elapsed_ms, now).result
            == Ok::<StepView, ErrorView>(StepView::Done),
        r.finish_speech(session_id, false, outcome, elapsed_ms, now).runtime.state
            is AwaitingConfirmation,
        r.finish_speech(session_id, false, outcome, elapsed_ms, now).runtime.pending == r.pending,
        !r.finish_speech(session_id, false, outcome, elapsed_ms, now).runtime.confirming_by_voice,
{
    reveal(RuntimeView::report_silence);
    reveal(RuntimeView::take_transcript);
}

/// A token that is not the pending one changes nothing and confirms nothing.
pub proof fn wrong_token_changes_nothing(r: RuntimeView, token: Seq<char>, now: u64)
    requires
        !r.awaits(token),
    ensures
        r.confirm(token, now).runtime == r,
        r.confirm(token, now).result is Err,
        r.cancel(token).runtime == r,
        r.cancel(token).result is Err,
{
}

proof fn next_step_keeps_none(r: RuntimeView, execution: ExecutionView, now: u64)
    requires
        r.pending is None,
    ensures
        r.next_step(execution, now).runtime.pending is None,
{
    reveal(RuntimeView::next_step);
    reveal(RuntimeView::check_handler);
    reveal(RuntimeView::finish);
    reveal(RuntimeView::recover);
}

/// A confirmation token works once: whatever comes of it, nothing is pending afterwards, and
/// every later confirmation is told so.
pub proof fn tokens_work_once(r: RuntimeView, token: Seq<char>, now: u64, later_token: Seq<char>, later: u64)
    requires
        r.awaits(token),
    ensures
        r.confirm(token, now).runtime.pending is None,
        r.confirm(token, now).runtime.confirm(later_token, later).result == Err::<
            StepView,
            ErrorView,
        >(nothing_pending()),
        r.cancel(token).runtime.pending is None,
{
    reveal(RuntimeView::confirm_pending);
    reveal(RuntimeView::execute);
    let pending = r.pending->0;
    let taken = RuntimeView { pending: None, ..r };
    let entered = taken.enter(AssistantState::ExecutingCommand);
    if entered.result is Ok {
        let started = entered.runtime.emit(EventView::CommandStarted { command_id: pending.id });
        next_step_keeps_none(
            started,
            ExecutionView {
                command: pending,
                next: 0,
                waited: false,
                current_handler: None,
                last_result: None,
                started_at: now,
            },
            now,
        );
    }
}

/// A confirmation that comes too late runs nothing.
pub proof fn late_confirmation_runs_nothing(r: RuntimeView, token: Seq<char>, now: u64)
    requires
        r.awaits(token),
        now >= r.pending->0.expires_at,
    ensures
        r.confirm(token, now).result is Err,
        quiet(r, r.confirm(token, now).runtime),
{
    reveal(RuntimeView::confirm_pending);
}

/// Tokens of different confirmations differ: a token names its command and its place in the
/// sequence of confirmations.
pub proof fn tokens_are_distinct(first: Seq<char>, a: u64, second: Seq<char>, b: u64)
    requires
        confirmation_token(first, a) == confirmation_token(second, b),
    ensures
        first == second,
        a == b,
{
    let left = confirmation_token(first, a);
    let right = confirmation_token(second, b);
    let dash = "-"@;
    hexadecimal_length(a as nat, 16);
    hexadecimal_length(b as nat, 16);
    assert(left.len() == first.len() + dash.len() + 16);
    assert(right.len() == second.len() + dash.len() + 16);
    assert(left.take(first.len() as int) =~= first);
    assert(right.take(second.len() as int) =~= second);
    assert(left.skip(left.len() - 16) =~= hexadecimal(a as nat, 16));
    assert(right.skip(right.len() - 16) =~= hexadecimal(b as nat, 16));
    assert(vstd::arithmetic::power::pow(16, 16) == 0x1_0000_0000_0000_0000) by {
        reveal_with_fuel(vstd::arithmetic::power::pow, 17);
    }
    hexadecimal_injective(a as nat, b as nat, 16);
}

proof fn hexadecimal_length(value: nat, width: nat)
    ensures
        hexadecimal(value, width).len() == width,
    decreases width,
{
    if width > 0 {
        hexadecimal_length(value / 16, (width - 1) as nat);
    }
}

/// Where a selected command requires confirmation it does not run: its invocation waits under a
/// fresh token instead.
pub proof fn guarded_commands_wait(r: RuntimeView, text: Seq<char>, allow_wake_word: bool, now: u64)
    requires
        ({
            let selected = if allow_wake_word {
                r.registry.selects_after(text, r.wake_words)
            } else {
                r.registry.selects(text)
            };
            selected is Some && r.requires_confirmation(r.registry.commands[(selected->0).0])
        }),
    ensures
        !runs(r.match_text(text, allow_wake_word, now).result),
        r.match_text(text, allow_wake_word, now).runtime.pending matches Some(pending)
            && pending.confirmation_id is Some,
{
    reveal(RuntimeView::match_text);
}

/// Whether a command has to be confirmed is a matter of policy: with confirmations on, high-risk
/// commands and those that ask for it wait, and with confirmations off none does.
pub proof fn confirmation_is_policy(r: RuntimeView, command: crate::config::CommandView)
    ensures
        r.policy.confirmations_enabled && (command.risk is High || command.requires_confirmation)
            ==> r.requires_confirmation(command),
        !r.policy.confirmations_enabled ==> !r.requires_confirmation(command),
        !(command.risk is High) && !command.requires_confirmation ==> !r.requires_confirmation(
            command,
        ),
{
}

/// Text that is blank or longer than the limit is refused and changes nothing.
pub proof fn submitted_text_is_bounded(r: RuntimeView, text: Seq<char>, now: u64)
    requires
        is_blank(text) || encode_utf8(text).len() > MAX_SUBMITTED_TEXT_BYTES,
    ensures
        r.process_text(text, now).runtime == r,
        r.process_text(text, now).result is Err,
{
}

/// A handler that has started does not start again within the rate limit.
pub proof fn rate_limit_holds(r: RuntimeView, handler: Seq<char>, first: u64, second: u64)
    requires
        r.check_handler(handler, first).result is Ok,
        r.policy.handler_rate_limit_ms > 0,
        passed(first, second) < r.policy.handler_rate_limit_ms * NANOS_PER_MILLI,
    ensures
        r.check_handler(handler, first).runtime.check_handler(handler, second).result is Err,
{
    reveal(RuntimeView::check_handler);
    let guard = HandlerGuard {
        opened_at: None,
        last_started: Some(first),
        ..guard_of(r.handler_guards, handler)
    };
    lookup_after_insert(r.handler_guards, handler, guard, handler);
}

/// The failure in a row that reaches the threshold opens the circuit of a handler: it does not
/// start again before the breaker time has passed.
pub proof fn circuit_opens_after_failures(r: RuntimeView, handler: Seq<char>, failed: u64, now: u64)
    requires
        r.policy.handler_failure_threshold > 0,
        guard_of(r.handler_guards, handler).consecutive_failures + 1
            >= r.policy.handler_failure_threshold,
        passed(failed, now) < r.policy.handler_circuit_breaker_ms * NANOS_PER_MILLI,
    ensures
        r.record_failure(handler, failed).check_handler(handler, now).result == Err::<(), ErrorView>(
            ErrorView::Command("handler circuit is open: "@ + handler),
        ),
{
    reveal(RuntimeView::check_handler);
    let after_failure = r.record_failure(handler, failed);
    let guard = guard_of(r.handler_guards, handler);
    let failures = if guard.consecutive_failures == u32::MAX {
        u32::MAX
    } else {
        (guard.consecutive_failures + 1) as u32
    };
    let opened = HandlerGuard { consecutive_failures: failures, opened_at: Some(failed), ..guard };
    lookup_after_insert(r.handler_guards, handler, opened, handler);
    assert(after_failure.handler_guards == inserted(r.handler_guards, handler, opened));
}

/// Each failure counts once more towards the threshold, and one success starts the count anew.
pub proof fn failures_count_in_a_row(r: RuntimeView, handler: Seq<char>, now: u64)
    requires
        r.policy.handler_failure_threshold > 0,
    ensures
        guard_of(r.record_failure(handler, now).handler_guards, handler).consecutive_failures == if guard_of(
            r.handler_guards,
            handler,
        ).consecutive_failures == u32::MAX {
            u32::MAX as int
        } else {
            guard_of(r.handler_guards, handler).consecutive_failures + 1
        },
        guard_of(r.record_success(handler).handler_guards, handler).consecutive_failures == 0,
        guard_of(r.record_success(handler).handler_guards, handler).opened_at is None,
{
    let guard = guard_of(r.handler_guards, handler);
    let failures = if guard.consecutive_failures == u32::MAX {
        u32::MAX
    } else {
        (guard.consecutive_failures + 1) as u32
    };
    let failed = HandlerGuard {
        consecutive_failures: failures,
        opened_at: if failures >= r.policy.handler_failure_threshold {
            Some(now)
        } else {
            guard.opened_at
        },
        ..guard
    };
    let succeeded = HandlerGuard { consecutive_failures: 0, opened_at: None, ..guard };
    lookup_after_insert(r.handler_guards, handler, failed, handler);
    lookup_after_insert(r.handler_guards, handler, succeeded, handler);
}

/// The guards of other handlers are none of a handler's business.
pub proof fn guards_are_independent(r: RuntimeView, handler: Seq<char>, other: Seq<char>, now: u64)
    requires
        handler != other,
    ensures
        guard_of(r.check_handler(handler, now).runtime.handler_guards, other) == guard_of(
            r.handler_guards,
            other,
        ),
        guard_of(r.record_success(handler).handler_guards, other) == guard_of(
            r.handler_guards,
            other,
        ),
        guard_of(r.record_failure(handler, now).handler_guards, other) == guard_of(
            r.handler_guards,
            other,
        ),
{
    reveal(RuntimeView::check_handler);
    assert forall|guard: HandlerGuard|
        lookup(#[trigger] inserted(r.handler_guards, handler, guard), other) == lookup(
            r.handler_guards,
            other,
        ) by {
        lookup_after_insert(r.handler_guards, handler, guard, other);
    }
}

/// A failed transcription or command leads back to listening, with nothing pending and one more
/// recoverable error counted.
pub proof fn failure_returns_to_listening(r: RuntimeView, component: Seq<char>, error: ErrorView)
    requires
        r.state is Transcribing || r.state is ExecutingCommand,
    ensures
        r.fail(component, error).runtime.state is IdleListening,
        r.fail(component, error).runtime.pending is None,
        r.fail(component, error).runtime.metrics.recoverable_errors == crate::metrics::counted(
            r.metrics.recoverable_errors,
        ),
        r.fail(component, error).result == Err::<StepView, ErrorView>(error),
{
    reveal(RuntimeView::recover);
}

/// A command that ends, well or not, leaves the executing state: into cooldown or back to
/// listening.
pub proof fn commands_end(r: RuntimeView, execution: ExecutionView, outcome: Outcome, now: u64)
    requires
        r.state is ExecutingCommand,
    ensures
        match outcome {
            Outcome::Succeeded(_) => r.finish(execution, outcome, now).runtime.state is Cooldown
                && r.finish(execution, outcome, now).result == Ok::<StepView, ErrorView>(
                StepView::Done,
            ),
            Outcome::Failed(error) => r.finish(execution, outcome, now).runtime.state is IdleListening
                && r.finish(execution, outcome, now).result == Err::<StepView, ErrorView>(error),
        },
{
    reveal(RuntimeView::finish);
    if outcome is Failed {
        failure_returns_to_listening(
            r.observe_handler(execution.started_at, now),
            "command"@,
            outcome->Failed_0,
        );
    }
}

/// Actions run in order: a handler call is for the action that is next, a completed one moves on
/// to the one behind it, and nothing is called once all are done.
pub proof fn actions_run_in_order(r: RuntimeView, execution: ExecutionView, now: u64)
    ensures
        match r.next_step(execution, now).result {
            Ok(StepView::Call { handler, parameters, execution: carried }) => {
                &&& execution.next < execution.command.actions.len()
                &&& handler == execution.command.actions[execution.next as int].handler
                &&& parameters == execution.command.actions[execution.next as int].parameters
                &&& carried.next == execution.next
                &&& carried.command == execution.command
                &&& execution.command.actions[execution.next as int].delay_ms == 0 || execution.waited
            },
            Ok(StepView::Wait { delay_ms, execution: carried }) => {
                &&& execution.next < execution.command.actions.len()
                &&& delay_ms == execution.command.actions[execution.next as int].delay_ms
                &&& carried.next == execution.next
                &&& carried.waited
            },
            _ => true,
        },
        execution.next >= execution.command.actions.len() ==> !runs(
            r.next_step(execution, now).result,
        ),
        execution.next < execution.command.actions.len() ==> forall|message: Seq<char>|
            #![trigger r.resume_execution(execution, ExecutionEventView::Completed(message), now)]
            r.resume_execution(execution, ExecutionEventView::Completed(message), now)
                == r.record_success(execution.command.actions[execution.next as int].handler).next_step(
                ExecutionView {
                    next: (execution.next + 1) as usize,
                    waited: false,
                    last_result: Some(message),
                    ..execution
                },
                now,
            ),
{
    reveal(RuntimeView::next_step);
    reveal(RuntimeView::finish);
}

/// Shutdown is final for the pipeline too: no operation leaves it.
pub proof fn shutdown_ends_everything(r: RuntimeView, text: Seq<char>, next: AssistantState, now: u64)
    requires
        r.state is ShuttingDown,
    ensures
        r.enter(next).runtime == r,
        r.process_text(text, now).runtime.state is ShuttingDown,
        !runs(r.process_text(text, now).result),
        r.start_speech(true).runtime.state is ShuttingDown,
        r.start_manual().runtime.state is ShuttingDown,
        r.suspend().runtime.state is ShuttingDown,
        r.resume().runtime.state is ShuttingDown,
        r.recover(text, text) == r,
        r.shutdown().runtime == r,
{
    reveal(RuntimeView::recover);
}

/// Every speech session has the next number, and at most one is open at a time.
pub proof fn sessions_are_numbered(r: RuntimeView)
    ensures
        r.active_session_id is None ==> r.open_session().runtime.active_session_id == Some(
            crate::metrics::counted(r.session_sequence),
        ) && r.open_session().runtime.session_sequence == crate::metrics::counted(
            r.session_sequence,
        ),
        r.active_session_id is Some ==> r.open_session().runtime == r && r.open_session().result is Err,
        r.close_session().active_session_id is None,
{
}

/// An unchanged partial transcript is published once: pushing it again adds no event.
pub proof fn partials_are_published_once(r: RuntimeView, push: crate::runtime::StreamPush)
    requires
        r.streaming_stt,
        push is Accepted,
    ensures
        r.push_stream(push).runtime.push_stream(push).runtime.events == r.push_stream(push).runtime.events,
{
}

/// Where an action of an enabled command stands that goes to a handler and covers parameters.
pub open spec fn configures(
    commands: Seq<CommandView>,
    c: int,
    a: int,
    handler: Seq<char>,
    command_id: Seq<char>,
    parameters: Parameters,
) -> bool {
    &&& 0 <= c < commands.len()
    &&& commands[c].enabled
    &&& commands[c].id == command_id
    &&& 0 <= a < commands[c].resolved().len()
    &&& commands[c].resolved()[a].handler == handler
    &&& covers(rules_for(commands[c], commands[c].resolved()[a].parameters), parameters)
}

proof fn allowed_action_origin(command: CommandView, handler: Seq<char>, count: int, i: int) -> (a: int)
    requires
        0 <= i < allowed_actions(command, handler, count).len(),
        count <= command.resolved().len(),
    ensures
        0 <= a < count,
        command.resolved()[a].handler == handler,
        allowed_actions(command, handler, count)[i] == (AllowedView {
            command_id: command.id,
            parameters: rules_for(command, command.resolved()[a].parameters),
        }),
    decreases count,
{
    let earlier = allowed_actions(command, handler, count - 1);
    if i < earlier.len() {
        allowed_action_origin(command, handler, count - 1, i)
    } else {
        count - 1
    }
}

proof fn allowlist_origin(commands: Seq<CommandView>, handler: Seq<char>, count: int, i: int) -> (origin: (
    int,
    int,
))
    requires
        0 <= i < allowlist(commands, handler, count).len(),
        count <= commands.len(),
    ensures
        0 <= origin.0 < count,
        commands[origin.0].enabled,
        0 <= origin.1 < commands[origin.0].resolved().len(),
        commands[origin.0].resolved()[origin.1].handler == handler,
        allowlist(commands, handler, count)[i] == (AllowedView {
            command_id: commands[origin.0].id,
            parameters: rules_for(
                commands[origin.0],
                commands[origin.0].resolved()[origin.1].parameters,
            ),
        }),
    decreases count,
{
    let earlier = allowlist(commands, handler, count - 1);
    if i < earlier.len() {
        allowlist_origin(commands, handler, count - 1, i)
    } else {
        let command = commands[count - 1];
        let a = allowed_action_origin(
            command,
            handler,
            command.resolved().len() as int,
            i - earlier.len(),
        );
        (count - 1, a)
    }
}

/// Recognized text cannot become a program, a URL, a coordinate or a volume of its own: whatever a
/// built-in handler does, an action of an enabled command configures it, each parameter fixed or
/// within the policy of its slot.
pub proof fn only_configured_actions_run(
    handlers: Seq<(Seq<char>, BuiltinHandler)>,
    commands: Seq<CommandView>,
    name: Seq<char>,
    parameters: Parameters,
)
    requires
        builtin_registry(handlers, commands),
        lookup(handlers, name) is Some,
        lookup(handlers, name)->0.plan(parameters) is Ok,
    ensures
        lookup(parameters, "_command_id"@) is Some,
        exists|c: int, a: int|
            #[trigger] configures(
                commands,
                c,
                a,
                name,
                lookup(parameters, "_command_id"@)->0,
                parameters,
            ),
{
    let list = allowlist(commands, name, commands.len() as int);
    let handler = lookup(handlers, name)->0;
    assert(handler.admits() == list);
    assert(allowlist_problem(list, parameters) is None);
    let id = lookup(parameters, "_command_id"@)->0;
    let i = choose|i: int|
        0 <= i < list.len() && (#[trigger] list[i]).command_id == id && covers(
            list[i].parameters,
            parameters,
        );
    let (c, a) = allowlist_origin(commands, name, commands.len() as int, i);
    assert(configures(commands, c, a, name, id, parameters));
}

/// Whether captured values are those of slots of a command: canonical forms of words that the slots
/// admit, or listed values of a text slot. The canonical form of a text is one that lower-casing
/// leaves as it is.
pub open spec fn captured_values(command: CommandView, slots: Parameters) -> bool {
    forall|name: Seq<char>|
        (#[trigger] lookup(slots, name)) matches Some(value) ==> {
            &&& name.len() > 0 && !name.contains('{') && !name.contains('}')
            &&& lookup(command.slots, name) matches Some(slot)
            &&& (slot.value_type is Text && slot.values.contains(value)) || ((slot.value_type is Text
                ==> lowercase(value) == value) && exists|word: Seq<char>, normalize_yo: bool|
                #[trigger] slot.canonical(word, normalize_yo) == Some(value))
        }
}

/// Whether every slot that a value refers to was captured.
pub open spec fn references_captured(command: CommandView, slots: Parameters, value: Seq<char>) -> bool {
    match placeholder_name(value) {
        Some(name) => lookup(command.slots, name) is Some ==> lookup(slots, name) is Some,
        None => true,
    }
}

proof fn substitution_is_admitted(command: CommandView, slots: Parameters, value: Seq<char>)
    requires
        captured_values(command, slots),
        references_captured(command, slots, value),
    ensures
        rule_for(command, value).admits(substituted(slots, value)),
{
    match slot_reference(value) {
        None => {
            assert(placeholder_name(value) is None);
        },
        Some(name) => {
            if lookup(slots, name) is Some {
                assert(placeholder_name(value) == Some(name));
                let slot = lookup(command.slots, name)->0;
                let captured = lookup(slots, name)->0;
                if slot.value_type is Text && slot.values.contains(captured) {
                    let i = choose|i: int| 0 <= i < slot.values.len() && slot.values[i] == captured;
                    assert(same_form(slot.values[i], captured));
                } else {
                    let (word, normalize_yo) = choose|word: Seq<char>, normalize_yo: bool| #[trigger]
                        slot.canonical(word, normalize_yo) == Some(captured);
                    canonical_is_stable(slot, word, normalize_yo);
                    if slot.value_type is Text {
                        canonical_obeys_the_slot(slot, word, normalize_yo);
                        let i = choose|i: int|
                            0 <= i < slot.values.len() && captured == #[trigger] normalized(
                                slot.values[i],
                                normalize_yo,
                            );
                        assert(same_form(slot.values[i], captured));
                    }
                }
            }
        },
    }
}

proof fn internal_parameter_does_not_count(parameters: Parameters, i: int, key: Seq<char>, value: Seq<char>, count: int)
    requires
        0 <= i <= parameters.len(),
        0 <= count <= parameters.len() + 1,
        is_internal(key),
        forall|j: int| 0 <= j < parameters.len() ==> !is_internal((#[trigger] parameters[j]).0),
    ensures
        configured_count(parameters.insert(i, (key, value)), count) == if count <= i {
            count
        } else {
            count - 1
        },
    decreases count,
{
    if count > 0 {
        internal_parameter_does_not_count(parameters, i, key, value, count - 1);
        let all = parameters.insert(i, (key, value));
        if count - 1 < i {
            assert(all[count - 1] == parameters[count - 1]);
        } else if count - 1 > i {
            assert(all[count - 1] == parameters[count - 2]);
        }
    }
}

proof fn allowlist_holds_actions(command: CommandView, handler: Seq<char>, count: int, a: int) -> (i: int)
    requires
        0 <= a < count <= command.resolved().len(),
        command.resolved()[a].handler == handler,
    ensures
        0 <= i < allowed_actions(command, handler, count).len(),
        allowed_actions(command, handler, count)[i] == (AllowedView {
            command_id: command.id,
            parameters: rules_for(command, command.resolved()[a].parameters),
        }),
    decreases count,
{
    if a == count - 1 {
        allowed_actions(command, handler, count - 1).len() as int
    } else {
        allowlist_holds_actions(command, handler, count - 1, a)
    }
}

proof fn allowlist_holds_commands(commands: Seq<CommandView>, handler: Seq<char>, count: int, c: int, a: int) -> (i:
    int)
    requires
        0 <= c < count <= commands.len(),
        commands[c].enabled,
        0 <= a < commands[c].resolved().len(),
        commands[c].resolved()[a].handler == handler,
    ensures
        0 <= i < allowlist(commands, handler, count).len(),
        allowlist(commands, handler, count)[i] == (AllowedView {
            command_id: commands[c].id,
            parameters: rules_for(commands[c], commands[c].resolved()[a].parameters),
        }),
    decreases count,
{
    if c == count - 1 {
        let command = commands[c];
        let i = allowlist_holds_actions(command, handler, command.resolved().len() as int, a);
        allowlist(commands, handler, count - 1).len() + i
    } else {
        allowlist_holds_commands(commands, handler, count - 1, c, a)
    }
}

/// What a command configures, its handler admits: an action of an enabled command is on the
/// allowlist once the values of its slots are filled in, be they canonical forms or listed texts.
pub proof fn configured_actions_are_admitted(
    commands: Seq<CommandView>,
    c: int,
    a: int,
    slots: Parameters,
)
    requires
        0 <= c < commands.len(),
        commands[c].enabled,
        0 <= a < commands[c].resolved().len(),
        ({
            let parameters = commands[c].resolved()[a].parameters;
            &&& keys_increase(parameters)
            &&& forall|j: int|
                0 <= j < parameters.len() ==> !is_internal((#[trigger] parameters[j]).0)
                    && references_captured(commands[c], slots, parameters[j].1)
        }),
        captured_values(commands[c], slots),
    ensures
        ({
            let action = commands[c].resolved()[a];
            allowlist_problem(
                allowlist(commands, action.handler, commands.len() as int),
                filled_action(commands[c], slots, action).parameters,
            ) is None
        }),
{
    let command = commands[c];
    let action = command.resolved()[a];
    let list = allowlist(commands, action.handler, commands.len() as int);
    let values = filled_parameters(slots, action.parameters);
    let filled = filled_action(command, slots, action).parameters;
    let rules = rules_for(command, action.parameters);
    let id = "_command_id"@;
    reveal_strlit("_command_id");
    assert(is_internal(id));
    assert forall|j: int| 0 <= j < values.len() implies !is_internal((#[trigger] values[j]).0) by {
        assert(values[j].0 == action.parameters[j].0);
    }
    assert(keys_increase(values)) by {
        assert forall|x: int, y: int| 0 <= x < y < values.len() implies precedes(
            #[trigger] values[x].0,
            #[trigger] values[y].0,
        ) by {
            assert(values[x].0 == action.parameters[x].0 && values[y].0 == action.parameters[y].0);
        }
    }
    assert(lookup(values, id) is None) by {
        if lookup(values, id) is Some {
            let j = lookup_position(values, id);
            assert(!is_internal(values[j].0));
        }
    }
    let position = inserted_between(values, id, command.id);
    internal_parameter_does_not_count(
        values,
        position,
        id,
        command.id,
        values.len() as int + 1,
    );
    lookup_after_insert(values, id, command.id, id);
    assert forall|j: int| 0 <= j < rules.len() implies rule_holds(#[trigger] rules[j], filled) by {
        let key = action.parameters[j].0;
        assert(!is_internal(key));
        assert(values[j].0 == key);
        lookup_after_insert(values, id, command.id, key);
        lookup_entry(values, j);
        substitution_is_admitted(command, slots, action.parameters[j].1);
    }
    let i = allowlist_holds_commands(commands, action.handler, commands.len() as int, c, a);
    assert(list[i].command_id == command.id && covers(list[i].parameters, filled));
}

} // verus!
