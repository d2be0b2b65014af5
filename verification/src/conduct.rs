//! What becomes of a recognized command, told by what is said, configured, called and published.

use crate::commands::{normalized, RegistryView};
use crate::config::{ActionView, CommandView, PolicyView};
use crate::domain::{may_transition, AssistantState, ConfirmationCancelReason, ErrorView, EventView, Parameters};
use crate::metrics::CoreMetrics;
use crate::number::{decimal, hexadecimal};
use crate::runtime::{
    confirmation_token, filled_parameters, guard_of, new_runtime, timeout_message, ExecutionEventView, ExecutionView,
    HandlerGuard, PendingView, RecognizerRecovery, RuntimeView, StepView, StreamPush, TranscriptionOutcomeView,
};
use crate::text::is_blank;
use crate::text_map::{inserted, lookup, lookup_after_insert};
use vstd::prelude::*;
use vstd::utf8::encode_utf8;

verus! {

proof fn filled_values(slots: Parameters, parameters: Parameters, key: Seq<char>)
    ensures
        lookup(filled_parameters(slots, parameters), key) == match lookup(parameters, key) {
            None => None,
            Some(value) => Some(
                if value.len() >= 2 && value[0] == '{' && value.last() == '}' && lookup(
                    slots,
                    value.subrange(1, value.len() - 1),
                ) is Some {
                    lookup(slots, value.subrange(1, value.len() - 1))->0
                } else {
                    value
                },
            ),
        },
    decreases parameters.len(),
{
    let filled = filled_parameters(slots, parameters);
    if parameters.len() > 0 {
        assert(filled.drop_first() =~= filled_parameters(slots, parameters.drop_first()));
        filled_values(slots, parameters.drop_first(), key);
    }
}

/// An invocation holds one action for each configured action and in the same order, with the handler
/// and the delay that are configured. A command without actions has the one that its handler and its
/// parameters describe. Parameters keep their configured values, but captured slots take the place of
/// their references, and the identifier of the command is added.
pub proof fn every_configured_action_is_invoked(
    r: RuntimeView,
    command: CommandView,
    slots: Parameters,
    now: u64,
    i: int,
    key: Seq<char>,
)
    ensures
        r.invocation(command, slots, now).id == command.id,
        r.invocation(command, slots, now).timeout_ms == command.timeout_ms,
        r.invocation(command, slots, now).actions.len() == if command.actions.len() == 0 {
            1
        } else {
            command.actions.len()
        },
        0 <= i < r.invocation(command, slots, now).actions.len() ==> {
            let configured = if command.actions.len() == 0 {
                ActionView { handler: command.handler, delay_ms: 0, parameters: command.parameters }
            } else {
                command.actions[i]
            };
            let invoked = r.invocation(command, slots, now).actions[i];
            &&& invoked.handler == configured.handler
            &&& invoked.delay_ms == configured.delay_ms
            &&& lookup(invoked.parameters, "_command_id"@) == Some(command.id)
            &&& key != "_command_id"@ ==> lookup(invoked.parameters, key) == match lookup(
                configured.parameters,
                key,
            ) {
                None => None,
                Some(value) => Some(
                    if value.len() >= 2 && value[0] == '{' && value.last() == '}' && lookup(
                        slots,
                        value.subrange(1, value.len() - 1),
                    ) is Some {
                        lookup(slots, value.subrange(1, value.len() - 1))->0
                    } else {
                        value
                    },
                ),
            }
        },
{
    if 0 <= i < r.invocation(command, slots, now).actions.len() {
        let configured = if command.actions.len() == 0 {
            ActionView { handler: command.handler, delay_ms: 0, parameters: command.parameters }
        } else {
            command.actions[i]
        };
        let id = "_command_id"@;
        let values = filled_parameters(slots, configured.parameters);
        assert(command.resolved()[i] == configured);
        assert(r.invocation(command, slots, now).actions[i].parameters == inserted(
            values,
            id,
            command.id,
        ));
        lookup_after_insert(values, id, command.id, id);
        lookup_after_insert(values, id, command.id, key);
        filled_values(slots, configured.parameters, key);
    }
}

/// A handler starts unless its circuit is open or it started within the rate limit. A start is
/// recorded and closes the circuit, so that it counts for the next one.
pub proof fn handlers_start_unless_limited(r: RuntimeView, handler: Seq<char>, now: u64)
    requires
        ({
            let guard = guard_of(r.handler_guards, handler);
            &&& guard.opened_at matches Some(opened) ==> opened <= now
            &&& guard.last_started matches Some(started) ==> started <= now
        }),
    ensures
        ({
            let guard = match lookup(r.handler_guards, handler) {
                Some(guard) => guard,
                None => HandlerGuard {
                    last_started: None,
                    consecutive_failures: 0,
                    opened_at: None,
                },
            };
            let open = guard.opened_at is Some && now - guard.opened_at->0
                < r.policy.handler_circuit_breaker_ms * 1_000_000;
            let recent = r.policy.handler_rate_limit_ms > 0 && guard.last_started is Some && now
                - guard.last_started->0 < r.policy.handler_rate_limit_ms * 1_000_000;
            let after = r.check_handler(handler, now);
            &&& after.result == if open {
                Err(ErrorView::Command("handler circuit is open: "@ + handler))
            } else if recent {
                Err(ErrorView::Command("handler rate limit exceeded: "@ + handler))
            } else {
                Ok(())
            }
            &&& after.result is Ok ==> guard_of(after.runtime.handler_guards, handler) == (
            HandlerGuard {
                last_started: Some(now),
                consecutive_failures: guard.consecutive_failures,
                opened_at: None,
            })
            &&& after.result is Err ==> guard_of(after.runtime.handler_guards, handler).last_started
                == guard.last_started
            &&& after.runtime == (RuntimeView {
                handler_guards: after.runtime.handler_guards,
                ..r
            })
        }),
{
    reveal(RuntimeView::check_handler);
    let guard = guard_of(r.handler_guards, handler);
    let closed = HandlerGuard { opened_at: None, ..guard };
    let started = HandlerGuard { last_started: Some(now), ..closed };
    lookup_after_insert(r.handler_guards, handler, guard, handler);
    lookup_after_insert(r.handler_guards, handler, closed, handler);
    lookup_after_insert(r.handler_guards, handler, started, handler);
}

/// The circuit of a handler opens with the failure that reaches the threshold and not before; a
/// threshold of zero never opens one.
pub proof fn circuits_open_at_the_threshold(r: RuntimeView, handler: Seq<char>, now: u64)
    requires
        guard_of(r.handler_guards, handler).consecutive_failures < u32::MAX,
    ensures
        ({
            let before = guard_of(r.handler_guards, handler);
            let later = guard_of(r.record_failure(handler, now).handler_guards, handler);
            &&& r.policy.handler_failure_threshold == 0 ==> later == before
            &&& r.policy.handler_failure_threshold > 0 ==> {
                &&& later.consecutive_failures == before.consecutive_failures + 1
                &&& later.last_started == before.last_started
                &&& before.consecutive_failures + 1 >= r.policy.handler_failure_threshold
                    ==> later.opened_at == Some(now)
                &&& before.consecutive_failures + 1 < r.policy.handler_failure_threshold
                    ==> later.opened_at == before.opened_at
            }
        }),
        r.record_success(handler) == (RuntimeView {
            handler_guards: r.record_success(handler).handler_guards,
            ..r
        }),
        guard_of(r.record_success(handler).handler_guards, handler).last_started == guard_of(
            r.handler_guards,
            handler,
        ).last_started,
{
    let guard = guard_of(r.handler_guards, handler);
    let failures = (guard.consecutive_failures + 1) as u32;
    let failed = HandlerGuard {
        consecutive_failures: failures,
        opened_at: if failures >= r.policy.handler_failure_threshold {
            Some(now)
        } else {
            guard.opened_at
        },
        ..guard
    };
    let succeeded = HandlerGuard { consecutive_failures: 0, opened_at: None, ..guard };
    lookup_after_insert(r.handler_guards, handler, failed, handler);
    lookup_after_insert(r.handler_guards, handler, succeeded, handler);
}

/// What comes next of a command: each action is waited for exactly its delay, then its handler is
/// called with its parameters, unless the handler may not start; when all actions are done, and not
/// before, the command finishes.
pub proof fn actions_are_waited_for_and_called(r: RuntimeView, execution: ExecutionView, now: u64)
    requires
        r.state is ExecutingCommand,
    ensures
        ({
            let actions = execution.command.actions;
            let step = r.next_step(execution, now);
            if execution.next < actions.len() {
                let action = actions[execution.next as int];
                if action.delay_ms > 0 && !execution.waited {
                    &&& step.runtime == r
                    &&& step.result matches Ok(StepView::Wait { delay_ms, execution: carried })
                    &&& delay_ms == action.delay_ms
                    &&& carried == (ExecutionView { waited: true, ..execution })
                } else {
                    let checked = r.check_handler(action.handler, now);
                    &&& checked.result is Ok ==> {
                        &&& step.runtime == checked.runtime
                        &&& step.result matches Ok(
                            StepView::Call { handler, parameters, execution: carried },
                        )
                        &&& handler == action.handler
                        &&& parameters == action.parameters
                        &&& carried == (ExecutionView {
                            current_handler: Some(action.handler),
                            ..execution
                        })
                    }
                    &&& checked.result matches Err(error) ==> step.result == Err::<
                        StepView,
                        ErrorView,
                    >(error) && step.runtime.state is IdleListening
                }
            } else {
                step.result !is Ok || step.result == Ok::<StepView, ErrorView>(StepView::Done)
            }
        }),
{
    reveal(RuntimeView::next_step);
    reveal(RuntimeView::finish);
    reveal(RuntimeView::recover);
    reveal(RuntimeView::check_handler);
}

/// A command finishes with its last action: the events tell its identifier and, for several actions,
/// how many there were, for a single one what its handler said. Until then a completed action leads to
/// the one behind it, and a command never finishes early.
pub proof fn commands_finish_with_their_last_action(
    r: RuntimeView,
    execution: ExecutionView,
    message: Seq<char>,
    now: u64,
)
    requires
        r.state is ExecutingCommand,
        execution.next < execution.command.actions.len() <= usize::MAX,
        execution.started_at <= now,
    ensures
        ({
            let count = execution.command.actions.len();
            let after = r.resume_execution(execution, ExecutionEventView::Completed(message), now);
            &&& execution.next + 1 == count ==> {
                let told = if count == 1 {
                    message
                } else {
                    "completed "@ + decimal(count) + " actions"@
                };
                &&& after.result == Ok::<StepView, ErrorView>(StepView::Done)
                &&& after.runtime.state is Cooldown
                &&& after.runtime.events == r.events + seq![
                    EventView::CommandFinished { command_id: execution.command.id, message: told },
                    EventView::StateChanged {
                        previous: AssistantState::ExecutingCommand,
                        current: AssistantState::Cooldown,
                    },
                ]
                &&& after.runtime.metrics.commands_completed == crate::metrics::counted(
                    r.metrics.commands_completed,
                )
                &&& after.runtime.metrics.handler_last_ms == (now - execution.started_at) / 1_000_000
                &&& guard_of(
                    after.runtime.handler_guards,
                    execution.command.actions[execution.next as int].handler,
                ).consecutive_failures == 0
            }
            &&& execution.next + 1 < count ==> {
                &&& after.result !is Err ==> match after.result->Ok_0 {
                    StepView::Done => false,
                    StepView::Wait { execution: carried, .. } => carried.next == execution.next + 1
                        && carried.command == execution.command && carried.started_at
                        == execution.started_at,
                    StepView::Call { handler, execution: carried, .. } => carried.next
                        == execution.next + 1 && carried.command == execution.command
                        && carried.started_at == execution.started_at && handler
                        == execution.command.actions[execution.next + 1].handler,
                }
                &&& forall|i: int|
                    r.events.len() <= i < after.runtime.events.len()
                        ==> !(#[trigger] after.runtime.events[i] is CommandFinished)
            }
        }),
{
    reveal(RuntimeView::next_step);
    reveal(RuntimeView::finish);
    reveal(RuntimeView::recover);
    reveal(RuntimeView::check_handler);
    let handler = execution.command.actions[execution.next as int].handler;
    let guard = guard_of(r.handler_guards, handler);
    lookup_after_insert(
        r.handler_guards,
        handler,
        HandlerGuard { consecutive_failures: 0, opened_at: None, ..guard },
        handler,
    );
    let after = r.resume_execution(execution, ExecutionEventView::Completed(message), now);
    if execution.next + 1 == execution.command.actions.len() {
        assert(after.runtime.events =~= r.events + seq![
            EventView::CommandFinished {
                command_id: execution.command.id,
                message: if execution.command.actions.len() == 1 {
                    message
                } else {
                    "completed "@ + decimal(execution.command.actions.len()) + " actions"@
                },
            },
            EventView::StateChanged {
                previous: AssistantState::ExecutingCommand,
                current: AssistantState::Cooldown,
            },
        ]);
    }
}

/// An action that fails or runs out of time ends its command with the error: no further action is
/// called, the error is published, the runtime listens again, and the failure counts for the handler.
pub proof fn failed_actions_end_their_command(
    r: RuntimeView,
    execution: ExecutionView,
    error: ErrorView,
    now: u64,
)
    requires
        r.state is ExecutingCommand,
        r.pending is None,
        execution.next < execution.command.actions.len(),
    ensures
        ({
            let handler = execution.command.actions[execution.next as int].handler;
            let failed = r.resume_execution(execution, ExecutionEventView::Failed(error), now);
            let late = r.resume_execution(execution, ExecutionEventView::TimedOut, now);
            let timeout = ErrorView::Command("command timed out"@);
            &&& failed.result == Err::<StepView, ErrorView>(error)
            &&& late.result == Err::<StepView, ErrorView>(timeout)
            &&& failed.runtime.state is IdleListening && late.runtime.state is IdleListening
            &&& failed.runtime.events[r.events.len() as int] == (EventView::RecoverableError {
                component: "command"@,
                message: error.message(),
            })
            &&& late.runtime.events[r.events.len() as int] == (EventView::RecoverableError {
                component: "command"@,
                message: timeout.message(),
            })
            &&& failed.runtime.handler_guards == r.record_failure(handler, now).handler_guards
            &&& late.runtime.handler_guards == match execution.current_handler {
                Some(current) => r.record_failure(current, now).handler_guards,
                None => r.handler_guards,
            }
            &&& failed.runtime.metrics.commands_completed == r.metrics.commands_completed
            &&& late.runtime.metrics.commands_completed == r.metrics.commands_completed
            &&& failed.runtime.metrics.recoverable_errors == crate::metrics::counted(
                r.metrics.recoverable_errors,
            )
        }),
{
    reveal(RuntimeView::finish);
    reveal(RuntimeView::recover);
}

/// What a text leads to: without a selected command that is published and nothing runs; a command that
/// the policy guards waits for its confirmation, complete and under a token of its own; any other
/// command starts at once.
pub proof fn selected_commands_start_or_wait(r: RuntimeView, text: Seq<char>, allow_wake_word: bool, now: u64)
    requires
        r.state is MatchingCommand,
        r.confirmation_sequence < u64::MAX,
    ensures
        ({
            let selected = if allow_wake_word {
                r.registry.selects_after(text, r.wake_words)
            } else {
                r.registry.selects(text)
            };
            let after = r.match_text(text, allow_wake_word, now);
            match selected {
                None => {
                    &&& after.result == Ok::<StepView, ErrorView>(StepView::Done)
                    &&& after.runtime.state is Cooldown
                    &&& after.runtime.pending == r.pending
                    &&& after.runtime.events == r.events + seq![
                        EventView::CommandNotMatched { text },
                        EventView::StateChanged {
                            previous: AssistantState::MatchingCommand,
                            current: AssistantState::Cooldown,
                        },
                    ]
                },
                Some((k, slots)) => {
                    let command = r.registry.commands[k];
                    let guarded = r.policy.confirmations_enabled && (command.requires_confirmation
                        || command.risk is High);
                    &&& guarded ==> {
                        let token = confirmation_token(
                            command.id,
                            (r.confirmation_sequence + 1) as u64,
                        );
                        &&& after.result == Ok::<StepView, ErrorView>(StepView::Done)
                        &&& after.runtime.state is AwaitingConfirmation
                        &&& after.runtime.confirmation_sequence == r.confirmation_sequence + 1
                        &&& after.runtime.pending == Some(
                            PendingView {
                                id: command.id,
                                actions: r.invocation(command, slots, now).actions,
                                timeout_ms: command.timeout_ms,
                                expires_at: (now + r.policy.confirmation_timeout_ms
                                    * 1_000_000) as u128,
                                confirmation_id: Some(token),
                            },
                        )
                        &&& after.runtime.events == r.events + seq![
                            EventView::CommandMatched { command_id: command.id },
                            EventView::ConfirmationRequired {
                                command_id: command.id,
                                confirmation_id: token,
                            },
                            EventView::StateChanged {
                                previous: AssistantState::MatchingCommand,
                                current: AssistantState::AwaitingConfirmation,
                            },
                        ]
                    }
                    &&& !guarded ==> {
                        let started = RuntimeView {
                            state: AssistantState::ExecutingCommand,
                            events: r.events + seq![
                                EventView::CommandMatched { command_id: command.id },
                                EventView::StateChanged {
                                    previous: AssistantState::MatchingCommand,
                                    current: AssistantState::ExecutingCommand,
                                },
                                EventView::CommandStarted { command_id: command.id },
                            ],
                            ..r
                        };
                        after == started.next_step(
                            ExecutionView {
                                command: r.invocation(command, slots, now),
                                next: 0,
                                waited: false,
                                current_handler: None,
                                last_result: None,
                                started_at: now,
                            },
                            now,
                        )
                    }
                },
            }
        }),
{
    reveal(RuntimeView::match_text);
    reveal(RuntimeView::execute);
    let selected = if allow_wake_word {
        r.registry.selects_after(text, r.wake_words)
    } else {
        r.registry.selects(text)
    };
    let after = r.match_text(text, allow_wake_word, now);
    if selected is None {
        assert(after.runtime.events =~= r.events + seq![
            EventView::CommandNotMatched { text },
            EventView::StateChanged {
                previous: AssistantState::MatchingCommand,
                current: AssistantState::Cooldown,
            },
        ]);
    } else {
        let command = r.registry.commands[(selected->0).0];
        if r.policy.confirmations_enabled && (command.requires_confirmation || command.risk is High) {
            let token = confirmation_token(command.id, (r.confirmation_sequence + 1) as u64);
            assert(after.runtime.events =~= r.events + seq![
                EventView::CommandMatched { command_id: command.id },
                EventView::ConfirmationRequired { command_id: command.id, confirmation_id: token },
                EventView::StateChanged {
                    previous: AssistantState::MatchingCommand,
                    current: AssistantState::AwaitingConfirmation,
                },
            ]);
        } else {
            assert(r.events.push(EventView::CommandMatched { command_id: command.id }).push(
                EventView::StateChanged {
                    previous: AssistantState::MatchingCommand,
                    current: AssistantState::ExecutingCommand,
                },
            ).push(EventView::CommandStarted { command_id: command.id }) =~= r.events + seq![
                EventView::CommandMatched { command_id: command.id },
                EventView::StateChanged {
                    previous: AssistantState::MatchingCommand,
                    current: AssistantState::ExecutingCommand,
                },
                EventView::CommandStarted { command_id: command.id },
            ]);
        }
    }
}

/// The event of a cancelled confirmation.
pub open spec fn cancellation(pending: PendingView, reason: ConfirmationCancelReason) -> EventView {
    EventView::ConfirmationCancelled {
        command_id: pending.id,
        confirmation_id: match pending.confirmation_id {
            Some(token) => token,
            None => Seq::empty(),
        },
        reason,
    }
}

/// What a text does to the command that awaits confirmation. A text with the normal form of a cancel
/// phrase, and of no accept phrase, cancels it; one of an accept phrase starts it, if the time is not
/// over; any other text leaves it as it is.
pub proof fn answers_accept_cancel_or_change_nothing(r: RuntimeView, text: Seq<char>, now: u64)
    requires
        r.state is AwaitingConfirmation,
        r.pending is Some,
    ensures
        ({
            let pending = r.pending->0;
            let yo = r.registry.normalize_yo;
            let accepted = exists|i: int|
                0 <= i < r.policy.confirmation_accept_phrases.len() && #[trigger] normalized(
                    r.policy.confirmation_accept_phrases[i],
                    yo,
                ) == normalized(text, yo);
            let cancelled = exists|i: int|
                0 <= i < r.policy.confirmation_cancel_phrases.len() && #[trigger] normalized(
                    r.policy.confirmation_cancel_phrases[i],
                    yo,
                ) == normalized(text, yo);
            let after = r.answer(text, now);
            &&& cancelled && !accepted ==> {
                &&& after.result == Ok::<StepView, ErrorView>(StepView::Done)
                &&& after.runtime.pending is None
                &&& after.runtime.state is Cooldown
                &&& after.runtime.events == r.events + seq![
                    cancellation(pending, ConfirmationCancelReason::User),
                    EventView::StateChanged {
                        previous: AssistantState::AwaitingConfirmation,
                        current: AssistantState::Cooldown,
                    },
                ]
            }
            &&& !cancelled && !accepted ==> {
                &&& after.result == Ok::<StepView, ErrorView>(StepView::Done)
                &&& after.runtime == (RuntimeView {
                    events: r.events.push(
                        EventView::ConfirmationUnrecognized { text: normalized(text, yo) },
                    ),
                    ..r
                })
            }
            &&& accepted && now >= pending.expires_at ==> {
                &&& after.result == Err::<StepView, ErrorView>(
                    ErrorView::Confirmation("confirmation expired"@),
                )
                &&& after.runtime.pending is None
                &&& after.runtime.state is Cooldown
                &&& after.runtime.events == r.events + seq![
                    cancellation(pending, ConfirmationCancelReason::Expired),
                    EventView::StateChanged {
                        previous: AssistantState::AwaitingConfirmation,
                        current: AssistantState::Cooldown,
                    },
                ]
            }
            &&& accepted && now < pending.expires_at ==> after == confirmed(r, pending, now)
        }),
{
    reveal(RuntimeView::answer);
    reveal(RuntimeView::confirm_pending);
    let pending = r.pending->0;
    confirmed_is_executed(r, now);
    assert(r.events.push(cancellation(pending, ConfirmationCancelReason::User)).push(
        EventView::StateChanged {
            previous: AssistantState::AwaitingConfirmation,
            current: AssistantState::Cooldown,
        },
    ) =~= r.events + seq![
        cancellation(pending, ConfirmationCancelReason::User),
        EventView::StateChanged {
            previous: AssistantState::AwaitingConfirmation,
            current: AssistantState::Cooldown,
        },
    ]);
    assert(r.events.push(cancellation(pending, ConfirmationCancelReason::Expired)).push(
        EventView::StateChanged {
            previous: AssistantState::AwaitingConfirmation,
            current: AssistantState::Cooldown,
        },
    ) =~= r.events + seq![
        cancellation(pending, ConfirmationCancelReason::Expired),
        EventView::StateChanged {
            previous: AssistantState::AwaitingConfirmation,
            current: AssistantState::Cooldown,
        },
    ]);
}

/// The first step of a confirmed command, of which nothing is pending any more.
pub open spec fn confirmed(r: RuntimeView, pending: PendingView, now: u64) -> crate::runtime::After<StepView> {
    (RuntimeView {
        state: AssistantState::ExecutingCommand,
        pending: None,
        events: r.events + seq![
            EventView::StateChanged {
                previous: AssistantState::AwaitingConfirmation,
                current: AssistantState::ExecutingCommand,
            },
            EventView::CommandStarted { command_id: pending.id },
        ],
        ..r
    }).next_step(
        ExecutionView {
            command: pending,
            next: 0,
            waited: false,
            current_handler: None,
            last_result: None,
            started_at: now,
        },
        now,
    )
}

proof fn confirmed_is_executed(r: RuntimeView, now: u64)
    requires
        r.state is AwaitingConfirmation,
        r.pending is Some,
    ensures
        (RuntimeView { pending: None, ..r }).execute(r.pending->0, now) == confirmed(
            r,
            r.pending->0,
            now,
        ),
{
    reveal(RuntimeView::execute);
    assert(r.events.push(
        EventView::StateChanged {
            previous: AssistantState::AwaitingConfirmation,
            current: AssistantState::ExecutingCommand,
        },
    ).push(EventView::CommandStarted { command_id: r.pending->0.id }) =~= r.events + seq![
        EventView::StateChanged {
            previous: AssistantState::AwaitingConfirmation,
            current: AssistantState::ExecutingCommand,
        },
        EventView::CommandStarted { command_id: r.pending->0.id },
    ]);
}

/// A submitted text of 1 to 4096 bytes answers the pending confirmation where speech may, and is
/// matched as a command otherwise. While a confirmation is pending that may not be answered so, a text
/// is refused.
pub proof fn submitted_texts_answer_or_command(r: RuntimeView, text: Seq<char>, now: u64)
    requires
        !is_blank(text),
        encode_utf8(text).len() <= 4096,
    ensures
        r.state is AwaitingConfirmation && r.policy.voice_confirmations_enabled ==> r.process_text(
            text,
            now,
        ) == r.answer(text, now),
        r.state is AwaitingConfirmation && !r.policy.voice_confirmations_enabled ==> r.process_text(
            text,
            now,
        ).result is Err && r.process_text(text, now).runtime == r,
        r.state is IdleListening ==> r.process_text(text, now) == (RuntimeView {
            state: AssistantState::MatchingCommand,
            events: r.events.push(
                EventView::StateChanged {
                    previous: AssistantState::IdleListening,
                    current: AssistantState::MatchingCommand,
                },
            ),
            ..r
        }).match_text(text, false, now),
        !(r.state is AwaitingConfirmation || r.state is IdleListening || r.state is Transcribing)
            ==> r.process_text(text, now).result is Err && r.process_text(text, now).runtime == r,
{
}

/// Transcribed speech is published. Behind a wake word it answers the confirmation that it was heard
/// for, or else is matched as a command, with or without the wake word said again; without a wake word
/// it does neither.
pub proof fn transcripts_answer_or_command(
    r: RuntimeView,
    session_id: u64,
    authorized: bool,
    text: Seq<char>,
    confidence: Option<crate::float32::Real32>,
    elapsed_ms: u64,
    now: u64,
)
    requires
        r.state is Transcribing,
        !is_blank(text),
    ensures
        ({
            let after = r.finish_speech(
                session_id,
                authorized,
                TranscriptionOutcomeView::Transcribed(text, confidence),
                elapsed_ms,
                now,
            );
            let heard = RuntimeView {
                last_partial: Seq::empty(),
                confirming_by_voice: false,
                metrics: r.observe_stt(elapsed_ms).metrics,
                events: r.events.push(EventView::TranscriptFinal { session_id, text, confidence }),
                ..r
            };
            &&& authorized && r.confirming_by_voice ==> after == heard.answer(text, now)
            &&& authorized && !r.confirming_by_voice ==> after == (RuntimeView {
                state: AssistantState::MatchingCommand,
                events: heard.events.push(
                    EventView::StateChanged {
                        previous: AssistantState::Transcribing,
                        current: AssistantState::MatchingCommand,
                    },
                ),
                ..heard
            }).match_text(text, true, now)
            &&& !authorized ==> {
                let back = if r.confirming_by_voice {
                    AssistantState::AwaitingConfirmation
                } else {
                    AssistantState::IdleListening
                };
                &&& after.result == Ok::<StepView, ErrorView>(StepView::Done)
                &&& after.runtime == (RuntimeView {
                    state: back,
                    events: heard.events.push(
                        EventView::StateChanged {
                            previous: AssistantState::Transcribing,
                            current: back,
                        },
                    ),
                    ..heard
                })
            }
        }),
        r.observe_stt(elapsed_ms).metrics.stt_last_ms == elapsed_ms,
        r.observe_stt(elapsed_ms).metrics.stt_max_ms >= elapsed_ms,
        r.observe_stt(elapsed_ms).metrics.stt_max_ms >= r.metrics.stt_max_ms,
{
    reveal(RuntimeView::take_transcript);
}

/// An answer that was spoken counts as one that was submitted: it waits for confirmation first.
pub proof fn spoken_answers_count_as_submitted_ones(r: RuntimeView, text: Seq<char>, now: u64)
    requires
        r.state is Transcribing,
    ensures
        r.answer(text, now) == (RuntimeView {
            state: AssistantState::AwaitingConfirmation,
            events: r.events.push(
                EventView::StateChanged {
                    previous: AssistantState::Transcribing,
                    current: AssistantState::AwaitingConfirmation,
                },
            ),
            ..r
        }).answer(text, now),
{
    reveal(RuntimeView::answer);
}

/// Recognition that heard nothing or failed is published with its reason, and no command follows.
pub proof fn silence_and_failures_are_reported(
    r: RuntimeView,
    session_id: u64,
    authorized: bool,
    text: Seq<char>,
    error: ErrorView,
    elapsed_ms: u64,
    now: u64,
)
    requires
        r.state is Transcribing,
        is_blank(text),
    ensures
        ({
            let silent = r.finish_speech(
                session_id,
                authorized,
                TranscriptionOutcomeView::Transcribed(text, None),
                elapsed_ms,
                now,
            );
            &&& silent.result == Ok::<StepView, ErrorView>(StepView::Done)
            &&& silent.runtime.pending == r.pending
            &&& silent.runtime.events[r.events.len() as int] == (EventView::TranscriptUnavailable {
                reason: crate::domain::TranscriptUnavailableReason::Silence,
            })
            &&& silent.runtime.state == if r.confirming_by_voice {
                AssistantState::AwaitingConfirmation
            } else if authorized {
                AssistantState::Cooldown
            } else {
                AssistantState::IdleListening
            }
            &&& !silent.runtime.confirming_by_voice || !r.confirming_by_voice
        }),
        ({
            let failed = r.finish_speech(
                session_id,
                authorized,
                TranscriptionOutcomeView::Failed(error),
                elapsed_ms,
                now,
            );
            &&& failed.result == Err::<StepView, ErrorView>(error)
            &&& failed.runtime.state is IdleListening
            &&& failed.runtime.pending is None
            &&& error is Unavailable ==> failed.runtime.events[r.events.len() as int] == (
            EventView::TranscriptUnavailable {
                reason: crate::domain::TranscriptUnavailableReason::ModelUnavailable,
            }) && failed.runtime.events[r.events.len() as int + 1] == (EventView::RecoverableError {
                component: "stt"@,
                message: error.message(),
            })
            &&& error !is Unavailable ==> failed.runtime.events[r.events.len() as int] == (
            EventView::RecoverableError { component: "stt"@, message: error.message() })
        }),
{
    reveal(RuntimeView::report_silence);
    reveal(RuntimeView::recover);
}

/// The token of the pending command starts it while its time lasts and cancels it at any time; once
/// the time is over a confirmation cancels it and fails.
pub proof fn tokens_start_or_cancel_their_command(r: RuntimeView, token: Seq<char>, now: u64)
    requires
        r.state is AwaitingConfirmation,
        r.pending is Some,
        r.pending->0.confirmation_id == Some(token),
    ensures
        now < r.pending->0.expires_at ==> r.confirm(token, now) == confirmed(r, r.pending->0, now),
        now >= r.pending->0.expires_at ==> {
            let after = r.confirm(token, now);
            &&& after.result == Err::<StepView, ErrorView>(
                ErrorView::Confirmation("confirmation expired"@),
            )
            &&& after.runtime.pending is None
            &&& after.runtime.state is Cooldown
            &&& after.runtime.events[r.events.len() as int] == cancellation(
                r.pending->0,
                ConfirmationCancelReason::Expired,
            )
        },
        r.cancel(token).result == Ok::<(), ErrorView>(()),
        r.cancel(token).runtime == (RuntimeView {
            state: AssistantState::Cooldown,
            pending: None,
            events: r.events + seq![
                cancellation(r.pending->0, ConfirmationCancelReason::User),
                EventView::StateChanged {
                    previous: AssistantState::AwaitingConfirmation,
                    current: AssistantState::Cooldown,
                },
            ],
            ..r
        }),
{
    reveal(RuntimeView::confirm_pending);
    confirmed_is_executed(r, now);
    assert(r.cancel(token).runtime.events =~= r.events + seq![
        cancellation(r.pending->0, ConfirmationCancelReason::User),
        EventView::StateChanged {
            previous: AssistantState::AwaitingConfirmation,
            current: AssistantState::Cooldown,
        },
    ]);
}

/// A confirmation expires exactly when its time is over: then the command is dropped, and that is
/// published; until then nothing changes.
pub proof fn confirmations_expire_in_time(r: RuntimeView, now: u64)
    requires
        r.pending is Some ==> r.state is AwaitingConfirmation,
    ensures
        r.pending is None ==> r.expire(now).runtime == r && r.expire(now).result == Ok::<
            bool,
            ErrorView,
        >(false),
        r.pending matches Some(pending) ==> if now >= pending.expires_at {
            &&& r.expire(now).result == Ok::<bool, ErrorView>(true)
            &&& r.expire(now).runtime.pending is None
            &&& r.expire(now).runtime.state is Cooldown
            &&& r.expire(now).runtime.events[r.events.len() as int] == cancellation(
                pending,
                ConfirmationCancelReason::Expired,
            )
        } else {
            r.expire(now).runtime == r && r.expire(now).result == Ok::<bool, ErrorView>(false)
        },
{
}

/// Suspending drops what is pending, and that is published; resuming listens again; a shutdown drops
/// what is pending for good.
pub proof fn suspension_drops_what_is_pending(r: RuntimeView)
    ensures
        r.state is AwaitingConfirmation && r.pending is Some ==> {
            &&& r.suspend().result is Ok
            &&& r.suspend().runtime.state is Suspended
            &&& r.suspend().runtime.pending is None
            &&& r.suspend().runtime.events[r.events.len() as int] == cancellation(
                r.pending->0,
                ConfirmationCancelReason::Suspended,
            )
        },
        r.state is IdleListening || r.state is Cooldown ==> r.suspend().result is Ok
            && r.suspend().runtime.state is Suspended && r.suspend().runtime.pending == r.pending,
        r.state is ExecutingCommand || r.state is Transcribing || r.state is CapturingCommand
            ==> r.suspend().result is Err && r.suspend().runtime == r,
        r.state is Suspended ==> r.resume().result is Ok && r.resume().runtime.state is IdleListening,
        r.state !is ShuttingDown ==> r.shutdown().result is Ok && r.shutdown().runtime.state
            is ShuttingDown && r.shutdown().runtime.pending is None,
{
}

/// A reconfiguration takes effect between commands only. What it supplies replaces what was there, all
/// else stays, and the protection of the handlers is forgotten only with new commands or a new policy.
pub proof fn reconfigurations_replace_what_they_supply(r: RuntimeView, update: crate::runtime::RuntimeUpdate)
    requires
        !(r.state is AwaitingConfirmation),
    ensures
        !(r.state is Starting || r.state is IdleListening || r.state is Suspended) ==> r.reconfigure(
            update,
        ).runtime == r && r.reconfigure(update).result is Err,
        r.state is Starting || r.state is IdleListening || r.state is Suspended ==> {
            let later = r.reconfigure(update).runtime;
            &&& r.reconfigure(update).result is Ok
            &&& later.state == r.state && later.pending == r.pending && later.events == r.events
            &&& later.metrics == r.metrics
            &&& match update.commands {
                Some(registry) => later.registry == registry@,
                None => later.registry == r.registry,
            }
            &&& match update.wake_words {
                Some(wake_words) => later.wake_words == crate::text::views(wake_words@),
                None => later.wake_words == r.wake_words,
            }
            &&& match update.policy {
                Some(policy) => later.policy == policy@,
                None => later.policy == r.policy,
            }
            &&& match update.stt_timeout_ms {
                Some(millis) => later.stt_timeout_ms == millis,
                None => later.stt_timeout_ms == r.stt_timeout_ms,
            }
            &&& match update.cooldown_ms {
                Some(millis) => later.cooldown_ms == millis,
                None => later.cooldown_ms == r.cooldown_ms,
            }
            &&& update.commands is None && update.policy is None ==> later.handler_guards
                == r.handler_guards
            &&& update.commands is Some || update.policy is Some ==> later.handler_guards.len() == 0
        },
{
    reveal(RuntimeView::settle);
}

/// A reconfiguration while a confirmation is pending cancels it first.
pub proof fn reconfigurations_cancel_confirmations(r: RuntimeView, update: crate::runtime::RuntimeUpdate)
    requires
        r.state is AwaitingConfirmation,
        r.pending is Some,
    ensures
        r.reconfigure(update).result is Ok,
        r.reconfigure(update).runtime.state is IdleListening,
        r.reconfigure(update).runtime.pending is None,
        r.reconfigure(update).runtime.events[r.events.len() as int] == cancellation(
            r.pending->0,
            ConfirmationCancelReason::Reconfigured,
        ),
{
    reveal(RuntimeView::settle);
}

/// The way of a spoken command through the states: speech begins a numbered session and a capture, a
/// wake word is shown in between; the end of the capture ends the session and turns to transcription.
pub proof fn captures_open_and_close_sessions(r: RuntimeView, wake_word_detected: bool)
    requires
        r.active_session_id is None,
        r.session_sequence < u64::MAX,
    ensures
        r.state is IdleListening ==> {
            let after = r.start_speech(wake_word_detected);
            &&& after.result is Ok
            &&& after.runtime.state is CapturingCommand
            &&& !after.runtime.confirming_by_voice || r.confirming_by_voice
            &&& after.runtime.active_session_id == Some((r.session_sequence + 1) as u64)
            &&& after.runtime.events.last() == (EventView::SpeechStarted {
                session_id: (r.session_sequence + 1) as u64,
            })
            &&& (exists|i: int|
                r.events.len() <= i < after.runtime.events.len() && #[trigger] after.runtime.events[i]
                    == (EventView::StateChanged {
                    previous: AssistantState::SpeechDetected,
                    current: AssistantState::WakeWordDetected,
                })) <==> wake_word_detected
        },
        r.state is AwaitingConfirmation && r.policy.voice_confirmations_enabled ==> {
            let after = r.start_speech(wake_word_detected);
            &&& after.result is Ok
            &&& after.runtime.confirming_by_voice
            &&& after.runtime.state is CapturingCommand
            &&& after.runtime.pending == r.pending
            &&& r.start_manual() == after
        },
        r.state is AwaitingConfirmation && !r.policy.voice_confirmations_enabled ==> r.start_manual(
        ).result is Err && r.start_manual().runtime == r && r.start_speech(wake_word_detected).result
            is Err,
        r.state is IdleListening ==> r.start_manual().result is Ok && r.start_manual().runtime.state
            is CapturingCommand && r.start_manual().runtime.active_session_id == Some(
            (r.session_sequence + 1) as u64,
        ),
{
    let after = r.start_speech(wake_word_detected);
    if r.state is IdleListening {
        let n = r.events.len() as int;
        if wake_word_detected {
            assert(after.runtime.events[n + 1] == (EventView::StateChanged {
                previous: AssistantState::SpeechDetected,
                current: AssistantState::WakeWordDetected,
            }));
        } else {
            assert(after.runtime.events =~= r.events + seq![
                EventView::StateChanged {
                    previous: AssistantState::IdleListening,
                    current: AssistantState::SpeechDetected,
                },
                EventView::StateChanged {
                    previous: AssistantState::SpeechDetected,
                    current: AssistantState::CapturingCommand,
                },
                EventView::SpeechStarted { session_id: (r.session_sequence + 1) as u64 },
            ]);
        }
    }
}

/// The end of a capture ends its session; a stream in progress is finished, and only a capture that
/// has a session is transcribed. A capture that is given up goes back to where it came from.
pub proof fn captures_are_transcribed_or_given_up(r: RuntimeView)
    requires
        r.state is CapturingCommand,
    ensures
        r.active_session_id is None ==> r.begin_transcription().result is Err
            && r.begin_transcription().runtime == r,
        r.active_session_id matches Some(session_id) ==> {
            let after = r.begin_transcription();
            &&& after.result matches Ok(transcription) && transcription.session_id == session_id
                && transcription.finish_stream == r.streaming_stt
            &&& after.runtime.state is Transcribing
            &&& !after.runtime.streaming_stt
            &&& after.runtime.active_session_id is None
            &&& after.runtime.pending == r.pending
            &&& after.runtime.events[r.events.len() as int] == (EventView::SpeechEnded { session_id })
        },
        r.cancel_capture().result is Ok,
        r.cancel_capture().runtime.active_session_id is None,
        r.cancel_capture().runtime.pending == r.pending,
        r.cancel_capture().runtime.state == if r.confirming_by_voice {
            AssistantState::AwaitingConfirmation
        } else {
            AssistantState::IdleListening
        },
        !r.cancel_capture().runtime.streaming_stt,
        !r.cancel_capture().runtime.confirming_by_voice,
{
    reveal(RuntimeView::begin_transcription);
}

/// A command starts only once it was matched or confirmed, a confirmation is awaited only for what was
/// matched or captured for it, and nothing is captured while a command runs.
pub proof fn commands_start_only_when_matched_or_confirmed(state: AssistantState)
    ensures
        may_transition(state, AssistantState::ExecutingCommand) <==> state is MatchingCommand
            || state is AwaitingConfirmation,
        may_transition(state, AssistantState::AwaitingConfirmation) <==> state is MatchingCommand
            || state is Transcribing || state is CapturingCommand,
        may_transition(state, AssistantState::MatchingCommand) <==> state is Transcribing
            || state is IdleListening,
        may_transition(state, AssistantState::Transcribing) <==> state is CapturingCommand,
        may_transition(state, AssistantState::CapturingCommand) <==> state is IdleListening
            || state is SpeechDetected || state is WakeWordDetected || state is AwaitingConfirmation,
        may_transition(state, AssistantState::WakeWordDetected) <==> state is SpeechDetected,
        may_transition(state, AssistantState::SpeechDetected) <==> state is IdleListening,
        may_transition(state, AssistantState::Suspended) <==> state is IdleListening
            || state is Cooldown,
        may_transition(state, AssistantState::Cooldown) <==> state is MatchingCommand
            || state is AwaitingConfirmation || state is ExecutingCommand,
        may_transition(state, AssistantState::Faulted) <==> state is Recovering,
        !may_transition(state, AssistantState::Starting),
        may_transition(state, AssistantState::ShuttingDown) <==> state !is ShuttingDown,
{
}

/// A permitted transition changes the state and nothing else, and is announced with both states; any
/// other is refused and changes nothing.
pub proof fn transitions_are_announced(r: RuntimeView, next: AssistantState)
    ensures
        may_transition(r.state, next) ==> r.enter(next).result is Ok && r.enter(next).runtime == (
        RuntimeView {
            state: next,
            events: r.events.push(EventView::StateChanged { previous: r.state, current: next }),
            ..r
        }),
        !may_transition(r.state, next) ==> r.enter(next).runtime == r && r.enter(next).result == Err::<
            (),
            _,
        >(ErrorView::InvalidTransition(r.state, next)),
{
}

/// A runtime begins in its first state, with what it was given, and with nothing pending, published or
/// counted.
pub proof fn runtimes_begin_with_nothing(
    registry: RegistryView,
    wake_words: Seq<Seq<char>>,
    policy: PolicyView,
    stt_timeout_ms: u64,
    cooldown_ms: u64,
    metrics: CoreMetrics,
)
    ensures
        ({
            let r = new_runtime(registry, wake_words, policy, stt_timeout_ms, cooldown_ms, metrics);
            &&& r.state is Starting
            &&& r.registry == registry && r.wake_words == wake_words && r.policy == policy
            &&& r.stt_timeout_ms == stt_timeout_ms && r.cooldown_ms == cooldown_ms && r.metrics == metrics
            &&& r.pending is None && r.active_session_id is None && !r.streaming_stt
                && !r.confirming_by_voice
            &&& r.events.len() == 0 && r.handler_guards.len() == 0
        }),
{
}

/// A partial transcript is published exactly if it is not blank and differs from the last one, under
/// the session in progress; a stream that failed or took too long is no longer fed.
pub proof fn partial_transcripts_are_published(r: RuntimeView, push: StreamPush)
    requires
        r.streaming_stt,
    ensures
        ({
            let later = r.push_stream(push);
            &&& (push matches StreamPush::Accepted(Some(partial)) && !is_blank(partial.text@)
                && partial.text@ != r.last_partial) ==> later.result is Ok && later.runtime.streaming_stt
                && later.runtime.last_partial == push->Accepted_0->0.text@ && later.runtime.events
                == r.events.push(
                EventView::TranscriptPartial {
                    session_id: if r.active_session_id is Some {
                        r.active_session_id->0
                    } else {
                        0
                    },
                    text: push->Accepted_0->0.text@,
                    confidence: push->Accepted_0->0.confidence,
                },
            )
            &&& push is Accepted && !(push matches StreamPush::Accepted(Some(partial)) && !is_blank(
                partial.text@,
            ) && partial.text@ != r.last_partial) ==> later.result is Ok && later.runtime == r
            &&& push !is Accepted ==> later.result is Err && later.runtime == (RuntimeView {
                streaming_stt: false,
                ..r
            })
            &&& push matches StreamPush::Failed(error) ==> later.result == Err::<(), _>(error@)
        }),
{
}

/// A failure of a component is counted and published with its message. A pending invocation is dropped,
/// and the runtime listens again where it can recover; it starts nothing, and a runtime that shuts down
/// is left alone.
pub proof fn failures_are_published_and_recovered(
    r: RuntimeView,
    component: Seq<char>,
    message: Seq<char>,
)
    ensures
        ({
            let later = r.recover(component, message);
            &&& r.state is ShuttingDown ==> later == r
            &&& r.state !is ShuttingDown ==> {
                &&& later.pending is None
                &&& later.events.len() > r.events.len()
                &&& later.events[r.events.len() as int] == (EventView::RecoverableError {
                    component,
                    message,
                })
                &&& r.pending is Some ==> (later.events[r.events.len() as int + 1] matches
                    EventView::ConfirmationCancelled { command_id, reason, .. } && command_id
                    == r.pending->0.id && reason is Recovery)
                &&& r.metrics.recoverable_errors < u64::MAX ==> later.metrics.recoverable_errors
                    == r.metrics.recoverable_errors + 1
                &&& later.metrics.commands_completed == r.metrics.commands_completed
                &&& may_transition(r.state, AssistantState::Recovering) ==> later.state
                    is IdleListening
                &&& !may_transition(r.state, AssistantState::Recovering) ==> later.state == r.state
                &&& later.registry == r.registry && later.policy == r.policy && later.wake_words
                    == r.wake_words && later.handler_guards == r.handler_guards
                    && later.active_session_id == r.active_session_id
            }
        }),
{
    reveal(RuntimeView::recover);
    assert(may_transition(AssistantState::Recovering, AssistantState::IdleListening));
}

/// Cooldowns and pauses end in listening; whatever listens already stays as it is.
pub proof fn listening_is_resumed(r: RuntimeView)
    ensures
        r.state is Cooldown ==> r.complete_cooldown().runtime.state is IdleListening
            && r.complete_cooldown().result is Ok,
        r.state !is Cooldown ==> r.complete_cooldown().runtime == r,
        r.state is IdleListening ==> r.resume().runtime == r && r.resume().result is Ok,
        r.state is Suspended ==> r.resume().runtime.state is IdleListening && r.resume().result is Ok,
        r.state is ExecutingCommand || r.state is AwaitingConfirmation || r.state is MatchingCommand
            || r.state is ShuttingDown ==> r.resume().result is Err && r.resume().runtime == r,
{
}

/// The time of a handler is measured in whole milliseconds, and the longest one is kept.
pub proof fn handler_times_are_measured(r: RuntimeView, started_at: u64, now: u64)
    requires
        started_at <= now,
    ensures
        ({
            let metrics = r.observe_handler(started_at, now).metrics;
            &&& metrics.handler_last_ms * 1_000_000 <= now - started_at
            &&& now - started_at < (metrics.handler_last_ms + 1) * 1_000_000
            &&& metrics.handler_max_ms >= metrics.handler_last_ms && metrics.handler_max_ms
                >= r.metrics.handler_max_ms
            &&& metrics.handler_max_ms == metrics.handler_last_ms || metrics.handler_max_ms
                == r.metrics.handler_max_ms
            &&& r.observe_handler(started_at, now) == (RuntimeView {
                metrics: CoreMetrics {
                    handler_last_ms: metrics.handler_last_ms,
                    handler_max_ms: metrics.handler_max_ms,
                    ..r.metrics
                },
                ..r
            })
        }),
{
}

/// The report of a recognizer that took too long tells whether it was restarted, left alone or given
/// up.
pub proof fn timeouts_tell_what_became_of_the_recognizer(a: RecognizerRecovery, b: RecognizerRecovery)
    ensures
        timeout_message(a) == timeout_message(b) ==> a == b,
{
    reveal_strlit("STT timed out; worker restarted");
    reveal_strlit("STT timed out");
    reveal_strlit("STT timed out; worker restart budget exhausted");
    assert("STT timed out; worker restarted"@.len() == 31);
    assert("STT timed out"@.len() == 13);
    assert("STT timed out; worker restart budget exhausted"@.len() == 46);
    if timeout_message(a) == timeout_message(b) {
        assert(timeout_message(a).len() == timeout_message(b).len());
    }
}

/// The token of a confirmation is the identifier of its command, a hyphen and a number of sixteen
/// digits.
pub proof fn tokens_name_their_command(command_id: Seq<char>, sequence: u64)
    ensures
        confirmation_token(command_id, sequence).len() == command_id.len() + 17,
        confirmation_token(command_id, sequence).take(command_id.len() as int) == command_id,
        confirmation_token(command_id, sequence)[command_id.len() as int] == '-',
{
    reveal_strlit("-");
    reveal_with_fuel(hexadecimal, 17);
    assert(hexadecimal(sequence as nat, 16).len() == 16);
    assert(confirmation_token(command_id, sequence).take(command_id.len() as int) =~= command_id);
}

} // verus!
