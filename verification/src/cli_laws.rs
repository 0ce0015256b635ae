//! What holds of the command line as a whole.

use crate::cli::{
    config_next, drain_next, interactive_move, line_meaning, message_command, silent,
    single_turn_move, turn_next, CliInputView, CliRequestView, DrainNext, Interactive,
    InteractivePhase, PromptLineView, PumpNext, PumpOutcome, SingleTurnPhase,
};
use crate::command::ClientCommandView;
use crate::event::ServerEventView;
use crate::render::{event_channel, event_text, Channel, EXIT_FAILURE, EXIT_SUCCESS};
use crate::text::{after_prefix, trimmed, trimmed_end, trimmed_start, white_space};
use vstd::prelude::*;
use vstd::utf8::encode_utf8;

verus! {

// ---- Printing ----

/// The tag of an event.
pub open spec fn event_tag(event: ServerEventView) -> Seq<char> {
    match event {
        ServerEventView::SessionConfigured { .. } => "[session-configured]"@,
        ServerEventView::AgentMessageDelta(_) => "[agent-delta]"@,
        ServerEventView::AgentMessageFinal(_) => "[agent-final]"@,
        ServerEventView::AgentReasoningDelta(_) => "[reasoning-delta]"@,
        ServerEventView::AgentReasoningFinal(_) => "[reasoning-final]"@,
        ServerEventView::ExecCommandBegin { .. } => "[exec-begin]"@,
        ServerEventView::ExecCommandEnd { .. } => "[exec-end]"@,
        ServerEventView::ExecOutputChunk { .. } => "[exec-output]"@,
        ServerEventView::PatchApplyBegin { .. } => "[patch-begin]"@,
        ServerEventView::PatchApplyEnd { .. } => "[patch-end]"@,
        ServerEventView::McpToolCallBegin { .. } => "[mcp-begin]"@,
        ServerEventView::McpToolCallEnd { .. } => "[mcp-end]"@,
        ServerEventView::ApprovalRequest { .. } => "[approval-needed]"@,
        ServerEventView::ReasoningSectionBreak => "[reasoning-break]"@,
        ServerEventView::WebSearchBegin { .. } => "[web-search-begin]"@,
        ServerEventView::WebSearchEnd { .. } => "[web-search-end]"@,
        ServerEventView::TokenUsage { .. } => "[token-usage]"@,
        ServerEventView::TurnComplete { .. } => "[turn-complete]"@,
        ServerEventView::TurnAborted { .. } => "[turn-aborted]"@,
        ServerEventView::TurnDiff { .. } => "[turn-diff]"@,
        ServerEventView::PlanUpdate(_) => "[plan-update]"@,
        ServerEventView::BackgroundMessage(_) => "[background]"@,
        ServerEventView::StreamError(_) => "[stream-error]"@,
        ServerEventView::StreamClosed { .. } => "[stream-closed]"@,
        ServerEventView::ShutdownComplete => "[shutdown-complete]"@,
        ServerEventView::SessionEnded => "[session-ended]"@,
        ServerEventView::Fatal { .. } => "[fatal]"@,
    }
}

/// Every event is printed with its tag in front, to standard output unless it is an error.
pub proof fn events_are_printed_with_their_tag(event: ServerEventView)
    ensures
        event_tag(event).is_prefix_of(event_text(event)),
        event_channel(event) == Channel::Stdout <==> !(event is StreamError || event is Fatal),
{
    reveal_strlit("[session-configured] model=");
    reveal_strlit("[session-configured]");
    reveal_strlit("[agent-delta] ");
    reveal_strlit("[agent-delta]");
    reveal_strlit("[agent-final] ");
    reveal_strlit("[agent-final]");
    reveal_strlit("[reasoning-delta] ");
    reveal_strlit("[reasoning-delta]");
    reveal_strlit("[reasoning-final] ");
    reveal_strlit("[reasoning-final]");
    reveal_strlit("[exec-begin] id=");
    reveal_strlit("[exec-begin]");
    reveal_strlit("[exec-end] id=");
    reveal_strlit("[exec-end]");
    reveal_strlit("[exec-output] id=");
    reveal_strlit("[exec-output]");
    reveal_strlit("[patch-begin] id=");
    reveal_strlit("[patch-begin]");
    reveal_strlit("[patch-end] id=");
    reveal_strlit("[patch-end]");
    reveal_strlit("[mcp-begin] id=");
    reveal_strlit("[mcp-begin]");
    reveal_strlit("[mcp-end] id=");
    reveal_strlit("[mcp-end]");
    reveal_strlit("[approval-needed] id=");
    reveal_strlit("[approval-needed]");
    reveal_strlit("[reasoning-break]");
    reveal_strlit("[web-search-begin] id=");
    reveal_strlit("[web-search-begin]");
    reveal_strlit("[web-search-end] id=");
    reveal_strlit("[web-search-end]");
    reveal_strlit("[token-usage] total=");
    reveal_strlit("[token-usage]");
    reveal_strlit("[turn-complete] last_message=");
    reveal_strlit("[turn-complete]");
    reveal_strlit("[turn-aborted] reason=");
    reveal_strlit("[turn-aborted]");
    reveal_strlit("[turn-diff]\n");
    reveal_strlit("[turn-diff]");
    reveal_strlit("[plan-update] explanation=");
    reveal_strlit("[plan-update]");
    reveal_strlit("[background] ");
    reveal_strlit("[background]");
    reveal_strlit("[stream-error] ");
    reveal_strlit("[stream-error]");
    reveal_strlit("[stream-closed] had_completion=");
    reveal_strlit("[stream-closed]");
    reveal_strlit("[shutdown-complete]");
    reveal_strlit("[session-ended]");
    reveal_strlit("[fatal] ");
    reveal_strlit("[fatal]");
    assert(event_tag(event) =~= event_text(event).subrange(0, event_tag(event).len() as int));
}

/// The tag of an event tells what the event is: events of different variants have different tags.
pub proof fn tags_tell_events_apart(a: ServerEventView, b: ServerEventView)
    requires
        event_tag(a) == event_tag(b),
    ensures
        a is SessionConfigured <==> b is SessionConfigured,
        a is AgentMessageDelta <==> b is AgentMessageDelta,
        a is AgentMessageFinal <==> b is AgentMessageFinal,
        a is AgentReasoningDelta <==> b is AgentReasoningDelta,
        a is AgentReasoningFinal <==> b is AgentReasoningFinal,
        a is ExecCommandBegin <==> b is ExecCommandBegin,
        a is ExecCommandEnd <==> b is ExecCommandEnd,
        a is ExecOutputChunk <==> b is ExecOutputChunk,
        a is PatchApplyBegin <==> b is PatchApplyBegin,
        a is PatchApplyEnd <==> b is PatchApplyEnd,
        a is McpToolCallBegin <==> b is McpToolCallBegin,
        a is McpToolCallEnd <==> b is McpToolCallEnd,
        a is ApprovalRequest <==> b is ApprovalRequest,
        a is ReasoningSectionBreak <==> b is ReasoningSectionBreak,
        a is WebSearchBegin <==> b is WebSearchBegin,
        a is WebSearchEnd <==> b is WebSearchEnd,
        a is TokenUsage <==> b is TokenUsage,
        a is TurnComplete <==> b is TurnComplete,
        a is TurnAborted <==> b is TurnAborted,
        a is TurnDiff <==> b is TurnDiff,
        a is PlanUpdate <==> b is PlanUpdate,
        a is BackgroundMessage <==> b is BackgroundMessage,
        a is StreamError <==> b is StreamError,
        a is StreamClosed <==> b is StreamClosed,
        a is ShutdownComplete <==> b is ShutdownComplete,
        a is SessionEnded <==> b is SessionEnded,
        a is Fatal <==> b is Fatal,
{
    reveal_strlit("[session-configured]");
    reveal_strlit("[agent-delta]");
    reveal_strlit("[agent-final]");
    reveal_strlit("[reasoning-delta]");
    reveal_strlit("[reasoning-final]");
    reveal_strlit("[exec-begin]");
    reveal_strlit("[exec-end]");
    reveal_strlit("[exec-output]");
    reveal_strlit("[patch-begin]");
    reveal_strlit("[patch-end]");
    reveal_strlit("[mcp-begin]");
    reveal_strlit("[mcp-end]");
    reveal_strlit("[approval-needed]");
    reveal_strlit("[reasoning-break]");
    reveal_strlit("[web-search-begin]");
    reveal_strlit("[web-search-end]");
    reveal_strlit("[token-usage]");
    reveal_strlit("[turn-complete]");
    reveal_strlit("[turn-aborted]");
    reveal_strlit("[turn-diff]");
    reveal_strlit("[plan-update]");
    reveal_strlit("[background]");
    reveal_strlit("[stream-error]");
    reveal_strlit("[stream-closed]");
    reveal_strlit("[shutdown-complete]");
    reveal_strlit("[session-ended]");
    reveal_strlit("[fatal]");
    let x = event_tag(a);
    let y = event_tag(b);
    assert(x.len() == y.len());
    assert(x[1] == y[1]);
    assert(x[11] == y[11]);
}

// ---- Waiting for events ----

/// What the command line waits for.
pub enum Awaited {
    /// The end of a turn.
    Turn,
    /// The configuration of a resumed session.
    SessionConfig,
}

/// One step of a wait.
pub open spec fn wait_next(
    awaited: Awaited,
    so_far: Option<u8>,
    received: Option<ServerEventView>,
) -> PumpNext {
    match awaited {
        Awaited::Turn => turn_next(so_far, received),
        Awaited::SessionConfig => config_next(so_far, received),
    }
}

/// What comes of a wait during which these events come, after which the receiver is closed.
pub open spec fn wait_run(
    awaited: Awaited,
    so_far: Option<u8>,
    events: Seq<ServerEventView>,
) -> Option<PumpOutcome>
    decreases events.len(),
{
    let received = if events.len() > 0 {
        Some(events.first())
    } else {
        None
    };
    match wait_next(awaited, so_far, received) {
        PumpNext::Finished(outcome) => Some(outcome),
        PumpNext::Continue(code) => if events.len() > 0 {
            wait_run(awaited, code, events.drop_first())
        } else {
            None
        },
    }
}

/// Tells whether an event ends the wait.
pub open spec fn decides(awaited: Awaited, event: ServerEventView) -> bool {
    event is SessionEnded || match awaited {
        Awaited::Turn => event is TurnComplete,
        Awaited::SessionConfig => event is SessionConfigured,
    }
}

/// Tells whether a fatal error is among the first events.
pub open spec fn fatal_among(events: Seq<ServerEventView>, n: int) -> bool {
    exists|i: int| 0 <= i < n && (#[trigger] events[i] is Fatal)
}

proof fn lemma_fatal_among_rest(events: Seq<ServerEventView>, n: int)
    requires
        0 < n <= events.len(),
    ensures
        fatal_among(events, n) == (events.first() is Fatal || fatal_among(
            events.drop_first(),
            n - 1,
        )),
{
    let rest = events.drop_first();
    if fatal_among(events, n) && !(events.first() is Fatal) {
        let i = choose|i: int| 0 <= i < n && (#[trigger] events[i] is Fatal);
        assert(rest[i - 1] is Fatal);
    }
    if fatal_among(rest, n - 1) {
        let i = choose|i: int| 0 <= i < n - 1 && (#[trigger] rest[i] is Fatal);
        assert(events[i + 1] is Fatal);
    }
}

proof fn lemma_wait_run(
    awaited: Awaited,
    so_far: Option<u8>,
    events: Seq<ServerEventView>,
    k: int,
)
    requires
        0 <= k < events.len(),
        decides(awaited, events[k]),
        forall|j: int| 0 <= j < k ==> !decides(awaited, #[trigger] events[j]),
        so_far is None || so_far == Some(EXIT_FAILURE),
    ensures
        wait_run(awaited, so_far, events) == Some(
            PumpOutcome {
                exit_code: if so_far is Some || fatal_among(events, k) {
                    Some(EXIT_FAILURE)
                } else if events[k] is SessionEnded {
                    Some(EXIT_SUCCESS)
                } else {
                    None
                },
                session_ended: events[k] is SessionEnded,
            },
        ),
    decreases k,
{
    if k > 0 {
        let first = events.first();
        let rest = events.drop_first();
        assert(!decides(awaited, events[0]));
        assert(rest[k - 1] == events[k]);
        assert forall|j: int| 0 <= j < k - 1 implies !decides(awaited, #[trigger] rest[j]) by {
            assert(!decides(awaited, events[j + 1]));
        }
        let code = if first is Fatal {
            Some(EXIT_FAILURE)
        } else {
            so_far
        };
        lemma_fatal_among_rest(events, k);
        lemma_wait_run(awaited, code, rest, k - 1);
    } else {
        assert(events.first() == events[0]);
        assert(!fatal_among(events, 0));
    }
}

/// A wait ends with the first event that decides it, and with that one alone. The session is
/// over if and only if that event says so, and the wait calls for failure if and only if a fatal
/// error came before it.
pub proof fn waits_end_at_the_first_deciding_event(
    awaited: Awaited,
    events: Seq<ServerEventView>,
    k: int,
)
    requires
        0 <= k < events.len(),
        decides(awaited, events[k]),
        forall|j: int| 0 <= j < k ==> !decides(awaited, #[trigger] events[j]),
    ensures
        wait_run(awaited, None, events) matches Some(outcome) && {
            &&& outcome.session_ended == (events[k] is SessionEnded)
            &&& outcome.exit_code == Some(EXIT_FAILURE) <==> fatal_among(events, k)
            &&& outcome.exit_code == Some(EXIT_SUCCESS) <==> events[k] is SessionEnded
                && !fatal_among(events, k)
            &&& outcome.exit_code is None <==> !(events[k] is SessionEnded) && !fatal_among(
                events,
                k,
            )
        },
{
    lemma_wait_run(awaited, None, events, k);
}

proof fn lemma_closed_receiver(awaited: Awaited, so_far: Option<u8>, events: Seq<ServerEventView>)
    requires
        forall|j: int| 0 <= j < events.len() ==> !decides(awaited, #[trigger] events[j]),
    ensures
        wait_run(awaited, so_far, events) == Some(
            PumpOutcome { exit_code: Some(EXIT_FAILURE), session_ended: true },
        ),
    decreases events.len(),
{
    if events.len() > 0 {
        let first = events.first();
        let rest = events.drop_first();
        assert(!decides(awaited, events[0]));
        assert forall|j: int| 0 <= j < rest.len() implies !decides(awaited, #[trigger] rest[j]) by {
            assert(!decides(awaited, events[j + 1]));
        }
        let code = if first is Fatal {
            Some(EXIT_FAILURE)
        } else {
            so_far
        };
        lemma_closed_receiver(awaited, code, rest);
    }
}

/// A wait that no event decides fails once the receiver is closed.
pub proof fn closed_receivers_fail_the_wait(awaited: Awaited, events: Seq<ServerEventView>)
    requires
        forall|j: int| 0 <= j < events.len() ==> !decides(awaited, #[trigger] events[j]),
    ensures
        wait_run(awaited, None, events) == Some(
            PumpOutcome { exit_code: Some(EXIT_FAILURE), session_ended: true },
        ),
{
    lemma_closed_receiver(awaited, None, events);
}

/// The exit code of a session that runs out with these events, after which the receiver is
/// closed.
pub open spec fn drain_run(so_far: u8, events: Seq<ServerEventView>) -> u8
    decreases events.len(),
{
    let received = if events.len() > 0 {
        Some(events.first())
    } else {
        None
    };
    match drain_next(so_far, received) {
        DrainNext::Finished(code) => code,
        DrainNext::Continue(code) => if events.len() > 0 {
            drain_run(code, events.drop_first())
        } else {
            code
        },
    }
}

/// Tells whether a fatal error comes before the session ends.
pub open spec fn fatal_before_the_end(events: Seq<ServerEventView>) -> bool {
    exists|i: int|
        0 <= i < events.len() && (#[trigger] events[i] is Fatal) && forall|j: int|
            0 <= j < i ==> !(#[trigger] events[j] is SessionEnded)
}

proof fn lemma_fatal_before_the_end_rest(events: Seq<ServerEventView>)
    requires
        events.len() > 0,
    ensures
        fatal_before_the_end(events) == (events.first() is Fatal || (!(
        events.first() is SessionEnded) && fatal_before_the_end(events.drop_first()))),
{
    let rest = events.drop_first();
    if events.first() is Fatal {
        assert(events[0] is Fatal);
    }
    if fatal_before_the_end(events) && !(events.first() is Fatal) {
        let i = choose|i: int|
            0 <= i < events.len() && (#[trigger] events[i] is Fatal) && forall|j: int|
                0 <= j < i ==> !(#[trigger] events[j] is SessionEnded);
        assert(!(events[0] is SessionEnded));
        assert(rest[i - 1] is Fatal);
        assert forall|j: int| 0 <= j < i - 1 implies !(#[trigger] rest[j] is SessionEnded) by {
            assert(!(events[j + 1] is SessionEnded));
        }
    }
    if fatal_before_the_end(rest) && !(events.first() is SessionEnded) {
        let i = choose|i: int|
            0 <= i < rest.len() && (#[trigger] rest[i] is Fatal) && forall|j: int|
                0 <= j < i ==> !(#[trigger] rest[j] is SessionEnded);
        assert(events[i + 1] is Fatal);
        assert forall|j: int| 0 <= j < i + 1 implies !(#[trigger] events[j] is SessionEnded) by {
            if j > 0 {
                assert(!(rest[j - 1] is SessionEnded));
            }
        }
    }
}

proof fn lemma_drain_run(so_far: u8, events: Seq<ServerEventView>)
    ensures
        drain_run(so_far, events) == (if fatal_before_the_end(events) {
            EXIT_FAILURE
        } else {
            so_far
        }),
    decreases events.len(),
{
    if events.len() > 0 {
        lemma_fatal_before_the_end_rest(events);
        let code = if events.first() is Fatal {
            EXIT_FAILURE
        } else {
            so_far
        };
        lemma_drain_run(code, events.drop_first());
    }
}

/// A session that runs out fails if and only if a fatal error comes before its end.
pub proof fn draining_fails_exactly_on_fatal_errors(events: Seq<ServerEventView>)
    ensures
        drain_run(EXIT_SUCCESS, events) == (if fatal_before_the_end(events) {
            EXIT_FAILURE
        } else {
            EXIT_SUCCESS
        }),
{
    lemma_drain_run(EXIT_SUCCESS, events);
}

// ---- Prompts ----

proof fn lemma_trimmed_start(s: Seq<char>)
    ensures
        trimmed_start(s).len() > 0 ==> !white_space(trimmed_start(s).first()),
    decreases s.len(),
{
    if s.len() > 0 && white_space(s.first()) {
        lemma_trimmed_start(s.drop_first());
    }
}

proof fn lemma_trimmed_end(s: Seq<char>)
    ensures
        trimmed_end(s).len() > 0 ==> !white_space(trimmed_end(s).last()) && trimmed_end(s).first()
            == s.first(),
    decreases s.len(),
{
    if s.len() > 0 && white_space(s.last()) {
        lemma_trimmed_end(s.drop_last());
    }
}

/// Trimming leaves no white space at either end, and trimming once more changes nothing.
pub proof fn trimmed_text_is_trimmed(s: Seq<char>)
    ensures
        trimmed(s).len() > 0 ==> !white_space(trimmed(s).first()) && !white_space(
            trimmed(s).last(),
        ),
        trimmed(trimmed(s)) == trimmed(s),
{
    lemma_trimmed_start(s);
    lemma_trimmed_end(trimmed_start(s));
}

/// White space around a line does not matter.
pub proof fn padding_does_not_matter(line: Seq<char>)
    ensures
        line_meaning(trimmed(line)) == line_meaning(line),
{
    trimmed_text_is_trimmed(line);
}

/// A line that is no command reaches the agent as a message, word for word but for the white
/// space around it.
pub proof fn messages_reach_the_agent(s: Interactive, line: Seq<char>)
    requires
        s.phase is Prompting,
        trimmed(line).len() > 0,
        trimmed(line).first() != ':',
    ensures
        interactive_move(s, CliInputView::Text(line)) == Some(
            (
                Interactive { phase: InteractivePhase::SendingMessage, ..s },
                silent(CliRequestView::Send(message_command(trimmed(line)))),
            ),
        ),
{
    reveal_strlit(":");
    let prompt = trimmed(line);
    if ":"@.is_prefix_of(prompt) {
        assert(":"@[0] == prompt[0]);
        assert(false);
    }
    assert(after_prefix(prompt, ":"@) is None);
}

/// The resume command carries the path that follows it.
pub proof fn resume_commands_carry_the_path(s: Interactive, path: Seq<char>)
    requires
        s.phase is Prompting,
        path.len() > 0,
        trimmed(path) == path,
    ensures
        interactive_move(s, CliInputView::Text(":resume "@ + path)) == Some(
            (
                Interactive { phase: InteractivePhase::SendingResume, ..s },
                silent(
                    CliRequestView::Send(
                        ClientCommandView::Resume { rollout_path: encode_utf8(path) },
                    ),
                ),
            ),
        ),
{
    reveal_strlit(":");
    reveal_strlit("resume");
    reveal_strlit(":resume ");
    let line = ":resume "@ + path;
    let rest = "resume "@ + path;
    let tail = " "@ + path;
    reveal_strlit("resume ");
    reveal_strlit(" ");
    trimmed_text_is_trimmed(path);
    assert(line.last() == path.last());
    assert(trimmed(line) == line);
    assert(":"@ =~= line.subrange(0, 1));
    assert(line.skip(1) =~= rest);
    assert(rest.first() == 'r');
    assert(trimmed_start(rest) == rest);
    assert("resume"@ =~= rest.subrange(0, 6));
    assert(rest.skip(6) =~= tail);
    assert(tail.first() == ' ');
    assert(tail.drop_first() =~= path);
    assert(trimmed_start(tail) == trimmed_start(path));
    assert(line_meaning(line) == PromptLineView::Resume(path));
}

// ---- Single turns ----

/// A single turn sends its prompt, shuts the session down behind it, and exits with the code of
/// the drained session.
pub proof fn single_turns_send_then_shut_down(prompt: Seq<char>, code: u8)
    requires
        trimmed(prompt).len() > 0,
    ensures
        single_turn_move(SingleTurnPhase::Reading, CliInputView::Text(prompt)) == Some(
            (
                SingleTurnPhase::Sending,
                silent(CliRequestView::Send(message_command(trimmed(prompt)))),
            ),
        ),
        single_turn_move(SingleTurnPhase::Sending, CliInputView::Sent(true)) == Some(
            (
                SingleTurnPhase::Draining,
                silent(CliRequestView::ShutDownAndDrain(ClientCommandView::Shutdown)),
            ),
        ),
        single_turn_move(SingleTurnPhase::Draining, CliInputView::Drained(code)) == Some(
            (SingleTurnPhase::Over, silent(CliRequestView::Exit(code))),
        ),
{
}

/// Whatever goes wrong before a session is drained makes a single turn fail, with a complaint.
pub proof fn single_turns_that_break_off_fail(phase: SingleTurnPhase, input: CliInputView)
    requires
        !(phase is Draining),
        single_turn_move(phase, input) matches Some((next, _)) && next is Over,
    ensures
        single_turn_move(phase, input) matches Some((_, step)) && step.request
            == CliRequestView::Abandon(EXIT_FAILURE) && (step.notice matches Some(notice)
            && notice.channel == Channel::Stderr),
{
}

/// A single turn whose prompt was sent exits with failure if and only if a fatal error comes
/// before the session ends.
pub proof fn single_turns_fail_exactly_on_fatal_errors(events: Seq<ServerEventView>)
    ensures
        single_turn_move(
            SingleTurnPhase::Draining,
            CliInputView::Drained(drain_run(EXIT_SUCCESS, events)),
        ) == Some(
            (
                SingleTurnPhase::Over,
                silent(
                    CliRequestView::Exit(
                        if fatal_before_the_end(events) {
                            EXIT_FAILURE
                        } else {
                            EXIT_SUCCESS
                        },
                    ),
                ),
            ),
        ),
{
    draining_fails_exactly_on_fatal_errors(events);
}

// ---- Interactive runs ----

/// Tells whether an input answers what an interactive run asked for last.
pub open spec fn answers(phase: InteractivePhase, input: CliInputView) -> bool {
    match phase {
        InteractivePhase::Prompting => input is Text || input is EndOfInput,
        InteractivePhase::SendingResume => input is Sent,
        InteractivePhase::AwaitingConfig => input is Waited,
        InteractivePhase::SendingMessage => input is Sent,
        InteractivePhase::AwaitingTurn => input is Waited,
        InteractivePhase::Draining => input is Drained,
        InteractivePhase::Over => false,
    }
}

/// The phase in which a request is answered.
pub open spec fn asks(request: CliRequestView, phase: InteractivePhase) -> bool {
    match request {
        CliRequestView::ReadLine => phase is Prompting,
        CliRequestView::Send(command) => if command is Resume {
            phase is SendingResume
        } else {
            phase is SendingMessage
        },
        CliRequestView::AwaitSessionConfig => phase is AwaitingConfig,
        CliRequestView::AwaitTurn => phase is AwaitingTurn,
        CliRequestView::ShutDownAndDrain(_) => phase is Draining,
        CliRequestView::Exit(_) => phase is Over,
        CliRequestView::ReadAll | CliRequestView::Abandon(_) => false,
    }
}

/// An interactive run takes exactly the answers to its last request, and waits for the answer to
/// its next one.
pub proof fn interactive_runs_take_exactly_the_answers(s: Interactive, input: CliInputView)
    ensures
        interactive_move(s, input) is Some <==> answers(s.phase, input),
        interactive_move(s, input) matches Some((next, step)) ==> asks(step.request, next.phase),
{
}

/// An interactive run exits with the exit code that it kept.
pub proof fn interactive_runs_exit_with_their_code(s: Interactive, input: CliInputView)
    ensures
        interactive_move(s, input) matches Some((next, step)) ==> (next.phase is Over
            <==> step.request == CliRequestView::Exit(next.exit_code)),
{
}

/// An interactive run shuts the session down only when its user leaves.
pub proof fn interactive_runs_shut_down_only_on_leaving(s: Interactive, input: CliInputView)
    ensures
        interactive_move(s, input) matches Some((_, step)) ==> (step.request
            is ShutDownAndDrain <==> s.phase is Prompting && (input is EndOfInput || (
        input matches CliInputView::Text(line) && line_meaning(line) is Quit))),
        interactive_move(s, input) matches Some((_, step)) ==> (
        step.request matches CliRequestView::ShutDownAndDrain(command) ==> command is Shutdown),
        interactive_move(s, input) matches Some((_, step)) ==> step.request != CliRequestView::Send(
            ClientCommandView::Shutdown,
        ),
{
}

/// The run after these inputs, if each of them answers what was asked.
pub open spec fn interactive_run(s: Interactive, inputs: Seq<CliInputView>) -> Option<Interactive>
    decreases inputs.len(),
{
    if inputs.len() == 0 {
        Some(s)
    } else {
        match interactive_move(s, inputs.first()) {
            Some((next, _)) => interactive_run(next, inputs.drop_first()),
            None => None,
        }
    }
}

/// Tells whether an input calls for failure.
pub open spec fn calls_for_failure(input: CliInputView) -> bool {
    match input {
        CliInputView::Waited(outcome) => outcome.exit_code matches Some(code) && code
            != EXIT_SUCCESS,
        CliInputView::Drained(code) => code != EXIT_SUCCESS,
        CliInputView::Sent(taken) => !taken,
        _ => false,
    }
}

/// A wait during which a fatal error comes calls for failure, and so does draining a session in
/// which one comes before the end.
pub proof fn fatal_errors_call_for_failure(
    awaited: Awaited,
    events: Seq<ServerEventView>,
    k: int,
)
    requires
        0 <= k < events.len(),
        decides(awaited, events[k]),
        forall|j: int| 0 <= j < k ==> !decides(awaited, #[trigger] events[j]),
    ensures
        fatal_among(events, k) ==> wait_run(awaited, None, events) is Some && calls_for_failure(
            CliInputView::Waited(wait_run(awaited, None, events)->0),
        ),
        fatal_before_the_end(events) ==> calls_for_failure(
            CliInputView::Drained(drain_run(EXIT_SUCCESS, events)),
        ),
{
    waits_end_at_the_first_deciding_event(awaited, events, k);
    draining_fails_exactly_on_fatal_errors(events);
}

proof fn lemma_failures_stay(s: Interactive, inputs: Seq<CliInputView>)
    requires
        s.exit_code != EXIT_SUCCESS,
        interactive_run(s, inputs) is Some,
    ensures
        interactive_run(s, inputs)->0.exit_code != EXIT_SUCCESS,
    decreases inputs.len(),
{
    if inputs.len() > 0 {
        let (next, _) = interactive_move(s, inputs.first())->0;
        lemma_failures_stay(next, inputs.drop_first());
    }
}

/// An interactive run fails once something called for failure, whatever comes after it.
pub proof fn interactive_failures_are_remembered(
    s: Interactive,
    inputs: Seq<CliInputView>,
    i: int,
)
    requires
        interactive_run(s, inputs) is Some,
        0 <= i < inputs.len(),
        calls_for_failure(inputs[i]),
    ensures
        interactive_run(s, inputs)->0.exit_code != EXIT_SUCCESS,
    decreases inputs.len(),
{
    let rest = inputs.drop_first();
    let (next, _) = interactive_move(s, inputs.first())->0;
    if i == 0 {
        assert(calls_for_failure(inputs.first()));
        lemma_failures_stay(next, rest);
    } else {
        assert(rest[i - 1] == inputs[i]);
        interactive_failures_are_remembered(next, rest, i - 1);
    }
}

/// An interactive run in which nothing calls for failure succeeds.
pub proof fn interactive_runs_succeed_otherwise(s: Interactive, inputs: Seq<CliInputView>)
    requires
        s.exit_code == EXIT_SUCCESS,
        interactive_run(s, inputs) is Some,
        forall|j: int| 0 <= j < inputs.len() ==> !calls_for_failure(#[trigger] inputs[j]),
    ensures
        interactive_run(s, inputs)->0.exit_code == EXIT_SUCCESS,
    decreases inputs.len(),
{
    if inputs.len() > 0 {
        let rest = inputs.drop_first();
        let (next, _) = interactive_move(s, inputs.first())->0;
        assert(!calls_for_failure(inputs[0]));
        assert forall|j: int| 0 <= j < rest.len() implies !calls_for_failure(
            #[trigger] rest[j],
        ) by {
            assert(!calls_for_failure(inputs[j + 1]));
        }
        interactive_runs_succeed_otherwise(next, rest);
    }
}

} // verus!
