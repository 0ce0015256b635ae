//! What holds of the driver as a whole.

use crate::agent::{
    agent_move, command_op, configured, ended, fatal, AgentEffectView, AgentInputView,
    AgentPhaseView, AgentRequestView, JoinOutcomeView,
};
use crate::command::{ApprovalKind, ClientCommandView};
use crate::event::{ApprovalRequestView, ServerEventView};
use crate::protocol::{
    EventMsgView, OpView, ReviewDecision, SessionConfiguredEventView, UpdatePlanArgsView,
};
use crate::stream::{stream_end, stream_events, AgentEventView};
use crate::translate::{plan_status, plan_update, translated};
use vstd::prelude::*;

verus! {

// ---- Translation ----

/// Tells whether a message asks for approval.
pub open spec fn asks_approval(msg: EventMsgView) -> bool {
    msg is ExecApprovalRequest || msg is ApplyPatchApprovalRequest
}

/// A message gives rise to one event or to none.
pub proof fn message_gives_at_most_one_event(msg: EventMsgView, id: Option<Seq<char>>)
    ensures
        translated(msg, id).len() <= 1,
{
}

/// Only approval requests depend on the submission that a message belongs to; without it they
/// are not surfaced, and with it they carry it.
pub proof fn only_approvals_depend_on_the_submission(
    msg: EventMsgView,
    id: Seq<char>,
    other: Option<Seq<char>>,
)
    ensures
        !asks_approval(msg) ==> translated(msg, Some(id)) == translated(msg, other),
        asks_approval(msg) ==> translated(msg, None) == Seq::<ServerEventView>::empty(),
        asks_approval(msg) ==> translated(msg, Some(id)).len() == 1 && (translated(
            msg,
            Some(id),
        )[0] matches ServerEventView::ApprovalRequest { id: carried, .. } && carried == id),
{
}

/// No message of the agent ends the session, and only an error of the agent is reported as fatal.
pub proof fn messages_do_not_end_the_session(msg: EventMsgView, id: Option<Seq<char>>)
    ensures
        !translated(msg, id).contains(ServerEventView::SessionEnded),
        forall|i: int|
            0 <= i < translated(msg, id).len() && (#[trigger] translated(msg, id)[i] is Fatal)
                ==> msg is Error,
{
}

/// The kind of approval that a request asks for.
pub open spec fn request_kind(request: ApprovalRequestView) -> ApprovalKind {
    match request {
        ApprovalRequestView::Exec { .. } => ApprovalKind::Exec,
        ApprovalRequestView::Patch { .. } => ApprovalKind::Patch,
    }
}

/// An answer that echoes the identifier of a request reaches the agent as the answer to that
/// very submission, through the operation of the subsystem that asked.
pub proof fn approval_answers_reach_their_request(
    msg: EventMsgView,
    id: Seq<char>,
    decision: ReviewDecision,
)
    requires
        asks_approval(msg),
    ensures
        translated(msg, Some(id)).len() == 1,
        translated(msg, Some(id))[0] matches ServerEventView::ApprovalRequest {
            id: echoed,
            request,
        } && command_op(
            ClientCommandView::RespondApproval {
                id: echoed,
                kind: request_kind(request),
                decision,
            },
        ) == Some(
            if msg is ExecApprovalRequest {
                OpView::ExecApproval { id, decision }
            } else {
                OpView::PatchApproval { id, decision }
            },
        ),
{
}

/// A plan keeps its steps, their order and their status.
pub proof fn plans_keep_their_steps(args: UpdatePlanArgsView, i: int)
    requires
        0 <= i < args.plan.len(),
    ensures
        plan_update(args).steps.len() == args.plan.len(),
        plan_update(args).steps[i].step == args.plan[i].step,
        plan_update(args).steps[i].status == plan_status(args.plan[i].status),
{
}

// ---- Event stream ----

/// What the events of a conversation become for the client, one after the other.
pub open spec fn translations(events: Seq<AgentEventView>) -> Seq<ServerEventView>
    decreases events.len(),
{
    if events.len() == 0 {
        Seq::empty()
    } else {
        translated(events.first().msg, Some(events.first().id)) + translations(events.drop_first())
    }
}

/// What an event stream sends for what its conversation yields, up to the first error.
/// `shutting_down` is the state of the shutdown flag when that error comes.
pub open spec fn stream_run(
    yields: Seq<Result<AgentEventView, Seq<char>>>,
    shutting_down: bool,
) -> Seq<ServerEventView>
    decreases yields.len(),
{
    if yields.len() == 0 {
        Seq::empty()
    } else if yields.first() is Err {
        stream_events(yields.first(), shutting_down)
    } else {
        stream_events(yields.first(), shutting_down) + stream_run(
            yields.drop_first(),
            shutting_down,
        )
    }
}

/// A stream sends the translations of the agent's events in the order in which they came, then
/// the error that ended it unless the session was closing, and last the end of the session.
pub proof fn streams_keep_order(
    events: Seq<AgentEventView>,
    message: Seq<char>,
    shutting_down: bool,
)
    ensures
        stream_run(
            events.map_values(|e: AgentEventView| Ok::<AgentEventView, Seq<char>>(e)).push(
                Err(message),
            ),
            shutting_down,
        ) == translations(events) + stream_end(message, shutting_down),
    decreases events.len(),
{
    let ok = |e: AgentEventView| Ok::<AgentEventView, Seq<char>>(e);
    let yields = events.map_values(ok).push(Err(message));
    if events.len() == 0 {
        assert(yields.first() == Err::<AgentEventView, Seq<char>>(message));
        assert(translations(events) + stream_end(message, shutting_down) =~= stream_end(
            message,
            shutting_down,
        ));
    } else {
        let rest = events.drop_first();
        streams_keep_order(rest, message, shutting_down);
        assert(yields.first() == Ok::<AgentEventView, Seq<char>>(events.first()));
        assert(yields.drop_first() =~= rest.map_values(ok).push(Err(message)));
        assert(stream_run(yields, shutting_down) =~= translations(events) + stream_end(
            message,
            shutting_down,
        ));
    }
}

/// The translations of a conversation's events never hold the end of the session.
proof fn lemma_translations_do_not_end(events: Seq<AgentEventView>)
    ensures
        !translations(events).contains(ServerEventView::SessionEnded),
    decreases events.len(),
{
    if events.len() > 0 {
        let head = translated(events.first().msg, Some(events.first().id));
        let rest = translations(events.drop_first());
        messages_do_not_end_the_session(events.first().msg, Some(events.first().id));
        lemma_translations_do_not_end(events.drop_first());
        assert forall|i: int| 0 <= i < (head + rest).len() implies (head + rest)[i]
            != ServerEventView::SessionEnded by {
            if i < head.len() {
                assert(head.contains(head[i]));
            } else {
                assert(rest.contains(rest[i - head.len()]));
            }
        }
    }
}

/// A stream that comes to its end announces the end of the session once, and nothing after it.
pub proof fn finished_streams_announce_the_end_once(
    events: Seq<AgentEventView>,
    message: Seq<char>,
    shutting_down: bool,
)
    ensures
        ({
            let sent = translations(events) + stream_end(message, shutting_down);
            &&& sent.last() == ServerEventView::SessionEnded
            &&& forall|i: int|
                0 <= i < sent.len() - 1 ==> #[trigger] sent[i] != ServerEventView::SessionEnded
        }),
{
    let front = translations(events);
    let back = stream_end(message, shutting_down);
    let sent = front + back;
    lemma_translations_do_not_end(events);
    assert forall|i: int| 0 <= i < sent.len() - 1 implies #[trigger] sent[i]
        != ServerEventView::SessionEnded by {
        if i < front.len() {
            assert(front.contains(front[i]));
        } else {
            assert(sent[i] == back[i - front.len()]);
        }
    }
}

/// An error that ends a conversation in service is reported as fatal and followed by the end of
/// the session; one that comes while the session is closing is expected and not reported.
pub proof fn stream_errors_are_fatal_in_service(message: Seq<char>)
    ensures
        stream_events(Err(message), false) == seq![
            ServerEventView::Fatal { message },
            ServerEventView::SessionEnded,
        ],
        stream_events(Err(message), true) == seq![ServerEventView::SessionEnded],
{
    assert(stream_end(message, false) =~= seq![
        ServerEventView::Fatal { message },
        ServerEventView::SessionEnded,
    ]);
    assert(stream_end(message, true) =~= seq![ServerEventView::SessionEnded]);
}

// ---- Agent loop ----

/// Tells whether the loop is on its way out, or out.
pub open spec fn closing(phase: AgentPhaseView) -> bool {
    phase is Closing || phase is Draining || phase is Stopped
}

/// How many replies the loop still waits for once it is on its way out.
pub open spec fn replies_left(phase: AgentPhaseView) -> nat {
    match phase {
        AgentPhaseView::Closing { .. } => 2,
        AgentPhaseView::Draining => 1,
        _ => 0,
    }
}

/// Tells whether `input` answers `request`.
pub open spec fn answers(request: AgentRequestView, input: AgentInputView) -> bool {
    match request {
        AgentRequestView::NextCommand => input is Command || input is CommandsClosed,
        AgentRequestView::Submit(_) => input is Submitted || input is SubmitFailed,
        AgentRequestView::Resume(_) => input is Resumed || input is ResumeFailed,
        AgentRequestView::JoinStream => input is StreamJoined,
        AgentRequestView::Stop => false,
    }
}

/// The loop takes every answer to what it asked for last, and nothing else: it neither gets
/// stuck nor listens to what it did not ask for.
pub proof fn loop_takes_exactly_the_answers(
    phase: AgentPhaseView,
    input: AgentInputView,
    next: AgentInputView,
)
    ensures
        agent_move(AgentPhaseView::Bootstrapping, next) is Some <==> (next is Bootstrapped
            || next is BootstrapFailed),
        agent_move(phase, input) matches Some(m) ==> (agent_move(m.phase, next) is Some
            <==> answers(m.request, next)),
{
}

/// Once the loop is on its way out it stays so, takes no further command, and stops after at
/// most two replies.
pub proof fn closing_is_final(phase: AgentPhaseView, input: AgentInputView)
    requires
        closing(phase),
    ensures
        agent_move(phase, input) matches Some(m) ==> closing(m.phase) && replies_left(m.phase)
            < replies_left(phase) && !(m.request is NextCommand) && !(m.request is Resume) && !(
        m.request is Submit),
{
}

/// The loop never sets out to close without raising the shutdown flag in that same step.
pub proof fn leaving_service_raises_the_flag(phase: AgentPhaseView, input: AgentInputView)
    requires
        !closing(phase),
    ensures
        agent_move(phase, input) matches Some(m) ==> (closing(m.phase) ==> m.effects.contains(
            AgentEffectView::RaiseShutdown,
        )),
{
    if let Some(m) = agent_move(phase, input) {
        if closing(m.phase) {
            assert(m.effects.last() == AgentEffectView::RaiseShutdown);
            assert(m.effects[m.effects.len() - 1] == AgentEffectView::RaiseShutdown);
        }
    }
}

/// Where the loop stops, the end of the session is announced: by the loop itself, or by the
/// event stream that ran out before it.
pub proof fn stopping_is_announced(phase: AgentPhaseView, input: AgentInputView)
    ensures
        agent_move(phase, input) matches Some(m) ==> (m.phase is Stopped ==> (m.effects.contains(
            ended(),
        ) || input == AgentInputView::StreamJoined(JoinOutcomeView::Finished))),
{
    if let Some(m) = agent_move(phase, input) {
        if m.phase is Stopped && input != AgentInputView::StreamJoined(JoinOutcomeView::Finished) {
            if input == AgentInputView::StreamJoined(JoinOutcomeView::Cancelled) {
                assert(m.effects[0] == ended());
            } else {
                assert(m.effects[1] == ended());
            }
        }
    }
}

/// A failed start is reported as fatal and followed by the end of the session; nothing is
/// submitted, and the loop is over.
pub proof fn failed_start_is_fatal_and_ends(message: Seq<char>)
    ensures
        agent_move(
            AgentPhaseView::Bootstrapping,
            AgentInputView::BootstrapFailed(message),
        ) matches Some(m) && m.phase is Stopped && m.request is Stop && m.effects[0] == fatal(
            message,
        ) && m.effects[1] == ended(),
{
}

/// Where the agent refuses an operation, the refusal is reported as fatal and the loop closes,
/// trying to shut the agent down on its way out.
pub proof fn refused_operations_close_the_session(message: Seq<char>)
    ensures
        agent_move(
            AgentPhaseView::Submitting,
            AgentInputView::SubmitFailed(message),
        ) matches Some(m) && closing(m.phase) && m.effects[0] == fatal(message) && m.request
            == AgentRequestView::Submit(OpView::Shutdown),
{
}

/// A failed resume is reported as fatal and ends the session: nothing is announced as
/// configured, the agent is told to shut down, whether or not it takes that well, and the loop
/// stops once the event stream has run out and with it announced the end.
pub proof fn failed_resume_ends_the_session(
    path: Seq<u8>,
    message: Seq<char>,
    reply: AgentInputView,
)
    requires
        reply is Submitted || reply is SubmitFailed,
    ensures
        run(
            AgentPhaseView::Idle,
            seq![
                AgentInputView::Command(ClientCommandView::Resume { rollout_path: path }),
                AgentInputView::ResumeFailed(message),
                reply,
                AgentInputView::StreamJoined(JoinOutcomeView::Finished),
            ],
        ) == Some(
            Run {
                phase: AgentPhaseView::Stopped,
                effects: seq![fatal(message), AgentEffectView::RaiseShutdown],
                requests: seq![
                    AgentRequestView::Resume(path),
                    AgentRequestView::Submit(OpView::Shutdown),
                    AgentRequestView::JoinStream,
                    AgentRequestView::Stop,
                ],
            },
        ),
{
    let resume = AgentInputView::Command(ClientCommandView::Resume { rollout_path: path });
    let failed = AgentInputView::ResumeFailed(message);
    let out = AgentInputView::StreamJoined(JoinOutcomeView::Finished);
    let inputs = seq![resume, failed, reply, out];
    reveal_with_fuel(run, 5);
    assert(inputs.drop_first() =~= seq![failed, reply, out]);
    assert(seq![failed, reply, out].drop_first() =~= seq![reply, out]);
    assert(seq![reply, out].drop_first() =~= seq![out]);
    assert(seq![out].drop_first() =~= Seq::<AgentInputView>::empty());
    let r = run(AgentPhaseView::Idle, inputs)->0;
    assert(r.effects =~= seq![fatal(message), AgentEffectView::RaiseShutdown]);
    assert(r.requests =~= seq![
        AgentRequestView::Resume(path),
        AgentRequestView::Submit(OpView::Shutdown),
        AgentRequestView::JoinStream,
        AgentRequestView::Stop,
    ]);
}

/// A resume replaces the conversation: the old event stream is stopped first, and only then is
/// the resumed conversation made the current one, announced, and listened to.
pub proof fn resume_replaces_the_conversation(
    path: Seq<u8>,
    ev: SessionConfiguredEventView,
    outcome: JoinOutcomeView,
)
    requires
        !(outcome is Failed),
    ensures
        ({
            let resume = AgentInputView::Command(
                ClientCommandView::Resume { rollout_path: path },
            );
            let joined = AgentInputView::StreamJoined(outcome);
            run(AgentPhaseView::Idle, seq![resume, AgentInputView::Resumed(ev), joined]) == Some(
                Run {
                    phase: AgentPhaseView::Idle,
                    effects: seq![AgentEffectView::AbortStream, AgentEffectView::AdoptConversation]
                        + configured(ev) + seq![AgentEffectView::SpawnStream],
                    requests: seq![
                        AgentRequestView::Resume(path),
                        AgentRequestView::JoinStream,
                        AgentRequestView::NextCommand,
                    ],
                },
            )
        }),
{
    let resume = AgentInputView::Command(ClientCommandView::Resume { rollout_path: path });
    let resumed = AgentInputView::Resumed(ev);
    let joined = AgentInputView::StreamJoined(outcome);
    let inputs = seq![resume, resumed, joined];
    reveal_with_fuel(run, 4);
    assert(inputs.drop_first() =~= seq![resumed, joined]);
    assert(seq![resumed, joined].drop_first() =~= seq![joined]);
    assert(seq![joined].drop_first() =~= Seq::<AgentInputView>::empty());
    let r = run(AgentPhaseView::Idle, inputs)->0;
    assert(r.effects =~= seq![AgentEffectView::AbortStream, AgentEffectView::AdoptConversation]
        + configured(ev) + seq![AgentEffectView::SpawnStream]);
    assert(r.requests =~= seq![
        AgentRequestView::Resume(path),
        AgentRequestView::JoinStream,
        AgentRequestView::NextCommand,
    ]);
}

/// The phase a run of the loop leads to, with all its effects and requests in order.
pub struct Run {
    pub phase: AgentPhaseView,
    pub effects: Seq<AgentEffectView>,
    pub requests: Seq<AgentRequestView>,
}

/// The loop's run over a sequence of inputs, where it takes them all.
pub open spec fn run(phase: AgentPhaseView, inputs: Seq<AgentInputView>) -> Option<Run>
    decreases inputs.len(),
{
    if inputs.len() == 0 {
        Some(Run { phase, effects: Seq::empty(), requests: Seq::empty() })
    } else {
        match agent_move(phase, inputs.first()) {
            None => None,
            Some(m) => match run(m.phase, inputs.drop_first()) {
                None => None,
                Some(r) => Some(
                    Run {
                        phase: r.phase,
                        effects: m.effects + r.effects,
                        requests: seq![m.request] + r.requests,
                    },
                ),
            },
        }
    }
}

proof fn lemma_stops_announced(phase: AgentPhaseView, inputs: Seq<AgentInputView>)
    requires
        !(phase is Stopped),
        run(phase, inputs) matches Some(r) && r.phase is Stopped,
    ensures
        run(phase, inputs)->0.effects.contains(ended()) || inputs.last()
            == AgentInputView::StreamJoined(JoinOutcomeView::Finished),
    decreases inputs.len(),
{
    let first = inputs.first();
    let rest = inputs.drop_first();
    let m = agent_move(phase, first)->0;
    let all = run(phase, inputs)->0.effects;
    let later = run(m.phase, rest)->0.effects;
    assert(all =~= m.effects + later);
    if m.phase is Stopped {
        assert(rest.len() == 0) by {
            if rest.len() > 0 {
                assert(agent_move(m.phase, rest.first()) is None);
            }
        }
        stopping_is_announced(phase, first);
        if m.effects.contains(ended()) {
            let i = choose|i: int| 0 <= i < m.effects.len() && m.effects[i] == ended();
            assert(all[i] == ended());
        }
    } else {
        lemma_stops_announced(m.phase, rest);
        if later.contains(ended()) {
            let i = choose|i: int| 0 <= i < later.len() && later[i] == ended();
            assert(all[m.effects.len() + i] == ended());
        } else {
            assert(inputs.last() == rest.last());
        }
    }
}

/// However a session goes, it does not stop unannounced: over its whole run the loop itself sent
/// the end of the session, or the last thing it heard was that the event stream had run out,
/// which sends it.
pub proof fn sessions_never_stop_unannounced(inputs: Seq<AgentInputView>)
    requires
        run(AgentPhaseView::Bootstrapping, inputs) matches Some(r) && r.phase is Stopped,
    ensures
        run(AgentPhaseView::Bootstrapping, inputs)->0.effects.contains(ended()) || inputs.last()
            == AgentInputView::StreamJoined(JoinOutcomeView::Finished),
{
    lemma_stops_announced(AgentPhaseView::Bootstrapping, inputs);
}

/// A run over two sequences of inputs is the run over the first and then over the second.
proof fn lemma_run_append(
    phase: AgentPhaseView,
    first: Seq<AgentInputView>,
    second: Seq<AgentInputView>,
)
    requires
        run(phase, first) is Some,
        run(run(phase, first)->0.phase, second) is Some,
    ensures
        run(phase, first + second) is Some,
        run(phase, first + second)->0.phase == run(run(phase, first)->0.phase, second)->0.phase,
        run(phase, first + second)->0.effects == run(phase, first)->0.effects + run(
            run(phase, first)->0.phase,
            second,
        )->0.effects,
        run(phase, first + second)->0.requests == run(phase, first)->0.requests + run(
            run(phase, first)->0.phase,
            second,
        )->0.requests,
    decreases first.len(),
{
    let both = first + second;
    if first.len() == 0 {
        assert(both =~= second);
        let r = run(phase, both)->0;
        assert(r.effects =~= run(phase, first)->0.effects + r.effects);
        assert(r.requests =~= run(phase, first)->0.requests + r.requests);
    } else {
        let m = agent_move(phase, first.first())->0;
        lemma_run_append(m.phase, first.drop_first(), second);
        assert(both.first() == first.first());
        assert(both.drop_first() =~= first.drop_first() + second);
        let tail = run(m.phase, first.drop_first())->0;
        let end = run(tail.phase, second)->0;
        assert(m.effects + (tail.effects + end.effects) =~= (m.effects + tail.effects)
            + end.effects);
        assert(seq![m.request] + (tail.requests + end.requests) =~= (seq![m.request]
            + tail.requests) + end.requests);
    }
}

/// The operations among the requests, in order.
pub open spec fn submissions(requests: Seq<AgentRequestView>) -> Seq<OpView>
    decreases requests.len(),
{
    if requests.len() == 0 {
        Seq::empty()
    } else {
        match requests.first() {
            AgentRequestView::Submit(op) => seq![op] + submissions(requests.drop_first()),
            _ => submissions(requests.drop_first()),
        }
    }
}

/// A client that goes away shuts its session down: the agent is told, whether or not it takes
/// that well, the loop waits for the event stream to run out, and it says nothing itself.
pub proof fn departed_clients_shut_the_session_down(phase: AgentPhaseView, reply: AgentInputView)
    requires
        phase is Idle,
        reply is Submitted || reply is SubmitFailed,
    ensures
        run(
            phase,
            seq![
                AgentInputView::CommandsClosed,
                reply,
                AgentInputView::StreamJoined(JoinOutcomeView::Finished),
            ],
        ) == Some(
            Run {
                phase: AgentPhaseView::Stopped,
                effects: seq![AgentEffectView::RaiseShutdown],
                requests: seq![
                    AgentRequestView::Submit(OpView::Shutdown),
                    AgentRequestView::JoinStream,
                    AgentRequestView::Stop,
                ],
            },
        ),
{
    let out = AgentInputView::StreamJoined(JoinOutcomeView::Finished);
    let inputs = seq![AgentInputView::CommandsClosed, reply, out];
    reveal_with_fuel(run, 4);
    assert(inputs.drop_first() =~= seq![reply, out]);
    assert(seq![reply, out].drop_first() =~= seq![out]);
    assert(seq![out].drop_first() =~= Seq::<AgentInputView>::empty());
    let r = run(phase, inputs)->0;
    assert(r.effects =~= seq![AgentEffectView::RaiseShutdown]);
    assert(r.requests =~= seq![
        AgentRequestView::Submit(OpView::Shutdown),
        AgentRequestView::JoinStream,
        AgentRequestView::Stop,
    ]);
}

/// The operations of a sequence of commands, in order.
pub open spec fn operations(commands: Seq<ClientCommandView>) -> Seq<OpView>
    decreases commands.len(),
{
    if commands.len() == 0 {
        Seq::empty()
    } else {
        match command_op(commands.first()) {
            Some(op) => seq![op] + operations(commands.drop_first()),
            None => operations(commands.drop_first()),
        }
    }
}

/// What the loop hears while it serves commands and the agent takes every operation.
pub open spec fn served(commands: Seq<ClientCommandView>) -> Seq<AgentInputView>
    decreases commands.len(),
{
    if commands.len() == 0 {
        Seq::empty()
    } else {
        let head = match command_op(commands.first()) {
            Some(_) => seq![AgentInputView::Command(commands.first()), AgentInputView::Submitted],
            None => seq![AgentInputView::Command(commands.first())],
        };
        head + served(commands.drop_first())
    }
}

/// Commands that only put operations to the agent.
pub open spec fn plain(commands: Seq<ClientCommandView>) -> bool {
    forall|i: int|
        0 <= i < commands.len() ==> !(#[trigger] commands[i] is Shutdown) && !(
        commands[i] is Resume)
}

/// The operations of one list of requests followed by another.
proof fn lemma_submissions_append(a: Seq<AgentRequestView>, b: Seq<AgentRequestView>)
    ensures
        submissions(a + b) == submissions(a) + submissions(b),
    decreases a.len(),
{
    if a.len() == 0 {
        assert(a + b =~= b);
        assert(submissions(a) + submissions(b) =~= submissions(b));
    } else {
        lemma_submissions_append(a.drop_first(), b);
        assert((a + b).first() == a.first());
        assert((a + b).drop_first() =~= a.drop_first() + b);
        assert(submissions(a + b) =~= submissions(a) + submissions(b));
    }
}

/// While the agent takes what it is given, commands reach it as operations in the order in which
/// they were sent, nothing is told to the client on their account, and the loop stays in service.
pub proof fn commands_are_submitted_in_order(commands: Seq<ClientCommandView>)
    requires
        plain(commands),
    ensures
        run(AgentPhaseView::Idle, served(commands)) matches Some(r) && r.phase is Idle
            && r.effects.len() == 0 && submissions(r.requests) == operations(commands),
    decreases commands.len(),
{
    let idle = AgentPhaseView::Idle;
    if commands.len() > 0 {
        let c = commands.first();
        assert(c == commands[0]);
        let rest = commands.drop_first();
        assert(plain(rest)) by {
            assert forall|i: int| 0 <= i < rest.len() implies !(#[trigger] rest[i] is Shutdown)
                && !(rest[i] is Resume) by {
                assert(rest[i] == commands[i + 1]);
            }
        }
        commands_are_submitted_in_order(rest);
        let command = AgentInputView::Command(c);
        let submitted = AgentInputView::Submitted;
        let head = match command_op(c) {
            Some(_) => seq![command, submitted],
            None => seq![command],
        };
        reveal_with_fuel(run, 3);
        reveal_with_fuel(submissions, 3);
        assert(seq![command, submitted].drop_first() =~= seq![submitted]);
        assert(seq![submitted].drop_first() =~= Seq::<AgentInputView>::empty());
        assert(seq![command].drop_first() =~= Seq::<AgentInputView>::empty());
        let h = run(idle, head)->0;
        assert(h.phase is Idle);
        assert(h.effects =~= Seq::<AgentEffectView>::empty());
        match command_op(c) {
            Some(op) => {
                assert(h.requests =~= seq![
                    AgentRequestView::Submit(op),
                    AgentRequestView::NextCommand,
                ]);
                assert(h.requests.drop_first() =~= seq![AgentRequestView::NextCommand]);
                assert(h.requests.drop_first().drop_first() =~= Seq::<AgentRequestView>::empty());
                assert(submissions(h.requests) =~= seq![op]);
            },
            None => {
                assert(h.requests =~= seq![AgentRequestView::NextCommand]);
                assert(h.requests.drop_first() =~= Seq::<AgentRequestView>::empty());
                assert(submissions(h.requests) =~= Seq::<OpView>::empty());
            },
        }
        lemma_run_append(idle, head, served(rest));
        let t = run(idle, served(rest))->0;
        lemma_submissions_append(h.requests, t.requests);
        assert(submissions(h.requests) + submissions(t.requests) =~= operations(commands));
    }
}

/// A whole session in which all goes well: the client first hears that the session is
/// configured, its commands reach the agent in order, its shutdown reaches the agent last, and
/// the loop stops without a word of its own once the event stream has run out.
pub proof fn sessions_run_from_start_to_shutdown(
    ev: SessionConfiguredEventView,
    commands: Seq<ClientCommandView>,
)
    requires
        plain(commands),
    ensures
        ({
            let inputs = seq![AgentInputView::Bootstrapped(ev)] + served(commands) + seq![
                AgentInputView::Command(ClientCommandView::Shutdown),
                AgentInputView::Submitted,
                AgentInputView::StreamJoined(JoinOutcomeView::Finished),
            ];
            run(AgentPhaseView::Bootstrapping, inputs) matches Some(r) && r.phase is Stopped
                && r.effects == configured(ev) + seq![
                AgentEffectView::SpawnStream,
                AgentEffectView::RaiseShutdown,
            ] && submissions(r.requests) == operations(commands).push(OpView::Shutdown)
        }),
{
    let up = AgentInputView::Bootstrapped(ev);
    let down = AgentInputView::Command(ClientCommandView::Shutdown);
    let took = AgentInputView::Submitted;
    let out = AgentInputView::StreamJoined(JoinOutcomeView::Finished);
    let start = AgentPhaseView::Bootstrapping;
    let idle = AgentPhaseView::Idle;
    reveal_with_fuel(run, 4);
    reveal_with_fuel(submissions, 4);
    assert(seq![up].drop_first() =~= Seq::<AgentInputView>::empty());
    let a = run(start, seq![up])->0;
    assert(a.effects =~= configured(ev).push(AgentEffectView::SpawnStream));
    assert(a.requests =~= seq![AgentRequestView::NextCommand]);
    assert(a.requests.drop_first() =~= Seq::<AgentRequestView>::empty());
    commands_are_submitted_in_order(commands);
    lemma_run_append(start, seq![up], served(commands));
    let b = run(idle, served(commands))->0;
    let ab = run(start, seq![up] + served(commands))->0;
    lemma_submissions_append(a.requests, b.requests);
    let last = seq![down, took, out];
    assert(last.drop_first() =~= seq![took, out]);
    assert(seq![took, out].drop_first() =~= seq![out]);
    assert(seq![out].drop_first() =~= Seq::<AgentInputView>::empty());
    let c = run(idle, last)->0;
    assert(c.effects =~= seq![AgentEffectView::RaiseShutdown]);
    assert(c.requests =~= seq![
        AgentRequestView::Submit(OpView::Shutdown),
        AgentRequestView::JoinStream,
        AgentRequestView::Stop,
    ]);
    assert(c.requests.drop_first() =~= seq![AgentRequestView::JoinStream, AgentRequestView::Stop]);
    assert(c.requests.drop_first().drop_first() =~= seq![AgentRequestView::Stop]);
    assert(c.requests.drop_first().drop_first().drop_first()
        =~= Seq::<AgentRequestView>::empty());
    assert(submissions(c.requests) =~= seq![OpView::Shutdown]);
    lemma_run_append(start, seq![up] + served(commands), last);
    lemma_submissions_append(ab.requests, c.requests);
    let all = run(start, seq![up] + served(commands) + last)->0;
    assert(b.effects =~= Seq::<AgentEffectView>::empty());
    assert(all.effects =~= configured(ev) + seq![
        AgentEffectView::SpawnStream,
        AgentEffectView::RaiseShutdown,
    ]);
    assert(submissions(all.requests) =~= operations(commands).push(OpView::Shutdown));
}

} // verus!
