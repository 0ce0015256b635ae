//! What the client hears of each message of the agent, field by field.

use crate::changes::FileChangeEntryView;
use crate::event::{ApprovalRequestView, PlanStepStatus, ServerEventView};
use crate::protocol::{
    CallDuration, CallToolResultView, EventMsgView, ExecOutputStream, McpInvocationView,
    PlanItemArgView, SessionConfiguredEventView, StepStatus, TokenUsageInfo, TurnAbortReason,
    UpdatePlanArgsView,
};
use crate::stream::{stream_events, AgentEventView};
use crate::text::lossy_text;
use crate::translate::{plan_status, translated};
use vstd::prelude::*;

verus! {

/// The client hears the model, the identifier and the rollout of a configured conversation.
pub proof fn configurations_arrive_whole(
    session_id: Seq<char>,
    model: Seq<char>,
    rollout_path: Seq<u8>,
    id: Option<Seq<char>>,
)
    ensures
        translated(
            EventMsgView::SessionConfigured(
                SessionConfiguredEventView { session_id, model, rollout_path },
            ),
            id,
        ) == seq![
            ServerEventView::SessionConfigured { model, conversation_id: session_id, rollout_path },
        ],
{
}

/// The client hears the agent's answer as it was given, piece by piece and whole.
pub proof fn answers_arrive_word_for_word(words: Seq<char>, id: Option<Seq<char>>)
    ensures
        translated(EventMsgView::AgentMessageDelta { delta: words }, id) == seq![
            ServerEventView::AgentMessageDelta(words),
        ],
        translated(EventMsgView::AgentMessage { message: words }, id) == seq![
            ServerEventView::AgentMessageFinal(words),
        ],
{
}

/// The client hears the agent's reasoning as it was given, raw or summarised, and where it
/// breaks off.
pub proof fn reasoning_arrives_word_for_word(words: Seq<char>, id: Option<Seq<char>>)
    ensures
        translated(EventMsgView::AgentReasoningDelta { delta: words }, id) == seq![
            ServerEventView::AgentReasoningDelta(words),
        ],
        translated(EventMsgView::AgentReasoningRawContentDelta { delta: words }, id) == seq![
            ServerEventView::AgentReasoningDelta(words),
        ],
        translated(EventMsgView::AgentReasoning { text: words }, id) == seq![
            ServerEventView::AgentReasoningFinal(words),
        ],
        translated(EventMsgView::AgentReasoningRawContent { text: words }, id) == seq![
            ServerEventView::AgentReasoningFinal(words),
        ],
        translated(EventMsgView::AgentReasoningSectionBreak, id) == seq![
            ServerEventView::ReasoningSectionBreak,
        ],
{
}

/// The client hears which command starts, what it writes and where, and with which code it ends,
/// whatever the code.
pub proof fn commands_arrive_whole(
    call_id: Seq<char>,
    command: Seq<Seq<char>>,
    exit_code: i32,
    stream: ExecOutputStream,
    chunk: Seq<u8>,
    id: Option<Seq<char>>,
)
    ensures
        translated(EventMsgView::ExecCommandBegin { call_id, command }, id) == seq![
            ServerEventView::ExecCommandBegin { call_id, command },
        ],
        translated(EventMsgView::ExecCommandEnd { call_id, exit_code }, id) == seq![
            ServerEventView::ExecCommandEnd { call_id, exit_code: Some(exit_code) },
        ],
        translated(EventMsgView::ExecCommandOutputDelta { call_id, stream, chunk }, id) == seq![
            ServerEventView::ExecOutputChunk { call_id, stream, text: lossy_text(chunk) },
        ],
{
}

/// Two commands that end with different codes, or under different identifiers, are told apart.
pub proof fn command_ends_are_told_apart(
    call_id: Seq<char>,
    exit_code: i32,
    other_id: Seq<char>,
    other_code: i32,
    id: Option<Seq<char>>,
)
    requires
        call_id != other_id || exit_code != other_code,
    ensures
        translated(EventMsgView::ExecCommandEnd { call_id, exit_code }, id) != translated(
            EventMsgView::ExecCommandEnd { call_id: other_id, exit_code: other_code },
            id,
        ),
{
    let a = translated(EventMsgView::ExecCommandEnd { call_id, exit_code }, id);
    let b = translated(
        EventMsgView::ExecCommandEnd { call_id: other_id, exit_code: other_code },
        id,
    );
    assert(a[0] != b[0]);
}

/// The client hears whether a patch was approved by policy and whether it applied.
pub proof fn patches_arrive_whole(call_id: Seq<char>, flag: bool, id: Option<Seq<char>>)
    ensures
        translated(EventMsgView::PatchApplyBegin { call_id, auto_approved: flag }, id) == seq![
            ServerEventView::PatchApplyBegin { call_id, auto_approved: flag },
        ],
        translated(EventMsgView::PatchApplyEnd { call_id, success: flag }, id) == seq![
            ServerEventView::PatchApplyEnd { call_id, success: flag },
        ],
{
}

/// The client hears which tool is called on which server, how long it took and what it returned.
pub proof fn tool_calls_arrive_whole(
    call_id: Seq<char>,
    server: Seq<char>,
    tool: Seq<char>,
    duration: CallDuration,
    result: Result<CallToolResultView, Seq<char>>,
    id: Option<Seq<char>>,
)
    ensures
        translated(
            EventMsgView::McpToolCallBegin {
                call_id,
                invocation: McpInvocationView { server, tool },
            },
            id,
        ) == seq![ServerEventView::McpToolCallBegin { call_id, server, tool }],
        translated(
            EventMsgView::McpToolCallEnd {
                call_id,
                invocation: McpInvocationView { server, tool },
                duration,
                result,
            },
            id,
        ) == seq![
            ServerEventView::McpToolCallEnd { call_id, server, tool, duration, result },
        ],
{
}

/// The client hears of web searches and of what was searched for.
pub proof fn searches_arrive_whole(call_id: Seq<char>, query: Seq<char>, id: Option<Seq<char>>)
    ensures
        translated(EventMsgView::WebSearchBegin { call_id }, id) == seq![
            ServerEventView::WebSearchBegin { call_id },
        ],
        translated(EventMsgView::WebSearchEnd { call_id, query }, id) == seq![
            ServerEventView::WebSearchEnd { call_id, query },
        ],
{
}

/// The client hears every token count as it was taken, each under its own name, and nothing
/// where none was taken.
pub proof fn token_counts_arrive_whole(
    total: u64,
    fresh: u64,
    cached: u64,
    written: u64,
    reasoned: u64,
    id: Option<Seq<char>>,
)
    ensures
        translated(
            EventMsgView::TokenCount {
                info: Some(
                    TokenUsageInfo {
                        blended_total: total,
                        non_cached_input: fresh,
                        cached_input: cached,
                        output_tokens: written,
                        reasoning_output_tokens: reasoned,
                    },
                ),
            },
            id,
        ) == seq![
            ServerEventView::TokenUsage {
                blended_total: total,
                input: fresh,
                cached_input: cached,
                output: written,
                reasoning_output: reasoned,
            },
        ],
        translated(EventMsgView::TokenCount { info: None }, id) == Seq::<ServerEventView>::empty(),
{
}

/// The client hears how a turn ended: with its last message, given up for a reason, and what it
/// edited.
pub proof fn turns_arrive_whole(
    last_message: Option<Seq<char>>,
    unified_diff: Seq<char>,
    id: Option<Seq<char>>,
)
    ensures
        translated(EventMsgView::TaskComplete { last_agent_message: last_message }, id) == seq![
            ServerEventView::TurnComplete { last_message },
        ],
        translated(EventMsgView::TurnDiff { unified_diff }, id) == seq![
            ServerEventView::TurnDiff { unified_diff },
        ],
        translated(EventMsgView::TurnAborted { reason: TurnAbortReason::Interrupted }, id)
            == seq![ServerEventView::TurnAborted { reason: "interrupted"@ }],
        translated(EventMsgView::TurnAborted { reason: TurnAbortReason::Replaced }, id) == seq![
            ServerEventView::TurnAborted { reason: "replaced"@ },
        ],
        translated(EventMsgView::TurnAborted { reason: TurnAbortReason::ReviewEnded }, id)
            == seq![ServerEventView::TurnAborted { reason: "review-ended"@ }],
{
}

/// The client hears the whole plan: its explanation, and each step in its place with its words
/// and its status.
pub proof fn plans_arrive_whole(
    explanation: Option<Seq<char>>,
    plan: Seq<PlanItemArgView>,
    id: Option<Seq<char>>,
)
    ensures
        ({
            let sent = translated(
                EventMsgView::PlanUpdate(UpdatePlanArgsView { explanation, plan }),
                id,
            );
            &&& sent.len() == 1
            &&& sent[0] matches ServerEventView::PlanUpdate(update) && {
                &&& update.explanation == explanation
                &&& update.steps.len() == plan.len()
                &&& forall|i: int|
                    0 <= i < plan.len() ==> (#[trigger] update.steps[i]).step == plan[i].step
                &&& forall|i: int|
                    0 <= i < plan.len() ==> ((#[trigger] update.steps[i]).status is Pending
                        <==> plan[i].status is Pending)
                &&& forall|i: int|
                    0 <= i < plan.len() ==> ((#[trigger] update.steps[i]).status is InProgress
                        <==> plan[i].status is InProgress)
                &&& forall|i: int|
                    0 <= i < plan.len() ==> ((#[trigger] update.steps[i]).status is Completed
                        <==> plan[i].status is Completed)
            }
        }),
        plan_status(StepStatus::Pending) == PlanStepStatus::Pending,
        plan_status(StepStatus::InProgress) == PlanStepStatus::InProgress,
        plan_status(StepStatus::Completed) == PlanStepStatus::Completed,
{
}

/// The client hears notices, stream errors and errors in the agent's words, and that the model
/// stream or the agent has closed.
pub proof fn notices_arrive_word_for_word(
    message: Seq<char>,
    had_completion: bool,
    id: Option<Seq<char>>,
)
    ensures
        translated(EventMsgView::BackgroundEvent { message }, id) == seq![
            ServerEventView::BackgroundMessage(message),
        ],
        translated(EventMsgView::StreamError { message }, id) == seq![
            ServerEventView::StreamError(message),
        ],
        translated(EventMsgView::Error { message }, id) == seq![ServerEventView::Fatal { message }],
        translated(EventMsgView::ModelStreamClosed { had_completion }, id) == seq![
            ServerEventView::StreamClosed { had_completion },
        ],
        translated(EventMsgView::ShutdownComplete, id) == seq![ServerEventView::ShutdownComplete],
        translated(EventMsgView::Other, id) == Seq::<ServerEventView>::empty(),
{
}

/// The client hears all there is to know of what it is asked to approve, under the submission it
/// has to answer to; where there is none to answer to it is not asked.
pub proof fn approval_requests_arrive_whole(
    call_id: Seq<char>,
    command: Seq<Seq<char>>,
    cwd: Seq<u8>,
    changes: Map<Seq<Seq<u8>>, FileChangeEntryView>,
    reason: Option<Seq<char>>,
    grant_root: Option<Seq<u8>>,
    id: Seq<char>,
)
    ensures
        translated(
            EventMsgView::ExecApprovalRequest { call_id, command, cwd, reason },
            Some(id),
        ) == seq![
            ServerEventView::ApprovalRequest {
                id,
                request: ApprovalRequestView::Exec { call_id, command, cwd, reason },
            },
        ],
        translated(
            EventMsgView::ApplyPatchApprovalRequest { call_id, changes, reason, grant_root },
            Some(id),
        ) == seq![
            ServerEventView::ApprovalRequest {
                id,
                request: ApprovalRequestView::Patch { call_id, changes, reason, grant_root },
            },
        ],
        translated(EventMsgView::ExecApprovalRequest { call_id, command, cwd, reason }, None)
            == Seq::<ServerEventView>::empty(),
        translated(
            EventMsgView::ApplyPatchApprovalRequest { call_id, changes, reason, grant_root },
            None,
        ) == Seq::<ServerEventView>::empty(),
{
}

/// What a conversation yields reaches the client under the submission it belongs to, whether or
/// not the session is closing.
pub proof fn yields_are_translated(id: Seq<char>, msg: EventMsgView, shutting_down: bool)
    ensures
        stream_events(Ok(AgentEventView { id, msg }), shutting_down) == translated(msg, Some(id)),
{
}

} // verus!
