//! From the agent's messages to the driver's events.

use crate::event::{
    server_events, ApprovalRequest, ApprovalRequestView, PlanStep, PlanStepStatus, PlanStepView,
    PlanUpdate, PlanUpdateView, ServerEvent, ServerEventView,
};
use crate::protocol::{
    EventMsg, EventMsgView, ExecOutputStream, PlanItemArgView, StepStatus, TurnAbortReason,
    UpdatePlanArgs, UpdatePlanArgsView,
};
use crate::text::{from_utf8_lossy, lossy_text, opt_str, REPLACEMENT};
use vstd::prelude::*;
use vstd::string::*;
use vstd::utf8::{
    decode_utf8, decode_utf8_encode_utf8, encode_utf8, encode_utf8_decode_utf8,
    encode_utf8_valid_utf8, valid_utf8,
};

verus! {

/// The driver's name for a step status.
pub open spec fn plan_status(status: StepStatus) -> PlanStepStatus {
    match status {
        StepStatus::Pending => PlanStepStatus::Pending,
        StepStatus::InProgress => PlanStepStatus::InProgress,
        StepStatus::Completed => PlanStepStatus::Completed,
    }
}

/// The driver's form of a plan: the same explanation and the same steps in the same order.
pub open spec fn plan_update(args: UpdatePlanArgsView) -> PlanUpdateView {
    PlanUpdateView {
        explanation: args.explanation,
        steps: args.plan.map_values(
            |item: PlanItemArgView|
                PlanStepView { step: item.step, status: plan_status(item.status) },
        ),
    }
}

/// The word for an abort reason.
pub open spec fn abort_reason(reason: TurnAbortReason) -> Seq<char> {
    match reason {
        TurnAbortReason::Interrupted => "interrupted"@,
        TurnAbortReason::Replaced => "replaced"@,
        TurnAbortReason::ReviewEnded => "review-ended"@,
    }
}

/// The events that a message gives rise to. `event_id` is the submission that the message
/// belongs to; an approval request without one cannot be answered and is not surfaced.
pub open spec fn translated(msg: EventMsgView, event_id: Option<Seq<char>>) -> Seq<
    ServerEventView,
> {
    match msg {
        EventMsgView::SessionConfigured(ev) => seq![
            ServerEventView::SessionConfigured {
                model: ev.model,
                conversation_id: ev.session_id,
                rollout_path: ev.rollout_path,
            },
        ],
        EventMsgView::AgentMessageDelta { delta } => seq![
            ServerEventView::AgentMessageDelta(delta),
        ],
        EventMsgView::AgentMessage { message } => seq![
            ServerEventView::AgentMessageFinal(message),
        ],
        EventMsgView::AgentReasoningDelta { delta } => seq![
            ServerEventView::AgentReasoningDelta(delta),
        ],
        EventMsgView::AgentReasoningRawContentDelta { delta } => seq![
            ServerEventView::AgentReasoningDelta(delta),
        ],
        EventMsgView::AgentReasoning { text } => seq![ServerEventView::AgentReasoningFinal(text)],
        EventMsgView::AgentReasoningRawContent { text } => seq![
            ServerEventView::AgentReasoningFinal(text),
        ],
        EventMsgView::AgentReasoningSectionBreak => seq![ServerEventView::ReasoningSectionBreak],
        EventMsgView::ExecCommandBegin { call_id, command } => seq![
            ServerEventView::ExecCommandBegin { call_id, command },
        ],
        EventMsgView::ExecCommandEnd { call_id, exit_code } => seq![
            ServerEventView::ExecCommandEnd { call_id, exit_code: Some(exit_code) },
        ],
        EventMsgView::ExecCommandOutputDelta { call_id, stream, chunk } => seq![
            ServerEventView::ExecOutputChunk { call_id, stream, text: lossy_text(chunk) },
        ],
        EventMsgView::PatchApplyBegin { call_id, auto_approved } => seq![
            ServerEventView::PatchApplyBegin { call_id, auto_approved },
        ],
        EventMsgView::PatchApplyEnd { call_id, success } => seq![
            ServerEventView::PatchApplyEnd { call_id, success },
        ],
        EventMsgView::McpToolCallBegin { call_id, invocation } => seq![
            ServerEventView::McpToolCallBegin {
                call_id,
                server: invocation.server,
                tool: invocation.tool,
            },
        ],
        EventMsgView::McpToolCallEnd { call_id, invocation, duration, result } => seq![
            ServerEventView::McpToolCallEnd {
                call_id,
                server: invocation.server,
                tool: invocation.tool,
                duration,
                result,
            },
        ],
        EventMsgView::WebSearchBegin { call_id } => seq![
            ServerEventView::WebSearchBegin { call_id },
        ],
        EventMsgView::WebSearchEnd { call_id, query } => seq![
            ServerEventView::WebSearchEnd { call_id, query },
        ],
        EventMsgView::TokenCount { info } => match info {
            Some(usage) => seq![
                ServerEventView::TokenUsage {
                    blended_total: usage.blended_total,
                    input: usage.non_cached_input,
                    cached_input: usage.cached_input,
                    output: usage.output_tokens,
                    reasoning_output: usage.reasoning_output_tokens,
                },
            ],
            None => Seq::empty(),
        },
        EventMsgView::TaskComplete { last_agent_message } => seq![
            ServerEventView::TurnComplete { last_message: last_agent_message },
        ],
        EventMsgView::TurnAborted { reason } => seq![
            ServerEventView::TurnAborted { reason: abort_reason(reason) },
        ],
        EventMsgView::TurnDiff { unified_diff } => seq![
            ServerEventView::TurnDiff { unified_diff },
        ],
        EventMsgView::PlanUpdate(args) => seq![ServerEventView::PlanUpdate(plan_update(args))],
        EventMsgView::BackgroundEvent { message } => seq![
            ServerEventView::BackgroundMessage(message),
        ],
        EventMsgView::StreamError { message } => seq![ServerEventView::StreamError(message)],
        EventMsgView::ModelStreamClosed { had_completion } => seq![
            ServerEventView::StreamClosed { had_completion },
        ],
        EventMsgView::ShutdownComplete => seq![ServerEventView::ShutdownComplete],
        EventMsgView::Error { message } => seq![ServerEventView::Fatal { message }],
        EventMsgView::ExecApprovalRequest { call_id, command, cwd, reason } => match event_id {
            Some(id) => seq![
                ServerEventView::ApprovalRequest {
                    id,
                    request: ApprovalRequestView::Exec { call_id, command, cwd, reason },
                },
            ],
            None => Seq::empty(),
        },
        EventMsgView::ApplyPatchApprovalRequest { call_id, changes, reason, grant_root } =>
        match event_id {
            Some(id) => seq![
                ServerEventView::ApprovalRequest {
                    id,
                    request: ApprovalRequestView::Patch { call_id, changes, reason, grant_root },
                },
            ],
            None => Seq::empty(),
        },
        EventMsgView::Other => Seq::empty(),
    }
}

/// A list of one event.
fn one(event: ServerEvent) -> (r: Vec<ServerEvent>)
    ensures
        server_events(r@) == seq![event@],
{
    let mut r: Vec<ServerEvent> = Vec::new();
    r.push(event);
    assert(server_events(r@) =~= seq![event@]);
    r
}

/// A list of no events.
fn none() -> (r: Vec<ServerEvent>)
    ensures
        server_events(r@) == Seq::<ServerEventView>::empty(),
{
    let r: Vec<ServerEvent> = Vec::new();
    assert(server_events(r@) =~= Seq::<ServerEventView>::empty());
    r
}

/// Decodes what a command wrote. Bytes that are valid UTF-8 come out as the text they encode,
/// and only they come out as text that encodes to the same bytes; others come out with a
/// replacement character in them. A text in front of other bytes
/// comes out as it is, followed by what the other bytes come out as by themselves.
pub fn decode_exec_chunk(chunk: &[u8]) -> (r: String)
    ensures
        r@ == lossy_text(chunk@),
        valid_utf8(chunk@) ==> r@ == decode_utf8(chunk@),
        !valid_utf8(chunk@) ==> r@.contains(REPLACEMENT),
        encode_utf8(r@) == chunk@ <==> valid_utf8(chunk@),
        forall|text: Seq<char>, rest: Seq<u8>|
            chunk@ == #[trigger] (encode_utf8(text) + rest) ==> r@ == text + lossy_text(rest),
{
    let r = from_utf8_lossy(chunk);
    proof {
        encode_utf8_valid_utf8(r@);
        if valid_utf8(chunk@) {
            decode_utf8_encode_utf8(chunk@);
        }
        assert forall|text: Seq<char>, rest: Seq<u8>|
            chunk@ == #[trigger] (encode_utf8(text) + rest) implies r@ == text + lossy_text(
            rest,
        ) by {
            let n = encode_utf8(text).len() as int;
            encode_utf8_valid_utf8(text);
            encode_utf8_decode_utf8(text);
            assert(chunk@.take(n) =~= encode_utf8(text));
            assert(chunk@.skip(n) =~= rest);
            assert(valid_utf8(chunk@.take(n)));
        }
    }
    r
}

/// The event for a decoded piece of command output.
pub fn exec_output_event(call_id: String, stream: ExecOutputStream, text: String) -> (r:
    ServerEvent)
    ensures
        r@ == (ServerEventView::ExecOutputChunk { call_id: call_id@, stream, text: text@ }),
{
    ServerEvent::ExecOutputChunk { call_id, stream, text }
}

/// Renames a step status.
pub fn convert_plan_status(status: StepStatus) -> (r: PlanStepStatus)
    ensures
        r == plan_status(status),
{
    match status {
        StepStatus::Pending => PlanStepStatus::Pending,
        StepStatus::InProgress => PlanStepStatus::InProgress,
        StepStatus::Completed => PlanStepStatus::Completed,
    }
}

/// Converts a plan, step by step.
pub fn convert_plan_update(args: UpdatePlanArgs) -> (r: PlanUpdate)
    ensures
        r@ == plan_update(args@),
{
    let UpdatePlanArgs { explanation, plan } = args;
    let ghost sent = plan@;
    let mut steps: Vec<PlanStep> = Vec::new();
    for item in it: plan
        invariant
            it.seq() == sent,
            steps@.len() == it.index(),
            forall|j: int|
                0 <= j < steps@.len() ==> (#[trigger] steps@[j])@ == (PlanStepView {
                    step: sent[j].step@,
                    status: plan_status(sent[j].status),
                }),
    {
        steps.push(PlanStep { step: item.step, status: convert_plan_status(item.status) });
    }
    let r = PlanUpdate { explanation, steps };
    assert(r@.steps =~= plan_update(args@).steps);
    r
}

/// Translates a message of the agent into the driver's events.
pub fn translate_event_msg(msg: EventMsg, event_id: Option<&str>) -> (r: Vec<ServerEvent>)
    ensures
        server_events(r@) == translated(msg@, opt_str(event_id)),
        msg@ matches EventMsgView::ExecCommandOutputDelta { call_id, stream, chunk } ==> (
        valid_utf8(chunk) ==> server_events(r@) == seq![
            ServerEventView::ExecOutputChunk { call_id, stream, text: decode_utf8(chunk) },
        ]),
{
    match msg {
        EventMsg::SessionConfigured(ev) => one(
            ServerEvent::SessionConfigured {
                model: ev.model,
                conversation_id: ev.session_id,
                rollout_path: ev.rollout_path,
            },
        ),
        EventMsg::AgentMessageDelta { delta } => one(ServerEvent::AgentMessageDelta(delta)),
        EventMsg::AgentMessage { message } => one(ServerEvent::AgentMessageFinal(message)),
        EventMsg::AgentReasoningDelta { delta } => one(ServerEvent::AgentReasoningDelta(delta)),
        EventMsg::AgentReasoningRawContentDelta { delta } => one(
            ServerEvent::AgentReasoningDelta(delta),
        ),
        EventMsg::AgentReasoning { text } => one(ServerEvent::AgentReasoningFinal(text)),
        EventMsg::AgentReasoningRawContent { text } => one(ServerEvent::AgentReasoningFinal(text)),
        EventMsg::AgentReasoningSectionBreak => one(ServerEvent::ReasoningSectionBreak),
        EventMsg::ExecCommandBegin { call_id, command } => one(
            ServerEvent::ExecCommandBegin { call_id, command },
        ),
        EventMsg::ExecCommandEnd { call_id, exit_code } => one(
            ServerEvent::ExecCommandEnd { call_id, exit_code: Some(exit_code) },
        ),
        EventMsg::ExecCommandOutputDelta { call_id, stream, chunk } => {
            let text = decode_exec_chunk(chunk.as_slice());
            one(exec_output_event(call_id, stream, text))
        },
        EventMsg::PatchApplyBegin { call_id, auto_approved } => one(
            ServerEvent::PatchApplyBegin { call_id, auto_approved },
        ),
        EventMsg::PatchApplyEnd { call_id, success } => one(
            ServerEvent::PatchApplyEnd { call_id, success },
        ),
        EventMsg::McpToolCallBegin { call_id, invocation } => one(
            ServerEvent::McpToolCallBegin {
                call_id,
                server: invocation.server,
                tool: invocation.tool,
            },
        ),
        EventMsg::McpToolCallEnd { call_id, invocation, duration, result } => one(
            ServerEvent::McpToolCallEnd {
                call_id,
                server: invocation.server,
                tool: invocation.tool,
                duration,
                result,
            },
        ),
        EventMsg::WebSearchBegin { call_id } => one(ServerEvent::WebSearchBegin { call_id }),
        EventMsg::WebSearchEnd { call_id, query } => one(
            ServerEvent::WebSearchEnd { call_id, query },
        ),
        EventMsg::TokenCount { info } => match info {
            Some(usage) => one(
                ServerEvent::TokenUsage {
                    blended_total: usage.blended_total,
                    input: usage.non_cached_input,
                    cached_input: usage.cached_input,
                    output: usage.output_tokens,
                    reasoning_output: usage.reasoning_output_tokens,
                },
            ),
            None => none(),
        },
        EventMsg::TaskComplete { last_agent_message } => one(
            ServerEvent::TurnComplete { last_message: last_agent_message },
        ),
        EventMsg::TurnAborted { reason } => {
            let word: &str = match reason {
                TurnAbortReason::Interrupted => "interrupted",
                TurnAbortReason::Replaced => "replaced",
                TurnAbortReason::ReviewEnded => "review-ended",
            };
            one(ServerEvent::TurnAborted { reason: String::from_str(word) })
        },
        EventMsg::TurnDiff { unified_diff } => one(ServerEvent::TurnDiff { unified_diff }),
        EventMsg::PlanUpdate(update) => one(ServerEvent::PlanUpdate(convert_plan_update(update))),
        EventMsg::BackgroundEvent { message } => one(ServerEvent::BackgroundMessage(message)),
        EventMsg::StreamError { message } => one(ServerEvent::StreamError(message)),
        EventMsg::ModelStreamClosed { had_completion } => one(
            ServerEvent::StreamClosed { had_completion },
        ),
        EventMsg::ShutdownComplete => one(ServerEvent::ShutdownComplete),
        EventMsg::Error { message } => one(ServerEvent::Fatal { message }),
        EventMsg::ExecApprovalRequest { call_id, command, cwd, reason } => match event_id {
            Some(id) => one(
                ServerEvent::ApprovalRequest {
                    id: String::from_str(id),
                    request: ApprovalRequest::Exec { call_id, command, cwd, reason },
                },
            ),
            None => none(),
        },
        EventMsg::ApplyPatchApprovalRequest { call_id, changes, reason, grant_root } =>
        match event_id {
            Some(id) => one(
                ServerEvent::ApprovalRequest {
                    id: String::from_str(id),
                    request: ApprovalRequest::Patch { call_id, changes, reason, grant_root },
                },
            ),
            None => none(),
        },
        EventMsg::Other => none(),
    }
}

/// Puts the events of a message at the end of the outgoing events.
pub fn dispatch_translated(outgoing: &mut Vec<ServerEvent>, msg: EventMsg, event_id: Option<&str>)
    ensures
        server_events(final(outgoing)@) == server_events(old(outgoing)@) + translated(
            msg@,
            opt_str(event_id),
        ),
{
    let mut events = translate_event_msg(msg, event_id);
    let ghost added = events@;
    outgoing.append(&mut events);
    assert(server_events(outgoing@) =~= server_events(old(outgoing)@) + server_events(added));
}

/// Puts a fatal error at the end of the outgoing events.
pub fn emit_fatal(outgoing: &mut Vec<ServerEvent>, message: String)
    ensures
        server_events(final(outgoing)@) == server_events(old(outgoing)@).push(
            ServerEventView::Fatal { message: message@ },
        ),
{
    outgoing.push(ServerEvent::Fatal { message });
    assert(server_events(outgoing@) =~= server_events(old(outgoing)@).push(
        ServerEventView::Fatal { message: message@ },
    ));
}

} // verus!
