use codex_driver::changes::{FileChange, FileChanges};
use codex_driver::event::{
    ApprovalRequest, PlanStep, PlanStepStatus, PlanUpdate, ServerEvent,
};
use codex_driver::path::FilePath;
use codex_driver::protocol::{
    CallDuration, EventMsg, ExecOutputStream, McpInvocation, PlanItemArg, SessionConfiguredEvent,
    StepStatus, TokenUsageInfo, TurnAbortReason, UpdatePlanArgs,
};
use codex_driver::translate::{
    convert_plan_status, convert_plan_update, decode_exec_chunk, dispatch_translated, emit_fatal,
    exec_output_event, translate_event_msg,
};

fn id() -> String {
    "call".to_string()
}

fn check(msg: EventMsg, event: ServerEvent) {
    assert_eq!(translate_event_msg(msg, None), vec![event]);
}

#[test]
fn configuration_is_surfaced() {
    check(
        EventMsg::SessionConfigured(SessionConfiguredEvent {
            session_id: "c1".to_string(),
            model: "m".to_string(),
            rollout_path: FilePath::from_text("/r"),
        }),
        ServerEvent::SessionConfigured {
            model: "m".to_string(),
            conversation_id: "c1".to_string(),
            rollout_path: FilePath::from_text("/r"),
        },
    );
}

#[test]
fn raw_reasoning_is_surfaced_like_summaries() {
    let text = || "why".to_string();
    check(
        EventMsg::AgentReasoningDelta { delta: text() },
        ServerEvent::AgentReasoningDelta(text()),
    );
    check(
        EventMsg::AgentReasoningRawContentDelta { delta: text() },
        ServerEvent::AgentReasoningDelta(text()),
    );
    check(EventMsg::AgentReasoning { text: text() }, ServerEvent::AgentReasoningFinal(text()));
    check(
        EventMsg::AgentReasoningRawContent { text: text() },
        ServerEvent::AgentReasoningFinal(text()),
    );
}

#[test]
fn commands_are_surfaced() {
    check(
        EventMsg::ExecCommandBegin { call_id: id(), command: vec!["ls".to_string()] },
        ServerEvent::ExecCommandBegin { call_id: id(), command: vec!["ls".to_string()] },
    );
    check(
        EventMsg::ExecCommandEnd { call_id: id(), exit_code: -9 },
        ServerEvent::ExecCommandEnd { call_id: id(), exit_code: Some(-9) },
    );
}

#[test]
fn command_output_is_decoded() {
    check(
        EventMsg::ExecCommandOutputDelta {
            call_id: id(),
            stream: ExecOutputStream::Stderr,
            chunk: vec![0xe2, 0x82, 0xac, 0xff, b'a'],
        },
        ServerEvent::ExecOutputChunk {
            call_id: id(),
            stream: ExecOutputStream::Stderr,
            text: "\u{20ac}\u{fffd}a".to_string(),
        },
    );
    assert_eq!(decode_exec_chunk(b"plain"), "plain");
    assert_eq!(decode_exec_chunk(b""), "");
    assert_eq!(decode_exec_chunk(&[0xc3]), String::from_utf8_lossy(&[0xc3]));
    for text in ["", "plain", "\u{20ac}\u{1f980}"] {
        for rest in [&b"\xff"[..], b"\x80\x80a", b"\xe2\x82", b"ok", b"\xf0\x9f\xa6z", b""] {
            let mut chunk = text.as_bytes().to_vec();
            chunk.extend_from_slice(rest);
            let decoded = decode_exec_chunk(&chunk);
            assert_eq!(decoded, text.to_string() + &decode_exec_chunk(rest));
            assert_eq!(decoded.as_bytes() == chunk, std::str::from_utf8(&chunk).is_ok());
        }
    }
    assert_eq!(
        exec_output_event(id(), ExecOutputStream::Stdout, "x".to_string()),
        ServerEvent::ExecOutputChunk {
            call_id: id(),
            stream: ExecOutputStream::Stdout,
            text: "x".to_string(),
        }
    );
}

#[test]
fn patches_are_surfaced() {
    check(
        EventMsg::PatchApplyBegin { call_id: id(), auto_approved: true },
        ServerEvent::PatchApplyBegin { call_id: id(), auto_approved: true },
    );
    check(
        EventMsg::PatchApplyEnd { call_id: id(), success: false },
        ServerEvent::PatchApplyEnd { call_id: id(), success: false },
    );
}

#[test]
fn failed_tool_calls_keep_their_error() {
    check(
        EventMsg::McpToolCallEnd {
            call_id: id(),
            invocation: McpInvocation { server: "s".to_string(), tool: "t".to_string() },
            duration: CallDuration::from_millis(1500),
            result: Err("timed out".to_string()),
        },
        ServerEvent::McpToolCallEnd {
            call_id: id(),
            server: "s".to_string(),
            tool: "t".to_string(),
            duration: CallDuration::new(1, 500_000_000),
            result: Err("timed out".to_string()),
        },
    );
}

#[test]
fn web_searches_are_surfaced() {
    check(
        EventMsg::WebSearchBegin { call_id: id() },
        ServerEvent::WebSearchBegin { call_id: id() },
    );
    check(
        EventMsg::WebSearchEnd { call_id: id(), query: "q".to_string() },
        ServerEvent::WebSearchEnd { call_id: id(), query: "q".to_string() },
    );
}

#[test]
fn token_counts_are_surfaced_where_there_are_any() {
    check(
        EventMsg::TokenCount {
            info: Some(TokenUsageInfo {
                blended_total: 1,
                non_cached_input: 2,
                cached_input: 3,
                output_tokens: 4,
                reasoning_output_tokens: 5,
            }),
        },
        ServerEvent::TokenUsage {
            blended_total: 1,
            input: 2,
            cached_input: 3,
            output: 4,
            reasoning_output: 5,
        },
    );
    assert_eq!(translate_event_msg(EventMsg::TokenCount { info: None }, Some("1")), Vec::new());
}

#[test]
fn turns_are_surfaced() {
    check(
        EventMsg::TaskComplete { last_agent_message: Some("done".to_string()) },
        ServerEvent::TurnComplete { last_message: Some("done".to_string()) },
    );
    check(
        EventMsg::TurnDiff { unified_diff: "@@".to_string() },
        ServerEvent::TurnDiff { unified_diff: "@@".to_string() },
    );
    for (reason, word) in [
        (TurnAbortReason::Interrupted, "interrupted"),
        (TurnAbortReason::Replaced, "replaced"),
        (TurnAbortReason::ReviewEnded, "review-ended"),
    ] {
        check(
            EventMsg::TurnAborted { reason },
            ServerEvent::TurnAborted { reason: word.to_string() },
        );
    }
}

#[test]
fn plans_keep_their_steps_in_order() {
    let args = UpdatePlanArgs {
        explanation: None,
        plan: vec![
            PlanItemArg { step: "a".to_string(), status: StepStatus::Completed },
            PlanItemArg { step: "b".to_string(), status: StepStatus::Pending },
        ],
    };
    assert_eq!(
        convert_plan_update(args),
        PlanUpdate {
            explanation: None,
            steps: vec![
                PlanStep { step: "a".to_string(), status: PlanStepStatus::Completed },
                PlanStep { step: "b".to_string(), status: PlanStepStatus::Pending },
            ],
        }
    );
    assert_eq!(convert_plan_status(StepStatus::InProgress), PlanStepStatus::InProgress);
}

#[test]
fn notices_are_surfaced() {
    let text = || "note".to_string();
    check(EventMsg::BackgroundEvent { message: text() }, ServerEvent::BackgroundMessage(text()));
    check(EventMsg::StreamError { message: text() }, ServerEvent::StreamError(text()));
    check(EventMsg::Error { message: text() }, ServerEvent::Fatal { message: text() });
    check(EventMsg::ShutdownComplete, ServerEvent::ShutdownComplete);
    check(
        EventMsg::ModelStreamClosed { had_completion: false },
        ServerEvent::StreamClosed { had_completion: false },
    );
    assert_eq!(translate_event_msg(EventMsg::Other, Some("1")), Vec::new());
}

fn exec_request() -> EventMsg {
    EventMsg::ExecApprovalRequest {
        call_id: id(),
        command: vec!["rm".to_string()],
        cwd: FilePath::from_text("/"),
        reason: None,
    }
}

fn patch_request() -> EventMsg {
    let mut changes = FileChanges::new();
    changes.insert(
        FilePath::from_text("f"),
        FileChange::Delete { content: "old".to_string() },
    );
    EventMsg::ApplyPatchApprovalRequest { call_id: id(), changes, reason: None, grant_root: None }
}

#[test]
fn approvals_need_a_submission() {
    assert_eq!(translate_event_msg(exec_request(), None), Vec::new());
    assert_eq!(translate_event_msg(patch_request(), None), Vec::new());
    assert_eq!(
        translate_event_msg(exec_request(), Some("s1")),
        vec![ServerEvent::ApprovalRequest {
            id: "s1".to_string(),
            request: ApprovalRequest::Exec {
                call_id: id(),
                command: vec!["rm".to_string()],
                cwd: FilePath::from_text("/"),
                reason: None,
            },
        }]
    );
    assert!(matches!(
        translate_event_msg(patch_request(), Some("s2")).as_slice(),
        [ServerEvent::ApprovalRequest {
            id,
            request: ApprovalRequest::Patch { changes, .. },
        }] if id == "s2" && changes.len() == 1
    ));
}

#[test]
fn dispatched_events_come_after_those_before() {
    let mut events = Vec::new();
    emit_fatal(&mut events, "bad".to_string());
    dispatch_translated(&mut events, EventMsg::Other, None);
    dispatch_translated(&mut events, EventMsg::ShutdownComplete, Some("1"));
    assert_eq!(
        events,
        vec![ServerEvent::Fatal { message: "bad".to_string() }, ServerEvent::ShutdownComplete]
    );
}
