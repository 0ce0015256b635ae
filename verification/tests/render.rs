use codex_driver::changes::{FileChange, FileChanges};
use codex_driver::event::{
    ApprovalRequest, PlanStep, PlanStepStatus, PlanUpdate, ServerEvent,
};
use codex_driver::path::FilePath;
use codex_driver::protocol::{CallDuration, CallToolResult, ExecOutputStream};
use codex_driver::render::{
    exec_approval_line, exec_begin_line, format_plan_status, handle_event, mcp_end_line,
    patch_approval_line, plan_lines, session_configured_line, tool_outcome_line,
    turn_complete_line, Channel, EventReport,
};
use std::time::Duration;

fn s(text: &str) -> String {
    text.to_string()
}

fn shows(event: ServerEvent, text: &str) {
    assert_eq!(
        handle_event(&event),
        EventReport { channel: Channel::Stdout, text: s(text), exit_code: None }
    );
}

#[test]
fn text_is_shown_behind_its_tag() {
    shows(ServerEvent::AgentMessageDelta(s("he")), "[agent-delta] he");
    shows(ServerEvent::AgentMessageFinal(s("hello")), "[agent-final] hello");
    shows(ServerEvent::AgentReasoningDelta(s("hm")), "[reasoning-delta] hm");
    shows(ServerEvent::AgentReasoningFinal(s("hmm")), "[reasoning-final] hmm");
    shows(ServerEvent::BackgroundMessage(s("tick")), "[background] tick");
    shows(ServerEvent::TurnAborted { reason: s("replaced") }, "[turn-aborted] reason=replaced");
    shows(ServerEvent::TurnDiff { unified_diff: s("--- a") }, "[turn-diff]\n--- a");
    shows(ServerEvent::ReasoningSectionBreak, "[reasoning-break]");
    shows(ServerEvent::ShutdownComplete, "[shutdown-complete]");
    shows(ServerEvent::SessionEnded, "[session-ended]");
    shows(
        ServerEvent::StreamClosed { had_completion: true },
        "[stream-closed] had_completion=true",
    );
}

#[test]
fn errors_are_shown_on_standard_error() {
    assert_eq!(
        handle_event(&ServerEvent::StreamError(s("retrying"))),
        EventReport {
            channel: Channel::Stderr,
            text: s("[stream-error] retrying"),
            exit_code: None,
        }
    );
    assert_eq!(
        handle_event(&ServerEvent::Fatal { message: s("dead") }),
        EventReport { channel: Channel::Stderr, text: s("[fatal] dead"), exit_code: Some(1) }
    );
}

#[test]
fn configurations_are_shown() {
    shows(
        ServerEvent::SessionConfigured {
            model: s("m"),
            conversation_id: s("c1"),
            rollout_path: FilePath { bytes: b"/r/\xfe".to_vec() },
        },
        "[session-configured] model=m conversation_id=c1 rollout_path=/r/\u{fffd}",
    );
    assert_eq!(
        session_configured_line("m", "c", "/r"),
        "[session-configured] model=m conversation_id=c rollout_path=/r"
    );
}

#[test]
fn commands_are_shown() {
    let command = vec![s("echo"), s("a \"b\"\n")];
    shows(
        ServerEvent::ExecCommandBegin { call_id: s("1"), command: command.clone() },
        &format!("[exec-begin] id=1 command={:?}", command),
    );
    assert_eq!(exec_begin_line("1", "[\"ls\"]"), "[exec-begin] id=1 command=[\"ls\"]");
    shows(
        ServerEvent::ExecCommandEnd { call_id: s("1"), exit_code: Some(-1) },
        "[exec-end] id=1 exit=Some(-1)",
    );
    shows(
        ServerEvent::ExecCommandEnd { call_id: s("1"), exit_code: None },
        "[exec-end] id=1 exit=None",
    );
    shows(
        ServerEvent::ExecOutputChunk {
            call_id: s("1"),
            stream: ExecOutputStream::Stdout,
            text: s("out"),
        },
        "[exec-output] id=1 stream=Stdout out",
    );
    shows(
        ServerEvent::ExecOutputChunk {
            call_id: s("1"),
            stream: ExecOutputStream::Stderr,
            text: s("err"),
        },
        "[exec-output] id=1 stream=Stderr err",
    );
}

#[test]
fn patches_are_shown() {
    shows(
        ServerEvent::PatchApplyBegin { call_id: s("p"), auto_approved: false },
        "[patch-begin] id=p auto_approved=false",
    );
    shows(
        ServerEvent::PatchApplyEnd { call_id: s("p"), success: true },
        "[patch-end] id=p success=true",
    );
}

#[test]
fn tool_calls_are_shown() {
    shows(
        ServerEvent::McpToolCallBegin { call_id: s("t"), server: s("srv"), tool: s("find") },
        "[mcp-begin] id=t server=srv tool=find",
    );
    shows(
        ServerEvent::McpToolCallEnd {
            call_id: s("t"),
            server: s("srv"),
            tool: s("find"),
            duration: CallDuration::from_millis(5),
            result: Ok(CallToolResult {
                content: vec![s("{}"), s("[]")],
                is_error: None,
                structured_content: None,
            }),
        },
        "[mcp-end] id=t server=srv tool=find duration=5ms result=ok blocks=2",
    );
    shows(
        ServerEvent::McpToolCallEnd {
            call_id: s("t"),
            server: s("srv"),
            tool: s("find"),
            duration: CallDuration::new(3, 25_000),
            result: Err(s("lost")),
        },
        &format!(
            "[mcp-end] id=t server=srv tool=find duration={:?} result=err=lost",
            Duration::new(3, 25_000)
        ),
    );
    assert_eq!(tool_outcome_line(&Err(s("x"))), "err=x");
    assert_eq!(
        mcp_end_line("a", "b", "c", "1s", "err=x"),
        "[mcp-end] id=a server=b tool=c duration=1s result=err=x"
    );
}

#[test]
fn approval_requests_are_shown() {
    shows(
        ServerEvent::ApprovalRequest {
            id: s("s1"),
            request: ApprovalRequest::Exec {
                call_id: s("e"),
                command: vec![s("rm"), s("x")],
                cwd: FilePath::from_text("/tmp"),
                reason: Some(s("danger")),
            },
        },
        "[approval-needed] id=s1 kind=exec call_id=e cwd=/tmp command=[\"rm\", \"x\"] \
         reason=danger",
    );
    let mut changes = FileChanges::new();
    changes.insert(FilePath::from_text("a"), FileChange::Add { content: s("") });
    changes.insert(FilePath::from_text("b"), FileChange::Add { content: s("") });
    shows(
        ServerEvent::ApprovalRequest {
            id: s("s2"),
            request: ApprovalRequest::Patch {
                call_id: s("p"),
                changes,
                reason: None,
                grant_root: Some(FilePath::from_text("/w")),
            },
        },
        "[approval-needed] id=s2 kind=patch call_id=p files=2 reason=<none> grant_root=/w",
    );
    assert_eq!(
        exec_approval_line("i", "c", "/", "[]", &None),
        "[approval-needed] id=i kind=exec call_id=c cwd=/ command=[] reason=<none>"
    );
    assert_eq!(
        patch_approval_line("i", "c", 10, &Some(s("r")), &None),
        "[approval-needed] id=i kind=patch call_id=c files=10 reason=r grant_root=<none>"
    );
}

#[test]
fn searches_and_counts_are_shown() {
    shows(ServerEvent::WebSearchBegin { call_id: s("w") }, "[web-search-begin] id=w");
    shows(
        ServerEvent::WebSearchEnd { call_id: s("w"), query: s("rust") },
        "[web-search-end] id=w query=rust",
    );
    shows(
        ServerEvent::TokenUsage {
            blended_total: 12,
            input: 3,
            cached_input: 0,
            output: 45,
            reasoning_output: u64::MAX,
        },
        "[token-usage] total=12 input=3 cached_input=0 output=45 reasoning=18446744073709551615",
    );
}

#[test]
fn complete_turns_are_shown() {
    for last_message in [None, Some(s("a\t\"b\""))] {
        shows(
            ServerEvent::TurnComplete { last_message: last_message.clone() },
            &format!("[turn-complete] last_message={:?}", last_message),
        );
    }
    assert_eq!(turn_complete_line("None"), "[turn-complete] last_message=None");
}

#[test]
fn plans_are_shown_step_by_step() {
    let steps = vec![
        PlanStep { step: s("read"), status: PlanStepStatus::Completed },
        PlanStep { step: s("write"), status: PlanStepStatus::InProgress },
        PlanStep { step: s("rest"), status: PlanStepStatus::Pending },
    ];
    shows(
        ServerEvent::PlanUpdate(PlanUpdate { explanation: Some(s("why")), steps: steps.clone() }),
        "[plan-update] explanation=Some(\"why\")\n  - [completed] read\n  - [in-progress] write\n  \
         - [pending] rest",
    );
    assert_eq!(plan_lines("None", &Vec::new()), "[plan-update] explanation=None");
    assert_eq!(format_plan_status(PlanStepStatus::InProgress), "in-progress");
}
