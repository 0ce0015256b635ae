//! How the command line shows an event: where it prints, what, and whether the event makes the
//! program fail.

use crate::event::{
    plan_steps, ApprovalRequest, ApprovalRequestView, PlanStep, PlanStepStatus, PlanStepView,
    ServerEvent, ServerEventView,
};
use crate::protocol::{CallToolResult, CallToolResultView, ExecOutputStream};
use crate::text::{
    decimal, decimal_text, duration_form, lossy_text, number_option, number_option_text, opt_text,
    quoted_list, quoted_list_text, quoted_option, quoted_option_text, show_duration, text_or_none,
    text_or_none_text, truth, truth_text,
};
use vstd::prelude::*;
use vstd::string::*;

verus! {

/// Where the command line prints.
#[derive(Debug, Clone, Copy, PartialEq, Eq)]
pub enum Channel {
    /// Standard output.
    Stdout,
    /// Standard error.
    Stderr,
}

/// How an event is shown.
#[derive(Debug, PartialEq, Eq)]
pub struct EventReport {
    /// Where it is printed.
    pub channel: Channel,
    /// What is printed, without the line end.
    pub text: String,
    /// The exit code that the event calls for, if it calls for one.
    pub exit_code: Option<u8>,
}

/// The exit code of a program that did its work.
pub const EXIT_SUCCESS: u8 = 0;

/// The exit code of a program that failed.
pub const EXIT_FAILURE: u8 = 1;

/// Errors go to standard error, all else to standard output.
pub open spec fn event_channel(event: ServerEventView) -> Channel {
    if event is StreamError || event is Fatal {
        Channel::Stderr
    } else {
        Channel::Stdout
    }
}

/// A fatal error makes the program fail; nothing else does.
pub open spec fn event_exit_code(event: ServerEventView) -> Option<u8> {
    if event is Fatal {
        Some(EXIT_FAILURE)
    } else {
        None
    }
}

/// The word for a step status.
pub open spec fn status_word(status: PlanStepStatus) -> Seq<char> {
    match status {
        PlanStepStatus::Pending => "pending"@,
        PlanStepStatus::InProgress => "in-progress"@,
        PlanStepStatus::Completed => "completed"@,
    }
}

/// The name of an output stream.
pub open spec fn stream_name(stream: ExecOutputStream) -> Seq<char> {
    match stream {
        ExecOutputStream::Stdout => "Stdout"@,
        ExecOutputStream::Stderr => "Stderr"@,
    }
}

/// The line for a configured session, given its rollout path as text.
pub open spec fn session_configured_text(
    model: Seq<char>,
    conversation_id: Seq<char>,
    rollout_path: Seq<char>,
) -> Seq<char> {
    "[session-configured] model="@ + model + " conversation_id="@ + conversation_id
        + " rollout_path="@ + rollout_path
}

/// The line for a starting command, given its printed argv.
pub open spec fn exec_begin_text(call_id: Seq<char>, command: Seq<char>) -> Seq<char> {
    "[exec-begin] id="@ + call_id + " command="@ + command
}

/// What came of a tool call.
pub open spec fn tool_outcome(result: Result<CallToolResultView, Seq<char>>) -> Seq<char> {
    match result {
        Ok(res) => "ok blocks="@ + decimal(res.content.len()),
        Err(err) => "err="@ + err,
    }
}

/// The line for a finished tool call, given its printed duration.
pub open spec fn mcp_end_text(
    call_id: Seq<char>,
    server: Seq<char>,
    tool: Seq<char>,
    duration: Seq<char>,
    outcome: Seq<char>,
) -> Seq<char> {
    "[mcp-end] id="@ + call_id + " server="@ + server + " tool="@ + tool + " duration="@ + duration
        + " result="@ + outcome
}

/// The line for a command that needs approval, given its working directory as text and its
/// printed argv.
pub open spec fn exec_approval_text(
    id: Seq<char>,
    call_id: Seq<char>,
    cwd: Seq<char>,
    command: Seq<char>,
    reason: Option<Seq<char>>,
) -> Seq<char> {
    "[approval-needed] id="@ + id + " kind=exec call_id="@ + call_id + " cwd="@ + cwd
        + " command="@ + command + " reason="@ + text_or_none(reason)
}

/// The line for a patch that needs approval, given the number of its files and the root it asks
/// for as text.
pub open spec fn patch_approval_text(
    id: Seq<char>,
    call_id: Seq<char>,
    files: nat,
    reason: Option<Seq<char>>,
    grant_root: Option<Seq<char>>,
) -> Seq<char> {
    "[approval-needed] id="@ + id + " kind=patch call_id="@ + call_id + " files="@ + decimal(files)
        + " reason="@ + text_or_none(reason) + " grant_root="@ + text_or_none(grant_root)
}

/// The line for a complete turn, given its printed last message.
pub open spec fn turn_complete_text(last_message: Seq<char>) -> Seq<char> {
    "[turn-complete] last_message="@ + last_message
}

/// The lines of plan steps, each after a line break.
pub open spec fn step_lines(steps: Seq<PlanStepView>) -> Seq<char>
    decreases steps.len(),
{
    if steps.len() == 0 {
        Seq::empty()
    } else {
        step_lines(steps.drop_last()) + "\n  - ["@ + status_word(steps.last().status) + "] "@
            + steps.last().step
    }
}

/// The lines for a plan, given its printed explanation.
pub open spec fn plan_text(explanation: Seq<char>, steps: Seq<PlanStepView>) -> Seq<char> {
    "[plan-update] explanation="@ + explanation + step_lines(steps)
}

/// The view of an optional path as text for a reader.
pub open spec fn shown_path(p: Option<Seq<u8>>) -> Option<Seq<char>> {
    match p {
        Some(bytes) => Some(lossy_text(bytes)),
        None => None,
    }
}

/// What is printed of an event.
pub open spec fn event_text(event: ServerEventView) -> Seq<char> {
    match event {
        ServerEventView::SessionConfigured { model, conversation_id, rollout_path } =>
        session_configured_text(model, conversation_id, lossy_text(rollout_path)),
        ServerEventView::AgentMessageDelta(text) => "[agent-delta] "@ + text,
        ServerEventView::AgentMessageFinal(text) => "[agent-final] "@ + text,
        ServerEventView::AgentReasoningDelta(text) => "[reasoning-delta] "@ + text,
        ServerEventView::AgentReasoningFinal(text) => "[reasoning-final] "@ + text,
        ServerEventView::ExecCommandBegin { call_id, command } => exec_begin_text(
            call_id,
            quoted_list(command),
        ),
        ServerEventView::ExecCommandEnd { call_id, exit_code } => "[exec-end] id="@ + call_id
            + " exit="@ + number_option(exit_code),
        ServerEventView::ExecOutputChunk { call_id, stream, text } => "[exec-output] id="@
            + call_id + " stream="@ + stream_name(stream) + " "@ + text,
        ServerEventView::PatchApplyBegin { call_id, auto_approved } => "[patch-begin] id="@
            + call_id + " auto_approved="@ + truth(auto_approved),
        ServerEventView::PatchApplyEnd { call_id, success } => "[patch-end] id="@ + call_id
            + " success="@ + truth(success),
        ServerEventView::McpToolCallBegin { call_id, server, tool } => "[mcp-begin] id="@ + call_id
            + " server="@ + server + " tool="@ + tool,
        ServerEventView::McpToolCallEnd { call_id, server, tool, duration, result } =>
        mcp_end_text(
            call_id,
            server,
            tool,
            duration_form(duration.spec_secs(), duration.spec_nanos()),
            tool_outcome(result),
        ),
        ServerEventView::ApprovalRequest { id, request } => match request {
            ApprovalRequestView::Exec { call_id, command, cwd, reason } => exec_approval_text(
                id,
                call_id,
                lossy_text(cwd),
                quoted_list(command),
                reason,
            ),
            ApprovalRequestView::Patch { call_id, changes, reason, grant_root } =>
            patch_approval_text(id, call_id, changes.len(), reason, shown_path(grant_root)),
        },
        ServerEventView::ReasoningSectionBreak => "[reasoning-break]"@,
        ServerEventView::WebSearchBegin { call_id } => "[web-search-begin] id="@ + call_id,
        ServerEventView::WebSearchEnd { call_id, query } => "[web-search-end] id="@ + call_id
            + " query="@ + query,
        ServerEventView::TokenUsage {
            blended_total,
            input,
            cached_input,
            output,
            reasoning_output,
        } => "[token-usage] total="@ + decimal(blended_total as nat) + " input="@ + decimal(
            input as nat,
        ) + " cached_input="@ + decimal(cached_input as nat) + " output="@ + decimal(output as nat)
            + " reasoning="@ + decimal(reasoning_output as nat),
        ServerEventView::TurnComplete { last_message } => turn_complete_text(
            quoted_option(last_message),
        ),
        ServerEventView::TurnAborted { reason } => "[turn-aborted] reason="@ + reason,
        ServerEventView::TurnDiff { unified_diff } => "[turn-diff]\n"@ + unified_diff,
        ServerEventView::PlanUpdate(update) => plan_text(
            quoted_option(update.explanation),
            update.steps,
        ),
        ServerEventView::BackgroundMessage(message) => "[background] "@ + message,
        ServerEventView::StreamError(message) => "[stream-error] "@ + message,
        ServerEventView::StreamClosed { had_completion } => "[stream-closed] had_completion="@
            + truth(had_completion),
        ServerEventView::ShutdownComplete => "[shutdown-complete]"@,
        ServerEventView::SessionEnded => "[session-ended]"@,
        ServerEventView::Fatal { message } => "[fatal] "@ + message,
    }
}

/// The word for a step status.
pub fn format_plan_status(status: PlanStepStatus) -> (r: &'static str)
    ensures
        r@ == status_word(status),
{
    match status {
        PlanStepStatus::Pending => "pending",
        PlanStepStatus::InProgress => "in-progress",
        PlanStepStatus::Completed => "completed",
    }
}

/// The line for a configured session, given its rollout path as text.
pub fn session_configured_line(model: &str, conversation_id: &str, rollout_path: &str) -> (r:
    String)
    ensures
        r@ == session_configured_text(model@, conversation_id@, rollout_path@),
{
    let mut r = String::from_str("[session-configured] model=");
    r.append(model);
    r.append(" conversation_id=");
    r.append(conversation_id);
    r.append(" rollout_path=");
    r.append(rollout_path);
    r
}

/// The line for a starting command, given its printed argv.
pub fn exec_begin_line(call_id: &str, command: &str) -> (r: String)
    ensures
        r@ == exec_begin_text(call_id@, command@),
{
    let mut r = String::from_str("[exec-begin] id=");
    r.append(call_id);
    r.append(" command=");
    r.append(command);
    r
}

/// What came of a tool call.
pub fn tool_outcome_line(result: &Result<CallToolResult, String>) -> (r: String)
    ensures
        r@ == tool_outcome(crate::protocol::tool_result(*result)),
{
    match result {
        Ok(res) => {
            let mut r = String::from_str("ok blocks=");
            r.append(decimal_text(res.content.len() as u64).as_str());
            r
        },
        Err(err) => {
            let mut r = String::from_str("err=");
            r.append(err.as_str());
            r
        },
    }
}

/// The line for a finished tool call, given its printed duration and what came of it.
pub fn mcp_end_line(call_id: &str, server: &str, tool: &str, duration: &str, outcome: &str) -> (r:
    String)
    ensures
        r@ == mcp_end_text(call_id@, server@, tool@, duration@, outcome@),
{
    let mut r = String::from_str("[mcp-end] id=");
    r.append(call_id);
    r.append(" server=");
    r.append(server);
    r.append(" tool=");
    r.append(tool);
    r.append(" duration=");
    r.append(duration);
    r.append(" result=");
    r.append(outcome);
    r
}

/// The line for a command that needs approval, given its working directory as text and its
/// printed argv.
pub fn exec_approval_line(
    id: &str,
    call_id: &str,
    cwd: &str,
    command: &str,
    reason: &Option<String>,
) -> (r: String)
    ensures
        r@ == exec_approval_text(id@, call_id@, cwd@, command@, opt_text(*reason)),
{
    let mut r = String::from_str("[approval-needed] id=");
    r.append(id);
    r.append(" kind=exec call_id=");
    r.append(call_id);
    r.append(" cwd=");
    r.append(cwd);
    r.append(" command=");
    r.append(command);
    r.append(" reason=");
    r.append(text_or_none_text(reason));
    r
}

/// The line for a patch that needs approval, given the number of its files and the root it asks
/// for as text.
pub fn patch_approval_line(
    id: &str,
    call_id: &str,
    files: u64,
    reason: &Option<String>,
    grant_root: &Option<String>,
) -> (r: String)
    ensures
        r@ == patch_approval_text(
            id@,
            call_id@,
            files as nat,
            opt_text(*reason),
            opt_text(*grant_root),
        ),
{
    let mut r = String::from_str("[approval-needed] id=");
    r.append(id);
    r.append(" kind=patch call_id=");
    r.append(call_id);
    r.append(" files=");
    r.append(decimal_text(files).as_str());
    r.append(" reason=");
    r.append(text_or_none_text(reason));
    r.append(" grant_root=");
    r.append(text_or_none_text(grant_root));
    r
}

/// The line for a complete turn, given its printed last message.
pub fn turn_complete_line(last_message: &str) -> (r: String)
    ensures
        r@ == turn_complete_text(last_message@),
{
    let mut r = String::from_str("[turn-complete] last_message=");
    r.append(last_message);
    r
}

/// The lines for a plan, given its printed explanation.
pub fn plan_lines(explanation: &str, steps: &Vec<PlanStep>) -> (r: String)
    ensures
        r@ == plan_text(explanation@, plan_steps(steps@)),
{
    let mut r = String::from_str("[plan-update] explanation=");
    r.append(explanation);
    let ghost head = r@;
    let ghost all = plan_steps(steps@);
    let mut i: usize = 0;
    assert(all.take(0).len() == 0);
    assert(head + step_lines(all.take(0)) =~= head);
    while i < steps.len()
        invariant
            i <= steps.len(),
            all == plan_steps(steps@),
            r@ == head + step_lines(all.take(i as int)),
        decreases steps.len() - i,
    {
        let ghost before = all.take(i as int);
        let ghost after = all.take(i + 1);
        assert(after.drop_last() =~= before);
        assert(after.last() == steps@[i as int]@);
        r.append("\n  - [");
        r.append(format_plan_status(steps[i].status));
        r.append("] ");
        r.append(steps[i].step.as_str());
        assert(r@ =~= head + step_lines(after));
        i = i + 1;
    }
    assert(all.take(i as int) =~= all);
    r
}

/// A text after its tag.
fn tagged(tag: &str, text: &str) -> (r: String)
    ensures
        r@ == tag@ + text@,
{
    let mut r = String::from_str(tag);
    r.append(text);
    r
}

/// Prints an approval request.
fn approval_line(id: &str, request: &ApprovalRequest) -> (r: String)
    ensures
        r@ == event_text(ServerEventView::ApprovalRequest { id: id@, request: request@ }),
{
    match request {
        ApprovalRequest::Exec { call_id, command, cwd, reason } => exec_approval_line(
            id,
            call_id.as_str(),
            cwd.display().as_str(),
            quoted_list_text(command).as_str(),
            reason,
        ),
        ApprovalRequest::Patch { call_id, changes, reason, grant_root } => {
            let root: Option<String> = match grant_root {
                Some(path) => Some(path.display()),
                None => None,
            };
            patch_approval_line(id, call_id.as_str(), changes.len() as u64, reason, &root)
        },
    }
}

/// Prints token counts.
fn token_usage_line(
    blended_total: u64,
    input: u64,
    cached_input: u64,
    output: u64,
    reasoning_output: u64,
) -> (r: String)
    ensures
        r@ == event_text(
            ServerEventView::TokenUsage {
                blended_total,
                input,
                cached_input,
                output,
                reasoning_output,
            },
        ),
{
    let mut r = String::from_str("[token-usage] total=");
    r.append(decimal_text(blended_total).as_str());
    r.append(" input=");
    r.append(decimal_text(input).as_str());
    r.append(" cached_input=");
    r.append(decimal_text(cached_input).as_str());
    r.append(" output=");
    r.append(decimal_text(output).as_str());
    r.append(" reasoning=");
    r.append(decimal_text(reasoning_output).as_str());
    r
}

/// Prints an event.
fn event_line(event: &ServerEvent) -> (r: String)
    ensures
        r@ == event_text(event@),
{
    match event {
        ServerEvent::SessionConfigured { model, conversation_id, rollout_path } =>
        session_configured_line(
            model.as_str(),
            conversation_id.as_str(),
            rollout_path.display().as_str(),
        ),
        ServerEvent::AgentMessageDelta(text) => tagged("[agent-delta] ", text.as_str()),
        ServerEvent::AgentMessageFinal(text) => tagged("[agent-final] ", text.as_str()),
        ServerEvent::AgentReasoningDelta(text) => tagged("[reasoning-delta] ", text.as_str()),
        ServerEvent::AgentReasoningFinal(text) => tagged("[reasoning-final] ", text.as_str()),
        ServerEvent::ExecCommandBegin { call_id, command } => exec_begin_line(
            call_id.as_str(),
            quoted_list_text(command).as_str(),
        ),
        ServerEvent::ExecCommandEnd { call_id, exit_code } => {
            let mut r = tagged("[exec-end] id=", call_id.as_str());
            r.append(" exit=");
            r.append(number_option_text(*exit_code).as_str());
            r
        },
        ServerEvent::ExecOutputChunk { call_id, stream, text } => {
            let mut r = tagged("[exec-output] id=", call_id.as_str());
            r.append(" stream=");
            r.append(
                match stream {
                    ExecOutputStream::Stdout => "Stdout",
                    ExecOutputStream::Stderr => "Stderr",
                },
            );
            r.append(" ");
            r.append(text.as_str());
            r
        },
        ServerEvent::PatchApplyBegin { call_id, auto_approved } => {
            let mut r = tagged("[patch-begin] id=", call_id.as_str());
            r.append(" auto_approved=");
            r.append(truth_text(*auto_approved));
            r
        },
        ServerEvent::PatchApplyEnd { call_id, success } => {
            let mut r = tagged("[patch-end] id=", call_id.as_str());
            r.append(" success=");
            r.append(truth_text(*success));
            r
        },
        ServerEvent::McpToolCallBegin { call_id, server, tool } => {
            let mut r = tagged("[mcp-begin] id=", call_id.as_str());
            r.append(" server=");
            r.append(server.as_str());
            r.append(" tool=");
            r.append(tool.as_str());
            r
        },
        ServerEvent::McpToolCallEnd { call_id, server, tool, duration, result } => mcp_end_line(
            call_id.as_str(),
            server.as_str(),
            tool.as_str(),
            show_duration(duration.secs(), duration.nanos()).as_str(),
            tool_outcome_line(result).as_str(),
        ),
        ServerEvent::ApprovalRequest { id, request } => approval_line(id.as_str(), request),
        ServerEvent::ReasoningSectionBreak => String::from_str("[reasoning-break]"),
        ServerEvent::WebSearchBegin { call_id } => tagged(
            "[web-search-begin] id=",
            call_id.as_str(),
        ),
        ServerEvent::WebSearchEnd { call_id, query } => {
            let mut r = tagged("[web-search-end] id=", call_id.as_str());
            r.append(" query=");
            r.append(query.as_str());
            r
        },
        ServerEvent::TokenUsage { blended_total, input, cached_input, output, reasoning_output } =>
        token_usage_line(*blended_total, *input, *cached_input, *output, *reasoning_output),
        ServerEvent::TurnComplete { last_message } => turn_complete_line(
            quoted_option_text(last_message).as_str(),
        ),
        ServerEvent::TurnAborted { reason } => tagged("[turn-aborted] reason=", reason.as_str()),
        ServerEvent::TurnDiff { unified_diff } => tagged("[turn-diff]\n", unified_diff.as_str()),
        ServerEvent::PlanUpdate(update) => plan_lines(
            quoted_option_text(&update.explanation).as_str(),
            &update.steps,
        ),
        ServerEvent::BackgroundMessage(message) => tagged("[background] ", message.as_str()),
        ServerEvent::StreamError(message) => tagged("[stream-error] ", message.as_str()),
        ServerEvent::StreamClosed { had_completion } => tagged(
            "[stream-closed] had_completion=",
            truth_text(*had_completion),
        ),
        ServerEvent::ShutdownComplete => String::from_str("[shutdown-complete]"),
        ServerEvent::SessionEnded => String::from_str("[session-ended]"),
        ServerEvent::Fatal { message } => tagged("[fatal] ", message.as_str()),
    }
}

/// Decides how an event is shown, and whether it makes the program fail.
pub fn handle_event(event: &ServerEvent) -> (r: EventReport)
    ensures
        r.channel == event_channel(event@),
        r.text@ == event_text(event@),
        r.exit_code == event_exit_code(event@),
{
    let text = event_line(event);
    match event {
        ServerEvent::Fatal { .. } => EventReport {
            channel: Channel::Stderr,
            text,
            exit_code: Some(EXIT_FAILURE),
        },
        ServerEvent::StreamError(_) => EventReport {
            channel: Channel::Stderr,
            text,
            exit_code: None,
        },
        _ => EventReport { channel: Channel::Stdout, text, exit_code: None },
    }
}

} // verus!
