//! What is printed of each event, character by character.

use crate::changes::FileChangeEntryView;
use crate::event::{
    ApprovalRequestView, PlanStepStatus, PlanStepView, PlanUpdateView, ServerEventView,
};
use crate::protocol::{CallDuration, CallToolResultView, ExecOutputStream};
use crate::render::{
    event_channel, event_exit_code, event_text, exec_approval_text, exec_begin_text, mcp_end_text,
    patch_approval_text, plan_text, session_configured_text, shown_path, status_word, step_lines,
    stream_name, tool_outcome, turn_complete_text, Channel,
};
use crate::text::{decimal, duration_form, lossy_text, quoted, quoted_list};
use crate::text_laws::{decimals_tell_numbers_apart, options_are_printed};
use vstd::prelude::*;

verus! {

/// An event makes the program fail, with the exit code that says so, if and only if it is fatal;
/// it is printed as an error if and only if it is one.
pub proof fn only_fatal_errors_make_the_program_fail(event: ServerEventView)
    ensures
        event_exit_code(event) == Some(1u8) <==> event is Fatal,
        event_exit_code(event) is None <==> !(event is Fatal),
        event_channel(event) == Channel::Stderr <==> event is Fatal || event is StreamError,
        event_channel(event) == Channel::Stdout <==> !(event is Fatal || event is StreamError),
{
}

/// What the agent says is printed in its own words, behind what it is.
pub proof fn words_are_printed(words: Seq<char>)
    ensures
        event_text(ServerEventView::AgentMessageDelta(words)) == "[agent-delta] "@ + words,
        event_text(ServerEventView::AgentMessageFinal(words)) == "[agent-final] "@ + words,
        event_text(ServerEventView::AgentReasoningDelta(words)) == "[reasoning-delta] "@ + words,
        event_text(ServerEventView::AgentReasoningFinal(words)) == "[reasoning-final] "@ + words,
        event_text(ServerEventView::BackgroundMessage(words)) == "[background] "@ + words,
        event_text(ServerEventView::StreamError(words)) == "[stream-error] "@ + words,
        event_text(ServerEventView::Fatal { message: words }) == "[fatal] "@ + words,
        event_text(ServerEventView::TurnAborted { reason: words }) == "[turn-aborted] reason="@
            + words,
        event_text(ServerEventView::TurnDiff { unified_diff: words }) == "[turn-diff]\n"@ + words,
{
}

/// What has happened once and for all is printed as such.
pub proof fn milestones_are_printed()
    ensures
        event_text(ServerEventView::ReasoningSectionBreak) == "[reasoning-break]"@,
        event_text(ServerEventView::ShutdownComplete) == "[shutdown-complete]"@,
        event_text(ServerEventView::SessionEnded) == "[session-ended]"@,
        event_text(ServerEventView::StreamClosed { had_completion: true })
            == "[stream-closed] had_completion=true"@,
        event_text(ServerEventView::StreamClosed { had_completion: false })
            == "[stream-closed] had_completion=false"@,
{
    reveal_strlit("true");
    reveal_strlit("false");
    reveal_strlit("[stream-closed] had_completion=");
    reveal_strlit("[stream-closed] had_completion=true");
    reveal_strlit("[stream-closed] had_completion=false");
}

/// A configured session is printed with its model, its identifier and its rollout.
pub proof fn configurations_are_printed(
    model: Seq<char>,
    conversation_id: Seq<char>,
    shown: Seq<char>,
    rollout_path: Seq<u8>,
)
    ensures
        session_configured_text(model, conversation_id, shown) == "[session-configured] model="@
            + model + " conversation_id="@ + conversation_id + " rollout_path="@ + shown,
        event_text(ServerEventView::SessionConfigured { model, conversation_id, rollout_path })
            == "[session-configured] model="@ + model + " conversation_id="@ + conversation_id
            + " rollout_path="@ + lossy_text(rollout_path),
{
}

/// A command is printed with its identifier and all its words when it starts, with its code when
/// it ends, and with the stream and the text of what it writes in between.
pub proof fn commands_are_printed(
    call_id: Seq<char>,
    command: Seq<Seq<char>>,
    shown: Seq<char>,
    code: i32,
    text: Seq<char>,
)
    ensures
        exec_begin_text(call_id, shown) == "[exec-begin] id="@ + call_id + " command="@ + shown,
        event_text(ServerEventView::ExecCommandBegin { call_id, command }) == "[exec-begin] id="@
            + call_id + " command="@ + quoted_list(command),
        event_text(ServerEventView::ExecCommandEnd { call_id, exit_code: None })
            == "[exec-end] id="@ + call_id + " exit=None"@,
        code >= 0 ==> event_text(
            ServerEventView::ExecCommandEnd { call_id, exit_code: Some(code) },
        ) == "[exec-end] id="@ + call_id + " exit=Some("@ + decimal(code as nat) + ")"@,
        code < 0 ==> event_text(ServerEventView::ExecCommandEnd { call_id, exit_code: Some(code) })
            == "[exec-end] id="@ + call_id + " exit=Some(-"@ + decimal((-code) as nat) + ")"@,
        event_text(
            ServerEventView::ExecOutputChunk { call_id, stream: ExecOutputStream::Stdout, text },
        ) == "[exec-output] id="@ + call_id + " stream=Stdout "@ + text,
        event_text(
            ServerEventView::ExecOutputChunk { call_id, stream: ExecOutputStream::Stderr, text },
        ) == "[exec-output] id="@ + call_id + " stream=Stderr "@ + text,
        stream_name(ExecOutputStream::Stdout) == "Stdout"@,
        stream_name(ExecOutputStream::Stderr) == "Stderr"@,
{
    options_are_printed(text, code);
    reveal_strlit(" exit=");
    reveal_strlit("None");
    reveal_strlit(" exit=None");
    reveal_strlit("Some(");
    reveal_strlit(" exit=Some(");
    reveal_strlit("Some(-");
    reveal_strlit(" exit=Some(-");
    reveal_strlit(" stream=");
    reveal_strlit("Stdout");
    reveal_strlit("Stderr");
    reveal_strlit(" ");
    reveal_strlit(" stream=Stdout ");
    reveal_strlit(" stream=Stderr ");
    assert(" exit="@ + "None"@ =~= " exit=None"@);
    assert("[exec-end] id="@ + call_id + " exit="@ + "None"@ =~= "[exec-end] id="@ + call_id + (
    " exit="@ + "None"@));
    assert(" exit="@ + "Some("@ =~= " exit=Some("@);
    assert(" exit="@ + "Some(-"@ =~= " exit=Some(-"@);
    assert(" stream="@ + "Stdout"@ + " "@ =~= " stream=Stdout "@);
    assert(" stream="@ + "Stderr"@ + " "@ =~= " stream=Stderr "@);
    if code >= 0 {
        assert(event_text(ServerEventView::ExecCommandEnd { call_id, exit_code: Some(code) })
            =~= "[exec-end] id="@ + call_id + " exit=Some("@ + decimal(code as nat) + ")"@);
    } else {
        assert(event_text(ServerEventView::ExecCommandEnd { call_id, exit_code: Some(code) })
            =~= "[exec-end] id="@ + call_id + " exit=Some(-"@ + decimal((-code) as nat) + ")"@);
    }
    assert(event_text(
        ServerEventView::ExecOutputChunk { call_id, stream: ExecOutputStream::Stdout, text },
    ) =~= "[exec-output] id="@ + call_id + " stream=Stdout "@ + text);
    assert(event_text(
        ServerEventView::ExecOutputChunk { call_id, stream: ExecOutputStream::Stderr, text },
    ) =~= "[exec-output] id="@ + call_id + " stream=Stderr "@ + text);
}

/// A patch is printed with whether policy approved it and whether it applied, so that a failed
/// one is told from one that applied.
pub proof fn patches_are_printed(call_id: Seq<char>)
    ensures
        event_text(ServerEventView::PatchApplyBegin { call_id, auto_approved: true })
            == "[patch-begin] id="@ + call_id + " auto_approved=true"@,
        event_text(ServerEventView::PatchApplyBegin { call_id, auto_approved: false })
            == "[patch-begin] id="@ + call_id + " auto_approved=false"@,
        event_text(ServerEventView::PatchApplyEnd { call_id, success: true })
            == "[patch-end] id="@ + call_id + " success=true"@,
        event_text(ServerEventView::PatchApplyEnd { call_id, success: false })
            == "[patch-end] id="@ + call_id + " success=false"@,
        event_text(ServerEventView::PatchApplyEnd { call_id, success: true }) != event_text(
            ServerEventView::PatchApplyEnd { call_id, success: false },
        ),
{
    reveal_strlit("true");
    reveal_strlit("false");
    reveal_strlit(" auto_approved=");
    reveal_strlit(" auto_approved=true");
    reveal_strlit(" auto_approved=false");
    reveal_strlit(" success=");
    reveal_strlit(" success=true");
    reveal_strlit(" success=false");
    let applied = event_text(ServerEventView::PatchApplyEnd { call_id, success: true });
    let failed = event_text(ServerEventView::PatchApplyEnd { call_id, success: false });
    assert(applied =~= "[patch-end] id="@ + call_id + " success=true"@);
    assert(failed =~= "[patch-end] id="@ + call_id + " success=false"@);
    assert(applied.len() != failed.len());
}

/// A tool call is printed with its server and its tool, and in the end with how long it took and
/// either how many blocks it returned or its error.
pub proof fn tool_calls_are_printed(
    call_id: Seq<char>,
    server: Seq<char>,
    tool: Seq<char>,
    shown: Seq<char>,
    outcome: Seq<char>,
    duration: CallDuration,
    result: CallToolResultView,
    error: Seq<char>,
)
    ensures
        event_text(ServerEventView::McpToolCallBegin { call_id, server, tool })
            == "[mcp-begin] id="@ + call_id + " server="@ + server + " tool="@ + tool,
        mcp_end_text(call_id, server, tool, shown, outcome) == "[mcp-end] id="@ + call_id
            + " server="@ + server + " tool="@ + tool + " duration="@ + shown + " result="@
            + outcome,
        tool_outcome(Ok(result)) == "ok blocks="@ + decimal(result.content.len()),
        tool_outcome(Err(error)) == "err="@ + error,
        event_text(
            ServerEventView::McpToolCallEnd { call_id, server, tool, duration, result: Ok(result) },
        ) == "[mcp-end] id="@ + call_id + " server="@ + server + " tool="@ + tool + " duration="@
            + duration_form(duration.spec_secs(), duration.spec_nanos()) + " result="@ + (
        "ok blocks="@ + decimal(result.content.len())),
        event_text(
            ServerEventView::McpToolCallEnd { call_id, server, tool, duration, result: Err(error) },
        ) == "[mcp-end] id="@ + call_id + " server="@ + server + " tool="@ + tool + " duration="@
            + duration_form(duration.spec_secs(), duration.spec_nanos()) + " result="@ + ("err="@
            + error),
{
}

/// What needs approval is printed with the submission to answer to and all there is to decide
/// on: the command and where it runs, or the number of files and the root asked for, and why.
pub proof fn approval_requests_are_printed(
    id: Seq<char>,
    call_id: Seq<char>,
    command: Seq<Seq<char>>,
    cwd: Seq<u8>,
    changes: Map<Seq<Seq<u8>>, FileChangeEntryView>,
    why: Seq<char>,
    root: Seq<u8>,
)
    ensures
        event_text(
            ServerEventView::ApprovalRequest {
                id,
                request: ApprovalRequestView::Exec { call_id, command, cwd, reason: Some(why) },
            },
        ) == "[approval-needed] id="@ + id + " kind=exec call_id="@ + call_id + " cwd="@
            + lossy_text(cwd) + " command="@ + quoted_list(command) + " reason="@ + why,
        event_text(
            ServerEventView::ApprovalRequest {
                id,
                request: ApprovalRequestView::Exec { call_id, command, cwd, reason: None },
            },
        ) == "[approval-needed] id="@ + id + " kind=exec call_id="@ + call_id + " cwd="@
            + lossy_text(cwd) + " command="@ + quoted_list(command) + " reason="@ + "<none>"@,
        event_text(
            ServerEventView::ApprovalRequest {
                id,
                request: ApprovalRequestView::Patch {
                    call_id,
                    changes,
                    reason: Some(why),
                    grant_root: Some(root),
                },
            },
        ) == "[approval-needed] id="@ + id + " kind=patch call_id="@ + call_id + " files="@
            + decimal(changes.len()) + " reason="@ + why + " grant_root="@ + lossy_text(root),
        event_text(
            ServerEventView::ApprovalRequest {
                id,
                request: ApprovalRequestView::Patch {
                    call_id,
                    changes,
                    reason: None,
                    grant_root: Some(root),
                },
            },
        ) == "[approval-needed] id="@ + id + " kind=patch call_id="@ + call_id + " files="@
            + decimal(changes.len()) + " reason="@ + "<none>"@ + " grant_root="@ + lossy_text(root),
        event_text(
            ServerEventView::ApprovalRequest {
                id,
                request: ApprovalRequestView::Patch {
                    call_id,
                    changes,
                    reason: Some(why),
                    grant_root: None,
                },
            },
        ) == "[approval-needed] id="@ + id + " kind=patch call_id="@ + call_id + " files="@
            + decimal(changes.len()) + " reason="@ + why + " grant_root="@ + "<none>"@,
        event_text(
            ServerEventView::ApprovalRequest {
                id,
                request: ApprovalRequestView::Patch {
                    call_id,
                    changes,
                    reason: None,
                    grant_root: None,
                },
            },
        ) == "[approval-needed] id="@ + id + " kind=patch call_id="@ + call_id + " files="@
            + decimal(changes.len()) + " reason="@ + "<none>"@ + " grant_root="@ + "<none>"@,
        shown_path(Some(root)) == Some(lossy_text(root)),
        shown_path(None) is None,
{
}

/// The lines for approvals hold whatever they are given, each in its place.
pub proof fn approval_lines_hold_their_parts(
    id: Seq<char>,
    call_id: Seq<char>,
    cwd: Seq<char>,
    command: Seq<char>,
    files: nat,
    why: Seq<char>,
    root: Seq<char>,
)
    ensures
        exec_approval_text(id, call_id, cwd, command, Some(why)) == "[approval-needed] id="@ + id
            + " kind=exec call_id="@ + call_id + " cwd="@ + cwd + " command="@ + command
            + " reason="@ + why,
        exec_approval_text(id, call_id, cwd, command, None) == "[approval-needed] id="@ + id
            + " kind=exec call_id="@ + call_id + " cwd="@ + cwd + " command="@ + command
            + " reason="@ + "<none>"@,
        patch_approval_text(id, call_id, files, Some(why), Some(root)) == "[approval-needed] id="@
            + id + " kind=patch call_id="@ + call_id + " files="@ + decimal(files) + " reason="@
            + why + " grant_root="@ + root,
        patch_approval_text(id, call_id, files, None, Some(root)) == "[approval-needed] id="@ + id
            + " kind=patch call_id="@ + call_id + " files="@ + decimal(files) + " reason="@
            + "<none>"@ + " grant_root="@ + root,
        patch_approval_text(id, call_id, files, Some(why), None) == "[approval-needed] id="@ + id
            + " kind=patch call_id="@ + call_id + " files="@ + decimal(files) + " reason="@ + why
            + " grant_root="@ + "<none>"@,
        patch_approval_text(id, call_id, files, None, None) == "[approval-needed] id="@ + id
            + " kind=patch call_id="@ + call_id + " files="@ + decimal(files) + " reason="@
            + "<none>"@ + " grant_root="@ + "<none>"@,
{
}

/// Web searches are printed with what was searched for.
pub proof fn searches_are_printed(call_id: Seq<char>, query: Seq<char>)
    ensures
        event_text(ServerEventView::WebSearchBegin { call_id }) == "[web-search-begin] id="@
            + call_id,
        event_text(ServerEventView::WebSearchEnd { call_id, query }) == "[web-search-end] id="@
            + call_id + " query="@ + query,
{
}

/// Every token count is printed in decimal under its own name.
pub proof fn token_counts_are_printed(
    blended_total: u64,
    input: u64,
    cached_input: u64,
    output: u64,
    reasoning_output: u64,
)
    ensures
        event_text(
            ServerEventView::TokenUsage {
                blended_total,
                input,
                cached_input,
                output,
                reasoning_output,
            },
        ) == "[token-usage] total="@ + decimal(blended_total as nat) + " input="@ + decimal(
            input as nat,
        ) + " cached_input="@ + decimal(cached_input as nat) + " output="@ + decimal(output as nat)
            + " reasoning="@ + decimal(reasoning_output as nat),
{
}

/// A complete turn is printed with its last message, quoted, or with the word for none.
pub proof fn complete_turns_are_printed(shown: Seq<char>, message: Seq<char>)
    ensures
        turn_complete_text(shown) == "[turn-complete] last_message="@ + shown,
        event_text(ServerEventView::TurnComplete { last_message: None })
            == "[turn-complete] last_message="@ + "None"@,
        event_text(ServerEventView::TurnComplete { last_message: Some(message) })
            == "[turn-complete] last_message="@ + ("Some("@ + quoted(message) + ")"@),
{
}

/// A plan is printed with its explanation, and below it every step in its place, with the word
/// for its status and its own words.
pub proof fn plans_are_printed_step_by_step(
    shown: Seq<char>,
    why: Seq<char>,
    steps: Seq<PlanStepView>,
    step: Seq<char>,
)
    ensures
        plan_text(shown, steps) == "[plan-update] explanation="@ + shown + step_lines(steps),
        event_text(
            ServerEventView::PlanUpdate(PlanUpdateView { explanation: Some(why), steps }),
        ) == "[plan-update] explanation="@ + ("Some("@ + quoted(why) + ")"@) + step_lines(steps),
        event_text(ServerEventView::PlanUpdate(PlanUpdateView { explanation: None, steps }))
            == "[plan-update] explanation="@ + "None"@ + step_lines(steps),
        step_lines(Seq::empty()) == Seq::<char>::empty(),
        step_lines(steps.push(PlanStepView { step, status: PlanStepStatus::Pending }))
            == step_lines(steps) + "\n  - ["@ + "pending"@ + "] "@ + step,
        step_lines(steps.push(PlanStepView { step, status: PlanStepStatus::InProgress }))
            == step_lines(steps) + "\n  - ["@ + "in-progress"@ + "] "@ + step,
        step_lines(steps.push(PlanStepView { step, status: PlanStepStatus::Completed }))
            == step_lines(steps) + "\n  - ["@ + "completed"@ + "] "@ + step,
        status_word(PlanStepStatus::Pending) == "pending"@,
        status_word(PlanStepStatus::InProgress) == "in-progress"@,
        status_word(PlanStepStatus::Completed) == "completed"@,
{
    let pending = PlanStepView { step, status: PlanStepStatus::Pending };
    let busy = PlanStepView { step, status: PlanStepStatus::InProgress };
    let done = PlanStepView { step, status: PlanStepStatus::Completed };
    assert(steps.push(pending).drop_last() =~= steps);
    assert(steps.push(busy).drop_last() =~= steps);
    assert(steps.push(done).drop_last() =~= steps);
}

/// Commands that end with different codes are printed differently.
pub proof fn printed_codes_are_told_apart(call_id: Seq<char>, code: i32, other: i32)
    requires
        code >= 0 && other >= 0,
        code != other,
    ensures
        event_text(ServerEventView::ExecCommandEnd { call_id, exit_code: Some(code) })
            != event_text(ServerEventView::ExecCommandEnd { call_id, exit_code: Some(other) }),
{
    let front = "[exec-end] id="@ + call_id + " exit=Some("@;
    let a = decimal(code as nat);
    let b = decimal(other as nat);
    commands_are_printed(call_id, Seq::empty(), Seq::empty(), code, Seq::empty());
    commands_are_printed(call_id, Seq::empty(), Seq::empty(), other, Seq::empty());
    decimals_tell_numbers_apart(code as nat, other as nat);
    let x = front + a + ")"@;
    let y = front + b + ")"@;
    if x == y {
        reveal_strlit(")");
        assert(x.subrange(front.len() as int, x.len() - 1) =~= a);
        assert(y.subrange(front.len() as int, y.len() - 1) =~= b);
    }
}

} // verus!
