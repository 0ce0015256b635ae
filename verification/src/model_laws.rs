//! What the models hold of the values they stand for: everything.

use crate::agent::{
    agent_effects, AgentEffect, AgentEffectView, AgentInput, AgentInputView, AgentLoop, AgentPhase,
    AgentPhaseView, AgentRequest, AgentRequestView, JoinOutcome, JoinOutcomeView,
};
use crate::changes::{
    as_map, distinct_paths, included, lemma_map_len, lemma_map_update, same_change, FileChange,
    FileChangeEntry, FileChangeEntryView, FileChangeView, FileChanges,
};
use crate::cli::{
    received_view, CliInput, CliInputView, CliRequest, CliRequestView, CliStep, CliStepView,
    Notice, NoticeView, PromptLine, PromptLineView,
};
use crate::command::{ClientCommand, ClientCommandView};
use crate::config::{
    ConfigOverrides, ConfigOverridesView, OssDefaults, OssDefaultsView, SessionConfig,
    SessionConfigView,
};
use crate::event::{
    plan_steps, server_events, ApprovalRequest, ApprovalRequestView, PlanStep, PlanStepView,
    PlanUpdate, PlanUpdateView, ServerEvent, ServerEventView,
};
use crate::path::{byte_strings, components, opt_components, opt_path, paths, FilePath};
use crate::protocol::{
    input_items, plan_items, tool_result, CallToolResult, CallToolResultView, EventMsg,
    EventMsgView, InputItem, InputItemView, McpInvocation, McpInvocationView, Op, OpView,
    PlanItemArg, PlanItemArgView, SessionConfiguredEvent, SessionConfiguredEventView,
    UpdatePlanArgs, UpdatePlanArgsView,
};
use crate::startup::{
    BridgeAction, BridgeActionView, BridgeInput, BridgeInputView, EventBridgeAction,
    EventBridgeActionView, EventBridgeInput, EventBridgeInputView, SessionStartError,
    SessionStartErrorView, Startup, StartupInput, StartupInputView, StartupStep, StartupStepView,
    StartupView,
};
use crate::stream::{yielded, AgentEvent, AgentEventView};
use crate::text::{opt_str, opt_text, texts};
use vstd::prelude::*;
use vstd::std_specs::cmp::PartialEqSpec;

verus! {

// ---- Lists and options ----

/// The model of a list holds every text in its place, and no other.
pub proof fn texts_models_hold_every_item(items: Seq<String>)
    ensures
        texts(items).len() == items.len(),
        forall|i: int| 0 <= i < items.len() ==> #[trigger] texts(items)[i] == items[i]@,
{
}

/// The model of a list holds every path in its place, and no other.
pub proof fn paths_models_hold_every_item(items: Seq<FilePath>)
    ensures
        paths(items).len() == items.len(),
        forall|i: int| 0 <= i < items.len() ==> #[trigger] paths(items)[i] == items[i]@,
{
}

/// The model of a list holds every plan step in its place, and no other.
pub proof fn plan_steps_models_hold_every_item(items: Seq<PlanStep>)
    ensures
        plan_steps(items).len() == items.len(),
        forall|i: int| 0 <= i < items.len() ==> #[trigger] plan_steps(items)[i] == items[i]@,
{
}

/// The model of a list holds every plan item in its place, and no other.
pub proof fn plan_items_models_hold_every_item(items: Seq<PlanItemArg>)
    ensures
        plan_items(items).len() == items.len(),
        forall|i: int| 0 <= i < items.len() ==> #[trigger] plan_items(items)[i] == items[i]@,
{
}

/// The model of a list holds every input item in its place, and no other.
pub proof fn input_items_models_hold_every_item(items: Seq<InputItem>)
    ensures
        input_items(items).len() == items.len(),
        forall|i: int| 0 <= i < items.len() ==> #[trigger] input_items(items)[i] == items[i]@,
{
}

/// The model of a list holds every event in its place, and no other.
pub proof fn server_events_models_hold_every_item(items: Seq<ServerEvent>)
    ensures
        server_events(items).len() == items.len(),
        forall|i: int| 0 <= i < items.len() ==> #[trigger] server_events(items)[i] == items[i]@,
{
}

/// The model of a list holds every effect in its place, and no other.
pub proof fn agent_effects_models_hold_every_item(items: Seq<AgentEffect>)
    ensures
        agent_effects(items).len() == items.len(),
        forall|i: int| 0 <= i < items.len() ==> #[trigger] agent_effects(items)[i] == items[i]@,
{
}

/// The model of a list holds every byte string in its place, and no other.
pub proof fn byte_strings_models_hold_every_item(items: Seq<Vec<u8>>)
    ensures
        byte_strings(items).len() == items.len(),
        forall|i: int| 0 <= i < items.len() ==> #[trigger] byte_strings(items)[i] == items[i]@,
{
}

/// The model of what may be missing holds what there is, and is missing if and only if it is.
pub proof fn options_are_modelled(
    text: String,
    words: &str,
    path: FilePath,
    bytes: Seq<u8>,
    event: &ServerEvent,
)
    ensures
        opt_text(Some(text)) == Some(text@),
        opt_text(None) is None,
        opt_str(Some(words)) == Some(words@),
        opt_str(None) is None,
        opt_path(Some(path)) == Some(path@),
        opt_path(None) is None,
        opt_components(Some(bytes)) == Some(components(bytes)),
        opt_components(None) is None,
        received_view(Some(event)) == Some(event@),
        received_view(None) is None,
{
}

/// The model of an outcome is the model of what came out, or the error.
pub proof fn outcomes_are_modelled(result: CallToolResult, event: AgentEvent, error: String)
    ensures
        tool_result(Ok(result)) == Ok::<CallToolResultView, Seq<char>>(result@),
        tool_result(Err(error)) == Err::<CallToolResultView, Seq<char>>(error@),
        yielded(Ok(event)) == Ok::<AgentEventView, Seq<char>>(event@),
        yielded(Err(error)) == Err::<AgentEventView, Seq<char>>(error@),
{
}

/// The model of a patch holds every change under the components of its path, and nothing else.
pub proof fn patches_are_modelled_change_by_change(entries: Seq<FileChangeEntry>, k: int)
    requires
        distinct_paths(entries),
        0 <= k < entries.len(),
    ensures
        as_map(entries).dom().contains(components(entries[k].path@)),
        as_map(entries)[components(entries[k].path@)].path == entries[k].path@,
        as_map(entries)[components(entries[k].path@)].change == entries[k].change@,
        as_map(entries).len() == entries.len(),
{
    lemma_map_update(entries, k, entries[k]);
    lemma_map_len(entries);
}

/// The changes of a patch have distinct paths: no two of them have the same components.
pub proof fn distinct_paths_have_distinct_components(
    entries: Seq<FileChangeEntry>,
    i: int,
    j: int,
)
    requires
        0 <= i < j < entries.len(),
        distinct_paths(entries),
    ensures
        components(entries[i].path@) != components(entries[j].path@),
{
    assert(entries[i].key() != entries[j].key());
}

/// Two changes are the same if and only if they do the same with the same text, to the same
/// place.
pub proof fn same_changes_agree_in_all(
    x: Seq<char>,
    y: Seq<char>,
    from: Option<Seq<u8>>,
    to: Option<Seq<u8>>,
)
    ensures
        same_change(FileChangeView::Add { content: x }, FileChangeView::Add { content: y }) <==> x
            == y,
        same_change(FileChangeView::Delete { content: x }, FileChangeView::Delete { content: y })
            <==> x == y,
        same_change(
            FileChangeView::Update { unified_diff: x, move_path: from },
            FileChangeView::Update { unified_diff: y, move_path: to },
        ) <==> x == y && opt_components(from) == opt_components(to),
        !same_change(FileChangeView::Add { content: x }, FileChangeView::Delete { content: y }),
        !same_change(FileChangeView::Delete { content: x }, FileChangeView::Add { content: y }),
        !same_change(
            FileChangeView::Add { content: x },
            FileChangeView::Update { unified_diff: y, move_path: to },
        ),
        !same_change(
            FileChangeView::Update { unified_diff: x, move_path: from },
            FileChangeView::Add { content: y },
        ),
        !same_change(
            FileChangeView::Delete { content: x },
            FileChangeView::Update { unified_diff: y, move_path: to },
        ),
        !same_change(
            FileChangeView::Update { unified_diff: x, move_path: from },
            FileChangeView::Delete { content: y },
        ),
{
}

/// Paths are equal if and only if their components are, and patches if and only if each includes
/// the other.
pub proof fn equality_is_by_component(a: FilePath, b: FilePath, x: FileChanges, y: FileChanges)
    ensures
        FilePath::obeys_eq_spec(),
        a.eq_spec(&b) <==> components(a@) == components(b@),
        FileChanges::obeys_eq_spec(),
        x.eq_spec(&y) <==> included(x@, y@) && included(y@, x@),
{
}

/// One patch is included in another if and only if the other has the same change for each of its
/// paths.
pub proof fn included_patches_agree(
    a: Map<Seq<Seq<u8>>, FileChangeEntryView>,
    b: Map<Seq<Seq<u8>>, FileChangeEntryView>,
    p: Seq<Seq<u8>>,
)
    ensures
        included(a, b) && a.dom().contains(p) ==> b.dom().contains(p) && same_change(
            a[p].change,
            b[p].change,
        ),
        a.dom().contains(p) && !b.dom().contains(p) ==> !included(a, b),
        a.dom().contains(p) && b.dom().contains(p) && !same_change(a[p].change, b[p].change)
            ==> !included(a, b),
        (forall|q: Seq<Seq<u8>>|
            a.dom().contains(q) ==> #[trigger] b.dom().contains(q) && same_change(
                a[q].change,
                b[q].change,
            )) ==> included(a, b),
{
}

// ---- The agent loop ----

/// The model of a [`JoinOutcome`] holds all of it: what it is, and each of its parts.
pub proof fn join_outcome_models_hold_all(x: JoinOutcome)
    ensures
        x@ == (match x {
            JoinOutcome::Finished => JoinOutcomeView::Finished,
            JoinOutcome::Cancelled => JoinOutcomeView::Cancelled,
            JoinOutcome::Failed(x) => JoinOutcomeView::Failed(x@),
        }),
{
}

/// The model of an [`AgentInput`] holds all of it: what it is, and each of its parts.
pub proof fn agent_input_models_hold_all(x: AgentInput)
    ensures
        x@ == (match x {
            AgentInput::Bootstrapped(x) => AgentInputView::Bootstrapped(x@),
            AgentInput::BootstrapFailed(x) => AgentInputView::BootstrapFailed(x@),
            AgentInput::Command(x) => AgentInputView::Command(x@),
            AgentInput::CommandsClosed => AgentInputView::CommandsClosed,
            AgentInput::Submitted => AgentInputView::Submitted,
            AgentInput::SubmitFailed(x) => AgentInputView::SubmitFailed(x@),
            AgentInput::Resumed(x) => AgentInputView::Resumed(x@),
            AgentInput::ResumeFailed(x) => AgentInputView::ResumeFailed(x@),
            AgentInput::StreamJoined(x) => AgentInputView::StreamJoined(x@),
        }),
{
}

/// The model of an [`AgentEffect`] holds all of it: what it is, and each of its parts.
pub proof fn agent_effect_models_hold_all(x: AgentEffect)
    ensures
        x@ == (match x {
            AgentEffect::Emit(x) => AgentEffectView::Emit(x@),
            AgentEffect::RaiseShutdown => AgentEffectView::RaiseShutdown,
            AgentEffect::AbortStream => AgentEffectView::AbortStream,
            AgentEffect::AdoptConversation => AgentEffectView::AdoptConversation,
            AgentEffect::SpawnStream => AgentEffectView::SpawnStream,
        }),
{
}

/// The model of an [`AgentRequest`] holds all of it: what it is, and each of its parts.
pub proof fn agent_request_models_hold_all(x: AgentRequest)
    ensures
        x@ == (match x {
            AgentRequest::NextCommand => AgentRequestView::NextCommand,
            AgentRequest::Submit(x) => AgentRequestView::Submit(x@),
            AgentRequest::Resume(x) => AgentRequestView::Resume(x@),
            AgentRequest::JoinStream => AgentRequestView::JoinStream,
            AgentRequest::Stop => AgentRequestView::Stop,
        }),
{
}

/// The model of an [`AgentPhase`] holds all of it: what it is, and each of its parts.
pub proof fn agent_phase_models_hold_all(x: AgentPhase)
    ensures
        x@ == (match x {
            AgentPhase::Bootstrapping => AgentPhaseView::Bootstrapping,
            AgentPhase::Idle => AgentPhaseView::Idle,
            AgentPhase::Submitting => AgentPhaseView::Submitting,
            AgentPhase::Resuming => AgentPhaseView::Resuming,
            AgentPhase::Replacing(x) => AgentPhaseView::Replacing(x@),
            AgentPhase::Closing { report } => AgentPhaseView::Closing { report },
            AgentPhase::Draining => AgentPhaseView::Draining,
            AgentPhase::Stopped => AgentPhaseView::Stopped,
        }),
{
}

/// The model of an [`AgentLoop`] holds all of it: what it is, and each of its parts.
pub proof fn agent_loop_models_hold_all(x: AgentLoop)
    ensures
        x@ == (x.phase@),
{
}

// ---- File changes ----

/// The model of a [`FileChange`] holds all of it: what it is, and each of its parts.
pub proof fn file_change_models_hold_all(x: FileChange)
    ensures
        x@ == (match x {
            FileChange::Add { content } => FileChangeView::Add { content: content@ },
            FileChange::Delete { content } => FileChangeView::Delete { content: content@ },
            FileChange::Update { unified_diff, move_path } => FileChangeView::Update {
                unified_diff: unified_diff@,
                move_path: opt_path(move_path),
            },
        }),
{
}

/// The model of a [`FileChangeEntry`] holds all of it: what it is, and each of its parts.
pub proof fn file_change_entry_models_hold_all(x: FileChangeEntry)
    ensures
        x@ == (FileChangeEntryView { path: x.path@, change: x.change@ }),
{
}

// ---- The command line ----

/// The model of a [`PromptLine`] holds all of it: what it is, and each of its parts.
pub proof fn prompt_line_models_hold_all(x: PromptLine)
    ensures
        x@ == (match x {
            PromptLine::Blank => PromptLineView::Blank,
            PromptLine::Resume(x) => PromptLineView::Resume(x@),
            PromptLine::ResumeWithoutPath => PromptLineView::ResumeWithoutPath,
            PromptLine::Quit => PromptLineView::Quit,
            PromptLine::Unknown(x) => PromptLineView::Unknown(x@),
            PromptLine::Message(x) => PromptLineView::Message(x@),
        }),
{
}

/// The model of a [`Notice`] holds all of it: what it is, and each of its parts.
pub proof fn notice_models_hold_all(x: Notice)
    ensures
        x@ == (NoticeView { channel: x.channel, text: x.text@ }),
{
}

/// The model of a [`CliInput`] holds all of it: what it is, and each of its parts.
pub proof fn cli_input_models_hold_all(x: CliInput)
    ensures
        x@ == (match x {
            CliInput::Text(x) => CliInputView::Text(x@),
            CliInput::EndOfInput => CliInputView::EndOfInput,
            CliInput::Unreadable => CliInputView::Unreadable,
            CliInput::Sent(x) => CliInputView::Sent(x),
            CliInput::Waited(x) => CliInputView::Waited(x),
            CliInput::Drained(x) => CliInputView::Drained(x),
        }),
{
}

/// The model of a [`CliRequest`] holds all of it: what it is, and each of its parts.
pub proof fn cli_request_models_hold_all(x: CliRequest)
    ensures
        x@ == (match x {
            CliRequest::ReadAll => CliRequestView::ReadAll,
            CliRequest::ReadLine => CliRequestView::ReadLine,
            CliRequest::Send(x) => CliRequestView::Send(x@),
            CliRequest::AwaitSessionConfig => CliRequestView::AwaitSessionConfig,
            CliRequest::AwaitTurn => CliRequestView::AwaitTurn,
            CliRequest::ShutDownAndDrain(x) => CliRequestView::ShutDownAndDrain(x@),
            CliRequest::Exit(x) => CliRequestView::Exit(x),
            CliRequest::Abandon(x) => CliRequestView::Abandon(x),
        }),
{
}

/// The model of a [`CliStep`] holds all of it: what it is, and each of its parts.
pub proof fn cli_step_models_hold_all(x: CliStep)
    ensures
        x@ == (CliStepView {
            notice: match x.notice {
                Some(n) => Some(n@),
                None => None,
            },
            request: x.request@,
        }),
{
}

// ---- Commands ----

/// The model of a [`ClientCommand`] holds all of it: what it is, and each of its parts.
pub proof fn client_command_models_hold_all(x: ClientCommand)
    ensures
        x@ == (match x {
            ClientCommand::SubmitUserMessage { text, images } =>
            ClientCommandView::SubmitUserMessage {
                text: text@,
                images: paths(images@),
            },
            ClientCommand::Interrupt => ClientCommandView::Interrupt,
            ClientCommand::Shutdown => ClientCommandView::Shutdown,
            ClientCommand::Resume { rollout_path } => ClientCommandView::Resume {
                rollout_path: rollout_path@,
            },
            ClientCommand::RespondApproval { id, kind, decision } =>
            ClientCommandView::RespondApproval {
                id: id@,
                kind,
                decision,
            },
        }),
{
}

// ---- Configuration ----

/// The model of a [`SessionConfig`] holds all of it: what it is, and each of its parts.
pub proof fn session_config_models_hold_all(x: SessionConfig)
    ensures
        x@ == (SessionConfigView {
            cwd: opt_path(x.cwd),
            model: opt_text(x.model),
            config_profile: opt_text(x.config_profile),
            raw_cli_overrides: texts(x.raw_cli_overrides@),
            use_oss: x.use_oss,
        }),
{
}

/// The model of an [`OssDefaults`] holds all of it: what it is, and each of its parts.
pub proof fn oss_defaults_models_hold_all(x: OssDefaults)
    ensures
        x@ == (OssDefaultsView {
            model: x.model@,
            provider: x.provider@,
        }),
{
}

/// The model of a [`ConfigOverrides`] holds all of it: what it is, and each of its parts.
pub proof fn config_overrides_models_hold_all(x: ConfigOverrides)
    ensures
        x@ == (ConfigOverridesView {
            model: opt_text(x.model),
            review_model: opt_text(x.review_model),
            cwd: opt_path(x.cwd),
            approval_policy: x.approval_policy,
            sandbox_mode: x.sandbox_mode,
            model_provider: opt_text(x.model_provider),
            config_profile: opt_text(x.config_profile),
            codex_linux_sandbox_exe: opt_path(x.codex_linux_sandbox_exe),
            base_instructions: opt_text(x.base_instructions),
            include_plan_tool: x.include_plan_tool,
            include_apply_patch_tool: x.include_apply_patch_tool,
            include_view_image_tool: x.include_view_image_tool,
            show_raw_agent_reasoning: x.show_raw_agent_reasoning,
            tools_web_search_request: x.tools_web_search_request,
        }),
{
}

// ---- Events ----

/// The model of a [`PlanStep`] holds all of it: what it is, and each of its parts.
pub proof fn plan_step_models_hold_all(x: PlanStep)
    ensures
        x@ == (PlanStepView {
            step: x.step@,
            status: x.status,
        }),
{
}

/// The model of a [`PlanUpdate`] holds all of it: what it is, and each of its parts.
pub proof fn plan_update_models_hold_all(x: PlanUpdate)
    ensures
        x@ == (PlanUpdateView {
            explanation: opt_text(x.explanation),
            steps: plan_steps(x.steps@),
        }),
{
}

/// The model of an [`ApprovalRequest`] holds all of it: what it is, and each of its parts.
pub proof fn approval_request_models_hold_all(x: ApprovalRequest)
    ensures
        x@ == (match x {
            ApprovalRequest::Exec { call_id, command, cwd, reason } => ApprovalRequestView::Exec {
                call_id: call_id@,
                command: texts(command@),
                cwd: cwd@,
                reason: opt_text(reason),
            },
            ApprovalRequest::Patch { call_id, changes, reason, grant_root } =>
            ApprovalRequestView::Patch {
                call_id: call_id@,
                changes: changes@,
                reason: opt_text(reason),
                grant_root: opt_path(grant_root),
            },
        }),
{
}

/// The model of a [`ServerEvent`] holds all of it: what it is, and each of its parts.
pub proof fn server_event_models_hold_all(x: ServerEvent)
    ensures
        x@ == (match x {
            ServerEvent::SessionConfigured { model, conversation_id, rollout_path } =>
            ServerEventView::SessionConfigured {
                model: model@,
                conversation_id: conversation_id@,
                rollout_path: rollout_path@,
            },
            ServerEvent::AgentMessageDelta(x) => ServerEventView::AgentMessageDelta(x@),
            ServerEvent::AgentMessageFinal(x) => ServerEventView::AgentMessageFinal(x@),
            ServerEvent::AgentReasoningDelta(x) => ServerEventView::AgentReasoningDelta(x@),
            ServerEvent::AgentReasoningFinal(x) => ServerEventView::AgentReasoningFinal(x@),
            ServerEvent::ExecCommandBegin { call_id, command } =>
            ServerEventView::ExecCommandBegin {
                call_id: call_id@,
                command: texts(command@),
            },
            ServerEvent::ExecCommandEnd { call_id, exit_code } => ServerEventView::ExecCommandEnd {
                call_id: call_id@,
                exit_code,
            },
            ServerEvent::ExecOutputChunk { call_id, stream, text } =>
            ServerEventView::ExecOutputChunk {
                call_id: call_id@,
                stream,
                text: text@,
            },
            ServerEvent::PatchApplyBegin { call_id, auto_approved } =>
            ServerEventView::PatchApplyBegin {
                call_id: call_id@,
                auto_approved,
            },
            ServerEvent::PatchApplyEnd { call_id, success } => ServerEventView::PatchApplyEnd {
                call_id: call_id@,
                success,
            },
            ServerEvent::McpToolCallBegin { call_id, server, tool } =>
            ServerEventView::McpToolCallBegin {
                call_id: call_id@,
                server: server@,
                tool: tool@,
            },
            ServerEvent::McpToolCallEnd { call_id, server, tool, duration, result } =>
            ServerEventView::McpToolCallEnd {
                call_id: call_id@,
                server: server@,
                tool: tool@,
                duration,
                result: tool_result(result),
            },
            ServerEvent::ApprovalRequest { id, request } => ServerEventView::ApprovalRequest {
                id: id@,
                request: request@,
            },
            ServerEvent::ReasoningSectionBreak => ServerEventView::ReasoningSectionBreak,
            ServerEvent::WebSearchBegin { call_id } => ServerEventView::WebSearchBegin {
                call_id: call_id@,
            },
            ServerEvent::WebSearchEnd { call_id, query } => ServerEventView::WebSearchEnd {
                call_id: call_id@,
                query: query@,
            },
            ServerEvent::TokenUsage { blended_total, input, cached_input, output, reasoning_output } =>
            ServerEventView::TokenUsage {
                blended_total,
                input,
                cached_input,
                output,
                reasoning_output,
            },
            ServerEvent::TurnComplete { last_message } => ServerEventView::TurnComplete {
                last_message: opt_text(last_message),
            },
            ServerEvent::TurnAborted { reason } => ServerEventView::TurnAborted {
                reason: reason@,
            },
            ServerEvent::TurnDiff { unified_diff } => ServerEventView::TurnDiff {
                unified_diff: unified_diff@,
            },
            ServerEvent::PlanUpdate(x) => ServerEventView::PlanUpdate(x@),
            ServerEvent::BackgroundMessage(x) => ServerEventView::BackgroundMessage(x@),
            ServerEvent::StreamError(x) => ServerEventView::StreamError(x@),
            ServerEvent::StreamClosed { had_completion } => ServerEventView::StreamClosed {
                had_completion,
            },
            ServerEvent::Fatal { message } => ServerEventView::Fatal {
                message: message@,
            },
            ServerEvent::SessionEnded => ServerEventView::SessionEnded,
            ServerEvent::ShutdownComplete => ServerEventView::ShutdownComplete,
        }),
{
}

// ---- Paths ----

/// The model of a [`FilePath`] holds all of it: what it is, and each of its parts.
pub proof fn file_path_models_hold_all(x: FilePath)
    ensures
        x@ == (x.bytes@),
{
}

// ---- The agent's side ----

/// The model of a [`SessionConfiguredEvent`] holds all of it: what it is, and each of its parts.
pub proof fn session_configured_event_models_hold_all(x: SessionConfiguredEvent)
    ensures
        x@ == (SessionConfiguredEventView {
            session_id: x.session_id@,
            model: x.model@,
            rollout_path: x.rollout_path@,
        }),
{
}

/// The model of a [`McpInvocation`] holds all of it: what it is, and each of its parts.
pub proof fn mcp_invocation_models_hold_all(x: McpInvocation)
    ensures
        x@ == (McpInvocationView {
            server: x.server@,
            tool: x.tool@,
        }),
{
}

/// The model of a [`CallToolResult`] holds all of it: what it is, and each of its parts.
pub proof fn call_tool_result_models_hold_all(x: CallToolResult)
    ensures
        x@ == (CallToolResultView {
            content: texts(x.content@),
            is_error: x.is_error,
            structured_content: opt_text(x.structured_content),
        }),
{
}

/// The model of a [`PlanItemArg`] holds all of it: what it is, and each of its parts.
pub proof fn plan_item_arg_models_hold_all(x: PlanItemArg)
    ensures
        x@ == (PlanItemArgView {
            step: x.step@,
            status: x.status,
        }),
{
}

/// The model of an [`UpdatePlanArgs`] holds all of it: what it is, and each of its parts.
pub proof fn update_plan_args_models_hold_all(x: UpdatePlanArgs)
    ensures
        x@ == (UpdatePlanArgsView {
            explanation: opt_text(x.explanation),
            plan: plan_items(x.plan@),
        }),
{
}

/// The model of an [`EventMsg`] holds all of it: what it is, and each of its parts.
pub proof fn event_msg_models_hold_all(x: EventMsg)
    ensures
        x@ == (match x {
            EventMsg::SessionConfigured(x) => EventMsgView::SessionConfigured(x@),
            EventMsg::AgentMessageDelta { delta } => EventMsgView::AgentMessageDelta {
                delta: delta@,
            },
            EventMsg::AgentMessage { message } => EventMsgView::AgentMessage {
                message: message@,
            },
            EventMsg::AgentReasoningDelta { delta } => EventMsgView::AgentReasoningDelta {
                delta: delta@,
            },
            EventMsg::AgentReasoningRawContentDelta { delta } =>
            EventMsgView::AgentReasoningRawContentDelta {
                delta: delta@,
            },
            EventMsg::AgentReasoning { text } => EventMsgView::AgentReasoning {
                text: text@,
            },
            EventMsg::AgentReasoningRawContent { text } => EventMsgView::AgentReasoningRawContent {
                text: text@,
            },
            EventMsg::AgentReasoningSectionBreak => EventMsgView::AgentReasoningSectionBreak,
            EventMsg::ExecCommandBegin { call_id, command } => EventMsgView::ExecCommandBegin {
                call_id: call_id@,
                command: texts(command@),
            },
            EventMsg::ExecCommandEnd { call_id, exit_code } => EventMsgView::ExecCommandEnd {
                call_id: call_id@,
                exit_code,
            },
            EventMsg::ExecCommandOutputDelta { call_id, stream, chunk } =>
            EventMsgView::ExecCommandOutputDelta {
                call_id: call_id@,
                stream,
                chunk: chunk@,
            },
            EventMsg::PatchApplyBegin { call_id, auto_approved } => EventMsgView::PatchApplyBegin {
                call_id: call_id@,
                auto_approved,
            },
            EventMsg::PatchApplyEnd { call_id, success } => EventMsgView::PatchApplyEnd {
                call_id: call_id@,
                success,
            },
            EventMsg::McpToolCallBegin { call_id, invocation } => EventMsgView::McpToolCallBegin {
                call_id: call_id@,
                invocation: invocation@,
            },
            EventMsg::McpToolCallEnd { call_id, invocation, duration, result } =>
            EventMsgView::McpToolCallEnd {
                call_id: call_id@,
                invocation: invocation@,
                duration,
                result: tool_result(result),
            },
            EventMsg::WebSearchBegin { call_id } => EventMsgView::WebSearchBegin {
                call_id: call_id@,
            },
            EventMsg::WebSearchEnd { call_id, query } => EventMsgView::WebSearchEnd {
                call_id: call_id@,
                query: query@,
            },
            EventMsg::TokenCount { info } => EventMsgView::TokenCount {
                info,
            },
            EventMsg::TaskComplete { last_agent_message } => EventMsgView::TaskComplete {
                last_agent_message: opt_text(last_agent_message),
            },
            EventMsg::TurnAborted { reason } => EventMsgView::TurnAborted {
                reason,
            },
            EventMsg::TurnDiff { unified_diff } => EventMsgView::TurnDiff {
                unified_diff: unified_diff@,
            },
            EventMsg::PlanUpdate(x) => EventMsgView::PlanUpdate(x@),
            EventMsg::BackgroundEvent { message } => EventMsgView::BackgroundEvent {
                message: message@,
            },
            EventMsg::StreamError { message } => EventMsgView::StreamError {
                message: message@,
            },
            EventMsg::ModelStreamClosed { had_completion } => EventMsgView::ModelStreamClosed {
                had_completion,
            },
            EventMsg::ShutdownComplete => EventMsgView::ShutdownComplete,
            EventMsg::Error { message } => EventMsgView::Error {
                message: message@,
            },
            EventMsg::ExecApprovalRequest { call_id, command, cwd, reason } =>
            EventMsgView::ExecApprovalRequest {
                call_id: call_id@,
                command: texts(command@),
                cwd: cwd@,
                reason: opt_text(reason),
            },
            EventMsg::ApplyPatchApprovalRequest { call_id, changes, reason, grant_root } =>
            EventMsgView::ApplyPatchApprovalRequest {
                call_id: call_id@,
                changes: changes@,
                reason: opt_text(reason),
                grant_root: opt_path(grant_root),
            },
            EventMsg::Other => EventMsgView::Other,
        }),
{
}

/// The model of an [`InputItem`] holds all of it: what it is, and each of its parts.
pub proof fn input_item_models_hold_all(x: InputItem)
    ensures
        x@ == (match x {
            InputItem::Text { text } => InputItemView::Text {
                text: text@,
            },
            InputItem::LocalImage { path } => InputItemView::LocalImage {
                path: path@,
            },
        }),
{
}

/// The model of an [`Op`] holds all of it: what it is, and each of its parts.
pub proof fn op_models_hold_all(x: Op)
    ensures
        x@ == (match x {
            Op::UserInput { items } => OpView::UserInput {
                items: input_items(items@),
            },
            Op::Interrupt => OpView::Interrupt,
            Op::Shutdown => OpView::Shutdown,
            Op::ExecApproval { id, decision } => OpView::ExecApproval {
                id: id@,
                decision,
            },
            Op::PatchApproval { id, decision } => OpView::PatchApproval {
                id: id@,
                decision,
            },
        }),
{
}

// ---- Starting ----

/// The model of a [`SessionStartError`] holds all of it: what it is, and each of its parts.
pub proof fn session_start_error_models_hold_all(x: SessionStartError)
    ensures
        x@ == (match x {
            SessionStartError::RuntimeInit(x) => SessionStartErrorView::RuntimeInit(x@),
            SessionStartError::InvalidOverride(x) => SessionStartErrorView::InvalidOverride(x@),
            SessionStartError::ConfigLoad(x) => SessionStartErrorView::ConfigLoad(x@),
            SessionStartError::OssSetup(x) => SessionStartErrorView::OssSetup(x@),
            SessionStartError::ThreadSpawn(x) => SessionStartErrorView::ThreadSpawn(x@),
        }),
{
}

/// The model of a [`StartupInput`] holds all of it: what it is, and each of its parts.
pub proof fn startup_input_models_hold_all(x: StartupInput)
    ensures
        x@ == (match x {
            StartupInput::Done => StartupInputView::Done,
            StartupInput::Failed(x) => StartupInputView::Failed(x@),
            StartupInput::CwdResolved(x) => StartupInputView::CwdResolved(opt_path(x)),
        }),
{
}

/// The model of a [`StartupStep`] holds all of it: what it is, and each of its parts.
pub proof fn startup_step_models_hold_all(x: StartupStep)
    ensures
        x@ == (match x {
            StartupStep::BuildRuntime => StartupStepView::BuildRuntime,
            StartupStep::ParseOverrides(x) => StartupStepView::ParseOverrides(texts(x@)),
            StartupStep::ResolveCwd(x) => StartupStepView::ResolveCwd(x@),
            StartupStep::LoadConfig(x) => StartupStepView::LoadConfig(x@),
            StartupStep::EnsureOssReady => StartupStepView::EnsureOssReady,
            StartupStep::SpawnCommandBridge => StartupStepView::SpawnCommandBridge,
            StartupStep::SpawnEventBridge => StartupStepView::SpawnEventBridge,
            StartupStep::Launch(x) => StartupStepView::Launch(opt_path(x)),
            StartupStep::Fail(x) => StartupStepView::Fail(x@),
        }),
{
}

/// The model of a [`Startup`] holds all of it: what it is, and each of its parts.
pub proof fn startup_models_hold_all(x: Startup)
    ensures
        x@ == (StartupView {
            session: x.session@,
            oss: x.oss@,
            resume: opt_path(x.resume),
            phase: x.phase,
        }),
{
}

/// The model of a [`BridgeInput`] holds all of it: what it is, and each of its parts.
pub proof fn bridge_input_models_hold_all(x: BridgeInput)
    ensures
        x@ == (match x {
            BridgeInput::Waiting { shutting_down } => BridgeInputView::Waiting { shutting_down },
            BridgeInput::Received(x) => BridgeInputView::Received(x@),
            BridgeInput::TimedOut => BridgeInputView::TimedOut,
            BridgeInput::Disconnected => BridgeInputView::Disconnected,
            BridgeInput::Forwarded { taken } => BridgeInputView::Forwarded { taken },
        }),
{
}

/// The model of a [`BridgeAction`] holds all of it: what it is, and each of its parts.
pub proof fn bridge_action_models_hold_all(x: BridgeAction)
    ensures
        x@ == (match x {
            BridgeAction::Poll { millis } => BridgeActionView::Poll { millis },
            BridgeAction::Forward(x) => BridgeActionView::Forward(x@),
            BridgeAction::CheckFlag => BridgeActionView::CheckFlag,
            BridgeAction::Stop => BridgeActionView::Stop,
        }),
{
}

/// The model of an [`EventBridgeInput`] holds all of it: what it is, and each of its parts.
pub proof fn event_bridge_input_models_hold_all(x: EventBridgeInput)
    ensures
        x@ == (match x {
            EventBridgeInput::Received(x) => EventBridgeInputView::Received(x@),
            EventBridgeInput::Closed => EventBridgeInputView::Closed,
            EventBridgeInput::Forwarded { taken } => EventBridgeInputView::Forwarded { taken },
        }),
{
}

/// The model of an [`EventBridgeAction`] holds all of it: what it is, and each of its parts.
pub proof fn event_bridge_action_models_hold_all(x: EventBridgeAction)
    ensures
        x@ == (match x {
            EventBridgeAction::Receive => EventBridgeActionView::Receive,
            EventBridgeAction::Forward(x) => EventBridgeActionView::Forward(x@),
            EventBridgeAction::Stop => EventBridgeActionView::Stop,
        }),
{
}

// ---- The event stream ----

/// The model of an [`AgentEvent`] holds all of it: what it is, and each of its parts.
pub proof fn agent_event_models_hold_all(x: AgentEvent)
    ensures
        x@ == (AgentEventView { id: x.id@, msg: x.msg@ }),
{
}

} // verus!
