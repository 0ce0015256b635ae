//! What the driver tells its client.

use crate::changes::{FileChangeEntryView, FileChanges};
use crate::path::{clone_opt_path, opt_path, FilePath};
use crate::protocol::{
    clone_tool_result, tool_result, CallDuration, CallToolResult, CallToolResultView,
    ExecOutputStream,
};
use crate::text::{clone_opt_text, clone_texts, opt_text, texts};
use vstd::prelude::*;

verus! {

/// Status values for plan steps.
#[derive(Debug, Clone, Copy, PartialEq, Eq)]
pub enum PlanStepStatus {
    /// Step has not been started.
    Pending,
    /// Step is actively in progress.
    InProgress,
    /// Step has been completed.
    Completed,
}

/// Represents a single plan step emitted by the agent.
#[derive(Debug, PartialEq, Eq)]
pub struct PlanStep {
    /// Human-readable description of the step.
    pub step: String,
    /// Current status of the step.
    pub status: PlanStepStatus,
}

/// Model of [`PlanStep`].
pub struct PlanStepView {
    pub step: Seq<char>,
    pub status: PlanStepStatus,
}

impl View for PlanStep {
    type V = PlanStepView;

    open spec fn view(&self) -> PlanStepView {
        PlanStepView {
            step: self.step@,
            status: self.status,
        }
    }
}

impl Clone for PlanStep {
    fn clone(&self) -> (r: Self)
        ensures
            r@ == self@,
    {
        PlanStep {
            step: self.step.clone(),
            status: self.status,
        }
    }
}

/// The views of a sequence of plan steps.
pub open spec fn plan_steps(steps: Seq<PlanStep>) -> Seq<PlanStepView> {
    steps.map_values(|s: PlanStep| s@)
}

/// A copy of a list of plan steps.
fn clone_plan_steps(steps: &Vec<PlanStep>) -> (r: Vec<PlanStep>)
    ensures
        plan_steps(r@) == plan_steps(steps@),
{
    let mut r: Vec<PlanStep> = Vec::new();
    let mut i: usize = 0;
    while i < steps.len()
        invariant
            i <= steps.len(),
            r@.len() == i,
            forall|j: int| 0 <= j < i ==> (#[trigger] r@[j])@ == steps@[j]@,
        decreases steps.len() - i,
    {
        r.push(steps[i].clone());
        i = i + 1;
    }
    assert(plan_steps(r@) =~= plan_steps(steps@));
    r
}

/// Structured agent plan update payload.
#[derive(Debug, PartialEq, Eq)]
pub struct PlanUpdate {
    /// Optional explanation supplied with the plan change.
    pub explanation: Option<String>,
    /// Ordered list of plan steps.
    pub steps: Vec<PlanStep>,
}

/// Model of [`PlanUpdate`].
pub struct PlanUpdateView {
    pub explanation: Option<Seq<char>>,
    pub steps: Seq<PlanStepView>,
}

impl View for PlanUpdate {
    type V = PlanUpdateView;

    open spec fn view(&self) -> PlanUpdateView {
        PlanUpdateView {
            explanation: opt_text(self.explanation),
            steps: plan_steps(self.steps@),
        }
    }
}

impl Clone for PlanUpdate {
    fn clone(&self) -> (r: Self)
        ensures
            r@ == self@,
    {
        PlanUpdate {
            explanation: clone_opt_text(&self.explanation),
            steps: clone_plan_steps(&self.steps),
        }
    }
}

/// Details describing the approval being requested.
#[derive(Debug, PartialEq, Eq)]
pub enum ApprovalRequest {
    /// Approval for executing a shell command.
    Exec {
        /// Identifier correlating begin/end events.
        call_id: String,
        /// Command argv proposed by the agent.
        command: Vec<String>,
        /// Working directory for the command.
        cwd: FilePath,
        /// Optional reason supplied by the backend.
        reason: Option<String>,
    },
    /// Approval for applying a patch to the workspace.
    Patch {
        /// Identifier correlating begin/end events.
        call_id: String,
        /// Map of path -> desired change.
        changes: FileChanges,
        /// Optional reason supplied by the backend.
        reason: Option<String>,
        /// Optional root that the agent is asking to grant write access to.
        grant_root: Option<FilePath>,
    },
}

/// Model of [`ApprovalRequest`].
pub enum ApprovalRequestView {
    Exec { call_id: Seq<char>, command: Seq<Seq<char>>, cwd: Seq<u8>, reason: Option<Seq<char>> },
    Patch {
        call_id: Seq<char>,
        changes: Map<Seq<Seq<u8>>, FileChangeEntryView>,
        reason: Option<Seq<char>>,
        grant_root: Option<Seq<u8>>,
    },
}

impl View for ApprovalRequest {
    type V = ApprovalRequestView;

    open spec fn view(&self) -> ApprovalRequestView {
        match *self {
            ApprovalRequest::Exec { call_id, command, cwd, reason } => ApprovalRequestView::Exec {
                call_id: call_id@,
                command: texts(command@),
                cwd: cwd@,
                reason: opt_text(reason),
            },
            ApprovalRequest::Patch { call_id, changes, reason, grant_root } =>
            ApprovalRequestView::Patch {
                call_id: call_id@,
                changes: changes@,
                reason: opt_text(reason),
                grant_root: opt_path(grant_root),
            },
        }
    }
}

impl Clone for ApprovalRequest {
    fn clone(&self) -> (r: Self)
        ensures
            r@ == self@,
    {
        match self {
            ApprovalRequest::Exec { call_id, command, cwd, reason } => ApprovalRequest::Exec {
                call_id: call_id.clone(),
                command: clone_texts(command),
                cwd: cwd.clone(),
                reason: clone_opt_text(reason),
            },
            ApprovalRequest::Patch { call_id, changes, reason, grant_root } =>
            ApprovalRequest::Patch {
                call_id: call_id.clone(),
                changes: changes.clone(),
                reason: clone_opt_text(reason),
                grant_root: clone_opt_path(grant_root),
            },
        }
    }
}

/// Events emitted by the driver while a session is active.
#[derive(Debug, PartialEq, Eq)]
pub enum ServerEvent {
    /// Session configuration payload describing the active model.
    SessionConfigured {
        /// Active model slug for the session.
        model: String,
        /// Unique identifier for the conversation.
        conversation_id: String,
        /// Path to the rollout backing this conversation.
        rollout_path: FilePath,
    },
    /// Streaming agent response text.
    AgentMessageDelta(String),
    /// Final agent response for the current turn.
    AgentMessageFinal(String),
    /// Streaming reasoning text from the agent.
    AgentReasoningDelta(String),
    /// Final reasoning block from the agent.
    AgentReasoningFinal(String),
    /// Notification that an exec command is starting.
    ExecCommandBegin {
        /// Identifier correlating begin/end events.
        call_id: String,
        /// Command argv proposed by the agent.
        command: Vec<String>,
    },
    /// Completion notice for an exec command.
    ExecCommandEnd {
        /// Identifier correlating begin/end events.
        call_id: String,
        /// Exit code if the command completed.
        exit_code: Option<i32>,
    },
    /// Streaming chunk from an exec command's stdout/stderr.
    ExecOutputChunk {
        /// Identifier correlating output chunks with the originating command.
        call_id: String,
        /// Which stream emitted this chunk.
        stream: ExecOutputStream,
        /// The decoded text chunk.
        text: String,
    },
    /// Notification that a patch apply is beginning.
    PatchApplyBegin {
        /// Identifier correlating begin/end events.
        call_id: String,
        /// Whether the patch was auto-approved by policy.
        auto_approved: bool,
    },
    /// Completion notice for a patch apply operation.
    PatchApplyEnd {
        /// Identifier correlating begin/end events.
        call_id: String,
        /// Indicates whether the patch applied cleanly.
        success: bool,
    },
    /// Start of an MCP tool invocation.
    McpToolCallBegin {
        /// Identifier correlating begin/end events.
        call_id: String,
        /// MCP server identifier.
        server: String,
        /// Tool name invoked on the server.
        tool: String,
    },
    /// Completion of an MCP tool invocation.
    McpToolCallEnd {
        /// Identifier correlating begin/end events.
        call_id: String,
        /// MCP server identifier.
        server: String,
        /// Tool name invoked on the server.
        tool: String,
        /// Duration of the tool invocation.
        duration: CallDuration,
        /// Result payload returned by the tool (error encoded as `Err`).
        result: Result<CallToolResult, String>,
    },
    /// Approval is required before continuing with an agent action.
    ApprovalRequest {
        /// Submission identifier to echo in the approval response.
        id: String,
        /// Details about the requested approval.
        request: ApprovalRequest,
    },
    /// Reasoning stream inserted a section break separator.
    ReasoningSectionBreak,
    /// Start of a web search request.
    WebSearchBegin {
        /// Identifier correlating begin/end events.
        call_id: String,
    },
    /// Completion of a web search request.
    WebSearchEnd {
        /// Identifier correlating begin/end events.
        call_id: String,
        /// The query executed by the agent.
        query: String,
    },
    /// Token accounting for the latest turn/session.
    TokenUsage {
        /// Total tokens consumed for the aggregated session (cached + uncached).
        blended_total: u64,
        /// Non-cached input tokens.
        input: u64,
        /// Cached input tokens.
        cached_input: u64,
        /// Output tokens.
        output: u64,
        /// Reasoning tokens.
        reasoning_output: u64,
    },
    /// Task completion notification with optional final agent message.
    TurnComplete {
        /// Final agent message, if any, reported by the backend.
        last_message: Option<String>,
    },
    /// Task aborted notification with human readable reason.
    TurnAborted {
        /// Human-readable abort reason exposed by the backend.
        reason: String,
    },
    /// Unified diff summarising the latest turn's edits.
    TurnDiff {
        /// Unified diff representing the latest edits.
        unified_diff: String,
    },
    /// Updated execution plan supplied by the agent.
    PlanUpdate(PlanUpdate),
    /// Informational background message.
    BackgroundMessage(String),
    /// Stream error notification (retried internally).
    StreamError(String),
    /// The model stream of the current turn closed.
    StreamClosed {
        /// Whether the model had completed its answer.
        had_completion: bool,
    },
    /// Driver detected an unrecoverable error and is terminating.
    Fatal {
        /// Human-readable error suitable for logging or user display.
        message: String,
    },
    /// Session terminated in a controlled manner.
    SessionEnded,
    /// Codex backend signalled shutdown completion.
    ShutdownComplete,
}

/// Model of [`ServerEvent`].
pub enum ServerEventView {
    SessionConfigured { model: Seq<char>, conversation_id: Seq<char>, rollout_path: Seq<u8> },
    AgentMessageDelta(Seq<char>),
    AgentMessageFinal(Seq<char>),
    AgentReasoningDelta(Seq<char>),
    AgentReasoningFinal(Seq<char>),
    ExecCommandBegin { call_id: Seq<char>, command: Seq<Seq<char>> },
    ExecCommandEnd { call_id: Seq<char>, exit_code: Option<i32> },
    ExecOutputChunk { call_id: Seq<char>, stream: ExecOutputStream, text: Seq<char> },
    PatchApplyBegin { call_id: Seq<char>, auto_approved: bool },
    PatchApplyEnd { call_id: Seq<char>, success: bool },
    McpToolCallBegin { call_id: Seq<char>, server: Seq<char>, tool: Seq<char> },
    McpToolCallEnd {
        call_id: Seq<char>,
        server: Seq<char>,
        tool: Seq<char>,
        duration: CallDuration,
        result: Result<CallToolResultView, Seq<char>>,
    },
    ApprovalRequest { id: Seq<char>, request: ApprovalRequestView },
    ReasoningSectionBreak,
    WebSearchBegin { call_id: Seq<char> },
    WebSearchEnd { call_id: Seq<char>, query: Seq<char> },
    TokenUsage {
        blended_total: u64,
        input: u64,
        cached_input: u64,
        output: u64,
        reasoning_output: u64,
    },
    TurnComplete { last_message: Option<Seq<char>> },
    TurnAborted { reason: Seq<char> },
    TurnDiff { unified_diff: Seq<char> },
    PlanUpdate(PlanUpdateView),
    BackgroundMessage(Seq<char>),
    StreamError(Seq<char>),
    StreamClosed { had_completion: bool },
    Fatal { message: Seq<char> },
    SessionEnded,
    ShutdownComplete,
}

impl View for ServerEvent {
    type V = ServerEventView;

    open spec fn view(&self) -> ServerEventView {
        match *self {
            ServerEvent::SessionConfigured { model, conversation_id, rollout_path } =>
            ServerEventView::SessionConfigured {
                model: model@,
                conversation_id: conversation_id@,
                rollout_path: rollout_path@,
            },
            ServerEvent::AgentMessageDelta(x) => ServerEventView::AgentMessageDelta(x@),
            ServerEvent::AgentMessageFinal(x) => ServerEventView::AgentMessageFinal(x@),
            ServerEvent::AgentReasoningDelta(x) => ServerEventView::AgentReasoningDelta(x@),
            ServerEvent::AgentReasoningFinal(x) => ServerEventView::AgentReasoningFinal(x@),
            ServerEvent::ExecCommandBegin { call_id, command } =>
            ServerEventView::ExecCommandBegin {
                call_id: call_id@,
                command: texts(command@),
            },
            ServerEvent::ExecCommandEnd { call_id, exit_code } => ServerEventView::ExecCommandEnd {
                call_id: call_id@,
                exit_code,
            },
            ServerEvent::ExecOutputChunk { call_id, stream, text } =>
            ServerEventView::ExecOutputChunk {
                call_id: call_id@,
                stream,
                text: text@,
            },
            ServerEvent::PatchApplyBegin { call_id, auto_approved } =>
            ServerEventView::PatchApplyBegin {
                call_id: call_id@,
                auto_approved,
            },
            ServerEvent::PatchApplyEnd { call_id, success } => ServerEventView::PatchApplyEnd {
                call_id: call_id@,
                success,
            },
            ServerEvent::McpToolCallBegin { call_id, server, tool } =>
            ServerEventView::McpToolCallBegin {
                call_id: call_id@,
                server: server@,
                tool: tool@,
            },
            ServerEvent::McpToolCallEnd { call_id, server, tool, duration, result } =>
            ServerEventView::McpToolCallEnd {
                call_id: call_id@,
                server: server@,
                tool: tool@,
                duration,
                result: tool_result(result),
            },
            ServerEvent::ApprovalRequest { id, request } => ServerEventView::ApprovalRequest {
                id: id@,
                request: request@,
            },
            ServerEvent::ReasoningSectionBreak => ServerEventView::ReasoningSectionBreak,
            ServerEvent::WebSearchBegin { call_id } => ServerEventView::WebSearchBegin {
                call_id: call_id@,
            },
            ServerEvent::WebSearchEnd { call_id, query } => ServerEventView::WebSearchEnd {
                call_id: call_id@,
                query: query@,
            },
            ServerEvent::TokenUsage { blended_total, input, cached_input, output, reasoning_output } =>
            ServerEventView::TokenUsage {
                blended_total,
                input,
                cached_input,
                output,
                reasoning_output,
            },
            ServerEvent::TurnComplete { last_message } => ServerEventView::TurnComplete {
                last_message: opt_text(last_message),
            },
            ServerEvent::TurnAborted { reason } => ServerEventView::TurnAborted {
                reason: reason@,
            },
            ServerEvent::TurnDiff { unified_diff } => ServerEventView::TurnDiff {
                unified_diff: unified_diff@,
            },
            ServerEvent::PlanUpdate(x) => ServerEventView::PlanUpdate(x@),
            ServerEvent::BackgroundMessage(x) => ServerEventView::BackgroundMessage(x@),
            ServerEvent::StreamError(x) => ServerEventView::StreamError(x@),
            ServerEvent::StreamClosed { had_completion } => ServerEventView::StreamClosed {
                had_completion,
            },
            ServerEvent::Fatal { message } => ServerEventView::Fatal {
                message: message@,
            },
            ServerEvent::SessionEnded => ServerEventView::SessionEnded,
            ServerEvent::ShutdownComplete => ServerEventView::ShutdownComplete,
        }
    }
}

impl Clone for ServerEvent {
    fn clone(&self) -> (r: Self)
        ensures
            r@ == self@,
    {
        match self {
            ServerEvent::SessionConfigured { model, conversation_id, rollout_path } =>
            ServerEvent::SessionConfigured {
                model: model.clone(),
                conversation_id: conversation_id.clone(),
                rollout_path: rollout_path.clone(),
            },
            ServerEvent::AgentMessageDelta(x) => ServerEvent::AgentMessageDelta(x.clone()),
            ServerEvent::AgentMessageFinal(x) => ServerEvent::AgentMessageFinal(x.clone()),
            ServerEvent::AgentReasoningDelta(x) => ServerEvent::AgentReasoningDelta(x.clone()),
            ServerEvent::AgentReasoningFinal(x) => ServerEvent::AgentReasoningFinal(x.clone()),
            ServerEvent::ExecCommandBegin { call_id, command } => ServerEvent::ExecCommandBegin {
                call_id: call_id.clone(),
                command: clone_texts(command),
            },
            ServerEvent::ExecCommandEnd { call_id, exit_code } => ServerEvent::ExecCommandEnd {
                call_id: call_id.clone(),
                exit_code: *exit_code,
            },
            ServerEvent::ExecOutputChunk { call_id, stream, text } => ServerEvent::ExecOutputChunk {
                call_id: call_id.clone(),
                stream: *stream,
                text: text.clone(),
            },
            ServerEvent::PatchApplyBegin { call_id, auto_approved } =>
            ServerEvent::PatchApplyBegin {
                call_id: call_id.clone(),
                auto_approved: *auto_approved,
            },
            ServerEvent::PatchApplyEnd { call_id, success } => ServerEvent::PatchApplyEnd {
                call_id: call_id.clone(),
                success: *success,
            },
            ServerEvent::McpToolCallBegin { call_id, server, tool } =>
            ServerEvent::McpToolCallBegin {
                call_id: call_id.clone(),
                server: server.clone(),
                tool: tool.clone(),
            },
            ServerEvent::McpToolCallEnd { call_id, server, tool, duration, result } =>
            ServerEvent::McpToolCallEnd {
                call_id: call_id.clone(),
                server: server.clone(),
                tool: tool.clone(),
                duration: *duration,
                result: clone_tool_result(result),
            },
            ServerEvent::ApprovalRequest { id, request } => ServerEvent::ApprovalRequest {
                id: id.clone(),
                request: request.clone(),
            },
            ServerEvent::ReasoningSectionBreak => ServerEvent::ReasoningSectionBreak,
            ServerEvent::WebSearchBegin { call_id } => ServerEvent::WebSearchBegin {
                call_id: call_id.clone(),
            },
            ServerEvent::WebSearchEnd { call_id, query } => ServerEvent::WebSearchEnd {
                call_id: call_id.clone(),
                query: query.clone(),
            },
            ServerEvent::TokenUsage { blended_total, input, cached_input, output, reasoning_output } =>
            ServerEvent::TokenUsage {
                blended_total: *blended_total,
                input: *input,
                cached_input: *cached_input,
                output: *output,
                reasoning_output: *reasoning_output,
            },
            ServerEvent::TurnComplete { last_message } => ServerEvent::TurnComplete {
                last_message: clone_opt_text(last_message),
            },
            ServerEvent::TurnAborted { reason } => ServerEvent::TurnAborted {
                reason: reason.clone(),
            },
            ServerEvent::TurnDiff { unified_diff } => ServerEvent::TurnDiff {
                unified_diff: unified_diff.clone(),
            },
            ServerEvent::PlanUpdate(x) => ServerEvent::PlanUpdate(x.clone()),
            ServerEvent::BackgroundMessage(x) => ServerEvent::BackgroundMessage(x.clone()),
            ServerEvent::StreamError(x) => ServerEvent::StreamError(x.clone()),
            ServerEvent::StreamClosed { had_completion } => ServerEvent::StreamClosed {
                had_completion: *had_completion,
            },
            ServerEvent::Fatal { message } => ServerEvent::Fatal {
                message: message.clone(),
            },
            ServerEvent::SessionEnded => ServerEvent::SessionEnded,
            ServerEvent::ShutdownComplete => ServerEvent::ShutdownComplete,
        }
    }
}

/// The views of a sequence of events.
pub open spec fn server_events(events: Seq<ServerEvent>) -> Seq<ServerEventView> {
    events.map_values(|e: ServerEvent| e@)
}

} // verus!
