//! The agent's side of the conversation: the messages it sends and the operations it accepts.

use crate::changes::{FileChangeEntryView, FileChanges};
use crate::path::{opt_path, FilePath};
use crate::text::{clone_opt_text, clone_texts, opt_text, texts};
use vstd::prelude::*;

verus! {

/// A user's answer to an approval request.
#[derive(Debug, Clone, Copy, PartialEq, Eq)]
pub enum ReviewDecision {
    /// The action may go ahead.
    Approved,
    /// The action may go ahead, as may the same action later in the session.
    ApprovedForSession,
    /// The action may not go ahead; the agent goes on without it.
    Denied,
    /// The action may not go ahead, and the agent stops its turn.
    Abort,
}

/// The stream that a running command wrote to.
#[derive(Debug, Clone, Copy, PartialEq, Eq)]
pub enum ExecOutputStream {
    /// Standard output.
    Stdout,
    /// Standard error.
    Stderr,
}

/// Why the agent gave up a turn.
#[derive(Debug, Clone, Copy, PartialEq, Eq)]
pub enum TurnAbortReason {
    /// The user interrupted it.
    Interrupted,
    /// Another turn took its place.
    Replaced,
    /// The review that it belonged to ended.
    ReviewEnded,
}

/// Status of a plan step as the agent reports it.
#[derive(Debug, Clone, Copy, PartialEq, Eq)]
pub enum StepStatus {
    /// Not started.
    Pending,
    /// Being worked on.
    InProgress,
    /// Done.
    Completed,
}

/// A length of time in seconds and nanoseconds, with less than a full second of the latter.
#[derive(Debug, Clone, Copy, PartialEq, Eq)]
pub struct CallDuration {
    secs: u64,
    nanos: u32,
}

impl CallDuration {
    #[verifier::type_invariant]
    spec fn inv(self) -> bool {
        self.nanos < 1_000_000_000
    }

    /// The whole seconds.
    pub closed spec fn spec_secs(self) -> u64 {
        self.secs
    }

    /// The nanoseconds beyond the whole seconds.
    pub closed spec fn spec_nanos(self) -> u32 {
        self.nanos
    }

    /// So many seconds and nanoseconds.
    pub fn new(secs: u64, nanos: u32) -> (r: Self)
        requires
            nanos < 1_000_000_000,
        ensures
            r.spec_secs() == secs,
            r.spec_nanos() == nanos,
    {
        CallDuration { secs, nanos }
    }

    /// So many milliseconds.
    pub fn from_millis(millis: u64) -> (r: Self)
        ensures
            r.spec_secs() == millis / 1000,
            r.spec_nanos() == (millis % 1000) * 1_000_000,
    {
        let nanos: u32 = (millis % 1000) as u32 * 1_000_000;
        CallDuration { secs: millis / 1000, nanos }
    }

    /// The whole seconds.
    pub fn secs(&self) -> (r: u64)
        ensures
            r == self.spec_secs(),
    {
        self.secs
    }

    /// The nanoseconds beyond the whole seconds.
    pub fn nanos(&self) -> (r: u32)
        ensures
            r == self.spec_nanos(),
            r < 1_000_000_000,
    {
        proof {
            use_type_invariant(self);
        }
        self.nanos
    }
}

/// Token counts of the session as a whole and of its latest turn.
#[derive(Debug, Clone, Copy, PartialEq, Eq)]
pub struct TokenUsageInfo {
    /// Blended total over the session.
    pub blended_total: u64,
    /// Input tokens of the latest turn that were not cached.
    pub non_cached_input: u64,
    /// Input tokens of the latest turn that were cached.
    pub cached_input: u64,
    /// Output tokens of the latest turn.
    pub output_tokens: u64,
    /// Reasoning tokens of the latest turn.
    pub reasoning_output_tokens: u64,
}

/// What the agent reports once a conversation is configured.
#[derive(Debug, Clone, PartialEq, Eq)]
pub struct SessionConfiguredEvent {
    /// Unique identifier for the conversation.
    pub session_id: String,
    /// Active model slug.
    pub model: String,
    /// Path to the rollout backing the conversation.
    pub rollout_path: FilePath,
}

/// Model of [`SessionConfiguredEvent`].
pub struct SessionConfiguredEventView {
    pub session_id: Seq<char>,
    pub model: Seq<char>,
    pub rollout_path: Seq<u8>,
}

impl View for SessionConfiguredEvent {
    type V = SessionConfiguredEventView;

    open spec fn view(&self) -> SessionConfiguredEventView {
        SessionConfiguredEventView {
            session_id: self.session_id@,
            model: self.model@,
            rollout_path: self.rollout_path@,
        }
    }
}

/// The tool that an MCP call names.
#[derive(Debug, Clone, PartialEq, Eq)]
pub struct McpInvocation {
    /// MCP server identifier.
    pub server: String,
    /// Tool name on the server.
    pub tool: String,
}

/// Model of [`McpInvocation`].
pub struct McpInvocationView {
    pub server: Seq<char>,
    pub tool: Seq<char>,
}

impl View for McpInvocation {
    type V = McpInvocationView;

    open spec fn view(&self) -> McpInvocationView {
        McpInvocationView {
            server: self.server@,
            tool: self.tool@,
        }
    }
}

/// What an MCP tool returned.
#[derive(Debug, PartialEq, Eq)]
pub struct CallToolResult {
    /// The content blocks, each as JSON text.
    pub content: Vec<String>,
    /// Whether the tool reports a failure, where it says so.
    pub is_error: Option<bool>,
    /// The structured result as JSON text, if there is one.
    pub structured_content: Option<String>,
}

/// Model of [`CallToolResult`].
pub struct CallToolResultView {
    pub content: Seq<Seq<char>>,
    pub is_error: Option<bool>,
    pub structured_content: Option<Seq<char>>,
}

impl View for CallToolResult {
    type V = CallToolResultView;

    open spec fn view(&self) -> CallToolResultView {
        CallToolResultView {
            content: texts(self.content@),
            is_error: self.is_error,
            structured_content: opt_text(self.structured_content),
        }
    }
}

impl Clone for CallToolResult {
    fn clone(&self) -> (r: Self)
        ensures
            r@ == self@,
    {
        CallToolResult {
            content: clone_texts(&self.content),
            is_error: self.is_error,
            structured_content: clone_opt_text(&self.structured_content),
        }
    }
}

/// The view of the outcome of a tool call.
pub open spec fn tool_result(r: Result<CallToolResult, String>) -> Result<
    CallToolResultView,
    Seq<char>,
> {
    match r {
        Ok(x) => Ok(x@),
        Err(e) => Err(e@),
    }
}

/// A copy of the outcome of a tool call.
pub(crate) fn clone_tool_result(r: &Result<CallToolResult, String>) -> (c: Result<
    CallToolResult,
    String,
>)
    ensures
        tool_result(c) == tool_result(*r),
{
    match r {
        Ok(x) => Ok(x.clone()),
        Err(e) => Err(e.clone()),
    }
}

/// One step of a plan as the agent sends it.
#[derive(Debug, Clone, PartialEq, Eq)]
pub struct PlanItemArg {
    /// Description of the step.
    pub step: String,
    /// How far the step has come.
    pub status: StepStatus,
}

/// Model of [`PlanItemArg`].
pub struct PlanItemArgView {
    pub step: Seq<char>,
    pub status: StepStatus,
}

impl View for PlanItemArg {
    type V = PlanItemArgView;

    open spec fn view(&self) -> PlanItemArgView {
        PlanItemArgView {
            step: self.step@,
            status: self.status,
        }
    }
}

/// The views of a sequence of plan steps as sent.
pub open spec fn plan_items(items: Seq<PlanItemArg>) -> Seq<PlanItemArgView> {
    items.map_values(|p: PlanItemArg| p@)
}

/// A plan as the agent sends it.
#[derive(Debug, Clone, PartialEq, Eq)]
pub struct UpdatePlanArgs {
    /// Why the plan changed, if the agent says so.
    pub explanation: Option<String>,
    /// The steps in order.
    pub plan: Vec<PlanItemArg>,
}

/// Model of [`UpdatePlanArgs`].
pub struct UpdatePlanArgsView {
    pub explanation: Option<Seq<char>>,
    pub plan: Seq<PlanItemArgView>,
}

impl View for UpdatePlanArgs {
    type V = UpdatePlanArgsView;

    open spec fn view(&self) -> UpdatePlanArgsView {
        UpdatePlanArgsView {
            explanation: opt_text(self.explanation),
            plan: plan_items(self.plan@),
        }
    }
}

/// A message from the agent.
#[derive(Debug, PartialEq, Eq)]
pub enum EventMsg {
    /// The conversation is configured.
    SessionConfigured(SessionConfiguredEvent),
    /// A piece of the response.
    AgentMessageDelta {
        /// The piece.
        delta: String,
    },
    /// The whole response.
    AgentMessage {
        /// The response.
        message: String,
    },
    /// A piece of summarised reasoning.
    AgentReasoningDelta {
        /// The piece.
        delta: String,
    },
    /// A piece of raw reasoning.
    AgentReasoningRawContentDelta {
        /// The piece.
        delta: String,
    },
    /// A whole block of summarised reasoning.
    AgentReasoning {
        /// The block.
        text: String,
    },
    /// A whole block of raw reasoning.
    AgentReasoningRawContent {
        /// The block.
        text: String,
    },
    /// The reasoning goes on in a new section.
    AgentReasoningSectionBreak,
    /// A command is starting.
    ExecCommandBegin {
        /// Identifier correlating begin/end events.
        call_id: String,
        /// The argv.
        command: Vec<String>,
    },
    /// A command has ended.
    ExecCommandEnd {
        /// Identifier correlating begin/end events.
        call_id: String,
        /// Its exit code.
        exit_code: i32,
    },
    /// A running command wrote something.
    ExecCommandOutputDelta {
        /// Identifier correlating begin/end events.
        call_id: String,
        /// Where it wrote.
        stream: ExecOutputStream,
        /// What it wrote.
        chunk: Vec<u8>,
    },
    /// A patch is about to be applied.
    PatchApplyBegin {
        /// Identifier correlating begin/end events.
        call_id: String,
        /// Whether policy approved it.
        auto_approved: bool,
    },
    /// A patch was applied, or failed to be.
    PatchApplyEnd {
        /// Identifier correlating begin/end events.
        call_id: String,
        /// Whether it applied cleanly.
        success: bool,
    },
    /// An MCP tool is being called.
    McpToolCallBegin {
        /// Identifier correlating begin/end events.
        call_id: String,
        /// The tool.
        invocation: McpInvocation,
    },
    /// An MCP tool has returned.
    McpToolCallEnd {
        /// Identifier correlating begin/end events.
        call_id: String,
        /// The tool.
        invocation: McpInvocation,
        /// How long it took.
        duration: CallDuration,
        /// What it returned.
        result: Result<CallToolResult, String>,
    },
    /// A web search is starting.
    WebSearchBegin {
        /// Identifier correlating begin/end events.
        call_id: String,
    },
    /// A web search has ended.
    WebSearchEnd {
        /// Identifier correlating begin/end events.
        call_id: String,
        /// What was searched for.
        query: String,
    },
    /// Token accounting, where there is any.
    TokenCount {
        /// The counts.
        info: Option<TokenUsageInfo>,
    },
    /// The turn is complete.
    TaskComplete {
        /// The last response, if there was one.
        last_agent_message: Option<String>,
    },
    /// The turn was given up.
    TurnAborted {
        /// Why.
        reason: TurnAbortReason,
    },
    /// The edits of the turn.
    TurnDiff {
        /// They as a unified diff.
        unified_diff: String,
    },
    /// The plan changed.
    PlanUpdate(UpdatePlanArgs),
    /// Something worth knowing happened in the background.
    BackgroundEvent {
        /// What.
        message: String,
    },
    /// The model stream failed and is being retried.
    StreamError {
        /// How.
        message: String,
    },
    /// The model stream closed.
    ModelStreamClosed {
        /// Whether the model had completed its answer.
        had_completion: bool,
    },
    /// The agent has shut down.
    ShutdownComplete,
    /// The agent hit an error.
    Error {
        /// What went wrong.
        message: String,
    },
    /// A command needs approval.
    ExecApprovalRequest {
        /// Identifier correlating begin/end events.
        call_id: String,
        /// The argv.
        command: Vec<String>,
        /// Its working directory.
        cwd: FilePath,
        /// Why it needs approval, if the agent says so.
        reason: Option<String>,
    },
    /// A patch needs approval.
    ApplyPatchApprovalRequest {
        /// Identifier correlating begin/end events.
        call_id: String,
        /// What it changes.
        changes: FileChanges,
        /// Why it needs approval, if the agent says so.
        reason: Option<String>,
        /// A root that the agent asks write access to.
        grant_root: Option<FilePath>,
    },
    /// Any message that the driver does not surface.
    Other,
}

/// Model of [`EventMsg`].
pub enum EventMsgView {
    SessionConfigured(SessionConfiguredEventView),
    AgentMessageDelta { delta: Seq<char> },
    AgentMessage { message: Seq<char> },
    AgentReasoningDelta { delta: Seq<char> },
    AgentReasoningRawContentDelta { delta: Seq<char> },
    AgentReasoning { text: Seq<char> },
    AgentReasoningRawContent { text: Seq<char> },
    AgentReasoningSectionBreak,
    ExecCommandBegin { call_id: Seq<char>, command: Seq<Seq<char>> },
    ExecCommandEnd { call_id: Seq<char>, exit_code: i32 },
    ExecCommandOutputDelta { call_id: Seq<char>, stream: ExecOutputStream, chunk: Seq<u8> },
    PatchApplyBegin { call_id: Seq<char>, auto_approved: bool },
    PatchApplyEnd { call_id: Seq<char>, success: bool },
    McpToolCallBegin { call_id: Seq<char>, invocation: McpInvocationView },
    McpToolCallEnd {
        call_id: Seq<char>,
        invocation: McpInvocationView,
        duration: CallDuration,
        result: Result<CallToolResultView, Seq<char>>,
    },
    WebSearchBegin { call_id: Seq<char> },
    WebSearchEnd { call_id: Seq<char>, query: Seq<char> },
    TokenCount { info: Option<TokenUsageInfo> },
    TaskComplete { last_agent_message: Option<Seq<char>> },
    TurnAborted { reason: TurnAbortReason },
    TurnDiff { unified_diff: Seq<char> },
    PlanUpdate(UpdatePlanArgsView),
    BackgroundEvent { message: Seq<char> },
    StreamError { message: Seq<char> },
    ModelStreamClosed { had_completion: bool },
    ShutdownComplete,
    Error { message: Seq<char> },
    ExecApprovalRequest {
        call_id: Seq<char>,
        command: Seq<Seq<char>>,
        cwd: Seq<u8>,
        reason: Option<Seq<char>>,
    },
    ApplyPatchApprovalRequest {
        call_id: Seq<char>,
        changes: Map<Seq<Seq<u8>>, FileChangeEntryView>,
        reason: Option<Seq<char>>,
        grant_root: Option<Seq<u8>>,
    },
    Other,
}

impl View for EventMsg {
    type V = EventMsgView;

    open spec fn view(&self) -> EventMsgView {
        match *self {
            EventMsg::SessionConfigured(x) => EventMsgView::SessionConfigured(x@),
            EventMsg::AgentMessageDelta { delta } => EventMsgView::AgentMessageDelta {
                delta: delta@,
            },
            EventMsg::AgentMessage { message } => EventMsgView::AgentMessage {
                message: message@,
            },
            EventMsg::AgentReasoningDelta { delta } => EventMsgView::AgentReasoningDelta {
                delta: delta@,
            },
            EventMsg::AgentReasoningRawContentDelta { delta } =>
            EventMsgView::AgentReasoningRawContentDelta {
                delta: delta@,
            },
            EventMsg::AgentReasoning { text } => EventMsgView::AgentReasoning {
                text: text@,
            },
            EventMsg::AgentReasoningRawContent { text } => EventMsgView::AgentReasoningRawContent {
                text: text@,
            },
            EventMsg::AgentReasoningSectionBreak => EventMsgView::AgentReasoningSectionBreak,
            EventMsg::ExecCommandBegin { call_id, command } => EventMsgView::ExecCommandBegin {
                call_id: call_id@,
                command: texts(command@),
            },
            EventMsg::ExecCommandEnd { call_id, exit_code } => EventMsgView::ExecCommandEnd {
                call_id: call_id@,
                exit_code,
            },
            EventMsg::ExecCommandOutputDelta { call_id, stream, chunk } =>
            EventMsgView::ExecCommandOutputDelta {
                call_id: call_id@,
                stream,
                chunk: chunk@,
            },
            EventMsg::PatchApplyBegin { call_id, auto_approved } => EventMsgView::PatchApplyBegin {
                call_id: call_id@,
                auto_approved,
            },
            EventMsg::PatchApplyEnd { call_id, success } => EventMsgView::PatchApplyEnd {
                call_id: call_id@,
                success,
            },
            EventMsg::McpToolCallBegin { call_id, invocation } => EventMsgView::McpToolCallBegin {
                call_id: call_id@,
                invocation: invocation@,
            },
            EventMsg::McpToolCallEnd { call_id, invocation, duration, result } =>
            EventMsgView::McpToolCallEnd {
                call_id: call_id@,
                invocation: invocation@,
                duration,
                result: tool_result(result),
            },
            EventMsg::WebSearchBegin { call_id } => EventMsgView::WebSearchBegin {
                call_id: call_id@,
            },
            EventMsg::WebSearchEnd { call_id, query } => EventMsgView::WebSearchEnd {
                call_id: call_id@,
                query: query@,
            },
            EventMsg::TokenCount { info } => EventMsgView::TokenCount {
                info,
            },
            EventMsg::TaskComplete { last_agent_message } => EventMsgView::TaskComplete {
                last_agent_message: opt_text(last_agent_message),
            },
            EventMsg::TurnAborted { reason } => EventMsgView::TurnAborted {
                reason,
            },
            EventMsg::TurnDiff { unified_diff } => EventMsgView::TurnDiff {
                unified_diff: unified_diff@,
            },
            EventMsg::PlanUpdate(x) => EventMsgView::PlanUpdate(x@),
            EventMsg::BackgroundEvent { message } => EventMsgView::BackgroundEvent {
                message: message@,
            },
            EventMsg::StreamError { message } => EventMsgView::StreamError {
                message: message@,
            },
            EventMsg::ModelStreamClosed { had_completion } => EventMsgView::ModelStreamClosed {
                had_completion,
            },
            EventMsg::ShutdownComplete => EventMsgView::ShutdownComplete,
            EventMsg::Error { message } => EventMsgView::Error {
                message: message@,
            },
            EventMsg::ExecApprovalRequest { call_id, command, cwd, reason } =>
            EventMsgView::ExecApprovalRequest {
                call_id: call_id@,
                command: texts(command@),
                cwd: cwd@,
                reason: opt_text(reason),
            },
            EventMsg::ApplyPatchApprovalRequest { call_id, changes, reason, grant_root } =>
            EventMsgView::ApplyPatchApprovalRequest {
                call_id: call_id@,
                changes: changes@,
                reason: opt_text(reason),
                grant_root: opt_path(grant_root),
            },
            EventMsg::Other => EventMsgView::Other,
        }
    }
}

/// A part of a user message.
#[derive(Debug, Clone, PartialEq, Eq)]
pub enum InputItem {
    /// Text.
    Text {
        /// The text.
        text: String,
    },
    /// An image on disk.
    LocalImage {
        /// Where it lies.
        path: FilePath,
    },
}

/// Model of [`InputItem`].
pub enum InputItemView {
    Text { text: Seq<char> },
    LocalImage { path: Seq<u8> },
}

impl View for InputItem {
    type V = InputItemView;

    open spec fn view(&self) -> InputItemView {
        match *self {
            InputItem::Text { text } => InputItemView::Text {
                text: text@,
            },
            InputItem::LocalImage { path } => InputItemView::LocalImage {
                path: path@,
            },
        }
    }
}

/// The views of a sequence of message parts.
pub open spec fn input_items(items: Seq<InputItem>) -> Seq<InputItemView> {
    items.map_values(|i: InputItem| i@)
}

/// An operation that a conversation accepts.
#[derive(Debug, Clone, PartialEq, Eq)]
pub enum Op {
    /// A user message.
    UserInput {
        /// Its parts.
        items: Vec<InputItem>,
    },
    /// Give up the current turn.
    Interrupt,
    /// End the conversation.
    Shutdown,
    /// The answer to an exec approval request.
    ExecApproval {
        /// Identifier of the request.
        id: String,
        /// The answer.
        decision: ReviewDecision,
    },
    /// The answer to a patch approval request.
    PatchApproval {
        /// Identifier of the request.
        id: String,
        /// The answer.
        decision: ReviewDecision,
    },
}

/// Model of [`Op`].
pub enum OpView {
    UserInput { items: Seq<InputItemView> },
    Interrupt,
    Shutdown,
    ExecApproval { id: Seq<char>, decision: ReviewDecision },
    PatchApproval { id: Seq<char>, decision: ReviewDecision },
}

impl View for Op {
    type V = OpView;

    open spec fn view(&self) -> OpView {
        match *self {
            Op::UserInput { items } => OpView::UserInput {
                items: input_items(items@),
            },
            Op::Interrupt => OpView::Interrupt,
            Op::Shutdown => OpView::Shutdown,
            Op::ExecApproval { id, decision } => OpView::ExecApproval {
                id: id@,
                decision,
            },
            Op::PatchApproval { id, decision } => OpView::PatchApproval {
                id: id@,
                decision,
            },
        }
    }
}

} // verus!
