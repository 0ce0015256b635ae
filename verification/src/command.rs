//! What a client may ask of the driver.

use crate::path::{paths, FilePath};
use crate::protocol::ReviewDecision;
use vstd::prelude::*;

verus! {

/// Identifies the subsystem that requested approval.
#[derive(Debug, Clone, Copy, PartialEq, Eq)]
pub enum ApprovalKind {
    /// Approval for a command execution.
    Exec,
    /// Approval for applying a patch.
    Patch,
}

/// Public commands that a client may send to the driver.
#[derive(Debug, Clone, PartialEq, Eq)]
pub enum ClientCommand {
    /// Submit a user message to the active Codex session.
    SubmitUserMessage {
        /// Primary text content for the user message.
        text: String,
        /// Optional image paths to include alongside the text input.
        images: Vec<FilePath>,
    },
    /// Request that the current Codex turn be interrupted.
    Interrupt,
    /// Shut down the running Codex session.
    Shutdown,
    /// Resume from an existing rollout, replacing the current conversation.
    Resume {
        /// Path to the rollout archive.
        rollout_path: FilePath,
    },
    /// Respond to an approval request raised by the agent.
    RespondApproval {
        /// Submission identifier associated with the approval request.
        id: String,
        /// Identifies which subsystem is awaiting approval.
        kind: ApprovalKind,
        /// The user's decision.
        decision: ReviewDecision,
    },
}

/// Model of [`ClientCommand`].
pub enum ClientCommandView {
    SubmitUserMessage { text: Seq<char>, images: Seq<Seq<u8>> },
    Interrupt,
    Shutdown,
    Resume { rollout_path: Seq<u8> },
    RespondApproval { id: Seq<char>, kind: ApprovalKind, decision: ReviewDecision },
}

impl View for ClientCommand {
    type V = ClientCommandView;

    open spec fn view(&self) -> ClientCommandView {
        match *self {
            ClientCommand::SubmitUserMessage { text, images } =>
            ClientCommandView::SubmitUserMessage {
                text: text@,
                images: paths(images@),
            },
            ClientCommand::Interrupt => ClientCommandView::Interrupt,
            ClientCommand::Shutdown => ClientCommandView::Shutdown,
            ClientCommand::Resume { rollout_path } => ClientCommandView::Resume {
                rollout_path: rollout_path@,
            },
            ClientCommand::RespondApproval { id, kind, decision } =>
            ClientCommandView::RespondApproval {
                id: id@,
                kind,
                decision,
            },
        }
    }
}

} // verus!
