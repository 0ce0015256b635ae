//! What the agent loop does with everything it can hear, written out.

use crate::agent::{
    agent_move, approval, command_op, configured, user_input, AgentEffectView, AgentInputView,
    AgentPhaseView, AgentRequestView, JoinOutcomeView,
};
use crate::command::{ApprovalKind, ClientCommandView};
use crate::event::ServerEventView;
use crate::protocol::{InputItemView, OpView, ReviewDecision, SessionConfiguredEventView};
use vstd::prelude::*;

verus! {

/// A user message reaches the agent whole: its text first, unless there is none, and behind it
/// every image in its place. Only a message with neither is not submitted.
pub proof fn user_messages_reach_the_agent_whole(text: Seq<char>, images: Seq<Seq<u8>>)
    ensures
        user_input(text, images) is None <==> text.len() == 0 && images.len() == 0,
        user_input(text, images) matches Some(op) ==> (op matches OpView::UserInput { items } && {
            &&& items.len() == images.len() + if text.len() > 0 {
                1int
            } else {
                0
            }
            &&& text.len() > 0 ==> items[0] == (InputItemView::Text { text })
            &&& forall|i: int|
                0 <= i < images.len() ==> #[trigger] items[items.len() - images.len() + i] == (
                InputItemView::LocalImage { path: images[i] })
        }),
        command_op(ClientCommandView::SubmitUserMessage { text, images }) == user_input(
            text,
            images,
        ),
{
}

/// An answer to an approval request goes to the subsystem that asked, with the identifier and the
/// decision that the client gave; an interrupt goes as it is, and a shutdown or a resume is no
/// mere operation.
pub proof fn answers_and_interrupts_reach_the_agent(
    id: Seq<char>,
    decision: ReviewDecision,
    path: Seq<u8>,
)
    ensures
        command_op(
            ClientCommandView::RespondApproval { id, kind: ApprovalKind::Exec, decision },
        ) == Some(OpView::ExecApproval { id, decision }),
        command_op(
            ClientCommandView::RespondApproval { id, kind: ApprovalKind::Patch, decision },
        ) == Some(OpView::PatchApproval { id, decision }),
        approval(id, ApprovalKind::Exec, decision) == (OpView::ExecApproval { id, decision }),
        approval(id, ApprovalKind::Patch, decision) == (OpView::PatchApproval { id, decision }),
        command_op(ClientCommandView::Interrupt) == Some(OpView::Interrupt),
        command_op(ClientCommandView::Shutdown) is None,
        command_op(ClientCommandView::Resume { rollout_path: path }) is None,
{
}

/// Tells whether the loop, in this phase and hearing this, goes to that phase, carries these
/// effects out in this order, and asks for this next.
pub open spec fn moves(
    phase: AgentPhaseView,
    input: AgentInputView,
    next: AgentPhaseView,
    effects: Seq<AgentEffectView>,
    request: AgentRequestView,
) -> bool {
    agent_move(phase, input) matches Some(m) && m.phase == next && m.effects == effects && m.request
        == request
}

/// A conversation that comes up is announced and listened to, and commands are served from then
/// on; one that does not is reported as fatal, and the session ends.
pub proof fn starts_are_announced(ev: SessionConfiguredEventView, message: Seq<char>)
    ensures
        moves(
            AgentPhaseView::Bootstrapping,
            AgentInputView::Bootstrapped(ev),
            AgentPhaseView::Idle,
            seq![
                AgentEffectView::Emit(
                    ServerEventView::SessionConfigured {
                        model: ev.model,
                        conversation_id: ev.session_id,
                        rollout_path: ev.rollout_path,
                    },
                ),
                AgentEffectView::SpawnStream,
            ],
            AgentRequestView::NextCommand,
        ),
        moves(
            AgentPhaseView::Bootstrapping,
            AgentInputView::BootstrapFailed(message),
            AgentPhaseView::Stopped,
            seq![
                AgentEffectView::Emit(ServerEventView::Fatal { message }),
                AgentEffectView::Emit(ServerEventView::SessionEnded),
                AgentEffectView::RaiseShutdown,
            ],
            AgentRequestView::Stop,
        ),
{
    let told = AgentEffectView::Emit(
        ServerEventView::SessionConfigured {
            model: ev.model,
            conversation_id: ev.session_id,
            rollout_path: ev.rollout_path,
        },
    );
    let listen = AgentEffectView::SpawnStream;
    assert(configured(ev).push(listen) =~= seq![told, listen]);
}

/// A command that asks the agent for something is submitted as it is, and one that asks for
/// nothing is passed over.
pub proof fn operations_are_submitted(command: ClientCommandView)
    requires
        !(command is Shutdown) && !(command is Resume),
    ensures
        command_op(command) matches Some(op) ==> moves(
            AgentPhaseView::Idle,
            AgentInputView::Command(command),
            AgentPhaseView::Submitting,
            Seq::empty(),
            AgentRequestView::Submit(op),
        ),
        command_op(command) is None ==> moves(
            AgentPhaseView::Idle,
            AgentInputView::Command(command),
            AgentPhaseView::Idle,
            Seq::empty(),
            AgentRequestView::NextCommand,
        ),
{
}

/// A shutdown, asked for or because the client has gone, raises the flag and is submitted; the
/// two differ only in whether a refusal is reported. A resume is asked for the rollout that the
/// client named.
pub proof fn shutdowns_and_resumes_are_carried_out(path: Seq<u8>)
    ensures
        moves(
            AgentPhaseView::Idle,
            AgentInputView::Command(ClientCommandView::Shutdown),
            AgentPhaseView::Closing { report: true },
            seq![AgentEffectView::RaiseShutdown],
            AgentRequestView::Submit(OpView::Shutdown),
        ),
        moves(
            AgentPhaseView::Idle,
            AgentInputView::CommandsClosed,
            AgentPhaseView::Closing { report: false },
            seq![AgentEffectView::RaiseShutdown],
            AgentRequestView::Submit(OpView::Shutdown),
        ),
        moves(
            AgentPhaseView::Idle,
            AgentInputView::Command(ClientCommandView::Resume { rollout_path: path }),
            AgentPhaseView::Resuming,
            Seq::empty(),
            AgentRequestView::Resume(path),
        ),
{
}

/// After an operation that was taken the next command is served; one that was refused is
/// reported as fatal and closes the session.
pub proof fn submissions_are_answered(message: Seq<char>)
    ensures
        moves(
            AgentPhaseView::Submitting,
            AgentInputView::Submitted,
            AgentPhaseView::Idle,
            Seq::empty(),
            AgentRequestView::NextCommand,
        ),
        moves(
            AgentPhaseView::Submitting,
            AgentInputView::SubmitFailed(message),
            AgentPhaseView::Closing { report: false },
            seq![
                AgentEffectView::Emit(ServerEventView::Fatal { message }),
                AgentEffectView::RaiseShutdown,
            ],
            AgentRequestView::Submit(OpView::Shutdown),
        ),
{
}

/// A rollout that could be resumed first stops the old event stream; one that could not is
/// reported as fatal and closes the session.
pub proof fn resumes_are_answered(ev: SessionConfiguredEventView, message: Seq<char>)
    ensures
        moves(
            AgentPhaseView::Resuming,
            AgentInputView::Resumed(ev),
            AgentPhaseView::Replacing(ev),
            seq![AgentEffectView::AbortStream],
            AgentRequestView::JoinStream,
        ),
        moves(
            AgentPhaseView::Resuming,
            AgentInputView::ResumeFailed(message),
            AgentPhaseView::Closing { report: false },
            seq![
                AgentEffectView::Emit(ServerEventView::Fatal { message }),
                AgentEffectView::RaiseShutdown,
            ],
            AgentRequestView::Submit(OpView::Shutdown),
        ),
{
}

/// Once the old event stream has stopped, by itself or because it was told to, the resumed
/// conversation takes its place, is announced and listened to; where it broke down, that is
/// reported as fatal and the session ends.
pub proof fn resumed_conversations_take_over(ev: SessionConfiguredEventView, message: Seq<char>)
    ensures
        moves(
            AgentPhaseView::Replacing(ev),
            AgentInputView::StreamJoined(JoinOutcomeView::Finished),
            AgentPhaseView::Idle,
            seq![
                AgentEffectView::AdoptConversation,
                AgentEffectView::Emit(
                    ServerEventView::SessionConfigured {
                        model: ev.model,
                        conversation_id: ev.session_id,
                        rollout_path: ev.rollout_path,
                    },
                ),
                AgentEffectView::SpawnStream,
            ],
            AgentRequestView::NextCommand,
        ),
        moves(
            AgentPhaseView::Replacing(ev),
            AgentInputView::StreamJoined(JoinOutcomeView::Cancelled),
            AgentPhaseView::Idle,
            seq![
                AgentEffectView::AdoptConversation,
                AgentEffectView::Emit(
                    ServerEventView::SessionConfigured {
                        model: ev.model,
                        conversation_id: ev.session_id,
                        rollout_path: ev.rollout_path,
                    },
                ),
                AgentEffectView::SpawnStream,
            ],
            AgentRequestView::NextCommand,
        ),
        moves(
            AgentPhaseView::Replacing(ev),
            AgentInputView::StreamJoined(JoinOutcomeView::Failed(message)),
            AgentPhaseView::Stopped,
            seq![
                AgentEffectView::Emit(ServerEventView::Fatal { message }),
                AgentEffectView::Emit(ServerEventView::SessionEnded),
                AgentEffectView::RaiseShutdown,
            ],
            AgentRequestView::Stop,
        ),
{
    let told = AgentEffectView::Emit(
        ServerEventView::SessionConfigured {
            model: ev.model,
            conversation_id: ev.session_id,
            rollout_path: ev.rollout_path,
        },
    );
    let listen = AgentEffectView::SpawnStream;
    let adopt = AgentEffectView::AdoptConversation;
    assert(seq![adopt] + configured(ev).push(listen) =~= seq![adopt, told, listen]);
}

/// Whether or not the agent takes the shutdown, the loop waits for the event stream to run out;
/// a refusal is reported only where the client asked for the shutdown.
pub proof fn closing_waits_for_the_stream(report: bool, message: Seq<char>)
    ensures
        moves(
            AgentPhaseView::Closing { report },
            AgentInputView::Submitted,
            AgentPhaseView::Draining,
            Seq::empty(),
            AgentRequestView::JoinStream,
        ),
        moves(
            AgentPhaseView::Closing { report: true },
            AgentInputView::SubmitFailed(message),
            AgentPhaseView::Draining,
            seq![AgentEffectView::Emit(ServerEventView::Fatal { message })],
            AgentRequestView::JoinStream,
        ),
        moves(
            AgentPhaseView::Closing { report: false },
            AgentInputView::SubmitFailed(message),
            AgentPhaseView::Draining,
            Seq::empty(),
            AgentRequestView::JoinStream,
        ),
{
}

/// The loop stops once the event stream is gone. Where the stream did not announce the end
/// itself, the loop does, after the error where it broke down.
pub proof fn drained_loops_stop(message: Seq<char>)
    ensures
        moves(
            AgentPhaseView::Draining,
            AgentInputView::StreamJoined(JoinOutcomeView::Finished),
            AgentPhaseView::Stopped,
            Seq::empty(),
            AgentRequestView::Stop,
        ),
        moves(
            AgentPhaseView::Draining,
            AgentInputView::StreamJoined(JoinOutcomeView::Cancelled),
            AgentPhaseView::Stopped,
            seq![AgentEffectView::Emit(ServerEventView::SessionEnded)],
            AgentRequestView::Stop,
        ),
        moves(
            AgentPhaseView::Draining,
            AgentInputView::StreamJoined(JoinOutcomeView::Failed(message)),
            AgentPhaseView::Stopped,
            seq![
                AgentEffectView::Emit(ServerEventView::Fatal { message }),
                AgentEffectView::Emit(ServerEventView::SessionEnded),
            ],
            AgentRequestView::Stop,
        ),
{
}

/// In every phase the loop listens to what it waits for there, and to nothing else.
pub proof fn each_phase_listens_to_its_own(phase: AgentPhaseView, input: AgentInputView)
    ensures
        phase is Bootstrapping ==> (agent_move(phase, input) is Some <==> input is Bootstrapped
            || input is BootstrapFailed),
        phase is Idle ==> (agent_move(phase, input) is Some <==> input is Command
            || input is CommandsClosed),
        phase is Submitting || phase is Closing ==> (agent_move(phase, input) is Some
            <==> input is Submitted || input is SubmitFailed),
        phase is Resuming ==> (agent_move(phase, input) is Some <==> input is Resumed
            || input is ResumeFailed),
        phase is Replacing || phase is Draining ==> (agent_move(phase, input) is Some
            <==> input is StreamJoined),
        phase is Stopped ==> agent_move(phase, input) is None,
{
}

} // verus!
