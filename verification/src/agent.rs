//! The agent loop: what the driver does with each command and with each reply from the agent.
//!
//! The loop is a state machine. Every step hands out effects to carry out at once and one
//! request to wait for; the reply to that request is the next step's input.

use crate::command::{ApprovalKind, ClientCommand, ClientCommandView};
use crate::event::{ServerEvent, ServerEventView};
use crate::path::FilePath;
use crate::protocol::{
    input_items, EventMsg, EventMsgView, InputItem, InputItemView, Op, OpView, ReviewDecision,
    SessionConfiguredEvent, SessionConfiguredEventView,
};
use crate::translate::{translate_event_msg, translated};
use vstd::prelude::*;

verus! {

/// How an event stream task came to its end.
#[derive(Debug, Clone, PartialEq, Eq)]
pub enum JoinOutcome {
    /// It ran to its end.
    Finished,
    /// It was cancelled.
    Cancelled,
    /// It broke down.
    Failed(String),
}

/// Model of [`JoinOutcome`].
pub enum JoinOutcomeView {
    Finished,
    Cancelled,
    Failed(Seq<char>),
}

impl View for JoinOutcome {
    type V = JoinOutcomeView;

    open spec fn view(&self) -> JoinOutcomeView {
        match *self {
            JoinOutcome::Finished => JoinOutcomeView::Finished,
            JoinOutcome::Cancelled => JoinOutcomeView::Cancelled,
            JoinOutcome::Failed(x) => JoinOutcomeView::Failed(x@),
        }
    }
}

/// What the loop hears: commands, and the replies to its requests.
#[derive(Debug, PartialEq, Eq)]
pub enum AgentInput {
    /// The first conversation is up.
    Bootstrapped(SessionConfiguredEvent),
    /// The first conversation could not be started.
    BootstrapFailed(String),
    /// A command from the client.
    Command(ClientCommand),
    /// No command will come any more.
    CommandsClosed,
    /// The conversation took the operation.
    Submitted,
    /// The conversation did not take the operation.
    SubmitFailed(String),
    /// A conversation was resumed from its rollout.
    Resumed(SessionConfiguredEvent),
    /// The rollout could not be resumed.
    ResumeFailed(String),
    /// The event stream task came to its end.
    StreamJoined(JoinOutcome),
}

/// Model of [`AgentInput`].
pub enum AgentInputView {
    Bootstrapped(SessionConfiguredEventView),
    BootstrapFailed(Seq<char>),
    Command(ClientCommandView),
    CommandsClosed,
    Submitted,
    SubmitFailed(Seq<char>),
    Resumed(SessionConfiguredEventView),
    ResumeFailed(Seq<char>),
    StreamJoined(JoinOutcomeView),
}

impl View for AgentInput {
    type V = AgentInputView;

    open spec fn view(&self) -> AgentInputView {
        match *self {
            AgentInput::Bootstrapped(x) => AgentInputView::Bootstrapped(x@),
            AgentInput::BootstrapFailed(x) => AgentInputView::BootstrapFailed(x@),
            AgentInput::Command(x) => AgentInputView::Command(x@),
            AgentInput::CommandsClosed => AgentInputView::CommandsClosed,
            AgentInput::Submitted => AgentInputView::Submitted,
            AgentInput::SubmitFailed(x) => AgentInputView::SubmitFailed(x@),
            AgentInput::Resumed(x) => AgentInputView::Resumed(x@),
            AgentInput::ResumeFailed(x) => AgentInputView::ResumeFailed(x@),
            AgentInput::StreamJoined(x) => AgentInputView::StreamJoined(x@),
        }
    }
}

/// Something to carry out at once.
#[derive(Debug, PartialEq, Eq)]
pub enum AgentEffect {
    /// Send an event to the client.
    Emit(ServerEvent),
    /// Raise the flag that tells every task that the session is closing.
    RaiseShutdown,
    /// Abort the running event stream.
    AbortStream,
    /// Make the resumed conversation the current one.
    AdoptConversation,
    /// Start an event stream on the current conversation.
    SpawnStream,
}

/// Model of [`AgentEffect`].
pub enum AgentEffectView {
    Emit(ServerEventView),
    RaiseShutdown,
    AbortStream,
    AdoptConversation,
    SpawnStream,
}

impl View for AgentEffect {
    type V = AgentEffectView;

    open spec fn view(&self) -> AgentEffectView {
        match *self {
            AgentEffect::Emit(x) => AgentEffectView::Emit(x@),
            AgentEffect::RaiseShutdown => AgentEffectView::RaiseShutdown,
            AgentEffect::AbortStream => AgentEffectView::AbortStream,
            AgentEffect::AdoptConversation => AgentEffectView::AdoptConversation,
            AgentEffect::SpawnStream => AgentEffectView::SpawnStream,
        }
    }
}

/// The views of a sequence of effects.
pub open spec fn agent_effects(effects: Seq<AgentEffect>) -> Seq<AgentEffectView> {
    effects.map_values(|e: AgentEffect| e@)
}

/// What to wait for before the next step.
#[derive(Debug, PartialEq, Eq)]
pub enum AgentRequest {
    /// The next command from the client.
    NextCommand,
    /// The conversation's answer to an operation.
    Submit(Op),
    /// A conversation resumed from a rollout.
    Resume(FilePath),
    /// The end of the event stream task.
    JoinStream,
    /// Nothing: the loop is over.
    Stop,
}

/// Model of [`AgentRequest`].
pub enum AgentRequestView {
    NextCommand,
    Submit(OpView),
    Resume(Seq<u8>),
    JoinStream,
    Stop,
}

impl View for AgentRequest {
    type V = AgentRequestView;

    open spec fn view(&self) -> AgentRequestView {
        match *self {
            AgentRequest::NextCommand => AgentRequestView::NextCommand,
            AgentRequest::Submit(x) => AgentRequestView::Submit(x@),
            AgentRequest::Resume(x) => AgentRequestView::Resume(x@),
            AgentRequest::JoinStream => AgentRequestView::JoinStream,
            AgentRequest::Stop => AgentRequestView::Stop,
        }
    }
}

/// One step of the loop.
#[derive(Debug, PartialEq, Eq)]
pub struct AgentStep {
    /// What to carry out, in this order.
    pub effects: Vec<AgentEffect>,
    /// What to wait for after that.
    pub request: AgentRequest,
}

/// Where the loop stands.
#[derive(Debug, PartialEq, Eq)]
pub enum AgentPhase {
    /// The first conversation is being started.
    Bootstrapping,
    /// A command may come.
    Idle,
    /// An operation is on its way to the conversation.
    Submitting,
    /// A rollout is being resumed.
    Resuming,
    /// The resumed conversation waits for the old event stream to end.
    Replacing(SessionConfiguredEvent),
    /// The shutdown operation is on its way; `report` tells whether its failure is news.
    Closing {
        /// Whether a failure is reported to the client.
        report: bool,
    },
    /// The event stream is running out.
    Draining,
    /// The loop is over.
    Stopped,
}

/// Model of [`AgentPhase`].
pub enum AgentPhaseView {
    Bootstrapping,
    Idle,
    Submitting,
    Resuming,
    Replacing(SessionConfiguredEventView),
    Closing { report: bool },
    Draining,
    Stopped,
}

impl View for AgentPhase {
    type V = AgentPhaseView;

    open spec fn view(&self) -> AgentPhaseView {
        match *self {
            AgentPhase::Bootstrapping => AgentPhaseView::Bootstrapping,
            AgentPhase::Idle => AgentPhaseView::Idle,
            AgentPhase::Submitting => AgentPhaseView::Submitting,
            AgentPhase::Resuming => AgentPhaseView::Resuming,
            AgentPhase::Replacing(x) => AgentPhaseView::Replacing(x@),
            AgentPhase::Closing { report } => AgentPhaseView::Closing { report },
            AgentPhase::Draining => AgentPhaseView::Draining,
            AgentPhase::Stopped => AgentPhaseView::Stopped,
        }
    }
}

/// The agent loop of one session.
#[derive(Debug, PartialEq, Eq)]
pub struct AgentLoop {
    /// Where the loop stands.
    pub phase: AgentPhase,
}

impl View for AgentLoop {
    type V = AgentPhaseView;

    open spec fn view(&self) -> AgentPhaseView {
        self.phase@
    }
}

/// The parts of a user message: its text, unless that is empty, and then its images in order.
pub open spec fn user_items(text: Seq<char>, images: Seq<Seq<u8>>) -> Seq<InputItemView> {
    let front = if text.len() == 0 {
        Seq::empty()
    } else {
        seq![InputItemView::Text { text }]
    };
    front + images.map_values(|path: Seq<u8>| InputItemView::LocalImage { path })
}

/// The operation for a user message; there is none for a message without parts.
pub open spec fn user_input(text: Seq<char>, images: Seq<Seq<u8>>) -> Option<OpView> {
    let items = user_items(text, images);
    if items.len() == 0 {
        None
    } else {
        Some(OpView::UserInput { items })
    }
}

/// The operation for the answer to an approval request.
pub open spec fn approval(id: Seq<char>, kind: ApprovalKind, decision: ReviewDecision) -> OpView {
    match kind {
        ApprovalKind::Exec => OpView::ExecApproval { id, decision },
        ApprovalKind::Patch => OpView::PatchApproval { id, decision },
    }
}

/// The operation that a command puts to the conversation, for the commands that do nothing else.
pub open spec fn command_op(command: ClientCommandView) -> Option<OpView> {
    match command {
        ClientCommandView::SubmitUserMessage { text, images } => user_input(text, images),
        ClientCommandView::Interrupt => Some(OpView::Interrupt),
        ClientCommandView::RespondApproval { id, kind, decision } => Some(
            approval(id, kind, decision),
        ),
        ClientCommandView::Shutdown => None,
        ClientCommandView::Resume { .. } => None,
    }
}

/// Model of a step: the phase it leads to, its effects and its request.
pub struct AgentMove {
    pub phase: AgentPhaseView,
    pub effects: Seq<AgentEffectView>,
    pub request: AgentRequestView,
}

/// A fatal error for the client.
pub open spec fn fatal(message: Seq<char>) -> AgentEffectView {
    AgentEffectView::Emit(ServerEventView::Fatal { message })
}

/// The end of the session for the client.
pub open spec fn ended() -> AgentEffectView {
    AgentEffectView::Emit(ServerEventView::SessionEnded)
}

/// The events of a newly configured conversation for the client.
pub open spec fn configured(ev: SessionConfiguredEventView) -> Seq<AgentEffectView> {
    translated(EventMsgView::SessionConfigured(ev), None).map_values(
        |e: ServerEventView| AgentEffectView::Emit(e),
    )
}

/// What the loop does with a command.
pub open spec fn on_command(command: ClientCommandView) -> AgentMove {
    match command {
        ClientCommandView::Shutdown => AgentMove {
            phase: AgentPhaseView::Closing { report: true },
            effects: seq![AgentEffectView::RaiseShutdown],
            request: AgentRequestView::Submit(OpView::Shutdown),
        },
        ClientCommandView::Resume { rollout_path } => AgentMove {
            phase: AgentPhaseView::Resuming,
            effects: Seq::empty(),
            request: AgentRequestView::Resume(rollout_path),
        },
        _ => match command_op(command) {
            Some(op) => AgentMove {
                phase: AgentPhaseView::Submitting,
                effects: Seq::empty(),
                request: AgentRequestView::Submit(op),
            },
            None => AgentMove {
                phase: AgentPhaseView::Idle,
                effects: Seq::empty(),
                request: AgentRequestView::NextCommand,
            },
        },
    }
}

/// The transition table. There is no move where the input does not answer the request that the
/// phase waits for.
pub open spec fn agent_move(phase: AgentPhaseView, input: AgentInputView) -> Option<AgentMove> {
    match (phase, input) {
        (AgentPhaseView::Bootstrapping, AgentInputView::Bootstrapped(ev)) => Some(
            AgentMove {
                phase: AgentPhaseView::Idle,
                effects: configured(ev).push(AgentEffectView::SpawnStream),
                request: AgentRequestView::NextCommand,
            },
        ),
        (AgentPhaseView::Bootstrapping, AgentInputView::BootstrapFailed(message)) => Some(
            AgentMove {
                phase: AgentPhaseView::Stopped,
                effects: seq![fatal(message), ended(), AgentEffectView::RaiseShutdown],
                request: AgentRequestView::Stop,
            },
        ),
        (AgentPhaseView::Idle, AgentInputView::Command(command)) => Some(on_command(command)),
        (AgentPhaseView::Idle, AgentInputView::CommandsClosed) => Some(
            AgentMove {
                phase: AgentPhaseView::Closing { report: false },
                effects: seq![AgentEffectView::RaiseShutdown],
                request: AgentRequestView::Submit(OpView::Shutdown),
            },
        ),
        (AgentPhaseView::Submitting, AgentInputView::Submitted) => Some(
            AgentMove {
                phase: AgentPhaseView::Idle,
                effects: Seq::empty(),
                request: AgentRequestView::NextCommand,
            },
        ),
        (AgentPhaseView::Submitting, AgentInputView::SubmitFailed(message)) => Some(
            AgentMove {
                phase: AgentPhaseView::Closing { report: false },
                effects: seq![fatal(message), AgentEffectView::RaiseShutdown],
                request: AgentRequestView::Submit(OpView::Shutdown),
            },
        ),
        (AgentPhaseView::Resuming, AgentInputView::Resumed(ev)) => Some(
            AgentMove {
                phase: AgentPhaseView::Replacing(ev),
                effects: seq![AgentEffectView::AbortStream],
                request: AgentRequestView::JoinStream,
            },
        ),
        (AgentPhaseView::Resuming, AgentInputView::ResumeFailed(message)) => Some(
            AgentMove {
                phase: AgentPhaseView::Closing { report: false },
                effects: seq![fatal(message), AgentEffectView::RaiseShutdown],
                request: AgentRequestView::Submit(OpView::Shutdown),
            },
        ),
        (AgentPhaseView::Replacing(ev), AgentInputView::StreamJoined(outcome)) => match outcome {
            JoinOutcomeView::Failed(message) => Some(
                AgentMove {
                    phase: AgentPhaseView::Stopped,
                    effects: seq![fatal(message), ended(), AgentEffectView::RaiseShutdown],
                    request: AgentRequestView::Stop,
                },
            ),
            _ => Some(
                AgentMove {
                    phase: AgentPhaseView::Idle,
                    effects: seq![AgentEffectView::AdoptConversation] + configured(ev).push(
                        AgentEffectView::SpawnStream,
                    ),
                    request: AgentRequestView::NextCommand,
                },
            ),
        },
        (AgentPhaseView::Closing { .. }, AgentInputView::Submitted) => Some(
            AgentMove {
                phase: AgentPhaseView::Draining,
                effects: Seq::empty(),
                request: AgentRequestView::JoinStream,
            },
        ),
        (AgentPhaseView::Closing { report }, AgentInputView::SubmitFailed(message)) => Some(
            AgentMove {
                phase: AgentPhaseView::Draining,
                effects: if report {
                    seq![fatal(message)]
                } else {
                    Seq::empty()
                },
                request: AgentRequestView::JoinStream,
            },
        ),
        (AgentPhaseView::Draining, AgentInputView::StreamJoined(outcome)) => Some(
            AgentMove {
                phase: AgentPhaseView::Stopped,
                effects: match outcome {
                    JoinOutcomeView::Finished => Seq::empty(),
                    JoinOutcomeView::Cancelled => seq![ended()],
                    JoinOutcomeView::Failed(message) => seq![fatal(message), ended()],
                },
                request: AgentRequestView::Stop,
            },
        ),
        _ => None,
    }
}

/// Builds the operation for a user message, if the message has any part.
pub fn forward_user_input(text: String, images: Vec<FilePath>) -> (r: Option<Op>)
    ensures
        match user_input(text@, crate::path::paths(images@)) {
            Some(op) => r matches Some(o) && o@ == op,
            None => r is None,
        },
{
    let ghost given = images@;
    let ghost spoken = text@;
    let mut items: Vec<InputItem> = Vec::new();
    if !text.as_str().is_empty() {
        items.push(InputItem::Text { text });
    }
    let ghost front = items@;
    assert(spoken.len() == 0 ==> front.len() == 0);
    assert(spoken.len() > 0 ==> front.len() == 1 && front[0]@ == InputItemView::Text {
        text: spoken,
    });
    for image in it: images
        invariant
            it.seq() == given,
            items@.len() == front.len() + it.index(),
            forall|j: int| 0 <= j < front.len() ==> items@[j] == front[j],
            forall|j: int|
                0 <= j < it.index() ==> (#[trigger] items@[front.len() + j])@ == (
                InputItemView::LocalImage { path: given[j]@ }),
    {
        items.push(InputItem::LocalImage { path: image });
    }
    assert(input_items(items@) =~= user_items(spoken, crate::path::paths(given))) by {
        let whole = user_items(spoken, crate::path::paths(given));
        assert forall|k: int| 0 <= k < items@.len() implies #[trigger] input_items(items@)[k]
            == whole[k] by {
            if k < front.len() {
                assert(items@[k] == front[k]);
            } else {
                let j = k - front.len();
                assert(items@[front.len() + j]@ == (InputItemView::LocalImage {
                    path: given[j]@,
                }));
                assert(whole[k] == (InputItemView::LocalImage { path: given[j]@ }));
            }
        }
    }
    if items.is_empty() {
        None
    } else {
        Some(Op::UserInput { items })
    }
}

/// Builds the operation for the answer to an approval request.
pub fn approval_op(id: String, kind: ApprovalKind, decision: ReviewDecision) -> (r: Op)
    ensures
        r@ == approval(id@, kind, decision),
{
    match kind {
        ApprovalKind::Exec => Op::ExecApproval { id, decision },
        ApprovalKind::Patch => Op::PatchApproval { id, decision },
    }
}

/// A step without effects.
fn quiet(request: AgentRequest) -> (r: AgentStep)
    ensures
        agent_effects(r.effects@) == Seq::<AgentEffectView>::empty(),
        r.request == request,
{
    let effects: Vec<AgentEffect> = Vec::new();
    assert(agent_effects(effects@) =~= Seq::<AgentEffectView>::empty());
    AgentStep { effects, request }
}

/// Puts an effect at the end of a list.
fn also(effects: &mut Vec<AgentEffect>, effect: AgentEffect)
    ensures
        agent_effects(final(effects)@) == agent_effects(old(effects)@).push(effect@),
{
    effects.push(effect);
    assert(agent_effects(effects@) =~= agent_effects(old(effects)@).push(effect@));
}

/// An empty list of effects.
fn no_effects() -> (r: Vec<AgentEffect>)
    ensures
        agent_effects(r@) == Seq::<AgentEffectView>::empty(),
{
    let r: Vec<AgentEffect> = Vec::new();
    assert(agent_effects(r@) =~= Seq::<AgentEffectView>::empty());
    r
}

/// Puts the events of a newly configured conversation at the end of a list.
fn also_configured(effects: &mut Vec<AgentEffect>, ev: SessionConfiguredEvent)
    ensures
        agent_effects(final(effects)@) == agent_effects(old(effects)@) + configured(ev@),
{
    let events = translate_event_msg(EventMsg::SessionConfigured(ev), None);
    let ghost all = crate::event::server_events(events@);
    let ghost given = events@;
    let ghost emit = |e: ServerEventView| AgentEffectView::Emit(e);
    assert(agent_effects(effects@) + all.take(0).map_values(emit) =~= agent_effects(effects@));
    for event in it: events
        invariant
            it.seq() == given,
            all == crate::event::server_events(given),
            emit == (|e: ServerEventView| AgentEffectView::Emit(e)),
            agent_effects(effects@) == agent_effects(old(effects)@) + all.take(
                it.index() as int,
            ).map_values(emit),
    {
        let ghost i = it.index() as int;
        assert(all.take(i + 1).map_values(emit) =~= all.take(i).map_values(emit).push(
            AgentEffectView::Emit(event@),
        ));
        also(effects, AgentEffect::Emit(event));
    }
    assert(all.take(all.len() as int) == all);
}

impl AgentLoop {
    /// A loop that waits for the first conversation to come up.
    pub fn new() -> (r: Self)
        ensures
            r@ == AgentPhaseView::Bootstrapping,
    {
        AgentLoop { phase: AgentPhase::Bootstrapping }
    }

    /// What the loop does with a command: the phase it goes to, and the step.
    fn take_command(command: ClientCommand) -> (r: (AgentPhase, AgentStep))
        ensures
            r.0@ == on_command(command@).phase,
            agent_effects(r.1.effects@) == on_command(command@).effects,
            r.1.request@ == on_command(command@).request,
    {
        match command {
            ClientCommand::SubmitUserMessage { text, images } => match forward_user_input(
                text,
                images,
            ) {
                Some(op) => (AgentPhase::Submitting, quiet(AgentRequest::Submit(op))),
                None => (AgentPhase::Idle, quiet(AgentRequest::NextCommand)),
            },
            ClientCommand::Interrupt => (
                AgentPhase::Submitting,
                quiet(AgentRequest::Submit(Op::Interrupt)),
            ),
            ClientCommand::Shutdown => {
                let mut effects = no_effects();
                also(&mut effects, AgentEffect::RaiseShutdown);
                assert(agent_effects(effects@) =~= seq![AgentEffectView::RaiseShutdown]);
                (
                    AgentPhase::Closing { report: true },
                    AgentStep { effects, request: AgentRequest::Submit(Op::Shutdown) },
                )
            },
            ClientCommand::Resume { rollout_path } => (
                AgentPhase::Resuming,
                quiet(AgentRequest::Resume(rollout_path)),
            ),
            ClientCommand::RespondApproval { id, kind, decision } => (
                AgentPhase::Submitting,
                quiet(AgentRequest::Submit(approval_op(id, kind, decision))),
            ),
        }
    }

    /// Takes the reply to the last request and decides what comes next. A reply to something
    /// that was not asked is refused: the loop stays where it is.
    pub fn step(&mut self, input: AgentInput) -> (r: Option<AgentStep>)
        ensures
            match agent_move(old(self)@, input@) {
                Some(m) => r matches Some(s) && final(self)@ == m.phase && agent_effects(
                    s.effects@,
                ) == m.effects && s.request@ == m.request,
                None => r is None && final(self)@ == old(self)@,
            },
    {
        let mut phase = AgentPhase::Stopped;
        std::mem::swap(&mut phase, &mut self.phase);
        let mut effects = no_effects();
        match (phase, input) {
            (AgentPhase::Bootstrapping, AgentInput::Bootstrapped(ev)) => {
                also_configured(&mut effects, ev);
                also(&mut effects, AgentEffect::SpawnStream);
                assert(agent_effects(effects@) =~= configured(ev@).push(
                    AgentEffectView::SpawnStream,
                ));
                self.phase = AgentPhase::Idle;
                Some(AgentStep { effects, request: AgentRequest::NextCommand })
            },
            (AgentPhase::Bootstrapping, AgentInput::BootstrapFailed(message)) => {
                also(&mut effects, AgentEffect::Emit(ServerEvent::Fatal { message }));
                also(&mut effects, AgentEffect::Emit(ServerEvent::SessionEnded));
                also(&mut effects, AgentEffect::RaiseShutdown);
                assert(agent_effects(effects@) =~= seq![
                    fatal(message@),
                    ended(),
                    AgentEffectView::RaiseShutdown,
                ]);
                self.phase = AgentPhase::Stopped;
                Some(AgentStep { effects, request: AgentRequest::Stop })
            },
            (AgentPhase::Idle, AgentInput::Command(command)) => {
                let (next, step) = Self::take_command(command);
                self.phase = next;
                Some(step)
            },
            (AgentPhase::Idle, AgentInput::CommandsClosed) => {
                also(&mut effects, AgentEffect::RaiseShutdown);
                assert(agent_effects(effects@) =~= seq![AgentEffectView::RaiseShutdown]);
                self.phase = AgentPhase::Closing { report: false };
                Some(AgentStep { effects, request: AgentRequest::Submit(Op::Shutdown) })
            },
            (AgentPhase::Submitting, AgentInput::Submitted) => {
                self.phase = AgentPhase::Idle;
                Some(AgentStep { effects, request: AgentRequest::NextCommand })
            },
            (AgentPhase::Submitting, AgentInput::SubmitFailed(message)) => {
                also(&mut effects, AgentEffect::Emit(ServerEvent::Fatal { message }));
                also(&mut effects, AgentEffect::RaiseShutdown);
                assert(agent_effects(effects@) =~= seq![
                    fatal(message@),
                    AgentEffectView::RaiseShutdown,
                ]);
                self.phase = AgentPhase::Closing { report: false };
                Some(AgentStep { effects, request: AgentRequest::Submit(Op::Shutdown) })
            },
            (AgentPhase::Resuming, AgentInput::Resumed(ev)) => {
                also(&mut effects, AgentEffect::AbortStream);
                assert(agent_effects(effects@) =~= seq![AgentEffectView::AbortStream]);
                self.phase = AgentPhase::Replacing(ev);
                Some(AgentStep { effects, request: AgentRequest::JoinStream })
            },
            (AgentPhase::Resuming, AgentInput::ResumeFailed(message)) => {
                also(&mut effects, AgentEffect::Emit(ServerEvent::Fatal { message }));
                also(&mut effects, AgentEffect::RaiseShutdown);
                assert(agent_effects(effects@) =~= seq![
                    fatal(message@),
                    AgentEffectView::RaiseShutdown,
                ]);
                self.phase = AgentPhase::Closing { report: false };
                Some(AgentStep { effects, request: AgentRequest::Submit(Op::Shutdown) })
            },
            (AgentPhase::Replacing(ev), AgentInput::StreamJoined(outcome)) => match outcome {
                JoinOutcome::Failed(message) => {
                    also(&mut effects, AgentEffect::Emit(ServerEvent::Fatal { message }));
                    also(&mut effects, AgentEffect::Emit(ServerEvent::SessionEnded));
                    also(&mut effects, AgentEffect::RaiseShutdown);
                    assert(agent_effects(effects@) =~= seq![
                        fatal(message@),
                        ended(),
                        AgentEffectView::RaiseShutdown,
                    ]);
                    self.phase = AgentPhase::Stopped;
                    Some(AgentStep { effects, request: AgentRequest::Stop })
                },
                _ => {
                    also(&mut effects, AgentEffect::AdoptConversation);
                    also_configured(&mut effects, ev);
                    also(&mut effects, AgentEffect::SpawnStream);
                    assert(agent_effects(effects@) =~= seq![AgentEffectView::AdoptConversation]
                        + configured(ev@).push(AgentEffectView::SpawnStream));
                    self.phase = AgentPhase::Idle;
                    Some(AgentStep { effects, request: AgentRequest::NextCommand })
                },
            },
            (AgentPhase::Closing { .. }, AgentInput::Submitted) => {
                self.phase = AgentPhase::Draining;
                Some(AgentStep { effects, request: AgentRequest::JoinStream })
            },
            (AgentPhase::Closing { report }, AgentInput::SubmitFailed(message)) => {
                if report {
                    also(&mut effects, AgentEffect::Emit(ServerEvent::Fatal { message }));
                    assert(agent_effects(effects@) =~= seq![fatal(message@)]);
                }
                self.phase = AgentPhase::Draining;
                Some(AgentStep { effects, request: AgentRequest::JoinStream })
            },
            (AgentPhase::Draining, AgentInput::StreamJoined(outcome)) => {
                match outcome {
                    JoinOutcome::Finished => {},
                    JoinOutcome::Cancelled => {
                        also(&mut effects, AgentEffect::Emit(ServerEvent::SessionEnded));
                        assert(agent_effects(effects@) =~= seq![ended()]);
                    },
                    JoinOutcome::Failed(message) => {
                        also(&mut effects, AgentEffect::Emit(ServerEvent::Fatal { message }));
                        also(&mut effects, AgentEffect::Emit(ServerEvent::SessionEnded));
                        assert(agent_effects(effects@) =~= seq![fatal(message@), ended()]);
                    },
                }
                self.phase = AgentPhase::Stopped;
                Some(AgentStep { effects, request: AgentRequest::Stop })
            },
            (phase, _) => {
                self.phase = phase;
                None
            },
        }
    }
}

} // verus!
