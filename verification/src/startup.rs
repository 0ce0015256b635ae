//! Starting a session: the order of the steps, and what the failure of each one means.

use crate::command::{ClientCommand, ClientCommandView};
use crate::config::{
    build_config_overrides, config_overrides, ConfigOverrides, ConfigOverridesView, OssDefaults,
    OssDefaultsView, SessionConfig, SessionConfigView,
};
use crate::event::{ServerEvent, ServerEventView};
use crate::path::{clone_opt_path, opt_path, FilePath};
use crate::text::{clone_texts, texts};
use vstd::prelude::*;
use vstd::string::*;

verus! {

/// Errors that can occur while a session is started.
#[derive(Debug, Clone, PartialEq, Eq)]
pub enum SessionStartError {
    /// Failed to initialise the Tokio runtime.
    RuntimeInit(String),
    /// CLI overrides failed to parse.
    InvalidOverride(String),
    /// Configuration load failed.
    ConfigLoad(String),
    /// Preparing the OSS model provider failed.
    OssSetup(String),
    /// Failed to spawn a background bridge thread.
    ThreadSpawn(String),
}

/// Model of [`SessionStartError`].
pub enum SessionStartErrorView {
    RuntimeInit(Seq<char>),
    InvalidOverride(Seq<char>),
    ConfigLoad(Seq<char>),
    OssSetup(Seq<char>),
    ThreadSpawn(Seq<char>),
}

impl View for SessionStartError {
    type V = SessionStartErrorView;

    open spec fn view(&self) -> SessionStartErrorView {
        match *self {
            SessionStartError::RuntimeInit(x) => SessionStartErrorView::RuntimeInit(x@),
            SessionStartError::InvalidOverride(x) => SessionStartErrorView::InvalidOverride(x@),
            SessionStartError::ConfigLoad(x) => SessionStartErrorView::ConfigLoad(x@),
            SessionStartError::OssSetup(x) => SessionStartErrorView::OssSetup(x@),
            SessionStartError::ThreadSpawn(x) => SessionStartErrorView::ThreadSpawn(x@),
        }
    }
}

/// The message that tells a user of an error: what failed, and why.
pub open spec fn start_error_message(error: SessionStartErrorView) -> Seq<char> {
    match error {
        SessionStartErrorView::RuntimeInit(x) => "failed to initialise tokio runtime: "@ + x,
        SessionStartErrorView::InvalidOverride(x) => "invalid CLI override: "@ + x,
        SessionStartErrorView::ConfigLoad(x) => "failed to load configuration: "@ + x,
        SessionStartErrorView::OssSetup(x) => "failed to prepare OSS model: "@ + x,
        SessionStartErrorView::ThreadSpawn(x) => "failed to spawn bridge thread: "@ + x,
    }
}

impl SessionStartError {
    /// The message that tells a user of the error.
    pub fn message(&self) -> (r: String)
        ensures
            r@ == start_error_message(self@),
    {
        match self {
            SessionStartError::RuntimeInit(x) => String::from_str(
                "failed to initialise tokio runtime: ",
            ).concat(x.as_str()),
            SessionStartError::InvalidOverride(x) => String::from_str(
                "invalid CLI override: ",
            ).concat(x.as_str()),
            SessionStartError::ConfigLoad(x) => String::from_str(
                "failed to load configuration: ",
            ).concat(x.as_str()),
            SessionStartError::OssSetup(x) => String::from_str(
                "failed to prepare OSS model: ",
            ).concat(x.as_str()),
            SessionStartError::ThreadSpawn(x) => String::from_str(
                "failed to spawn bridge thread: ",
            ).concat(x.as_str()),
        }
    }
}

/// What the start of a session waits for.
#[derive(Debug, Clone, Copy, PartialEq, Eq)]
pub enum StartupPhase {
    /// The runtime.
    BuildingRuntime,
    /// The parsed overrides.
    ParsingOverrides,
    /// The canonical working directory.
    ResolvingCwd,
    /// The configuration.
    LoadingConfig,
    /// The OSS model.
    PreparingOss,
    /// The thread that carries commands in.
    SpawningCommandBridge,
    /// The thread that carries events out.
    SpawningEventBridge,
    /// Nothing any more.
    Over,
}

/// The outcome of a step.
#[derive(Debug, PartialEq, Eq)]
pub enum StartupInput {
    /// The step succeeded.
    Done,
    /// The step failed.
    Failed(String),
    /// The canonical working directory, where it could be found.
    CwdResolved(Option<FilePath>),
}

/// Model of [`StartupInput`].
pub enum StartupInputView {
    Done,
    Failed(Seq<char>),
    CwdResolved(Option<Seq<u8>>),
}

impl View for StartupInput {
    type V = StartupInputView;

    open spec fn view(&self) -> StartupInputView {
        match *self {
            StartupInput::Done => StartupInputView::Done,
            StartupInput::Failed(x) => StartupInputView::Failed(x@),
            StartupInput::CwdResolved(x) => StartupInputView::CwdResolved(opt_path(x)),
        }
    }
}

/// What to do next.
#[derive(Debug, PartialEq, Eq)]
pub enum StartupStep {
    /// Build the runtime.
    BuildRuntime,
    /// Parse the raw overrides.
    ParseOverrides(Vec<String>),
    /// Find the canonical form of the working directory.
    ResolveCwd(FilePath),
    /// Load the configuration with these overrides on top.
    LoadConfig(ConfigOverrides),
    /// Make sure that the OSS model is there.
    EnsureOssReady,
    /// Start the thread that carries commands in.
    SpawnCommandBridge,
    /// Start the thread that carries events out.
    SpawnEventBridge,
    /// Start the agent loop, from a rollout where one is given. The session is up.
    Launch(Option<FilePath>),
    /// Give up.
    Fail(SessionStartError),
}

/// Model of [`StartupStep`].
pub enum StartupStepView {
    BuildRuntime,
    ParseOverrides(Seq<Seq<char>>),
    ResolveCwd(Seq<u8>),
    LoadConfig(ConfigOverridesView),
    EnsureOssReady,
    SpawnCommandBridge,
    SpawnEventBridge,
    Launch(Option<Seq<u8>>),
    Fail(SessionStartErrorView),
}

impl View for StartupStep {
    type V = StartupStepView;

    open spec fn view(&self) -> StartupStepView {
        match *self {
            StartupStep::BuildRuntime => StartupStepView::BuildRuntime,
            StartupStep::ParseOverrides(x) => StartupStepView::ParseOverrides(texts(x@)),
            StartupStep::ResolveCwd(x) => StartupStepView::ResolveCwd(x@),
            StartupStep::LoadConfig(x) => StartupStepView::LoadConfig(x@),
            StartupStep::EnsureOssReady => StartupStepView::EnsureOssReady,
            StartupStep::SpawnCommandBridge => StartupStepView::SpawnCommandBridge,
            StartupStep::SpawnEventBridge => StartupStepView::SpawnEventBridge,
            StartupStep::Launch(x) => StartupStepView::Launch(opt_path(x)),
            StartupStep::Fail(x) => StartupStepView::Fail(x@),
        }
    }
}

/// A session that is being started.
#[derive(Debug, PartialEq, Eq)]
pub struct Startup {
    /// What the client asked for.
    pub session: SessionConfig,
    /// What OSS mode falls back on.
    pub oss: OssDefaults,
    /// The rollout to resume, if the session is not to be a new one.
    pub resume: Option<FilePath>,
    /// What the start waits for.
    pub phase: StartupPhase,
}

/// Model of [`Startup`].
pub struct StartupView {
    pub session: SessionConfigView,
    pub oss: OssDefaultsView,
    pub resume: Option<Seq<u8>>,
    pub phase: StartupPhase,
}

impl View for Startup {
    type V = StartupView;

    open spec fn view(&self) -> StartupView {
        StartupView {
            session: self.session@,
            oss: self.oss@,
            resume: opt_path(self.resume),
            phase: self.phase,
        }
    }
}

/// The error that the failure of a step amounts to; the working directory never fails.
pub open spec fn start_error(phase: StartupPhase, message: Seq<char>) -> Option<
    SessionStartErrorView,
> {
    match phase {
        StartupPhase::BuildingRuntime => Some(SessionStartErrorView::RuntimeInit(message)),
        StartupPhase::ParsingOverrides => Some(SessionStartErrorView::InvalidOverride(message)),
        StartupPhase::ResolvingCwd => None,
        StartupPhase::LoadingConfig => Some(SessionStartErrorView::ConfigLoad(message)),
        StartupPhase::PreparingOss => Some(SessionStartErrorView::OssSetup(message)),
        StartupPhase::SpawningCommandBridge => Some(SessionStartErrorView::ThreadSpawn(message)),
        StartupPhase::SpawningEventBridge => Some(SessionStartErrorView::ThreadSpawn(message)),
        StartupPhase::Over => None,
    }
}

/// The step from a phase with the outcome of what the phase waited for: the next phase and what
/// to do. There is none where the outcome is not one of that step.
pub open spec fn startup_move(s: StartupView, input: StartupInputView) -> Option<
    (StartupPhase, StartupStepView),
> {
    match input {
        StartupInputView::Failed(message) => match start_error(s.phase, message) {
            Some(error) => Some((StartupPhase::Over, StartupStepView::Fail(error))),
            None => None,
        },
        StartupInputView::CwdResolved(canonical) => if s.phase is ResolvingCwd {
            Some(
                (
                    StartupPhase::LoadingConfig,
                    StartupStepView::LoadConfig(config_overrides(s.session, s.oss, canonical)),
                ),
            )
        } else {
            None
        },
        StartupInputView::Done => match s.phase {
            StartupPhase::BuildingRuntime => Some(
                (
                    StartupPhase::ParsingOverrides,
                    StartupStepView::ParseOverrides(s.session.raw_cli_overrides),
                ),
            ),
            StartupPhase::ParsingOverrides => match s.session.cwd {
                Some(cwd) => Some((StartupPhase::ResolvingCwd, StartupStepView::ResolveCwd(cwd))),
                None => Some(
                    (
                        StartupPhase::LoadingConfig,
                        StartupStepView::LoadConfig(config_overrides(s.session, s.oss, None)),
                    ),
                ),
            },
            StartupPhase::ResolvingCwd => None,
            StartupPhase::LoadingConfig => if s.session.use_oss {
                Some((StartupPhase::PreparingOss, StartupStepView::EnsureOssReady))
            } else {
                Some((StartupPhase::SpawningCommandBridge, StartupStepView::SpawnCommandBridge))
            },
            StartupPhase::PreparingOss => Some(
                (StartupPhase::SpawningCommandBridge, StartupStepView::SpawnCommandBridge),
            ),
            StartupPhase::SpawningCommandBridge => Some(
                (StartupPhase::SpawningEventBridge, StartupStepView::SpawnEventBridge),
            ),
            StartupPhase::SpawningEventBridge => Some(
                (StartupPhase::Over, StartupStepView::Launch(s.resume)),
            ),
            StartupPhase::Over => None,
        },
    }
}

impl Startup {
    /// Begins to start a session, from a rollout where one is given. The first step is to build
    /// the runtime.
    pub fn begin(session: SessionConfig, oss: OssDefaults, resume: Option<FilePath>) -> (r: (
        Startup,
        StartupStep,
    ))
        ensures
            r.0@ == (StartupView {
                session: session@,
                oss: oss@,
                resume: opt_path(resume),
                phase: StartupPhase::BuildingRuntime,
            }),
            r.1@ == StartupStepView::BuildRuntime,
    {
        (
            Startup { session, oss, resume, phase: StartupPhase::BuildingRuntime },
            StartupStep::BuildRuntime,
        )
    }

    /// The error that the failure of the current step amounts to.
    fn failure(&self, message: String) -> (r: Option<SessionStartError>)
        ensures
            match start_error(self@.phase, message@) {
                Some(error) => r matches Some(e) && e@ == error,
                None => r is None,
            },
    {
        match self.phase {
            StartupPhase::BuildingRuntime => Some(SessionStartError::RuntimeInit(message)),
            StartupPhase::ParsingOverrides => Some(SessionStartError::InvalidOverride(message)),
            StartupPhase::ResolvingCwd => None,
            StartupPhase::LoadingConfig => Some(SessionStartError::ConfigLoad(message)),
            StartupPhase::PreparingOss => Some(SessionStartError::OssSetup(message)),
            StartupPhase::SpawningCommandBridge => Some(SessionStartError::ThreadSpawn(message)),
            StartupPhase::SpawningEventBridge => Some(SessionStartError::ThreadSpawn(message)),
            StartupPhase::Over => None,
        }
    }

    /// Takes the outcome of the last step and decides what comes next. An outcome that is not
    /// one of that step is refused: the start stays where it is.
    pub fn step(&mut self, input: StartupInput) -> (r: Option<StartupStep>)
        ensures
            final(self)@.session == old(self)@.session,
            final(self)@.oss == old(self)@.oss,
            final(self)@.resume == old(self)@.resume,
            match startup_move(old(self)@, input@) {
                Some((phase, todo)) => r matches Some(t) && final(self)@.phase == phase && t@
                    == todo,
                None => r is None && final(self)@.phase == old(self)@.phase,
            },
    {
        match input {
            StartupInput::Failed(message) => match self.failure(message) {
                Some(error) => {
                    self.phase = StartupPhase::Over;
                    Some(StartupStep::Fail(error))
                },
                None => None,
            },
            StartupInput::CwdResolved(canonical) => match self.phase {
                StartupPhase::ResolvingCwd => {
                    let overrides = build_config_overrides(&self.session, &self.oss, canonical);
                    self.phase = StartupPhase::LoadingConfig;
                    Some(StartupStep::LoadConfig(overrides))
                },
                _ => None,
            },
            StartupInput::Done => match self.phase {
                StartupPhase::BuildingRuntime => {
                    self.phase = StartupPhase::ParsingOverrides;
                    Some(StartupStep::ParseOverrides(clone_texts(&self.session.raw_cli_overrides)))
                },
                StartupPhase::ParsingOverrides => match &self.session.cwd {
                    Some(cwd) => {
                        let cwd = cwd.clone();
                        self.phase = StartupPhase::ResolvingCwd;
                        Some(StartupStep::ResolveCwd(cwd))
                    },
                    None => {
                        let overrides = build_config_overrides(&self.session, &self.oss, None);
                        self.phase = StartupPhase::LoadingConfig;
                        Some(StartupStep::LoadConfig(overrides))
                    },
                },
                StartupPhase::ResolvingCwd => None,
                StartupPhase::LoadingConfig => if self.session.use_oss {
                    self.phase = StartupPhase::PreparingOss;
                    Some(StartupStep::EnsureOssReady)
                } else {
                    self.phase = StartupPhase::SpawningCommandBridge;
                    Some(StartupStep::SpawnCommandBridge)
                },
                StartupPhase::PreparingOss => {
                    self.phase = StartupPhase::SpawningCommandBridge;
                    Some(StartupStep::SpawnCommandBridge)
                },
                StartupPhase::SpawningCommandBridge => {
                    self.phase = StartupPhase::SpawningEventBridge;
                    Some(StartupStep::SpawnEventBridge)
                },
                StartupPhase::SpawningEventBridge => {
                    self.phase = StartupPhase::Over;
                    Some(StartupStep::Launch(clone_opt_path(&self.resume)))
                },
                StartupPhase::Over => None,
            },
        }
    }
}

/// How long the command bridge waits for a command before it looks at the shutdown flag again.
pub const POLL_INTERVAL_MILLIS: u64 = 50;

/// What the thread that carries commands to the agent loop finds.
#[derive(Debug, PartialEq, Eq)]
pub enum BridgeInput {
    /// It is about to wait; whether the shutdown flag is raised.
    Waiting {
        /// Whether the shutdown flag is raised.
        shutting_down: bool,
    },
    /// A command came.
    Received(ClientCommand),
    /// No command came in time.
    TimedOut,
    /// No command can come any more.
    Disconnected,
    /// The agent loop took the command, or is gone.
    Forwarded {
        /// Whether the agent loop took it.
        taken: bool,
    },
}

/// Model of [`BridgeInput`].
pub enum BridgeInputView {
    Waiting { shutting_down: bool },
    Received(ClientCommandView),
    TimedOut,
    Disconnected,
    Forwarded { taken: bool },
}

impl View for BridgeInput {
    type V = BridgeInputView;

    open spec fn view(&self) -> BridgeInputView {
        match *self {
            BridgeInput::Waiting { shutting_down } => BridgeInputView::Waiting { shutting_down },
            BridgeInput::Received(x) => BridgeInputView::Received(x@),
            BridgeInput::TimedOut => BridgeInputView::TimedOut,
            BridgeInput::Disconnected => BridgeInputView::Disconnected,
            BridgeInput::Forwarded { taken } => BridgeInputView::Forwarded { taken },
        }
    }
}

/// What the thread does next.
#[derive(Debug, PartialEq, Eq)]
pub enum BridgeAction {
    /// Wait so many milliseconds for a command.
    Poll {
        /// How long to wait.
        millis: u64,
    },
    /// Hand the command to the agent loop.
    Forward(ClientCommand),
    /// Look at the shutdown flag.
    CheckFlag,
    /// Stop.
    Stop,
}

/// Model of [`BridgeAction`].
pub enum BridgeActionView {
    Poll { millis: u64 },
    Forward(ClientCommandView),
    CheckFlag,
    Stop,
}

impl View for BridgeAction {
    type V = BridgeActionView;

    open spec fn view(&self) -> BridgeActionView {
        match *self {
            BridgeAction::Poll { millis } => BridgeActionView::Poll { millis },
            BridgeAction::Forward(x) => BridgeActionView::Forward(x@),
            BridgeAction::CheckFlag => BridgeActionView::CheckFlag,
            BridgeAction::Stop => BridgeActionView::Stop,
        }
    }
}

/// The decisions of the command bridge: it looks at the flag before every wait, hands on every
/// command it gets, and stops at the flag or where either end is gone.
pub open spec fn bridge_action(input: BridgeInputView) -> BridgeActionView {
    match input {
        BridgeInputView::Waiting { shutting_down } => if shutting_down {
            BridgeActionView::Stop
        } else {
            BridgeActionView::Poll { millis: POLL_INTERVAL_MILLIS }
        },
        BridgeInputView::Received(command) => BridgeActionView::Forward(command),
        BridgeInputView::TimedOut => BridgeActionView::CheckFlag,
        BridgeInputView::Disconnected => BridgeActionView::Stop,
        BridgeInputView::Forwarded { taken } => if taken {
            BridgeActionView::CheckFlag
        } else {
            BridgeActionView::Stop
        },
    }
}

/// Decides what the command bridge does next.
pub fn command_bridge(input: BridgeInput) -> (r: BridgeAction)
    ensures
        r@ == bridge_action(input@),
{
    match input {
        BridgeInput::Waiting { shutting_down } => if shutting_down {
            BridgeAction::Stop
        } else {
            BridgeAction::Poll { millis: POLL_INTERVAL_MILLIS }
        },
        BridgeInput::Received(command) => BridgeAction::Forward(command),
        BridgeInput::TimedOut => BridgeAction::CheckFlag,
        BridgeInput::Disconnected => BridgeAction::Stop,
        BridgeInput::Forwarded { taken } => if taken {
            BridgeAction::CheckFlag
        } else {
            BridgeAction::Stop
        },
    }
}

/// What the thread that carries events to the client finds.
#[derive(Debug, PartialEq, Eq)]
pub enum EventBridgeInput {
    /// An event came.
    Received(ServerEvent),
    /// No event can come any more.
    Closed,
    /// The client took the event, or is gone.
    Forwarded {
        /// Whether the client took it.
        taken: bool,
    },
}

/// Model of [`EventBridgeInput`].
pub enum EventBridgeInputView {
    Received(ServerEventView),
    Closed,
    Forwarded { taken: bool },
}

impl View for EventBridgeInput {
    type V = EventBridgeInputView;

    open spec fn view(&self) -> EventBridgeInputView {
        match *self {
            EventBridgeInput::Received(x) => EventBridgeInputView::Received(x@),
            EventBridgeInput::Closed => EventBridgeInputView::Closed,
            EventBridgeInput::Forwarded { taken } => EventBridgeInputView::Forwarded { taken },
        }
    }
}

/// What the thread does next.
#[derive(Debug, PartialEq, Eq)]
pub enum EventBridgeAction {
    /// Wait for an event.
    Receive,
    /// Hand the event to the client.
    Forward(ServerEvent),
    /// Stop.
    Stop,
}

/// Model of [`EventBridgeAction`].
pub enum EventBridgeActionView {
    Receive,
    Forward(ServerEventView),
    Stop,
}

impl View for EventBridgeAction {
    type V = EventBridgeActionView;

    open spec fn view(&self) -> EventBridgeActionView {
        match *self {
            EventBridgeAction::Receive => EventBridgeActionView::Receive,
            EventBridgeAction::Forward(x) => EventBridgeActionView::Forward(x@),
            EventBridgeAction::Stop => EventBridgeActionView::Stop,
        }
    }
}

/// The decisions of the event bridge: it hands on every event it gets, and stops where either
/// end is gone. The shutdown flag does not stop it, so that the last events get through.
pub open spec fn event_bridge_action(input: EventBridgeInputView) -> EventBridgeActionView {
    match input {
        EventBridgeInputView::Received(event) => EventBridgeActionView::Forward(event),
        EventBridgeInputView::Closed => EventBridgeActionView::Stop,
        EventBridgeInputView::Forwarded { taken } => if taken {
            EventBridgeActionView::Receive
        } else {
            EventBridgeActionView::Stop
        },
    }
}

/// Decides what the event bridge does next.
pub fn event_bridge(input: EventBridgeInput) -> (r: EventBridgeAction)
    ensures
        r@ == event_bridge_action(input@),
{
    match input {
        EventBridgeInput::Received(event) => EventBridgeAction::Forward(event),
        EventBridgeInput::Closed => EventBridgeAction::Stop,
        EventBridgeInput::Forwarded { taken } => if taken {
            EventBridgeAction::Receive
        } else {
            EventBridgeAction::Stop
        },
    }
}

/// A bridge stops once either of its ends is gone, and hands on unchanged whatever it gets until
/// then.
pub proof fn bridges_run_until_an_end_is_gone(command: ClientCommandView, event: ServerEventView)
    ensures
        bridge_action(BridgeInputView::Disconnected) is Stop,
        bridge_action(BridgeInputView::Forwarded { taken: false }) is Stop,
        bridge_action(BridgeInputView::Received(command)) == BridgeActionView::Forward(command),
        !(bridge_action(BridgeInputView::Forwarded { taken: true }) is Stop),
        !(bridge_action(BridgeInputView::TimedOut) is Stop),
        event_bridge_action(EventBridgeInputView::Closed) is Stop,
        event_bridge_action(EventBridgeInputView::Forwarded { taken: false }) is Stop,
        event_bridge_action(EventBridgeInputView::Received(event))
            == EventBridgeActionView::Forward(event),
        event_bridge_action(EventBridgeInputView::Forwarded { taken: true }) is Receive,
{
}

/// The commands that a bridge hears of, in order.
pub open spec fn command_bridge_received(inputs: Seq<BridgeInputView>) -> Seq<ClientCommandView>
    decreases inputs.len(),
{
    if inputs.len() == 0 {
        Seq::empty()
    } else {
        match inputs.first() {
            BridgeInputView::Received(x) => seq![x] + command_bridge_received(inputs.drop_first()),
            _ => command_bridge_received(inputs.drop_first()),
        }
    }
}

/// The commands that a bridge hands on until it stops, in order.
pub open spec fn command_bridge_forwarded(inputs: Seq<BridgeInputView>) -> Seq<ClientCommandView>
    decreases inputs.len(),
{
    if inputs.len() == 0 {
        Seq::empty()
    } else {
        match bridge_action(inputs.first()) {
            BridgeActionView::Forward(x) => seq![x] + command_bridge_forwarded(
                inputs.drop_first(),
            ),
            BridgeActionView::Stop => Seq::empty(),
            _ => command_bridge_forwarded(inputs.drop_first()),
        }
    }
}

/// Over its whole run the command bridge hands on exactly the commands it received, in the order in
/// which they came.
pub proof fn commands_are_forwarded_in_order(inputs: Seq<BridgeInputView>)
    requires
        forall|i: int|
            0 <= i < inputs.len() - 1 ==> !(bridge_action(#[trigger] inputs[i]) is Stop),
    ensures
        command_bridge_forwarded(inputs) == command_bridge_received(inputs),
    decreases inputs.len(),
{
    if inputs.len() > 1 {
        let rest = inputs.drop_first();
        assert(!(bridge_action(inputs[0]) is Stop));
        assert forall|i: int| 0 <= i < rest.len() - 1 implies !(bridge_action(
            #[trigger] rest[i],
        ) is Stop) by {
            assert(!(bridge_action(inputs[i + 1]) is Stop));
        }
        commands_are_forwarded_in_order(rest);
    } else if inputs.len() == 1 {
        commands_are_forwarded_in_order(inputs.drop_first());
    }
}

/// The events that a bridge hears of, in order.
pub open spec fn event_bridge_received(inputs: Seq<EventBridgeInputView>) -> Seq<ServerEventView>
    decreases inputs.len(),
{
    if inputs.len() == 0 {
        Seq::empty()
    } else {
        match inputs.first() {
            EventBridgeInputView::Received(x) => seq![x] + event_bridge_received(
                inputs.drop_first(),
            ),
            _ => event_bridge_received(inputs.drop_first()),
        }
    }
}

/// The events that a bridge hands on until it stops, in order.
pub open spec fn event_bridge_forwarded(inputs: Seq<EventBridgeInputView>) -> Seq<ServerEventView>
    decreases inputs.len(),
{
    if inputs.len() == 0 {
        Seq::empty()
    } else {
        match event_bridge_action(inputs.first()) {
            EventBridgeActionView::Forward(x) => seq![x] + event_bridge_forwarded(
                inputs.drop_first(),
            ),
            EventBridgeActionView::Stop => Seq::empty(),
            _ => event_bridge_forwarded(inputs.drop_first()),
        }
    }
}

/// Over its whole run the event bridge hands on exactly the events it received, in the order in
/// which they came.
pub proof fn events_are_forwarded_in_order(inputs: Seq<EventBridgeInputView>)
    requires
        forall|i: int|
            0 <= i < inputs.len() - 1 ==> !(event_bridge_action(#[trigger] inputs[i]) is Stop),
    ensures
        event_bridge_forwarded(inputs) == event_bridge_received(inputs),
    decreases inputs.len(),
{
    if inputs.len() > 1 {
        let rest = inputs.drop_first();
        assert(!(event_bridge_action(inputs[0]) is Stop));
        assert forall|i: int| 0 <= i < rest.len() - 1 implies !(event_bridge_action(
            #[trigger] rest[i],
        ) is Stop) by {
            assert(!(event_bridge_action(inputs[i + 1]) is Stop));
        }
        events_are_forwarded_in_order(rest);
    } else if inputs.len() == 1 {
        events_are_forwarded_in_order(inputs.drop_first());
    }
}

/// What a start does for a sequence of outcomes, where it takes them all.
pub open spec fn startup_run(s: StartupView, inputs: Seq<StartupInputView>) -> Option<
    Seq<StartupStepView>,
>
    decreases inputs.len(),
{
    if inputs.len() == 0 {
        Some(Seq::empty())
    } else {
        match startup_move(s, inputs.first()) {
            None => None,
            Some((phase, todo)) => match startup_run(
                StartupView { phase, ..s },
                inputs.drop_first(),
            ) {
                None => None,
                Some(rest) => Some(seq![todo] + rest),
            },
        }
    }
}

/// The outcomes of a start in which every step succeeds.
pub open spec fn all_done(s: StartupView, canonical: Option<Seq<u8>>) -> Seq<StartupInputView> {
    let cwd = if s.session.cwd is Some {
        seq![StartupInputView::CwdResolved(canonical)]
    } else {
        Seq::empty()
    };
    let oss = if s.session.use_oss {
        seq![StartupInputView::Done]
    } else {
        Seq::empty()
    };
    seq![StartupInputView::Done, StartupInputView::Done] + cwd + seq![StartupInputView::Done] + oss
        + seq![StartupInputView::Done, StartupInputView::Done]
}

/// What a start does after the runtime is there, in order.
pub open spec fn start_steps(s: StartupView, canonical: Option<Seq<u8>>) -> Seq<StartupStepView> {
    let cwd = match s.session.cwd {
        Some(cwd) => seq![StartupStepView::ResolveCwd(cwd)],
        None => Seq::empty(),
    };
    let oss = if s.session.use_oss {
        seq![StartupStepView::EnsureOssReady]
    } else {
        Seq::empty()
    };
    let overrides = config_overrides(s.session, s.oss, canonical);
    seq![StartupStepView::ParseOverrides(s.session.raw_cli_overrides)] + cwd + seq![
        StartupStepView::LoadConfig(overrides),
    ] + oss + seq![
        StartupStepView::SpawnCommandBridge,
        StartupStepView::SpawnEventBridge,
        StartupStepView::Launch(s.resume),
    ]
}

/// A start whose steps all succeed takes them in order, prepares the OSS model only in OSS mode,
/// and ends with the agent launched on the rollout that was asked for.
pub proof fn starts_succeed_step_by_step(s: StartupView, canonical: Option<Seq<u8>>)
    requires
        s.phase is BuildingRuntime,
    ensures
        startup_run(s, all_done(s, canonical)) == Some(start_steps(s, canonical)),
{
    let done = StartupInputView::Done;
    let found = StartupInputView::CwdResolved(canonical);
    let inputs = all_done(s, canonical);
    let end = seq![done, done];
    let from_oss = if s.session.use_oss {
        seq![done, done, done]
    } else {
        end
    };
    let from_load = seq![done] + from_oss;
    let from_cwd = if s.session.cwd is Some {
        seq![found] + from_load
    } else {
        from_load
    };
    assert(inputs =~= seq![done, done] + from_cwd);
    reveal_with_fuel(startup_run, 9);
    assert(inputs.drop_first() =~= seq![done] + from_cwd);
    assert(inputs.drop_first().drop_first() =~= from_cwd);
    assert((seq![found] + from_load).drop_first() =~= from_load);
    assert(from_load.drop_first() =~= from_oss);
    assert(seq![done, done, done].drop_first() =~= end);
    assert(end.drop_first() =~= seq![done]);
    assert(seq![done].drop_first() =~= Seq::<StartupInputView>::empty());
    let r = startup_run(s, inputs);
    assert(r is Some);
    assert(r->0 =~= start_steps(s, canonical));
}

/// A step that fails ends the start with the error of that step, and nothing is launched.
pub proof fn failed_steps_name_their_error(s: StartupView, message: Seq<char>)
    requires
        !(s.phase is Over),
        !(s.phase is ResolvingCwd),
    ensures
        start_error(s.phase, message) matches Some(error) && startup_move(
            s,
            StartupInputView::Failed(message),
        ) == Some((StartupPhase::Over, StartupStepView::Fail(error))),
{
}

/// The agent is launched only as the last step, once the event bridge is up, and a start that is
/// over does nothing more.
pub proof fn launch_comes_last(s: StartupView, input: StartupInputView)
    ensures
        startup_move(s, input) matches Some((phase, todo)) ==> (todo is Launch ==> s.phase
            is SpawningEventBridge && input is Done && phase is Over),
        s.phase is Over ==> startup_move(s, input) is None,
{
}

} // verus!
