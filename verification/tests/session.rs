use codex_driver::command::ClientCommand;
use codex_driver::config::{
    build_config_overrides, determine_model, AskForApproval, ConfigOverrides, OssDefaults,
    SandboxMode,
};
use codex_driver::path::FilePath;
use codex_driver::prelude::{SessionConfig, SessionStartError};
use codex_driver::event::ServerEvent;
use codex_driver::startup::{
    command_bridge, event_bridge, BridgeAction, BridgeInput, EventBridgeAction, EventBridgeInput,
    Startup, StartupInput, StartupPhase, StartupStep,
};

fn oss() -> OssDefaults {
    OssDefaults { model: "gpt-oss:20b".to_string(), provider: "oss".to_string() }
}

fn full_session() -> SessionConfig {
    SessionConfig {
        cwd: Some(FilePath::from_text("../work")),
        model: None,
        config_profile: Some("fast".to_string()),
        raw_cli_overrides: vec!["a=1".to_string(), "b=2".to_string()],
        use_oss: true,
    }
}

fn danger() -> ConfigOverrides {
    ConfigOverrides {
        model: None,
        review_model: None,
        cwd: None,
        approval_policy: Some(AskForApproval::Never),
        sandbox_mode: Some(SandboxMode::DangerFullAccess),
        model_provider: None,
        config_profile: None,
        codex_linux_sandbox_exe: None,
        base_instructions: None,
        include_plan_tool: Some(true),
        include_apply_patch_tool: None,
        include_view_image_tool: None,
        show_raw_agent_reasoning: None,
        tools_web_search_request: None,
    }
}

#[test]
fn a_default_session_asks_for_nothing() {
    assert_eq!(
        SessionConfig::default(),
        SessionConfig {
            cwd: None,
            model: None,
            config_profile: None,
            raw_cli_overrides: Vec::new(),
            use_oss: false,
        }
    );
}

#[test]
fn an_explicit_model_is_kept() {
    let mut session = full_session();
    session.model = Some("o9".to_string());
    assert_eq!(
        determine_model(&session, &oss()),
        (Some("o9".to_string()), Some("oss".to_string()))
    );
    assert_eq!(
        build_config_overrides(&session, &oss(), None).model_provider,
        Some("oss".to_string())
    );
    session.use_oss = false;
    assert_eq!(determine_model(&session, &oss()), (Some("o9".to_string()), None));
}

#[test]
fn oss_mode_brings_its_defaults() {
    assert_eq!(
        determine_model(&full_session(), &oss()),
        (Some("gpt-oss:20b".to_string()), Some("oss".to_string()))
    );
    assert_eq!(determine_model(&SessionConfig::default(), &oss()), (None, None));
}

#[test]
fn overrides_put_the_session_in_danger_mode() {
    assert_eq!(build_config_overrides(&SessionConfig::default(), &oss(), None), danger());
    let mut expected = danger();
    expected.model = Some("gpt-oss:20b".to_string());
    expected.model_provider = Some("oss".to_string());
    expected.cwd = Some(FilePath::from_text("/home/work"));
    expected.config_profile = Some("fast".to_string());
    expected.show_raw_agent_reasoning = Some(true);
    assert_eq!(
        build_config_overrides(&full_session(), &oss(), Some(FilePath::from_text("/home/work"))),
        expected
    );
}

#[test]
fn a_directory_that_cannot_be_resolved_stays_as_given() {
    let overrides = build_config_overrides(&full_session(), &oss(), None);
    assert_eq!(overrides.cwd, Some(FilePath::from_text("../work")));
    let overrides = build_config_overrides(
        &SessionConfig::default(),
        &oss(),
        Some(FilePath::from_text("/elsewhere")),
    );
    assert_eq!(overrides.cwd, None);
}

#[test]
fn a_plain_start_takes_its_steps_in_order() {
    let (mut startup, first) = Startup::begin(SessionConfig::default(), oss(), None);
    assert_eq!(first, StartupStep::BuildRuntime);
    for next in [
        StartupStep::ParseOverrides(Vec::new()),
        StartupStep::LoadConfig(danger()),
        StartupStep::SpawnCommandBridge,
        StartupStep::SpawnEventBridge,
        StartupStep::Launch(None),
    ] {
        assert_eq!(startup.step(StartupInput::Done), Some(next));
    }
    assert_eq!(startup.step(StartupInput::Done), None);
    assert_eq!(startup.phase, StartupPhase::Over);
}

#[test]
fn a_full_start_resolves_the_directory_and_prepares_the_model() {
    let rollout = FilePath::from_text("/r/1");
    let (mut startup, first) = Startup::begin(full_session(), oss(), Some(rollout.clone()));
    assert_eq!(first, StartupStep::BuildRuntime);
    assert_eq!(
        startup.step(StartupInput::Done),
        Some(StartupStep::ParseOverrides(vec!["a=1".to_string(), "b=2".to_string()]))
    );
    assert_eq!(
        startup.step(StartupInput::Done),
        Some(StartupStep::ResolveCwd(FilePath::from_text("../work")))
    );
    assert_eq!(startup.step(StartupInput::Done), None);
    assert!(matches!(
        startup.step(StartupInput::CwdResolved(Some(FilePath::from_text("/home/work")))),
        Some(StartupStep::LoadConfig(overrides))
            if overrides.cwd == Some(FilePath::from_text("/home/work"))
    ));
    assert_eq!(startup.step(StartupInput::Done), Some(StartupStep::EnsureOssReady));
    assert_eq!(startup.step(StartupInput::Done), Some(StartupStep::SpawnCommandBridge));
    assert_eq!(startup.step(StartupInput::Done), Some(StartupStep::SpawnEventBridge));
    assert_eq!(startup.step(StartupInput::Done), Some(StartupStep::Launch(Some(rollout))));
}

fn fail_at(phase: StartupPhase) -> Option<StartupStep> {
    let mut startup = Startup { session: full_session(), oss: oss(), resume: None, phase };
    let step = startup.step(StartupInput::Failed("why".to_string()));
    assert_eq!(startup.phase, if step.is_some() { StartupPhase::Over } else { phase });
    step
}

#[test]
fn each_failure_has_its_error() {
    let why = || "why".to_string();
    let fail = |error| Some(StartupStep::Fail(error));
    assert_eq!(fail_at(StartupPhase::BuildingRuntime), fail(SessionStartError::RuntimeInit(why())));
    assert_eq!(
        fail_at(StartupPhase::ParsingOverrides),
        fail(SessionStartError::InvalidOverride(why()))
    );
    assert_eq!(fail_at(StartupPhase::ResolvingCwd), None);
    assert_eq!(fail_at(StartupPhase::LoadingConfig), fail(SessionStartError::ConfigLoad(why())));
    assert_eq!(fail_at(StartupPhase::PreparingOss), fail(SessionStartError::OssSetup(why())));
    assert_eq!(
        fail_at(StartupPhase::SpawningCommandBridge),
        fail(SessionStartError::ThreadSpawn(why()))
    );
    assert_eq!(
        fail_at(StartupPhase::SpawningEventBridge),
        fail(SessionStartError::ThreadSpawn(why()))
    );
    assert_eq!(fail_at(StartupPhase::Over), None);
}

#[test]
fn each_error_says_what_failed() {
    let why = || "why".to_string();
    assert_eq!(
        SessionStartError::RuntimeInit(why()).message(),
        "failed to initialise tokio runtime: why"
    );
    assert_eq!(SessionStartError::InvalidOverride(why()).message(), "invalid CLI override: why");
    assert_eq!(SessionStartError::ConfigLoad(why()).message(), "failed to load configuration: why");
    assert_eq!(SessionStartError::OssSetup(why()).message(), "failed to prepare OSS model: why");
    assert_eq!(
        SessionStartError::ThreadSpawn(why()).message(),
        "failed to spawn bridge thread: why"
    );
}

#[test]
fn the_command_bridge_hands_on_until_an_end_is_gone() {
    assert_eq!(
        command_bridge(BridgeInput::Waiting { shutting_down: false }),
        BridgeAction::Poll { millis: 50 }
    );
    assert_eq!(
        command_bridge(BridgeInput::Waiting { shutting_down: true }),
        BridgeAction::Stop
    );
    assert_eq!(
        command_bridge(BridgeInput::Received(ClientCommand::Interrupt)),
        BridgeAction::Forward(ClientCommand::Interrupt)
    );
    assert_eq!(command_bridge(BridgeInput::TimedOut), BridgeAction::CheckFlag);
    assert_eq!(command_bridge(BridgeInput::Disconnected), BridgeAction::Stop);
    assert_eq!(
        command_bridge(BridgeInput::Forwarded { taken: true }),
        BridgeAction::CheckFlag
    );
    assert_eq!(command_bridge(BridgeInput::Forwarded { taken: false }), BridgeAction::Stop);
}

#[test]
fn the_event_bridge_hands_on_until_an_end_is_gone() {
    assert_eq!(
        event_bridge(EventBridgeInput::Received(ServerEvent::SessionEnded)),
        EventBridgeAction::Forward(ServerEvent::SessionEnded)
    );
    assert_eq!(
        event_bridge(EventBridgeInput::Forwarded { taken: true }),
        EventBridgeAction::Receive
    );
    assert_eq!(
        event_bridge(EventBridgeInput::Forwarded { taken: false }),
        EventBridgeAction::Stop
    );
    assert_eq!(event_bridge(EventBridgeInput::Closed), EventBridgeAction::Stop);
}

#[test]
fn bridges_hand_on_what_they_receive_in_order() {
    let message = |text: &str| ClientCommand::SubmitUserMessage {
        text: text.to_string(),
        images: Vec::new(),
    };
    let mut commands = vec![message("one"), ClientCommand::Interrupt, message("two")].into_iter();
    let mut handed = Vec::new();
    let mut action = BridgeAction::CheckFlag;
    while action != BridgeAction::Stop {
        action = command_bridge(match action {
            BridgeAction::CheckFlag => BridgeInput::Waiting { shutting_down: false },
            BridgeAction::Poll { .. } => match commands.next() {
                Some(command) => BridgeInput::Received(command),
                None => BridgeInput::Disconnected,
            },
            BridgeAction::Forward(command) => {
                handed.push(command);
                BridgeInput::Forwarded { taken: true }
            }
            BridgeAction::Stop => unreachable!(),
        });
    }
    assert_eq!(handed, vec![message("one"), ClientCommand::Interrupt, message("two")]);

    let mut events = vec![ServerEvent::ShutdownComplete, ServerEvent::SessionEnded].into_iter();
    let mut handed = Vec::new();
    let mut action = EventBridgeAction::Receive;
    while action != EventBridgeAction::Stop {
        action = event_bridge(match action {
            EventBridgeAction::Receive => match events.next() {
                Some(event) => EventBridgeInput::Received(event),
                None => EventBridgeInput::Closed,
            },
            EventBridgeAction::Forward(event) => {
                handed.push(event);
                EventBridgeInput::Forwarded { taken: true }
            }
            EventBridgeAction::Stop => unreachable!(),
        });
    }
    assert_eq!(handed, vec![ServerEvent::ShutdownComplete, ServerEvent::SessionEnded]);
}
