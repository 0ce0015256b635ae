//! How a session is configured and started, written out.

use crate::command::ClientCommandView;
use crate::config::{config_overrides, model_choice, OssDefaultsView, SessionConfigView};
use crate::event::ServerEventView;
use crate::startup::{
    bridge_action, event_bridge_action, start_error_message, startup_move, BridgeActionView,
    BridgeInputView, EventBridgeActionView, EventBridgeInputView, SessionStartErrorView,
    StartupInputView, StartupPhase, StartupStepView, StartupView,
};
use vstd::prelude::*;

verus! {

// ---- Configuration ----

/// The profile that a client names is the one in force, whatever else it asks for, and none is
/// where it names none.
pub proof fn profiles_are_kept(
    session: SessionConfigView,
    oss: OssDefaultsView,
    canonical_cwd: Option<Seq<u8>>,
)
    ensures
        config_overrides(session, oss, canonical_cwd).config_profile == session.config_profile,
{
}

/// The working directory is the one that the client names, in its canonical form where there is
/// one; where the client names none, none is set.
pub proof fn directories_are_kept(
    session: SessionConfigView,
    oss: OssDefaultsView,
    named: Seq<u8>,
    canonical: Seq<u8>,
)
    ensures
        session.cwd == Some(named) ==> config_overrides(session, oss, Some(canonical)).cwd == Some(
            canonical,
        ),
        session.cwd == Some(named) ==> config_overrides(session, oss, None).cwd == Some(named),
        session.cwd is None ==> config_overrides(session, oss, Some(canonical)).cwd is None,
        session.cwd is None ==> config_overrides(session, oss, None).cwd is None,
{
}

/// The plan tool is always offered, raw reasoning is shown in OSS mode alone, and everything that
/// a client cannot ask for stays as it is configured.
pub proof fn the_rest_stays_as_configured(
    session: SessionConfigView,
    oss: OssDefaultsView,
    canonical_cwd: Option<Seq<u8>>,
)
    ensures
        ({
            let overrides = config_overrides(session, oss, canonical_cwd);
            &&& overrides.include_plan_tool == Some(true)
            &&& session.use_oss ==> overrides.show_raw_agent_reasoning == Some(true)
            &&& !session.use_oss ==> overrides.show_raw_agent_reasoning is None
            &&& overrides.review_model is None
            &&& overrides.codex_linux_sandbox_exe is None
            &&& overrides.base_instructions is None
            &&& overrides.include_apply_patch_tool is None
            &&& overrides.include_view_image_tool is None
            &&& overrides.tools_web_search_request is None
        }),
{
}

/// The model that a client names goes before the default of OSS mode, which goes before the
/// configured one; the built-in provider is chosen in OSS mode and in no other.
pub proof fn models_and_providers_are_chosen(session: SessionConfigView, oss: OssDefaultsView)
    ensures
        session.model is Some ==> model_choice(session, oss).0 == session.model,
        session.model is None && session.use_oss ==> model_choice(session, oss).0 == Some(
            oss.model,
        ),
        session.model is None && !session.use_oss ==> model_choice(session, oss).0 is None,
        session.use_oss ==> model_choice(session, oss).1 == Some(oss.provider),
        !session.use_oss ==> model_choice(session, oss).1 is None,
{
}

// ---- Start ----

/// Every start error says what failed and hands on why.
pub proof fn start_errors_say_what_failed(why: Seq<char>)
    ensures
        start_error_message(SessionStartErrorView::RuntimeInit(why))
            == "failed to initialise tokio runtime: "@ + why,
        start_error_message(SessionStartErrorView::InvalidOverride(why))
            == "invalid CLI override: "@ + why,
        start_error_message(SessionStartErrorView::ConfigLoad(why))
            == "failed to load configuration: "@ + why,
        start_error_message(SessionStartErrorView::OssSetup(why))
            == "failed to prepare OSS model: "@ + why,
        start_error_message(SessionStartErrorView::ThreadSpawn(why))
            == "failed to spawn bridge thread: "@ + why,
{
}

/// Each step that fails ends the start with its own error, which hands on why.
pub proof fn failures_end_the_start(s: StartupView, why: Seq<char>)
    ensures
        ({
            let r = startup_move(s, StartupInputView::Failed(why));
            &&& s.phase is BuildingRuntime ==> r == Some(
                (
                    StartupPhase::Over,
                    StartupStepView::Fail(SessionStartErrorView::RuntimeInit(why)),
                ),
            )
            &&& s.phase is ParsingOverrides ==> r == Some(
                (
                    StartupPhase::Over,
                    StartupStepView::Fail(SessionStartErrorView::InvalidOverride(why)),
                ),
            )
            &&& s.phase is LoadingConfig ==> r == Some(
                (
                    StartupPhase::Over,
                    StartupStepView::Fail(SessionStartErrorView::ConfigLoad(why)),
                ),
            )
            &&& s.phase is PreparingOss ==> r == Some(
                (
                    StartupPhase::Over,
                    StartupStepView::Fail(SessionStartErrorView::OssSetup(why)),
                ),
            )
            &&& s.phase is SpawningCommandBridge || s.phase is SpawningEventBridge ==> r == Some(
                (
                    StartupPhase::Over,
                    StartupStepView::Fail(SessionStartErrorView::ThreadSpawn(why)),
                ),
            )
            &&& s.phase is ResolvingCwd || s.phase is Over ==> r is None
        }),
{
}

/// Each step that succeeds leads to the next one, with what that one needs.
pub proof fn successes_lead_on(s: StartupView, named: Seq<u8>)
    ensures
        ({
            let r = startup_move(s, StartupInputView::Done);
            &&& s.phase is BuildingRuntime ==> r == Some(
                (
                    StartupPhase::ParsingOverrides,
                    StartupStepView::ParseOverrides(s.session.raw_cli_overrides),
                ),
            )
            &&& s.phase is ParsingOverrides && s.session.cwd == Some(named) ==> r == Some(
                (StartupPhase::ResolvingCwd, StartupStepView::ResolveCwd(named)),
            )
            &&& s.phase is ParsingOverrides && s.session.cwd is None ==> r == Some(
                (
                    StartupPhase::LoadingConfig,
                    StartupStepView::LoadConfig(config_overrides(s.session, s.oss, None)),
                ),
            )
            &&& s.phase is LoadingConfig && s.session.use_oss ==> r == Some(
                (StartupPhase::PreparingOss, StartupStepView::EnsureOssReady),
            )
            &&& s.phase is LoadingConfig && !s.session.use_oss ==> r == Some(
                (StartupPhase::SpawningCommandBridge, StartupStepView::SpawnCommandBridge),
            )
            &&& s.phase is PreparingOss ==> r == Some(
                (StartupPhase::SpawningCommandBridge, StartupStepView::SpawnCommandBridge),
            )
            &&& s.phase is SpawningCommandBridge ==> r == Some(
                (StartupPhase::SpawningEventBridge, StartupStepView::SpawnEventBridge),
            )
            &&& s.phase is SpawningEventBridge ==> r == Some(
                (StartupPhase::Over, StartupStepView::Launch(s.resume)),
            )
            &&& s.phase is ResolvingCwd || s.phase is Over ==> r is None
        }),
{
}

/// The directory that was found, or that none was found, goes into the configuration, and only
/// where it was asked for.
pub proof fn directories_go_into_the_configuration(s: StartupView, canonical: Option<Seq<u8>>)
    ensures
        s.phase is ResolvingCwd ==> startup_move(s, StartupInputView::CwdResolved(canonical))
            == Some(
            (
                StartupPhase::LoadingConfig,
                StartupStepView::LoadConfig(config_overrides(s.session, s.oss, canonical)),
            ),
        ),
        !(s.phase is ResolvingCwd) ==> startup_move(s, StartupInputView::CwdResolved(canonical))
            is None,
{
}

// ---- Bridges ----

/// The command bridge looks at the flag before each wait, waits a twentieth of a second at a
/// time, and hands each command on; it stops at the flag and where either end is gone.
pub proof fn command_bridges_look_wait_and_hand_on(command: ClientCommandView)
    ensures
        bridge_action(BridgeInputView::Waiting { shutting_down: true }) == BridgeActionView::Stop,
        bridge_action(BridgeInputView::Waiting { shutting_down: false }) == (
        BridgeActionView::Poll { millis: 50 }),
        bridge_action(BridgeInputView::Received(command)) == BridgeActionView::Forward(command),
        bridge_action(BridgeInputView::TimedOut) == BridgeActionView::CheckFlag,
        bridge_action(BridgeInputView::Disconnected) == BridgeActionView::Stop,
        bridge_action(BridgeInputView::Forwarded { taken: true }) == BridgeActionView::CheckFlag,
        bridge_action(BridgeInputView::Forwarded { taken: false }) == BridgeActionView::Stop,
{
}

/// The event bridge waits and hands each event on; it stops where either end is gone.
pub proof fn event_bridges_wait_and_hand_on(event: ServerEventView)
    ensures
        event_bridge_action(EventBridgeInputView::Received(event))
            == EventBridgeActionView::Forward(event),
        event_bridge_action(EventBridgeInputView::Closed) == EventBridgeActionView::Stop,
        event_bridge_action(EventBridgeInputView::Forwarded { taken: true })
            == EventBridgeActionView::Receive,
        event_bridge_action(EventBridgeInputView::Forwarded { taken: false })
            == EventBridgeActionView::Stop,
{
}

} // verus!
