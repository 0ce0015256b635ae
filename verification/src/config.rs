//! Session configuration, and the overrides that the driver makes of it.

use crate::path::{opt_path, FilePath};
use crate::text::{clone_opt_text, opt_text, texts};
use vstd::prelude::*;

verus! {

/// Configuration inputs accepted when a session is started.
#[derive(Debug, Clone, PartialEq, Eq)]
pub struct SessionConfig {
    /// Optional working directory used for sandboxing and relative path
    /// resolution.
    pub cwd: Option<FilePath>,
    /// Explicit model slug to prefer. When omitted, the configured default is
    /// used unless [`SessionConfig::use_oss`] flips the driver into OSS mode.
    pub model: Option<String>,
    /// Optional configuration profile name matching `config.toml` profiles.
    pub config_profile: Option<String>,
    /// Raw `-c` style overrides (e.g. `sandbox.mode=read-only`).
    pub raw_cli_overrides: Vec<String>,
    /// When true, prefer the built-in OSS model provider and ensure the
    /// default OSS model is available locally.
    pub use_oss: bool,
}

/// Model of [`SessionConfig`].
pub struct SessionConfigView {
    pub cwd: Option<Seq<u8>>,
    pub model: Option<Seq<char>>,
    pub config_profile: Option<Seq<char>>,
    pub raw_cli_overrides: Seq<Seq<char>>,
    pub use_oss: bool,
}

impl View for SessionConfig {
    type V = SessionConfigView;

    open spec fn view(&self) -> SessionConfigView {
        SessionConfigView {
            cwd: opt_path(self.cwd),
            model: opt_text(self.model),
            config_profile: opt_text(self.config_profile),
            raw_cli_overrides: texts(self.raw_cli_overrides@),
            use_oss: self.use_oss,
        }
    }
}

impl Default for SessionConfig {
    fn default() -> (r: Self)
        ensures
            r@ == (SessionConfigView {
                cwd: None,
                model: None,
                config_profile: None,
                raw_cli_overrides: Seq::empty(),
                use_oss: false,
            }),
    {
        let raw_cli_overrides: Vec<String> = Vec::new();
        assert(texts(raw_cli_overrides@) =~= Seq::<Seq<char>>::empty());
        SessionConfig {
            cwd: None,
            model: None,
            config_profile: None,
            raw_cli_overrides,
            use_oss: false,
        }
    }
}

/// When the agent asks before it acts.
#[derive(Debug, Clone, Copy, PartialEq, Eq)]
pub enum AskForApproval {
    /// Before anything but trusted commands.
    UnlessTrusted,
    /// When something failed in the sandbox.
    OnFailure,
    /// When it sees fit.
    OnRequest,
    /// Never.
    Never,
}

/// What the agent may touch.
#[derive(Debug, Clone, Copy, PartialEq, Eq)]
pub enum SandboxMode {
    /// Nothing: it may only read.
    ReadOnly,
    /// The workspace.
    WorkspaceWrite,
    /// Everything.
    DangerFullAccess,
}

/// What OSS mode falls back on.
#[derive(Debug, Clone, PartialEq, Eq)]
pub struct OssDefaults {
    /// Slug of the default OSS model.
    pub model: String,
    /// Identifier of the built-in OSS model provider.
    pub provider: String,
}

/// Model of [`OssDefaults`].
pub struct OssDefaultsView {
    pub model: Seq<char>,
    pub provider: Seq<char>,
}

impl View for OssDefaults {
    type V = OssDefaultsView;

    open spec fn view(&self) -> OssDefaultsView {
        OssDefaultsView {
            model: self.model@,
            provider: self.provider@,
        }
    }
}

/// Settings that take precedence over the configuration files; those left out do not.
#[derive(Debug, Clone, PartialEq, Eq)]
pub struct ConfigOverrides {
    /// Model slug.
    pub model: Option<String>,
    /// Model slug for reviews.
    pub review_model: Option<String>,
    /// Working directory.
    pub cwd: Option<FilePath>,
    /// When the agent asks before it acts.
    pub approval_policy: Option<AskForApproval>,
    /// What the agent may touch.
    pub sandbox_mode: Option<SandboxMode>,
    /// Model provider.
    pub model_provider: Option<String>,
    /// Configuration profile.
    pub config_profile: Option<String>,
    /// Sandbox executable on Linux.
    pub codex_linux_sandbox_exe: Option<FilePath>,
    /// Instructions in place of the built-in ones.
    pub base_instructions: Option<String>,
    /// Whether the plan tool is offered.
    pub include_plan_tool: Option<bool>,
    /// Whether the patch tool is offered.
    pub include_apply_patch_tool: Option<bool>,
    /// Whether the image tool is offered.
    pub include_view_image_tool: Option<bool>,
    /// Whether raw reasoning is shown.
    pub show_raw_agent_reasoning: Option<bool>,
    /// Whether web search is offered.
    pub tools_web_search_request: Option<bool>,
}

/// Model of [`ConfigOverrides`].
pub struct ConfigOverridesView {
    pub model: Option<Seq<char>>,
    pub review_model: Option<Seq<char>>,
    pub cwd: Option<Seq<u8>>,
    pub approval_policy: Option<AskForApproval>,
    pub sandbox_mode: Option<SandboxMode>,
    pub model_provider: Option<Seq<char>>,
    pub config_profile: Option<Seq<char>>,
    pub codex_linux_sandbox_exe: Option<Seq<u8>>,
    pub base_instructions: Option<Seq<char>>,
    pub include_plan_tool: Option<bool>,
    pub include_apply_patch_tool: Option<bool>,
    pub include_view_image_tool: Option<bool>,
    pub show_raw_agent_reasoning: Option<bool>,
    pub tools_web_search_request: Option<bool>,
}

impl View for ConfigOverrides {
    type V = ConfigOverridesView;

    open spec fn view(&self) -> ConfigOverridesView {
        ConfigOverridesView {
            model: opt_text(self.model),
            review_model: opt_text(self.review_model),
            cwd: opt_path(self.cwd),
            approval_policy: self.approval_policy,
            sandbox_mode: self.sandbox_mode,
            model_provider: opt_text(self.model_provider),
            config_profile: opt_text(self.config_profile),
            codex_linux_sandbox_exe: opt_path(self.codex_linux_sandbox_exe),
            base_instructions: opt_text(self.base_instructions),
            include_plan_tool: self.include_plan_tool,
            include_apply_patch_tool: self.include_apply_patch_tool,
            include_view_image_tool: self.include_view_image_tool,
            show_raw_agent_reasoning: self.show_raw_agent_reasoning,
            tools_web_search_request: self.tools_web_search_request,
        }
    }
}

/// The model and the model provider that a session asks for: an explicit model wins over the
/// default of OSS mode, and OSS mode brings its provider either way.
pub open spec fn model_choice(session: SessionConfigView, oss: OssDefaultsView) -> (
    Option<Seq<char>>,
    Option<Seq<char>>,
) {
    let provider = if session.use_oss {
        Some(oss.provider)
    } else {
        None
    };
    if session.use_oss && session.model is None {
        (Some(oss.model), provider)
    } else {
        (session.model, provider)
    }
}

/// The working directory of a session: its canonical form where there is one.
pub open spec fn working_dir(given: Option<Seq<u8>>, canonical: Option<Seq<u8>>) -> Option<
    Seq<u8>,
> {
    if given is Some && canonical is Some {
        canonical
    } else {
        given
    }
}

/// The overrides for a session. `canonical_cwd` is the canonical form of its working directory,
/// where that could be found.
pub open spec fn config_overrides(
    session: SessionConfigView,
    oss: OssDefaultsView,
    canonical_cwd: Option<Seq<u8>>,
) -> ConfigOverridesView {
    ConfigOverridesView {
        model: model_choice(session, oss).0,
        review_model: None,
        cwd: working_dir(session.cwd, canonical_cwd),
        approval_policy: Some(AskForApproval::Never),
        sandbox_mode: Some(SandboxMode::DangerFullAccess),
        model_provider: model_choice(session, oss).1,
        config_profile: session.config_profile,
        codex_linux_sandbox_exe: None,
        base_instructions: None,
        include_plan_tool: Some(true),
        include_apply_patch_tool: None,
        include_view_image_tool: None,
        show_raw_agent_reasoning: if session.use_oss {
            Some(true)
        } else {
            None
        },
        tools_web_search_request: None,
    }
}

/// Picks the model and the model provider.
pub fn determine_model(session: &SessionConfig, oss: &OssDefaults) -> (r: (
    Option<String>,
    Option<String>,
))
    ensures
        (opt_text(r.0), opt_text(r.1)) == model_choice(session@, oss@),
{
    let provider: Option<String> = if session.use_oss {
        Some(oss.provider.clone())
    } else {
        None
    };
    match &session.model {
        Some(model) => (Some(model.clone()), provider),
        None => if session.use_oss {
            (Some(oss.model.clone()), provider)
        } else {
            (None, provider)
        },
    }
}

/// Builds the overrides for a session. `canonical_cwd` is the canonical form of its working
/// directory, where that could be found.
pub fn build_config_overrides(
    session: &SessionConfig,
    oss: &OssDefaults,
    canonical_cwd: Option<FilePath>,
) -> (r: ConfigOverrides)
    ensures
        r@ == config_overrides(session@, oss@, opt_path(canonical_cwd)),
{
    let (model, model_provider) = determine_model(session, oss);
    let cwd = match &session.cwd {
        Some(given) => match canonical_cwd {
            Some(canonical) => Some(canonical),
            None => Some(given.clone()),
        },
        None => None,
    };
    ConfigOverrides {
        model,
        review_model: None,
        cwd,
        approval_policy: Some(AskForApproval::Never),
        sandbox_mode: Some(SandboxMode::DangerFullAccess),
        model_provider,
        config_profile: clone_opt_text(&session.config_profile),
        codex_linux_sandbox_exe: None,
        base_instructions: None,
        include_plan_tool: Some(true),
        include_apply_patch_tool: None,
        include_view_image_tool: None,
        show_raw_agent_reasoning: if session.use_oss {
            Some(true)
        } else {
            None
        },
        tools_web_search_request: None,
    }
}

/// Every session runs in danger mode: the agent never asks and may touch everything, whatever
/// the client configured.
pub proof fn sessions_run_in_danger_mode(
    session: SessionConfigView,
    oss: OssDefaultsView,
    canonical_cwd: Option<Seq<u8>>,
)
    ensures
        config_overrides(session, oss, canonical_cwd).approval_policy == Some(
            AskForApproval::Never,
        ),
        config_overrides(session, oss, canonical_cwd).sandbox_mode == Some(
            SandboxMode::DangerFullAccess,
        ),
{
}

/// The model that a client names is the model it gets, in OSS mode too. OSS mode always selects
/// the built-in provider, and its default model where the client names none; outside OSS mode
/// the configured provider stays in force, and the configured model where the client names none.
pub proof fn explicit_models_are_kept(
    session: SessionConfigView,
    oss: OssDefaultsView,
    canonical_cwd: Option<Seq<u8>>,
)
    ensures
        session.model is Some ==> config_overrides(session, oss, canonical_cwd).model
            == session.model,
        session.model is None && session.use_oss ==> config_overrides(
            session,
            oss,
            canonical_cwd,
        ).model == Some(oss.model),
        session.model is None && !session.use_oss ==> config_overrides(
            session,
            oss,
            canonical_cwd,
        ).model is None,
        session.use_oss ==> config_overrides(session, oss, canonical_cwd).model_provider == Some(
            oss.provider,
        ),
        !session.use_oss ==> config_overrides(session, oss, canonical_cwd).model_provider is None,
{
}

} // verus!
