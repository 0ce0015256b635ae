//! The command line: waiting for events, reading prompts, and the exit code in the end.

use crate::command::{ClientCommand, ClientCommandView};
use crate::event::{ServerEvent, ServerEventView};
use crate::path::FilePath;
use crate::render::{
    event_channel, event_exit_code, event_text, handle_event, Channel, EventReport, EXIT_FAILURE,
    EXIT_SUCCESS,
};
use crate::text::{
    after_prefix, same_text, strip_prefix, trim, trim_start, trimmed, trimmed_start,
};
use vstd::prelude::*;
use vstd::string::*;
use vstd::utf8::encode_utf8;

verus! {

// ---- Waiting for events ----

/// What came of waiting for events.
#[derive(Debug, Clone, Copy, PartialEq, Eq)]
pub struct PumpOutcome {
    /// The exit code that the events call for, if they call for one.
    pub exit_code: Option<u8>,
    /// Whether the session is over.
    pub session_ended: bool,
}

/// Whether to wait for a further event.
#[derive(Debug, Clone, Copy, PartialEq, Eq)]
pub enum PumpNext {
    /// Wait on; the exit code called for so far.
    Continue(Option<u8>),
    /// Stop waiting.
    Finished(PumpOutcome),
}

/// What to do about an event that came while waiting.
#[derive(Debug, PartialEq, Eq)]
pub struct PumpStep {
    /// How to show the event, if one came.
    pub report: Option<EventReport>,
    /// Whether to wait for a further one.
    pub next: PumpNext,
}

/// Whether to drain a further event.
#[derive(Debug, Clone, Copy, PartialEq, Eq)]
pub enum DrainNext {
    /// Drain on; the exit code so far.
    Continue(u8),
    /// Stop; the exit code.
    Finished(u8),
}

/// What to do about an event that came while draining.
#[derive(Debug, PartialEq, Eq)]
pub struct DrainStep {
    /// How to show the event, if one came.
    pub report: Option<EventReport>,
    /// Whether to drain a further one.
    pub next: DrainNext,
}

/// The view of what a receiver hands out: an event, or nothing once it is closed.
pub open spec fn received_view(received: Option<&ServerEvent>) -> Option<ServerEventView> {
    match received {
        Some(event) => Some(event@),
        None => None,
    }
}

/// The report shows exactly the event that came, if one came.
pub open spec fn reports(report: Option<EventReport>, received: Option<ServerEventView>) -> bool {
    match received {
        Some(event) => report matches Some(r) && r.channel == event_channel(event) && r.text@
            == event_text(event) && r.exit_code == event_exit_code(event),
        None => report is None,
    }
}

/// The exit code after an event: its own where it calls for one, else the one so far.
pub open spec fn exit_after(so_far: Option<u8>, event: ServerEventView) -> Option<u8> {
    if event_exit_code(event) is Some {
        event_exit_code(event)
    } else {
        so_far
    }
}

/// Waiting for an event of a kind: `wanted` tells whether the event is one. The end of the
/// session ends the wait too, with success unless something fatal came, and a closed receiver
/// ends it with failure.
pub open spec fn pump_next(
    so_far: Option<u8>,
    received: Option<ServerEventView>,
    wanted: bool,
) -> PumpNext {
    match received {
        None => PumpNext::Finished(
            PumpOutcome { exit_code: Some(EXIT_FAILURE), session_ended: true },
        ),
        Some(event) => if wanted {
            PumpNext::Finished(
                PumpOutcome { exit_code: exit_after(so_far, event), session_ended: false },
            )
        } else if event is SessionEnded {
            PumpNext::Finished(
                PumpOutcome {
                    exit_code: if so_far is Some {
                        so_far
                    } else {
                        Some(EXIT_SUCCESS)
                    },
                    session_ended: true,
                },
            )
        } else {
            PumpNext::Continue(exit_after(so_far, event))
        },
    }
}

/// Waiting for the turn to complete.
pub open spec fn turn_next(so_far: Option<u8>, received: Option<ServerEventView>) -> PumpNext {
    pump_next(so_far, received, received matches Some(event) && event is TurnComplete)
}

/// Waiting for a resumed session to be configured.
pub open spec fn config_next(so_far: Option<u8>, received: Option<ServerEventView>) -> PumpNext {
    pump_next(so_far, received, received matches Some(event) && event is SessionConfigured)
}

/// Draining events up to the end of the session.
pub open spec fn drain_next(so_far: u8, received: Option<ServerEventView>) -> DrainNext {
    match received {
        None => DrainNext::Finished(so_far),
        Some(event) => {
            let code = match event_exit_code(event) {
                Some(code) => code,
                None => so_far,
            };
            if event is SessionEnded {
                DrainNext::Finished(code)
            } else {
                DrainNext::Continue(code)
            }
        },
    }
}

/// Takes one event while a turn runs. `so_far` is the exit code called for since the wait began,
/// and `received` is nothing where the receiver is closed.
pub fn run_turn(so_far: Option<u8>, received: Option<&ServerEvent>) -> (r: PumpStep)
    ensures
        r.next == turn_next(so_far, received_view(received)),
        reports(r.report, received_view(received)),
{
    match received {
        Some(event) => {
            let report = handle_event(event);
            let exit_code: Option<u8> = match report.exit_code {
                Some(code) => Some(code),
                None => so_far,
            };
            let next = match event {
                ServerEvent::TurnComplete { .. } => PumpNext::Finished(
                    PumpOutcome { exit_code, session_ended: false },
                ),
                ServerEvent::SessionEnded => PumpNext::Finished(ended_outcome(exit_code)),
                _ => PumpNext::Continue(exit_code),
            };
            PumpStep { report: Some(report), next }
        },
        None => PumpStep { report: None, next: PumpNext::Finished(closed_outcome()) },
    }
}

/// Takes one event while a resumed session is being configured. `so_far` is the exit code called
/// for since the wait began, and `received` is nothing where the receiver is closed.
pub fn wait_for_session_config(so_far: Option<u8>, received: Option<&ServerEvent>) -> (r: PumpStep)
    ensures
        r.next == config_next(so_far, received_view(received)),
        reports(r.report, received_view(received)),
{
    match received {
        Some(event) => {
            let report = handle_event(event);
            let exit_code: Option<u8> = match report.exit_code {
                Some(code) => Some(code),
                None => so_far,
            };
            let next = match event {
                ServerEvent::SessionConfigured { .. } => PumpNext::Finished(
                    PumpOutcome { exit_code, session_ended: false },
                ),
                ServerEvent::SessionEnded => PumpNext::Finished(ended_outcome(exit_code)),
                _ => PumpNext::Continue(exit_code),
            };
            PumpStep { report: Some(report), next }
        },
        None => PumpStep { report: None, next: PumpNext::Finished(closed_outcome()) },
    }
}

/// The outcome of a wait that the end of the session cut short.
fn ended_outcome(exit_code: Option<u8>) -> (r: PumpOutcome)
    ensures
        r.session_ended,
        r.exit_code == (if exit_code is Some {
            exit_code
        } else {
            Some(EXIT_SUCCESS)
        }),
{
    let exit_code: Option<u8> = match exit_code {
        Some(code) => Some(code),
        None => Some(EXIT_SUCCESS),
    };
    PumpOutcome { exit_code, session_ended: true }
}

/// The outcome of a wait on a closed receiver.
fn closed_outcome() -> (r: PumpOutcome)
    ensures
        r == (PumpOutcome { exit_code: Some(EXIT_FAILURE), session_ended: true }),
{
    PumpOutcome { exit_code: Some(EXIT_FAILURE), session_ended: true }
}

/// Takes one event while the session runs out. `so_far` is the exit code so far, and `received`
/// is nothing where the receiver is closed.
pub fn pump_events(so_far: u8, received: Option<&ServerEvent>) -> (r: DrainStep)
    ensures
        r.next == drain_next(so_far, received_view(received)),
        reports(r.report, received_view(received)),
{
    match received {
        Some(event) => {
            let report = handle_event(event);
            let code: u8 = match report.exit_code {
                Some(code) => code,
                None => so_far,
            };
            let next = match event {
                ServerEvent::SessionEnded => DrainNext::Finished(code),
                _ => DrainNext::Continue(code),
            };
            DrainStep { report: Some(report), next }
        },
        None => DrainStep { report: None, next: DrainNext::Finished(so_far) },
    }
}

// ---- Prompts ----

/// A line that a user typed.
#[derive(Debug, PartialEq, Eq)]
pub enum PromptLine {
    /// Nothing.
    Blank,
    /// The request to resume a rollout, and its path.
    Resume(String),
    /// The request to resume a rollout, without a path.
    ResumeWithoutPath,
    /// The request to leave.
    Quit,
    /// A command that is not known.
    Unknown(String),
    /// A message for the agent.
    Message(String),
}

/// Model of [`PromptLine`].
pub enum PromptLineView {
    Blank,
    Resume(Seq<char>),
    ResumeWithoutPath,
    Quit,
    Unknown(Seq<char>),
    Message(Seq<char>),
}

impl View for PromptLine {
    type V = PromptLineView;

    open spec fn view(&self) -> PromptLineView {
        match *self {
            PromptLine::Blank => PromptLineView::Blank,
            PromptLine::Resume(x) => PromptLineView::Resume(x@),
            PromptLine::ResumeWithoutPath => PromptLineView::ResumeWithoutPath,
            PromptLine::Quit => PromptLineView::Quit,
            PromptLine::Unknown(x) => PromptLineView::Unknown(x@),
            PromptLine::Message(x) => PromptLineView::Message(x@),
        }
    }
}

/// The meaning of what follows the colon of a command; `prompt` is the whole line.
pub open spec fn command_meaning(rest: Seq<char>, prompt: Seq<char>) -> PromptLineView {
    match after_prefix(trimmed_start(rest), "resume"@) {
        Some(path) => if trimmed(path).len() == 0 {
            PromptLineView::ResumeWithoutPath
        } else {
            PromptLineView::Resume(trimmed(path))
        },
        None => if trimmed(trimmed_start(rest)) == "quit"@ {
            PromptLineView::Quit
        } else {
            PromptLineView::Unknown(prompt)
        },
    }
}

/// The meaning of a line: what begins with a colon is a command, and the rest is a message.
pub open spec fn line_meaning(line: Seq<char>) -> PromptLineView {
    let prompt = trimmed(line);
    if prompt.len() == 0 {
        PromptLineView::Blank
    } else {
        match after_prefix(prompt, ":"@) {
            Some(rest) => command_meaning(rest, prompt),
            None => PromptLineView::Message(prompt),
        }
    }
}

/// Reads a line that a user typed.
pub fn parse_prompt_line(line: &str) -> (r: PromptLine)
    ensures
        r@ == line_meaning(line@),
{
    let prompt = trim(line);
    if prompt.is_empty() {
        return PromptLine::Blank;
    }
    match strip_prefix(prompt, ":") {
        Some(rest) => {
            let rest = trim_start(rest);
            match strip_prefix(rest, "resume") {
                Some(path) => {
                    let rollout = trim(path);
                    if rollout.is_empty() {
                        PromptLine::ResumeWithoutPath
                    } else {
                        PromptLine::Resume(String::from_str(rollout))
                    }
                },
                None => if same_text(trim(rest), "quit") {
                    PromptLine::Quit
                } else {
                    PromptLine::Unknown(String::from_str(prompt))
                },
            }
        },
        None => PromptLine::Message(String::from_str(prompt)),
    }
}

// ---- The two modes ----

/// Something the command line says of itself.
#[derive(Debug, PartialEq, Eq)]
pub struct Notice {
    /// Where it is printed.
    pub channel: Channel,
    /// What is printed, without the line end.
    pub text: String,
}

/// Model of [`Notice`].
pub struct NoticeView {
    pub channel: Channel,
    pub text: Seq<char>,
}

impl View for Notice {
    type V = NoticeView;

    open spec fn view(&self) -> NoticeView {
        NoticeView { channel: self.channel, text: self.text@ }
    }
}

/// What the command line hears.
#[derive(Debug, PartialEq, Eq)]
pub enum CliInput {
    /// The text that was read.
    Text(String),
    /// There is nothing more to read.
    EndOfInput,
    /// Reading failed.
    Unreadable,
    /// Whether the driver took the command.
    Sent(bool),
    /// What came of waiting for events.
    Waited(PumpOutcome),
    /// The exit code of the drained session.
    Drained(u8),
}

/// Model of [`CliInput`].
pub enum CliInputView {
    Text(Seq<char>),
    EndOfInput,
    Unreadable,
    Sent(bool),
    Waited(PumpOutcome),
    Drained(u8),
}

impl View for CliInput {
    type V = CliInputView;

    open spec fn view(&self) -> CliInputView {
        match *self {
            CliInput::Text(x) => CliInputView::Text(x@),
            CliInput::EndOfInput => CliInputView::EndOfInput,
            CliInput::Unreadable => CliInputView::Unreadable,
            CliInput::Sent(x) => CliInputView::Sent(x),
            CliInput::Waited(x) => CliInputView::Waited(x),
            CliInput::Drained(x) => CliInputView::Drained(x),
        }
    }
}

/// What the command line does next.
#[derive(Debug, PartialEq, Eq)]
pub enum CliRequest {
    /// Read standard input to its end.
    ReadAll,
    /// Show the prompt sign and read a line.
    ReadLine,
    /// Send a command to the driver.
    Send(ClientCommand),
    /// Wait until the resumed session is configured.
    AwaitSessionConfig,
    /// Wait until the turn is complete.
    AwaitTurn,
    /// Send this last command to the driver, whether or not it takes it, and drain its events.
    ShutDownAndDrain(ClientCommand),
    /// Release the session and exit.
    Exit(u8),
    /// Exit at once; the session was never used.
    Abandon(u8),
}

/// Model of [`CliRequest`].
pub enum CliRequestView {
    ReadAll,
    ReadLine,
    Send(ClientCommandView),
    AwaitSessionConfig,
    AwaitTurn,
    ShutDownAndDrain(ClientCommandView),
    Exit(u8),
    Abandon(u8),
}

impl View for CliRequest {
    type V = CliRequestView;

    open spec fn view(&self) -> CliRequestView {
        match *self {
            CliRequest::ReadAll => CliRequestView::ReadAll,
            CliRequest::ReadLine => CliRequestView::ReadLine,
            CliRequest::Send(x) => CliRequestView::Send(x@),
            CliRequest::AwaitSessionConfig => CliRequestView::AwaitSessionConfig,
            CliRequest::AwaitTurn => CliRequestView::AwaitTurn,
            CliRequest::ShutDownAndDrain(x) => CliRequestView::ShutDownAndDrain(x@),
            CliRequest::Exit(x) => CliRequestView::Exit(x),
            CliRequest::Abandon(x) => CliRequestView::Abandon(x),
        }
    }
}

/// One step of the command line.
#[derive(Debug, PartialEq, Eq)]
pub struct CliStep {
    /// What to say first, if there is something to say.
    pub notice: Option<Notice>,
    /// What to do after that.
    pub request: CliRequest,
}

/// Model of [`CliStep`].
pub struct CliStepView {
    pub notice: Option<NoticeView>,
    pub request: CliRequestView,
}

impl View for CliStep {
    type V = CliStepView;

    open spec fn view(&self) -> CliStepView {
        CliStepView {
            notice: match self.notice {
                Some(n) => Some(n@),
                None => None,
            },
            request: self.request@,
        }
    }
}

/// A step in silence.
pub open spec fn silent(request: CliRequestView) -> CliStepView {
    CliStepView { notice: None, request }
}

/// A step with a complaint.
pub open spec fn complaint(text: Seq<char>, request: CliRequestView) -> CliStepView {
    CliStepView { notice: Some(NoticeView { channel: Channel::Stderr, text }), request }
}

/// The command that sends a message without images.
pub open spec fn message_command(text: Seq<char>) -> ClientCommandView {
    ClientCommandView::SubmitUserMessage { text, images: Seq::empty() }
}

/// A step in silence.
fn silently(request: CliRequest) -> (r: CliStep)
    ensures
        r@ == silent(request@),
{
    CliStep { notice: None, request }
}

/// A step with a complaint.
fn complain(text: &str, request: CliRequest) -> (r: CliStep)
    ensures
        r@ == complaint(text@, request@),
{
    CliStep {
        notice: Some(Notice { channel: Channel::Stderr, text: String::from_str(text) }),
        request,
    }
}

/// The command that sends a message without images.
fn submit(text: String) -> (r: ClientCommand)
    ensures
        r@ == message_command(text@),
{
    let images: Vec<FilePath> = Vec::new();
    assert(crate::path::paths(images@) =~= Seq::<Seq<u8>>::empty());
    ClientCommand::SubmitUserMessage { text, images }
}

/// Where a run of a single turn stands.
#[derive(Debug, Clone, Copy, PartialEq, Eq)]
pub enum SingleTurnPhase {
    /// The prompt is being read.
    Reading,
    /// The prompt is on its way to the driver.
    Sending,
    /// The session is running out.
    Draining,
    /// The run is over.
    Over,
}

/// The run of a single turn: one prompt, and the session is shut down behind it.
#[derive(Debug, PartialEq, Eq)]
pub struct SingleTurn {
    /// Where it stands.
    pub phase: SingleTurnPhase,
}

/// What becomes of a prompt: it is trimmed and sent, unless nothing is left of it.
pub open spec fn prompt_move(prompt: Seq<char>) -> (SingleTurnPhase, CliStepView) {
    if trimmed(prompt).len() == 0 {
        (
            SingleTurnPhase::Over,
            complaint(
                "prompt is empty; supply --prompt or stdin input"@,
                CliRequestView::Abandon(EXIT_FAILURE),
            ),
        )
    } else {
        (
            SingleTurnPhase::Sending,
            silent(CliRequestView::Send(message_command(trimmed(prompt)))),
        )
    }
}

/// The transition table of a single turn.
pub open spec fn single_turn_move(phase: SingleTurnPhase, input: CliInputView) -> Option<
    (SingleTurnPhase, CliStepView),
> {
    match (phase, input) {
        (SingleTurnPhase::Reading, CliInputView::Text(prompt)) => Some(prompt_move(prompt)),
        (SingleTurnPhase::Reading, CliInputView::Unreadable) => Some(
            (
                SingleTurnPhase::Over,
                complaint(
                    "failed to read prompt from stdin"@,
                    CliRequestView::Abandon(EXIT_FAILURE),
                ),
            ),
        ),
        (SingleTurnPhase::Sending, CliInputView::Sent(taken)) => if taken {
            Some(
                (
                    SingleTurnPhase::Draining,
                    silent(CliRequestView::ShutDownAndDrain(ClientCommandView::Shutdown)),
                ),
            )
        } else {
            Some(
                (
                    SingleTurnPhase::Over,
                    complaint(
                        "failed to send prompt to Codex"@,
                        CliRequestView::Abandon(EXIT_FAILURE),
                    ),
                ),
            )
        },
        (SingleTurnPhase::Draining, CliInputView::Drained(code)) => Some(
            (SingleTurnPhase::Over, silent(CliRequestView::Exit(code))),
        ),
        _ => None,
    }
}

/// Where an interactive run stands.
#[derive(Debug, Clone, Copy, PartialEq, Eq)]
pub enum InteractivePhase {
    /// A line is being read.
    Prompting,
    /// A resume command is on its way to the driver.
    SendingResume,
    /// The resumed session is being configured.
    AwaitingConfig,
    /// A message is on its way to the driver.
    SendingMessage,
    /// A turn is running.
    AwaitingTurn,
    /// The session is running out.
    Draining,
    /// The run is over.
    Over,
}

/// An interactive run: prompt after prompt in one session.
#[derive(Debug, Clone, Copy, PartialEq, Eq)]
pub struct Interactive {
    /// Where it stands.
    pub phase: InteractivePhase,
    /// The exit code so far.
    pub exit_code: u8,
}

/// What becomes of a line.
pub open spec fn line_move(s: Interactive, line: PromptLineView) -> (Interactive, CliStepView) {
    match line {
        PromptLineView::Blank => (s, silent(CliRequestView::ReadLine)),
        PromptLineView::ResumeWithoutPath => (
            s,
            complaint("usage: :resume <rollout-path>"@, CliRequestView::ReadLine),
        ),
        PromptLineView::Resume(path) => (
            Interactive { phase: InteractivePhase::SendingResume, ..s },
            silent(
                CliRequestView::Send(
                    ClientCommandView::Resume { rollout_path: encode_utf8(path) },
                ),
            ),
        ),
        PromptLineView::Quit => (
            Interactive { phase: InteractivePhase::Draining, ..s },
            silent(CliRequestView::ShutDownAndDrain(ClientCommandView::Shutdown)),
        ),
        PromptLineView::Unknown(prompt) => (
            s,
            complaint("unknown command: "@ + prompt, CliRequestView::ReadLine),
        ),
        PromptLineView::Message(prompt) => (
            Interactive { phase: InteractivePhase::SendingMessage, ..s },
            silent(CliRequestView::Send(message_command(prompt))),
        ),
    }
}

/// What becomes of a command: the wait that follows it, or the end where it was not taken.
pub open spec fn sent_move(
    taken: bool,
    s: Interactive,
    phase: InteractivePhase,
    request: CliRequestView,
    text: Seq<char>,
) -> (Interactive, CliStepView) {
    if taken {
        (Interactive { phase, ..s }, silent(request))
    } else {
        (
            Interactive { phase: InteractivePhase::Over, exit_code: EXIT_FAILURE },
            complaint(text, CliRequestView::Exit(EXIT_FAILURE)),
        )
    }
}

/// The exit code of a run after something called for a code: a failure replaces the code so far,
/// and a success does not.
pub open spec fn kept_code(so_far: u8, called_for: Option<u8>) -> u8 {
    match called_for {
        Some(code) => if code != EXIT_SUCCESS {
            code
        } else {
            so_far
        },
        None => so_far,
    }
}

/// What becomes of a wait: the next line, or the end where the session is over.
pub open spec fn waited_move(s: Interactive, outcome: PumpOutcome) -> (Interactive, CliStepView) {
    let exit_code = kept_code(s.exit_code, outcome.exit_code);
    if outcome.session_ended {
        (
            Interactive { phase: InteractivePhase::Over, exit_code },
            silent(CliRequestView::Exit(exit_code)),
        )
    } else {
        (
            Interactive { phase: InteractivePhase::Prompting, exit_code },
            silent(CliRequestView::ReadLine),
        )
    }
}

/// The transition table of an interactive run.
pub open spec fn interactive_move(s: Interactive, input: CliInputView) -> Option<
    (Interactive, CliStepView),
> {
    match (s.phase, input) {
        (InteractivePhase::Prompting, CliInputView::Text(line)) => Some(
            line_move(s, line_meaning(line)),
        ),
        (InteractivePhase::Prompting, CliInputView::EndOfInput) => Some(
            (
                Interactive { phase: InteractivePhase::Draining, ..s },
                silent(CliRequestView::ShutDownAndDrain(ClientCommandView::Shutdown)),
            ),
        ),
        (InteractivePhase::SendingResume, CliInputView::Sent(taken)) => Some(
            sent_move(
                taken,
                s,
                InteractivePhase::AwaitingConfig,
                CliRequestView::AwaitSessionConfig,
                "failed to send resume command"@,
            ),
        ),
        (InteractivePhase::SendingMessage, CliInputView::Sent(taken)) => Some(
            sent_move(
                taken,
                s,
                InteractivePhase::AwaitingTurn,
                CliRequestView::AwaitTurn,
                "failed to send prompt"@,
            ),
        ),
        (InteractivePhase::AwaitingConfig, CliInputView::Waited(outcome)) => Some(
            waited_move(s, outcome),
        ),
        (InteractivePhase::AwaitingTurn, CliInputView::Waited(outcome)) => Some(
            waited_move(s, outcome),
        ),
        (InteractivePhase::Draining, CliInputView::Drained(code)) => {
            let exit_code = kept_code(s.exit_code, Some(code));
            Some(
                (
                    Interactive { phase: InteractivePhase::Over, exit_code },
                    silent(CliRequestView::Exit(exit_code)),
                ),
            )
        },
        _ => None,
    }
}

impl SingleTurn {
    /// Takes a prompt: trims it and sends it, unless nothing is left of it.
    fn take_prompt(&mut self, prompt: &str) -> (r: CliStep)
        ensures
            (final(self).phase, r@) == prompt_move(prompt@),
    {
        let prompt = trim(prompt);
        if prompt.is_empty() {
            self.phase = SingleTurnPhase::Over;
            complain(
                "prompt is empty; supply --prompt or stdin input",
                CliRequest::Abandon(EXIT_FAILURE),
            )
        } else {
            self.phase = SingleTurnPhase::Sending;
            silently(CliRequest::Send(submit(String::from_str(prompt))))
        }
    }

    /// Begins a run with the prompt given, or else with the one on standard input.
    pub fn begin(prompt: Option<String>) -> (r: (SingleTurn, CliStep))
        ensures
            match prompt {
                Some(text) => (r.0.phase, r.1@) == prompt_move(text@),
                None => (r.0.phase, r.1@) == (
                    SingleTurnPhase::Reading,
                    silent(CliRequestView::ReadAll),
                ),
            },
    {
        let mut run = SingleTurn { phase: SingleTurnPhase::Reading };
        let step = match prompt {
            Some(text) => run.take_prompt(text.as_str()),
            None => silently(CliRequest::ReadAll),
        };
        (run, step)
    }

    /// Takes the answer to the last request and decides what comes next. An answer to something
    /// that was not asked is refused: the run stays where it is.
    pub fn step(&mut self, input: CliInput) -> (r: Option<CliStep>)
        ensures
            match single_turn_move(old(self).phase, input@) {
                Some((phase, step)) => r matches Some(s) && final(self).phase == phase && s@
                    == step,
                None => r is None && final(self).phase == old(self).phase,
            },
    {
        match (self.phase, input) {
            (SingleTurnPhase::Reading, CliInput::Text(prompt)) => Some(
                self.take_prompt(prompt.as_str()),
            ),
            (SingleTurnPhase::Reading, CliInput::Unreadable) => {
                self.phase = SingleTurnPhase::Over;
                Some(
                    complain(
                        "failed to read prompt from stdin",
                        CliRequest::Abandon(EXIT_FAILURE),
                    ),
                )
            },
            (SingleTurnPhase::Sending, CliInput::Sent(taken)) => if taken {
                self.phase = SingleTurnPhase::Draining;
                Some(silently(CliRequest::ShutDownAndDrain(ClientCommand::Shutdown)))
            } else {
                self.phase = SingleTurnPhase::Over;
                Some(
                    complain("failed to send prompt to Codex", CliRequest::Abandon(EXIT_FAILURE)),
                )
            },
            (SingleTurnPhase::Draining, CliInput::Drained(code)) => {
                self.phase = SingleTurnPhase::Over;
                Some(silently(CliRequest::Exit(code)))
            },
            _ => None,
        }
    }
}

impl Interactive {
    /// Begins a run: a greeting, and the first line.
    pub fn begin() -> (r: (Interactive, CliStep))
        ensures
            r.0 == (Interactive { phase: InteractivePhase::Prompting, exit_code: EXIT_SUCCESS }),
            r.1@ == (CliStepView {
                notice: Some(
                    NoticeView {
                        channel: Channel::Stdout,
                        text:
                            "Entering interactive mode. Submit prompts and press Ctrl-D to exit."@,
                    },
                ),
                request: CliRequestView::ReadLine,
            }),
    {
        (
            Interactive { phase: InteractivePhase::Prompting, exit_code: EXIT_SUCCESS },
            CliStep {
                notice: Some(
                    Notice {
                        channel: Channel::Stdout,
                        text: String::from_str(
                            "Entering interactive mode. Submit prompts and press Ctrl-D to exit.",
                        ),
                    },
                ),
                request: CliRequest::ReadLine,
            },
        )
    }

    /// Takes a line that was read.
    fn take_line(&mut self, line: &str) -> (r: CliStep)
        ensures
            (*final(self), r@) == line_move(*old(self), line_meaning(line@)),
    {
        match parse_prompt_line(line) {
            PromptLine::Blank => silently(CliRequest::ReadLine),
            PromptLine::ResumeWithoutPath => complain(
                "usage: :resume <rollout-path>",
                CliRequest::ReadLine,
            ),
            PromptLine::Resume(path) => {
                self.phase = InteractivePhase::SendingResume;
                silently(
                    CliRequest::Send(
                        ClientCommand::Resume { rollout_path: FilePath::from_text(path.as_str()) },
                    ),
                )
            },
            PromptLine::Quit => {
                self.phase = InteractivePhase::Draining;
                silently(CliRequest::ShutDownAndDrain(ClientCommand::Shutdown))
            },
            PromptLine::Unknown(prompt) => complain(
                String::from_str("unknown command: ").concat(prompt.as_str()).as_str(),
                CliRequest::ReadLine,
            ),
            PromptLine::Message(prompt) => {
                self.phase = InteractivePhase::SendingMessage;
                silently(CliRequest::Send(submit(prompt)))
            },
        }
    }

    /// Takes the news that a command was not taken.
    fn give_up(&mut self, text: &str) -> (r: CliStep)
        ensures
            *final(self) == (Interactive {
                phase: InteractivePhase::Over,
                exit_code: EXIT_FAILURE,
            }),
            r@ == complaint(text@, CliRequestView::Exit(EXIT_FAILURE)),
    {
        self.phase = InteractivePhase::Over;
        self.exit_code = EXIT_FAILURE;
        complain(text, CliRequest::Exit(EXIT_FAILURE))
    }

    /// Takes the outcome of a wait.
    fn take_outcome(&mut self, outcome: PumpOutcome) -> (r: CliStep)
        ensures
            (*final(self), r@) == waited_move(*old(self), outcome),
    {
        match outcome.exit_code {
            Some(code) => if code != EXIT_SUCCESS {
                self.exit_code = code;
            },
            None => {},
        }
        if outcome.session_ended {
            self.phase = InteractivePhase::Over;
            silently(CliRequest::Exit(self.exit_code))
        } else {
            self.phase = InteractivePhase::Prompting;
            silently(CliRequest::ReadLine)
        }
    }

    /// Takes the answer to the last request and decides what comes next. An answer to something
    /// that was not asked is refused: the run stays where it is.
    pub fn step(&mut self, input: CliInput) -> (r: Option<CliStep>)
        ensures
            match interactive_move(*old(self), input@) {
                Some((next, step)) => r matches Some(s) && *final(self) == next && s@ == step,
                None => r is None && *final(self) == *old(self),
            },
    {
        match (self.phase, input) {
            (InteractivePhase::Prompting, CliInput::Text(line)) => Some(
                self.take_line(line.as_str()),
            ),
            (InteractivePhase::Prompting, CliInput::EndOfInput) => {
                self.phase = InteractivePhase::Draining;
                Some(silently(CliRequest::ShutDownAndDrain(ClientCommand::Shutdown)))
            },
            (InteractivePhase::SendingResume, CliInput::Sent(taken)) => if taken {
                self.phase = InteractivePhase::AwaitingConfig;
                Some(silently(CliRequest::AwaitSessionConfig))
            } else {
                Some(self.give_up("failed to send resume command"))
            },
            (InteractivePhase::SendingMessage, CliInput::Sent(taken)) => if taken {
                self.phase = InteractivePhase::AwaitingTurn;
                Some(silently(CliRequest::AwaitTurn))
            } else {
                Some(self.give_up("failed to send prompt"))
            },
            (InteractivePhase::AwaitingConfig, CliInput::Waited(outcome)) => Some(
                self.take_outcome(outcome),
            ),
            (InteractivePhase::AwaitingTurn, CliInput::Waited(outcome)) => Some(
                self.take_outcome(outcome),
            ),
            (InteractivePhase::Draining, CliInput::Drained(code)) => {
                if code != EXIT_SUCCESS {
                    self.exit_code = code;
                }
                self.phase = InteractivePhase::Over;
                Some(silently(CliRequest::Exit(self.exit_code)))
            },
            _ => None,
        }
    }
}

} // verus!
