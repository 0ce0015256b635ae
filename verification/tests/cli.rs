use codex_driver::cli::{
    parse_prompt_line, pump_events, run_turn, wait_for_session_config, CliInput, CliRequest,
    CliStep, DrainNext, Interactive, InteractivePhase, Notice, PromptLine, PumpNext, PumpOutcome,
    PumpStep, SingleTurn, SingleTurnPhase,
};
use codex_driver::command::ClientCommand;
use codex_driver::event::ServerEvent;
use codex_driver::path::FilePath;
use codex_driver::render::{handle_event, Channel};

fn s(text: &str) -> String {
    text.to_string()
}

fn fatal() -> ServerEvent {
    ServerEvent::Fatal { message: s("dead") }
}

fn complete() -> ServerEvent {
    ServerEvent::TurnComplete { last_message: None }
}

fn configured() -> ServerEvent {
    ServerEvent::SessionConfigured {
        model: s("m"),
        conversation_id: s("c"),
        rollout_path: FilePath::from_text("/r"),
    }
}

fn delta() -> ServerEvent {
    ServerEvent::AgentMessageDelta(s("x"))
}

fn wait(
    step: fn(Option<u8>, Option<&ServerEvent>) -> PumpStep,
    events: Vec<ServerEvent>,
) -> (PumpOutcome, usize) {
    let mut so_far = None;
    let mut taken = 0;
    for event in &events {
        let next = step(so_far, Some(event));
        assert_eq!(next.report, Some(handle_event(event)));
        taken += 1;
        match next.next {
            PumpNext::Continue(code) => so_far = code,
            PumpNext::Finished(outcome) => return (outcome, taken),
        }
    }
    let next = step(so_far, None);
    assert_eq!(next.report, None);
    match next.next {
        PumpNext::Finished(outcome) => (outcome, taken),
        PumpNext::Continue(_) => panic!("nothing can come any more"),
    }
}

fn drain(events: Vec<ServerEvent>) -> (u8, usize) {
    let mut code = 0;
    let mut taken = 0;
    for event in &events {
        let next = pump_events(code, Some(event));
        assert_eq!(next.report, Some(handle_event(event)));
        taken += 1;
        match next.next {
            DrainNext::Continue(so_far) => code = so_far,
            DrainNext::Finished(result) => return (result, taken),
        }
    }
    match pump_events(code, None).next {
        DrainNext::Finished(result) => (result, taken),
        DrainNext::Continue(_) => panic!("nothing can come any more"),
    }
}

fn outcome(exit_code: Option<u8>, session_ended: bool) -> PumpOutcome {
    PumpOutcome { exit_code, session_ended }
}

#[test]
fn a_turn_ends_when_it_is_complete() {
    assert_eq!(
        wait(run_turn, vec![delta(), configured(), complete(), fatal()]),
        (outcome(None, false), 3)
    );
    assert_eq!(
        wait(run_turn, vec![fatal(), delta(), complete()]),
        (outcome(Some(1), false), 3)
    );
}

#[test]
fn a_resume_ends_when_the_session_is_configured() {
    assert_eq!(
        wait(wait_for_session_config, vec![complete(), configured(), delta()]),
        (outcome(None, false), 2)
    );
    assert_eq!(
        wait(wait_for_session_config, vec![fatal(), configured()]),
        (outcome(Some(1), false), 2)
    );
}

#[test]
fn the_end_of_the_session_ends_every_wait() {
    for step in [run_turn, wait_for_session_config] {
        assert_eq!(
            wait(step, vec![delta(), ServerEvent::SessionEnded]),
            (outcome(Some(0), true), 2)
        );
        assert_eq!(
            wait(step, vec![fatal(), ServerEvent::SessionEnded]),
            (outcome(Some(1), true), 2)
        );
        assert_eq!(wait(step, vec![delta()]), (outcome(Some(1), true), 1));
        assert_eq!(wait(step, Vec::new()), (outcome(Some(1), true), 0));
    }
}

#[test]
fn draining_fails_on_fatal_errors_only() {
    assert_eq!(drain(vec![delta(), complete(), ServerEvent::SessionEnded, fatal()]), (0, 3));
    assert_eq!(drain(vec![delta(), fatal(), complete(), ServerEvent::SessionEnded]), (1, 4));
    assert_eq!(drain(vec![fatal()]), (1, 1));
    assert_eq!(drain(Vec::new()), (0, 0));
}

#[test]
fn lines_are_read() {
    assert_eq!(parse_prompt_line(""), PromptLine::Blank);
    assert_eq!(parse_prompt_line(" \t\n"), PromptLine::Blank);
    assert_eq!(parse_prompt_line("  hello there\n"), PromptLine::Message(s("hello there")));
    assert_eq!(parse_prompt_line("resume x"), PromptLine::Message(s("resume x")));
    assert_eq!(parse_prompt_line(":quit\n"), PromptLine::Quit);
    assert_eq!(parse_prompt_line(" :  quit "), PromptLine::Quit);
    assert_eq!(parse_prompt_line(":resume /r/1.jsonl\n"), PromptLine::Resume(s("/r/1.jsonl")));
    assert_eq!(parse_prompt_line(": resume  a b "), PromptLine::Resume(s("a b")));
    assert_eq!(parse_prompt_line(":resumed"), PromptLine::Resume(s("d")));
    assert_eq!(parse_prompt_line(":resume"), PromptLine::ResumeWithoutPath);
    assert_eq!(parse_prompt_line(":resume   \n"), PromptLine::ResumeWithoutPath);
    assert_eq!(parse_prompt_line(":"), PromptLine::Unknown(s(":")));
    assert_eq!(parse_prompt_line(" : help me "), PromptLine::Unknown(s(": help me")));
    assert_eq!(parse_prompt_line(":Quit"), PromptLine::Unknown(s(":Quit")));
    assert_eq!(parse_prompt_line("::quit"), PromptLine::Unknown(s("::quit")));
}

fn silently(request: CliRequest) -> CliStep {
    CliStep { notice: None, request }
}

fn complaining(text: &str, request: CliRequest) -> CliStep {
    CliStep { notice: Some(Notice { channel: Channel::Stderr, text: s(text) }), request }
}

fn shut_down() -> CliRequest {
    CliRequest::ShutDownAndDrain(ClientCommand::Shutdown)
}

fn send_message(text: &str) -> CliRequest {
    CliRequest::Send(ClientCommand::SubmitUserMessage { text: s(text), images: Vec::new() })
}

#[test]
fn a_single_turn_sends_its_prompt_and_shuts_down() {
    let (mut run, first) = SingleTurn::begin(Some(s("  do it\n")));
    assert_eq!(first, silently(send_message("do it")));
    assert_eq!(run.step(CliInput::Drained(0)), None);
    assert_eq!(run.step(CliInput::Sent(true)), Some(silently(shut_down())));
    assert_eq!(run.step(CliInput::Drained(1)), Some(silently(CliRequest::Exit(1))));
    assert_eq!(run.phase, SingleTurnPhase::Over);
    assert_eq!(run.step(CliInput::Sent(true)), None);
}

#[test]
fn a_single_turn_reads_its_prompt_where_none_is_given() {
    let (mut run, first) = SingleTurn::begin(None);
    assert_eq!(first, silently(CliRequest::ReadAll));
    assert_eq!(run.step(CliInput::Text(s("a\nb\n"))), Some(silently(send_message("a\nb"))));
}

#[test]
fn a_single_turn_without_a_prompt_fails() {
    let empty = complaining(
        "prompt is empty; supply --prompt or stdin input",
        CliRequest::Abandon(1),
    );
    let (run, first) = SingleTurn::begin(Some(s(" \n")));
    assert_eq!(first, empty);
    assert_eq!(run.phase, SingleTurnPhase::Over);
    let (mut run, _) = SingleTurn::begin(None);
    assert_eq!(run.step(CliInput::Text(String::new())), Some(empty));
    let (mut run, _) = SingleTurn::begin(None);
    assert_eq!(
        run.step(CliInput::Unreadable),
        Some(complaining("failed to read prompt from stdin", CliRequest::Abandon(1)))
    );
    assert_eq!(run.phase, SingleTurnPhase::Over);
}

#[test]
fn a_single_turn_that_cannot_be_sent_fails() {
    let (mut run, _) = SingleTurn::begin(Some(s("x")));
    assert_eq!(
        run.step(CliInput::Sent(false)),
        Some(complaining("failed to send prompt to Codex", CliRequest::Abandon(1)))
    );
    assert_eq!(run.phase, SingleTurnPhase::Over);
}

fn prompting() -> Interactive {
    Interactive { phase: InteractivePhase::Prompting, exit_code: 0 }
}

#[test]
fn an_interactive_run_greets() {
    let (run, first) = Interactive::begin();
    assert_eq!(run, prompting());
    assert_eq!(
        first,
        CliStep {
            notice: Some(Notice {
                channel: Channel::Stdout,
                text: s("Entering interactive mode. Submit prompts and press Ctrl-D to exit."),
            }),
            request: CliRequest::ReadLine,
        }
    );
}

#[test]
fn an_interactive_run_takes_turn_after_turn() {
    let mut run = prompting();
    for _ in 0..2 {
        assert_eq!(run.step(CliInput::Text(s("hi\n"))), Some(silently(send_message("hi"))));
        assert_eq!(run.step(CliInput::Sent(true)), Some(silently(CliRequest::AwaitTurn)));
        assert_eq!(
            run.step(CliInput::Waited(outcome(None, false))),
            Some(silently(CliRequest::ReadLine))
        );
    }
    assert_eq!(run.step(CliInput::EndOfInput), Some(silently(shut_down())));
    assert_eq!(run.step(CliInput::Drained(0)), Some(silently(CliRequest::Exit(0))));
    assert_eq!(run.step(CliInput::EndOfInput), None);
}

#[test]
fn an_interactive_run_resumes() {
    let mut run = prompting();
    assert_eq!(
        run.step(CliInput::Text(s(":resume /r/1\n"))),
        Some(silently(CliRequest::Send(ClientCommand::Resume {
            rollout_path: FilePath::from_text("/r/1"),
        })))
    );
    assert_eq!(run.step(CliInput::Sent(true)), Some(silently(CliRequest::AwaitSessionConfig)));
    assert_eq!(
        run.step(CliInput::Waited(outcome(None, false))),
        Some(silently(CliRequest::ReadLine))
    );
}

#[test]
fn an_interactive_run_stays_on_lines_that_ask_for_nothing() {
    let mut run = prompting();
    assert_eq!(run.step(CliInput::Text(s("\n"))), Some(silently(CliRequest::ReadLine)));
    assert_eq!(
        run.step(CliInput::Text(s(":resume\n"))),
        Some(complaining("usage: :resume <rollout-path>", CliRequest::ReadLine))
    );
    assert_eq!(
        run.step(CliInput::Text(s(" :help \n"))),
        Some(complaining("unknown command: :help", CliRequest::ReadLine))
    );
    assert_eq!(run, prompting());
}

#[test]
fn an_interactive_run_leaves_on_request() {
    let mut run = prompting();
    assert_eq!(
        run.step(CliInput::Text(s(":quit\n"))),
        Some(silently(shut_down()))
    );
    assert_eq!(run.phase, InteractivePhase::Draining);
}

#[test]
fn an_interactive_run_ends_where_a_command_is_not_taken() {
    let mut run = Interactive { phase: InteractivePhase::SendingResume, exit_code: 0 };
    assert_eq!(
        run.step(CliInput::Sent(false)),
        Some(complaining("failed to send resume command", CliRequest::Exit(1)))
    );
    let mut run = Interactive { phase: InteractivePhase::SendingMessage, exit_code: 0 };
    assert_eq!(
        run.step(CliInput::Sent(false)),
        Some(complaining("failed to send prompt", CliRequest::Exit(1)))
    );
    assert_eq!(run, Interactive { phase: InteractivePhase::Over, exit_code: 1 });
}

#[test]
fn an_interactive_run_remembers_a_failure() {
    let mut run = Interactive { phase: InteractivePhase::AwaitingTurn, exit_code: 0 };
    assert_eq!(
        run.step(CliInput::Waited(outcome(Some(1), false))),
        Some(silently(CliRequest::ReadLine))
    );
    assert_eq!(run.exit_code, 1);
    assert_eq!(run.step(CliInput::EndOfInput), Some(silently(shut_down())));
    assert_eq!(run.step(CliInput::Drained(0)), Some(silently(CliRequest::Exit(1))));
}

#[test]
fn an_interactive_run_ends_with_its_session() {
    let mut run = Interactive { phase: InteractivePhase::AwaitingConfig, exit_code: 0 };
    assert_eq!(
        run.step(CliInput::Waited(outcome(Some(1), true))),
        Some(silently(CliRequest::Exit(1)))
    );
    // A session that ends by itself leaves an earlier failure standing.
    let mut run = Interactive { phase: InteractivePhase::AwaitingTurn, exit_code: 1 };
    assert_eq!(
        run.step(CliInput::Waited(outcome(Some(0), true))),
        Some(silently(CliRequest::Exit(1)))
    );
    assert_eq!(run, Interactive { phase: InteractivePhase::Over, exit_code: 1 });
    let mut run = Interactive { phase: InteractivePhase::AwaitingTurn, exit_code: 0 };
    assert_eq!(
        run.step(CliInput::Waited(outcome(Some(0), true))),
        Some(silently(CliRequest::Exit(0)))
    );
}

#[test]
fn a_fatal_error_in_any_turn_makes_an_interactive_run_fail() {
    let mut events = vec![fatal(), complete(), ServerEvent::SessionEnded];
    let mut run = prompting();
    assert_eq!(run.step(CliInput::Text(s("a\n"))), Some(silently(send_message("a"))));
    assert_eq!(run.step(CliInput::Sent(true)), Some(silently(CliRequest::AwaitTurn)));
    let (first, taken) = wait(run_turn, events.clone());
    events.drain(..taken);
    assert_eq!(run.step(CliInput::Waited(first)), Some(silently(CliRequest::ReadLine)));
    assert_eq!(run.step(CliInput::Text(s("b\n"))), Some(silently(send_message("b"))));
    assert_eq!(run.step(CliInput::Sent(true)), Some(silently(CliRequest::AwaitTurn)));
    let (second, _) = wait(run_turn, events);
    assert_eq!(run.step(CliInput::Waited(second)), Some(silently(CliRequest::Exit(1))));
}

#[test]
fn an_interactive_run_ends_where_a_resume_fails() {
    let mut run = Interactive { phase: InteractivePhase::AwaitingConfig, exit_code: 0 };
    let (failed, taken) =
        wait(wait_for_session_config, vec![fatal(), ServerEvent::SessionEnded]);
    assert_eq!(taken, 2);
    assert_eq!(run.step(CliInput::Waited(failed)), Some(silently(CliRequest::Exit(1))));
}
