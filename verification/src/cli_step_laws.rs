//! What the command line does with everything it can hear, written out.

use crate::cli::{
    complaint, config_next, drain_next, interactive_move, line_meaning, message_command,
    prompt_move, reports, silent, single_turn_move, turn_next, CliInputView, CliRequestView,
    CliStepView, DrainNext, Interactive, InteractivePhase, NoticeView, PromptLineView, PumpNext,
    PumpOutcome, SingleTurnPhase,
};
use crate::command::ClientCommandView;
use crate::event::ServerEventView;
use crate::render::{event_channel, event_exit_code, event_text, Channel, EventReport};
use crate::text::{after_prefix, trimmed, trimmed_start};
use crate::text_laws::{
    blank, only_blank_text_trims_to_nothing, prefixes_come_off, tight, trimming_undoes_padding,
};
use vstd::prelude::*;
use vstd::utf8::encode_utf8;

verus! {

// ---- Waiting for events ----

/// While a turn runs, its end and the end of the session stop the wait, a closed receiver fails
/// it, a fatal error is remembered, and everything else leaves things as they are.
pub proof fn turns_wait_for_their_end(so_far: Option<u8>, event: ServerEventView)
    ensures
        turn_next(so_far, None) == PumpNext::Finished(
            PumpOutcome { exit_code: Some(1), session_ended: true },
        ),
        event is TurnComplete ==> turn_next(so_far, Some(event)) == PumpNext::Finished(
            PumpOutcome { exit_code: so_far, session_ended: false },
        ),
        event is SessionEnded && so_far is Some ==> turn_next(so_far, Some(event))
            == PumpNext::Finished(PumpOutcome { exit_code: so_far, session_ended: true }),
        event is SessionEnded && so_far is None ==> turn_next(so_far, Some(event))
            == PumpNext::Finished(PumpOutcome { exit_code: Some(0), session_ended: true }),
        event is Fatal ==> turn_next(so_far, Some(event)) == PumpNext::Continue(Some(1)),
        !(event is TurnComplete || event is SessionEnded || event is Fatal) ==> turn_next(
            so_far,
            Some(event),
        ) == PumpNext::Continue(so_far),
{
}

/// While a session is being resumed, its configuration and the end of the session stop the wait,
/// a closed receiver fails it, a fatal error is remembered, and everything else leaves things as
/// they are.
pub proof fn resumes_wait_for_their_configuration(so_far: Option<u8>, event: ServerEventView)
    ensures
        config_next(so_far, None) == PumpNext::Finished(
            PumpOutcome { exit_code: Some(1), session_ended: true },
        ),
        event is SessionConfigured ==> config_next(so_far, Some(event)) == PumpNext::Finished(
            PumpOutcome { exit_code: so_far, session_ended: false },
        ),
        event is SessionEnded && so_far is Some ==> config_next(so_far, Some(event))
            == PumpNext::Finished(PumpOutcome { exit_code: so_far, session_ended: true }),
        event is SessionEnded && so_far is None ==> config_next(so_far, Some(event))
            == PumpNext::Finished(PumpOutcome { exit_code: Some(0), session_ended: true }),
        event is Fatal ==> config_next(so_far, Some(event)) == PumpNext::Continue(Some(1)),
        !(event is SessionConfigured || event is SessionEnded || event is Fatal) ==> config_next(
            so_far,
            Some(event),
        ) == PumpNext::Continue(so_far),
{
}

/// While a session runs out, its end and a closed receiver stop the draining with the code so
/// far, a fatal error makes that the code of failure, and everything else leaves it.
pub proof fn draining_waits_for_the_end(so_far: u8, event: ServerEventView)
    ensures
        drain_next(so_far, None) == DrainNext::Finished(so_far),
        event is SessionEnded ==> drain_next(so_far, Some(event)) == DrainNext::Finished(so_far),
        event is Fatal ==> drain_next(so_far, Some(event)) == DrainNext::Continue(1),
        !(event is SessionEnded || event is Fatal) ==> drain_next(so_far, Some(event))
            == DrainNext::Continue(so_far),
{
}

/// A report of an event holds where it goes, its whole text and the code it calls for, and there
/// is one if and only if an event came.
pub proof fn reports_hold_the_event(report: EventReport, event: ServerEventView)
    ensures
        reports(Some(report), Some(event)) <==> report.channel == event_channel(event)
            && report.text@ == event_text(event) && report.exit_code == event_exit_code(event),
        !reports(None, Some(event)),
        reports(None, None),
        !reports(Some(report), None),
{
}

// ---- Lines ----

/// A line of white space is blank, and no other line is.
pub proof fn only_blank_lines_are_blank(line: Seq<char>)
    ensures
        line_meaning(line) is Blank <==> blank(line),
{
    only_blank_text_trims_to_nothing(line);
}

/// What does not begin with a colon is a message, word for word, without the white space around
/// it.
pub proof fn plain_lines_are_messages(left: Seq<char>, core: Seq<char>, right: Seq<char>)
    requires
        blank(left) && blank(right),
        tight(core) && core.len() > 0,
        core[0] != ':',
    ensures
        line_meaning(left + core + right) == PromptLineView::Message(core),
{
    trimming_undoes_padding(left, core, right);
    reveal_strlit(":");
    if ":"@.is_prefix_of(core) {
        assert(":"@[0] == core.subrange(0, 1)[0]);
    }
    assert(after_prefix(core, ":"@) is None);
}

proof fn lemma_command_line(left: Seq<char>, gap: Seq<char>, body: Seq<char>, right: Seq<char>)
    requires
        blank(left) && blank(gap) && blank(right),
        tight(body) && body.len() > 0,
    ensures
        ({
            let prompt = seq![':'] + gap + body;
            let rest = gap + body;
            &&& trimmed(left + prompt + right) == prompt
            &&& after_prefix(prompt, ":"@) == Some(rest)
            &&& trimmed_start(rest) == body
            &&& trimmed(body) == body
        }),
{
    let prompt = seq![':'] + gap + body;
    let rest = gap + body;
    let none = Seq::<char>::empty();
    assert(prompt[prompt.len() - 1] == body[body.len() - 1]);
    assert(tight(prompt));
    trimming_undoes_padding(left, prompt, right);
    reveal_strlit(":");
    assert(":"@ =~= seq![':']);
    assert(prompt =~= ":"@ + rest);
    prefixes_come_off(":"@, rest, prompt);
    trimming_undoes_padding(gap, body, none);
    assert(gap + body + none =~= rest);
    assert(body + none =~= body);
    trimming_undoes_padding(none, body, none);
    assert(none + body + none =~= body);
}

/// The line that asks to resume holds the path behind the word, whatever the white space between
/// and around them.
pub proof fn resume_lines_hold_the_path(
    left: Seq<char>,
    gap: Seq<char>,
    space: Seq<char>,
    path: Seq<char>,
    right: Seq<char>,
)
    requires
        blank(left) && blank(gap) && blank(space) && blank(right),
        tight(path) && path.len() > 0,
    ensures
        line_meaning(left + (seq![':'] + gap + ("resume"@ + space + path)) + right)
            == PromptLineView::Resume(path),
{
    let body = "resume"@ + space + path;
    let none = Seq::<char>::empty();
    reveal_strlit("resume");
    assert(body[0] == 'r');
    assert(body[body.len() - 1] == path[path.len() - 1]);
    lemma_command_line(left, gap, body, right);
    assert(body =~= "resume"@ + (space + path));
    prefixes_come_off("resume"@, space + path, body);
    trimming_undoes_padding(space, path, none);
    assert(space + path + none =~= space + path);
}

/// The line that asks to resume without a path is taken as such.
pub proof fn resume_lines_without_a_path(left: Seq<char>, gap: Seq<char>, right: Seq<char>)
    requires
        blank(left) && blank(gap) && blank(right),
    ensures
        line_meaning(left + (seq![':'] + gap + "resume"@) + right)
            == PromptLineView::ResumeWithoutPath,
{
    let body = "resume"@;
    let none = Seq::<char>::empty();
    reveal_strlit("resume");
    assert(body[0] == 'r');
    lemma_command_line(left, gap, body, right);
    assert(body =~= "resume"@ + none);
    prefixes_come_off("resume"@, none, body);
    only_blank_text_trims_to_nothing(none);
}

/// The line that asks to leave is taken as such.
pub proof fn quit_lines_leave(left: Seq<char>, gap: Seq<char>, right: Seq<char>)
    requires
        blank(left) && blank(gap) && blank(right),
    ensures
        line_meaning(left + (seq![':'] + gap + "quit"@) + right) == PromptLineView::Quit,
{
    let body = "quit"@;
    reveal_strlit("quit");
    reveal_strlit("resume");
    assert(body[0] == 'q');
    lemma_command_line(left, gap, body, right);
    assert(after_prefix(body, "resume"@) is None);
}

/// Every other command is unknown, and is shown as it was typed.
pub proof fn other_commands_are_unknown(
    left: Seq<char>,
    gap: Seq<char>,
    body: Seq<char>,
    right: Seq<char>,
)
    requires
        blank(left) && blank(gap) && blank(right),
        tight(body) && body.len() > 0,
        body != "quit"@,
        forall|tail: Seq<char>| body != #[trigger] ("resume"@ + tail),
    ensures
        line_meaning(left + (seq![':'] + gap + body) + right) == PromptLineView::Unknown(
            seq![':'] + gap + body,
        ),
        line_meaning(left + seq![':'] + right) == PromptLineView::Unknown(seq![':']),
{
    lemma_command_line(left, gap, body, right);
    if let Some(tail) = after_prefix(body, "resume"@) {
        prefixes_come_off("resume"@, tail, body);
    }
    let colon = seq![':'];
    let none = Seq::<char>::empty();
    assert(tight(colon));
    trimming_undoes_padding(left, colon, right);
    reveal_strlit(":");
    reveal_strlit("resume");
    reveal_strlit("quit");
    assert(":"@ =~= colon);
    assert(colon =~= ":"@ + none);
    prefixes_come_off(":"@, none, colon);
    assert(trimmed_start(none) == none);
    assert(after_prefix(none, "resume"@) is None);
    only_blank_text_trims_to_nothing(none);
}

// ---- Steps ----

/// A silent step says nothing, a complaint says its text as an error, and both do what they are
/// given to do; a message is sent as it is, without images.
pub proof fn steps_say_and_do_what_they_are_given(text: Seq<char>, request: CliRequestView)
    ensures
        silent(request) == (CliStepView { notice: None, request }),
        complaint(text, request) == (CliStepView {
            notice: Some(NoticeView { channel: Channel::Stderr, text }),
            request,
        }),
        message_command(text) == (ClientCommandView::SubmitUserMessage {
            text,
            images: Seq::<Seq<u8>>::empty(),
        }),
{
}

// ---- Single turns ----

/// A prompt that is not blank is sent whole, without the white space around it and without
/// images, and nothing is said.
pub proof fn prompts_are_sent_whole(left: Seq<char>, core: Seq<char>, right: Seq<char>)
    requires
        blank(left) && blank(right),
        tight(core) && core.len() > 0,
    ensures
        prompt_move(left + core + right) == (
            SingleTurnPhase::Sending,
            CliStepView {
                notice: None,
                request: CliRequestView::Send(
                    ClientCommandView::SubmitUserMessage {
                        text: core,
                        images: Seq::<Seq<u8>>::empty(),
                    },
                ),
            },
        ),
{
    trimming_undoes_padding(left, core, right);
}

/// A blank prompt is not sent: the run fails and says why.
pub proof fn blank_prompts_are_refused(prompt: Seq<char>)
    requires
        blank(prompt),
    ensures
        prompt_move(prompt) == (
            SingleTurnPhase::Over,
            CliStepView {
                notice: Some(
                    NoticeView {
                        channel: Channel::Stderr,
                        text: "prompt is empty; supply --prompt or stdin input"@,
                    },
                ),
                request: CliRequestView::Abandon(1),
            },
        ),
{
    only_blank_text_trims_to_nothing(prompt);
}

/// A prompt that was read is treated like one that was given; one that could not be read fails
/// the run, as does one that could not be sent; one that was sent is followed by the shutdown,
/// and the run exits with the code of the drained session. Nothing else is listened to.
pub proof fn single_turns_take_their_course(
    phase: SingleTurnPhase,
    input: CliInputView,
    prompt: Seq<char>,
    code: u8,
)
    ensures
        single_turn_move(SingleTurnPhase::Reading, CliInputView::Text(prompt)) == Some(
            prompt_move(prompt),
        ),
        single_turn_move(SingleTurnPhase::Reading, CliInputView::Unreadable) == Some(
            (
                SingleTurnPhase::Over,
                CliStepView {
                    notice: Some(
                        NoticeView {
                            channel: Channel::Stderr,
                            text: "failed to read prompt from stdin"@,
                        },
                    ),
                    request: CliRequestView::Abandon(1),
                },
            ),
        ),
        single_turn_move(SingleTurnPhase::Sending, CliInputView::Sent(true)) == Some(
            (
                SingleTurnPhase::Draining,
                CliStepView {
                    notice: None,
                    request: CliRequestView::ShutDownAndDrain(ClientCommandView::Shutdown),
                },
            ),
        ),
        single_turn_move(SingleTurnPhase::Sending, CliInputView::Sent(false)) == Some(
            (
                SingleTurnPhase::Over,
                CliStepView {
                    notice: Some(
                        NoticeView {
                            channel: Channel::Stderr,
                            text: "failed to send prompt to Codex"@,
                        },
                    ),
                    request: CliRequestView::Abandon(1),
                },
            ),
        ),
        single_turn_move(SingleTurnPhase::Draining, CliInputView::Drained(code)) == Some(
            (
                SingleTurnPhase::Over,
                CliStepView { notice: None, request: CliRequestView::Exit(code) },
            ),
        ),
        single_turn_move(phase, input) is Some <==> (phase is Reading && (input is Text
            || input is Unreadable)) || (phase is Sending && input is Sent) || (phase is Draining
            && input is Drained),
{
}

// ---- Interactive runs ----

/// Tells whether an interactive run, hearing this, goes to that phase with that exit code, says
/// this and does that.
pub open spec fn goes_on(
    s: Interactive,
    input: CliInputView,
    phase: InteractivePhase,
    exit_code: u8,
    notice: Option<NoticeView>,
    request: CliRequestView,
) -> bool {
    interactive_move(s, input) == Some(
        (Interactive { phase, exit_code }, CliStepView { notice, request }),
    )
}

/// A message typed by the user is sent whole, without the white space around it and without
/// images.
pub proof fn typed_messages_are_sent_whole(
    s: Interactive,
    left: Seq<char>,
    core: Seq<char>,
    right: Seq<char>,
)
    requires
        s.phase is Prompting,
        blank(left) && blank(right),
        tight(core) && core.len() > 0,
        core[0] != ':',
    ensures
        goes_on(
            s,
            CliInputView::Text(left + core + right),
            InteractivePhase::SendingMessage,
            s.exit_code,
            None,
            CliRequestView::Send(
                ClientCommandView::SubmitUserMessage {
                    text: core,
                    images: Seq::<Seq<u8>>::empty(),
                },
            ),
        ),
{
    plain_lines_are_messages(left, core, right);
}

/// A path typed behind the resume command is asked for as it was typed.
pub proof fn typed_paths_are_resumed(
    s: Interactive,
    left: Seq<char>,
    gap: Seq<char>,
    space: Seq<char>,
    path: Seq<char>,
    right: Seq<char>,
)
    requires
        s.phase is Prompting,
        blank(left) && blank(gap) && blank(space) && blank(right),
        tight(path) && path.len() > 0,
    ensures
        goes_on(
            s,
            CliInputView::Text(left + (seq![':'] + gap + ("resume"@ + space + path)) + right),
            InteractivePhase::SendingResume,
            s.exit_code,
            None,
            CliRequestView::Send(ClientCommandView::Resume { rollout_path: encode_utf8(path) }),
        ),
{
    resume_lines_hold_the_path(left, gap, space, path, right);
}

/// A line does what it means: a blank one nothing, a wrong one a complaint with the line in it,
/// a message or a path is sent, and the wish to leave shuts the session down.
pub proof fn lines_do_what_they_mean(s: Interactive, line: Seq<char>, said: Seq<char>)
    requires
        s.phase is Prompting,
    ensures
        line_meaning(line) is Blank ==> goes_on(
            s,
            CliInputView::Text(line),
            InteractivePhase::Prompting,
            s.exit_code,
            None,
            CliRequestView::ReadLine,
        ),
        line_meaning(line) is ResumeWithoutPath ==> goes_on(
            s,
            CliInputView::Text(line),
            InteractivePhase::Prompting,
            s.exit_code,
            Some(
                NoticeView { channel: Channel::Stderr, text: "usage: :resume <rollout-path>"@ },
            ),
            CliRequestView::ReadLine,
        ),
        line_meaning(line) == PromptLineView::Unknown(said) ==> goes_on(
            s,
            CliInputView::Text(line),
            InteractivePhase::Prompting,
            s.exit_code,
            Some(NoticeView { channel: Channel::Stderr, text: "unknown command: "@ + said }),
            CliRequestView::ReadLine,
        ),
        line_meaning(line) == PromptLineView::Message(said) ==> goes_on(
            s,
            CliInputView::Text(line),
            InteractivePhase::SendingMessage,
            s.exit_code,
            None,
            CliRequestView::Send(
                ClientCommandView::SubmitUserMessage {
                    text: said,
                    images: Seq::<Seq<u8>>::empty(),
                },
            ),
        ),
        line_meaning(line) == PromptLineView::Resume(said) ==> goes_on(
            s,
            CliInputView::Text(line),
            InteractivePhase::SendingResume,
            s.exit_code,
            None,
            CliRequestView::Send(ClientCommandView::Resume { rollout_path: encode_utf8(said) }),
        ),
        line_meaning(line) is Quit ==> goes_on(
            s,
            CliInputView::Text(line),
            InteractivePhase::Draining,
            s.exit_code,
            None,
            CliRequestView::ShutDownAndDrain(ClientCommandView::Shutdown),
        ),
        goes_on(
            s,
            CliInputView::EndOfInput,
            InteractivePhase::Draining,
            s.exit_code,
            None,
            CliRequestView::ShutDownAndDrain(ClientCommandView::Shutdown),
        ),
{
}

/// A command that was taken is waited for; one that was not fails the run, which says which one
/// it was.
pub proof fn sent_commands_are_waited_for(exit_code: u8)
    ensures
        ({
            let resume = Interactive { phase: InteractivePhase::SendingResume, exit_code };
            let message = Interactive { phase: InteractivePhase::SendingMessage, exit_code };
            &&& goes_on(
                resume,
                CliInputView::Sent(true),
                InteractivePhase::AwaitingConfig,
                exit_code,
                None,
                CliRequestView::AwaitSessionConfig,
            )
            &&& goes_on(
                message,
                CliInputView::Sent(true),
                InteractivePhase::AwaitingTurn,
                exit_code,
                None,
                CliRequestView::AwaitTurn,
            )
            &&& goes_on(
                resume,
                CliInputView::Sent(false),
                InteractivePhase::Over,
                1,
                Some(
                    NoticeView { channel: Channel::Stderr, text: "failed to send resume command"@ },
                ),
                CliRequestView::Exit(1),
            )
            &&& goes_on(
                message,
                CliInputView::Sent(false),
                InteractivePhase::Over,
                1,
                Some(NoticeView { channel: Channel::Stderr, text: "failed to send prompt"@ }),
                CliRequestView::Exit(1),
            )
        }),
{
}

/// After a wait the next line is read, or the run exits where the session is over; a failure
/// replaces the exit code, and nothing else does.
pub proof fn waits_and_drains_go_into_the_exit_code(
    s: Interactive,
    called_for: Option<u8>,
    code: u8,
)
    requires
        called_for matches Some(c) ==> c == code,
    ensures
        ({
            let kept = if code != 0 {
                code
            } else {
                s.exit_code
            };
            let after = if called_for is Some {
                kept
            } else {
                s.exit_code
            };
            &&& s.phase is AwaitingTurn || s.phase is AwaitingConfig ==> goes_on(
                s,
                CliInputView::Waited(PumpOutcome { exit_code: called_for, session_ended: false }),
                InteractivePhase::Prompting,
                after,
                None,
                CliRequestView::ReadLine,
            ) && goes_on(
                s,
                CliInputView::Waited(PumpOutcome { exit_code: called_for, session_ended: true }),
                InteractivePhase::Over,
                after,
                None,
                CliRequestView::Exit(after),
            )
            &&& s.phase is Draining ==> goes_on(
                s,
                CliInputView::Drained(code),
                InteractivePhase::Over,
                kept,
                None,
                CliRequestView::Exit(kept),
            )
        }),
{
}

} // verus!
