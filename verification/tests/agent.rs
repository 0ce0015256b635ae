use codex_driver::agent::{
    approval_op, forward_user_input, AgentEffect, AgentInput, AgentLoop, AgentPhase, AgentRequest,
    AgentStep, JoinOutcome,
};
use codex_driver::changes::{FileChange, FileChanges};
use codex_driver::command::{ApprovalKind, ClientCommand};
use codex_driver::event::{ApprovalRequest, PlanStepStatus, ServerEvent};
use codex_driver::path::FilePath;
use codex_driver::protocol::{
    CallDuration, CallToolResult, EventMsg, ExecOutputStream, InputItem, McpInvocation, Op,
    PlanItemArg, ReviewDecision, SessionConfiguredEvent, StepStatus, UpdatePlanArgs,
};
use codex_driver::stream::{run_event_stream, AgentEvent};
use std::collections::VecDeque;

/// A session around a conversation that takes every operation and yields what the test emits.
struct Session {
    agent: AgentLoop,
    events: VecDeque<ServerEvent>,
    submitted: Vec<Op>,
    shutting_down: bool,
    streams: usize,
    stream_done: bool,
    joining: bool,
    stopped: bool,
}

impl Session {
    fn start(configured: SessionConfiguredEvent) -> Session {
        let mut session = Session {
            agent: AgentLoop::new(),
            events: VecDeque::new(),
            submitted: Vec::new(),
            shutting_down: false,
            streams: 0,
            stream_done: false,
            joining: false,
            stopped: false,
        };
        session.feed(AgentInput::Bootstrapped(configured));
        session
    }

    fn feed(&mut self, input: AgentInput) {
        let step = self.agent.step(input).expect("an answer to the last request");
        for effect in step.effects {
            match effect {
                AgentEffect::Emit(event) => self.events.push_back(event),
                AgentEffect::RaiseShutdown => self.shutting_down = true,
                AgentEffect::SpawnStream => self.streams += 1,
                AgentEffect::AbortStream | AgentEffect::AdoptConversation => {}
            }
        }
        match step.request {
            AgentRequest::NextCommand => {}
            AgentRequest::Submit(op) => {
                self.submitted.push(op);
                self.feed(AgentInput::Submitted);
            }
            AgentRequest::Resume(_) => panic!("nothing is resumed"),
            AgentRequest::JoinStream => {
                if self.stream_done {
                    self.feed(AgentInput::StreamJoined(JoinOutcome::Finished));
                } else {
                    self.joining = true;
                }
            }
            AgentRequest::Stop => self.stopped = true,
        }
    }

    fn send(&mut self, command: ClientCommand) {
        self.feed(AgentInput::Command(command));
    }

    fn emit(&mut self, msg: EventMsg) {
        self.emit_with_id("mock", msg);
    }

    fn emit_with_id(&mut self, id: &str, msg: EventMsg) {
        let step = run_event_stream(Ok(AgentEvent { id: id.to_string(), msg }), self.shutting_down);
        self.events.extend(step.events);
        assert!(!step.raise_shutdown);
        assert!(!step.done);
    }

    fn close(&mut self) {
        let step = run_event_stream(Err("agent died".to_string()), self.shutting_down);
        self.events.extend(step.events);
        assert!(step.done);
        self.shutting_down = self.shutting_down || step.raise_shutdown;
        self.stream_done = true;
        if self.joining {
            self.feed(AgentInput::StreamJoined(JoinOutcome::Finished));
        }
    }

    fn recv(&mut self) -> Option<ServerEvent> {
        self.events.pop_front()
    }
}

fn configured_event(model: &str) -> SessionConfiguredEvent {
    SessionConfiguredEvent {
        session_id: "67e55044-10b1-426f-9247-bb680e5fe0c8".to_string(),
        model: model.to_string(),
        rollout_path: FilePath::from_text(""),
    }
}

fn message(text: &str) -> ClientCommand {
    ClientCommand::SubmitUserMessage { text: text.to_string(), images: Vec::new() }
}

fn at(phase: AgentPhase) -> AgentLoop {
    AgentLoop { phase }
}

fn fatal(text: &str) -> AgentEffect {
    AgentEffect::Emit(ServerEvent::Fatal { message: text.to_string() })
}

fn ended() -> AgentEffect {
    AgentEffect::Emit(ServerEvent::SessionEnded)
}

#[test]
fn agent_loop_streams_events_from_mock_conversation() {
    let mut session = Session::start(configured_event("mock-model"));

    // SessionConfigured should be forwarded immediately.
    let configured = session.recv().expect("session configured event");
    assert!(matches!(
        configured,
        ServerEvent::SessionConfigured {
            ref model,
            ..
        } if model == "mock-model"
    ));

    session.send(ClientCommand::SubmitUserMessage {
        text: "hello".to_string(),
        images: Vec::new(),
    });

    session.emit(EventMsg::AgentMessageDelta { delta: "hello".to_string() });
    session.emit(EventMsg::AgentMessage { message: "hello".to_string() });

    let delta_evt = session.recv().expect("delta event");
    assert!(matches!(delta_evt, ServerEvent::AgentMessageDelta(ref msg) if msg == "hello"));

    let final_evt = session.recv().expect("final event");
    assert!(matches!(final_evt, ServerEvent::AgentMessageFinal(ref msg) if msg == "hello"));

    session.emit(EventMsg::ExecCommandOutputDelta {
        call_id: "exec-call".to_string(),
        stream: ExecOutputStream::Stdout,
        chunk: b"chunk".to_vec(),
    });
    let chunk_evt = session.recv().expect("exec chunk event");
    assert!(matches!(
        chunk_evt,
        ServerEvent::ExecOutputChunk {
            ref call_id,
            stream: ExecOutputStream::Stdout,
            ref text,
        } if call_id == "exec-call" && text == "chunk"
    ));

    session.emit(EventMsg::AgentReasoningSectionBreak);
    let break_evt = session.recv().expect("reasoning break");
    assert!(matches!(break_evt, ServerEvent::ReasoningSectionBreak));

    session.emit(EventMsg::PlanUpdate(UpdatePlanArgs {
        explanation: Some("focus".to_string()),
        plan: vec![PlanItemArg {
            step: "step one".to_string(),
            status: StepStatus::InProgress,
        }],
    }));
    let plan_evt = session.recv().expect("plan update");
    match plan_evt {
        ServerEvent::PlanUpdate(update) => {
            assert_eq!(update.explanation.as_deref(), Some("focus"));
            assert_eq!(update.steps.len(), 1);
            assert_eq!(update.steps[0].step, "step one");
            assert!(matches!(update.steps[0].status, PlanStepStatus::InProgress));
        }
        other => panic!("unexpected plan event {other:?}"),
    }

    session.emit(EventMsg::ModelStreamClosed { had_completion: true });
    let stream_closed_evt = session.recv().expect("stream closed event");
    assert!(matches!(
        stream_closed_evt,
        ServerEvent::StreamClosed {
            had_completion: true
        }
    ));

    let invocation = McpInvocation {
        server: "server".to_string(),
        tool: "tool".to_string(),
    };
    session.emit(EventMsg::McpToolCallBegin {
        call_id: "mcp-1".to_string(),
        invocation: invocation.clone(),
    });
    let mcp_begin = session.recv().expect("mcp begin");
    assert!(matches!(
        mcp_begin,
        ServerEvent::McpToolCallBegin {
            ref call_id,
            ref server,
            ref tool,
        } if call_id == "mcp-1" && server == "server" && tool == "tool"
    ));

    session.emit(EventMsg::McpToolCallEnd {
        call_id: "mcp-1".to_string(),
        invocation,
        duration: CallDuration::from_millis(5),
        result: Ok(CallToolResult {
            content: Vec::new(),
            is_error: None,
            structured_content: None,
        }),
    });
    let mcp_end = session.recv().expect("mcp end");
    assert!(matches!(
        mcp_end,
        ServerEvent::McpToolCallEnd {
            ref call_id,
            ref server,
            ref tool,
            duration,
            result: Ok(_),
        } if call_id == "mcp-1"
            && server == "server"
            && tool == "tool"
            && duration == CallDuration::from_millis(5)
    ));

    session.emit_with_id(
        "exec-1",
        EventMsg::ExecApprovalRequest {
            call_id: "exec-call".to_string(),
            command: vec!["rm".to_string(), "-rf".to_string(), ".".to_string()],
            cwd: FilePath::from_text("/tmp"),
            reason: Some("danger".to_string()),
        },
    );

    let approval_evt = session.recv().expect("approval event");
    match approval_evt {
        ServerEvent::ApprovalRequest { id, request } => {
            assert_eq!(id, "exec-1");
            match request {
                ApprovalRequest::Exec {
                    call_id,
                    command,
                    cwd,
                    reason,
                } => {
                    assert_eq!(call_id, "exec-call");
                    assert_eq!(command, vec!["rm", "-rf", "."]);
                    assert_eq!(cwd, FilePath::from_text("/tmp"));
                    assert_eq!(reason.as_deref(), Some("danger"));
                }
                _ => panic!("expected exec approval"),
            }
        }
        other => panic!("unexpected event {other:?}"),
    }

    session.send(ClientCommand::RespondApproval {
        id: "exec-1".to_string(),
        kind: ApprovalKind::Exec,
        decision: ReviewDecision::Approved,
    });

    let mut changes = FileChanges::new();
    changes.insert(
        FilePath::from_text("foo.txt"),
        FileChange::Add {
            content: "hello".to_string(),
        },
    );
    session.emit_with_id(
        "patch-1",
        EventMsg::ApplyPatchApprovalRequest {
            call_id: "patch-call".to_string(),
            changes: changes.clone(),
            reason: None,
            grant_root: Some(FilePath::from_text("/workspace")),
        },
    );

    let patch_evt = session.recv().expect("patch approval event");
    match patch_evt {
        ServerEvent::ApprovalRequest { id, request } => {
            assert_eq!(id, "patch-1");
            match request {
                ApprovalRequest::Patch {
                    call_id,
                    changes: ref change_map,
                    reason,
                    grant_root,
                } => {
                    assert_eq!(call_id, "patch-call");
                    assert_eq!(change_map, &changes);
                    assert!(reason.is_none());
                    assert_eq!(grant_root, Some(FilePath::from_text("/workspace")));
                }
                _ => panic!("expected patch approval"),
            }
        }
        other => panic!("unexpected event {other:?}"),
    }

    session.send(ClientCommand::RespondApproval {
        id: "patch-1".to_string(),
        kind: ApprovalKind::Patch,
        decision: ReviewDecision::Denied,
    });

    session.send(ClientCommand::Shutdown);
    session.emit(EventMsg::ShutdownComplete);
    session.close();

    let shutdown_evt = session.recv().expect("shutdown complete");
    assert!(matches!(shutdown_evt, ServerEvent::ShutdownComplete));

    let ended_evt = session.recv().expect("session ended");
    assert!(matches!(ended_evt, ServerEvent::SessionEnded));

    assert!(session.stopped);
    assert!(session.recv().is_none());
    assert_eq!(session.streams, 1);

    assert!(matches!(
        session.submitted.as_slice(),
        [
            Op::UserInput { .. },
            Op::ExecApproval { .. },
            Op::PatchApproval { .. },
            Op::Shutdown
        ]
    ));
}

#[test]
fn user_input_holds_the_text_and_then_the_images() {
    assert_eq!(
        forward_user_input(
            "look".to_string(),
            vec![FilePath::from_text("a.png"), FilePath::from_text("b.png")],
        ),
        Some(Op::UserInput {
            items: vec![
                InputItem::Text { text: "look".to_string() },
                InputItem::LocalImage { path: FilePath::from_text("a.png") },
                InputItem::LocalImage { path: FilePath::from_text("b.png") },
            ],
        })
    );
}

#[test]
fn user_input_leaves_out_an_empty_text() {
    assert_eq!(
        forward_user_input(String::new(), vec![FilePath::from_text("a.png")]),
        Some(Op::UserInput {
            items: vec![InputItem::LocalImage { path: FilePath::from_text("a.png") }],
        })
    );
    assert_eq!(forward_user_input(String::new(), Vec::new()), None);
    assert_eq!(
        forward_user_input(" ".to_string(), Vec::new()),
        Some(Op::UserInput { items: vec![InputItem::Text { text: " ".to_string() }] })
    );
}

#[test]
fn an_empty_message_is_passed_over() {
    let mut agent = at(AgentPhase::Idle);
    assert_eq!(
        agent.step(AgentInput::Command(message(""))),
        Some(AgentStep { effects: Vec::new(), request: AgentRequest::NextCommand })
    );
    assert_eq!(agent.phase, AgentPhase::Idle);
}

#[test]
fn approvals_go_to_the_subsystem_that_asked() {
    assert_eq!(
        approval_op("7".to_string(), ApprovalKind::Exec, ReviewDecision::ApprovedForSession),
        Op::ExecApproval { id: "7".to_string(), decision: ReviewDecision::ApprovedForSession }
    );
    assert_eq!(
        approval_op("8".to_string(), ApprovalKind::Patch, ReviewDecision::Abort),
        Op::PatchApproval { id: "8".to_string(), decision: ReviewDecision::Abort }
    );
}

#[test]
fn a_failed_start_is_fatal_and_ends_the_session() {
    let mut agent = AgentLoop::new();
    assert_eq!(
        agent.step(AgentInput::BootstrapFailed("no key".to_string())),
        Some(AgentStep {
            effects: vec![fatal("no key"), ended(), AgentEffect::RaiseShutdown],
            request: AgentRequest::Stop,
        })
    );
    assert_eq!(agent.phase, AgentPhase::Stopped);
    assert_eq!(agent.step(AgentInput::Command(ClientCommand::Interrupt)), None);
    assert_eq!(agent.phase, AgentPhase::Stopped);
}

#[test]
fn commands_wait_for_the_conversation() {
    let mut agent = AgentLoop::new();
    assert_eq!(agent.step(AgentInput::Command(message("early"))), None);
    assert_eq!(agent.phase, AgentPhase::Bootstrapping);
}

#[test]
fn an_interrupt_is_submitted() {
    let mut agent = at(AgentPhase::Idle);
    assert_eq!(
        agent.step(AgentInput::Command(ClientCommand::Interrupt)),
        Some(AgentStep { effects: Vec::new(), request: AgentRequest::Submit(Op::Interrupt) })
    );
    assert_eq!(
        agent.step(AgentInput::Submitted),
        Some(AgentStep { effects: Vec::new(), request: AgentRequest::NextCommand })
    );
}

#[test]
fn a_refused_operation_closes_the_session() {
    let mut agent = at(AgentPhase::Submitting);
    assert_eq!(
        agent.step(AgentInput::SubmitFailed("gone".to_string())),
        Some(AgentStep {
            effects: vec![fatal("gone"), AgentEffect::RaiseShutdown],
            request: AgentRequest::Submit(Op::Shutdown),
        })
    );
    // The second failure is not reported.
    assert_eq!(
        agent.step(AgentInput::SubmitFailed("still gone".to_string())),
        Some(AgentStep { effects: Vec::new(), request: AgentRequest::JoinStream })
    );
    assert_eq!(
        agent.step(AgentInput::StreamJoined(JoinOutcome::Finished)),
        Some(AgentStep { effects: Vec::new(), request: AgentRequest::Stop })
    );
    assert_eq!(agent.phase, AgentPhase::Stopped);
}

#[test]
fn a_refused_shutdown_is_reported() {
    let mut agent = at(AgentPhase::Idle);
    assert_eq!(
        agent.step(AgentInput::Command(ClientCommand::Shutdown)),
        Some(AgentStep {
            effects: vec![AgentEffect::RaiseShutdown],
            request: AgentRequest::Submit(Op::Shutdown),
        })
    );
    assert_eq!(
        agent.step(AgentInput::SubmitFailed("gone".to_string())),
        Some(AgentStep { effects: vec![fatal("gone")], request: AgentRequest::JoinStream })
    );
}

#[test]
fn a_client_that_leaves_shuts_the_session_down() {
    let mut agent = at(AgentPhase::Idle);
    assert_eq!(
        agent.step(AgentInput::CommandsClosed),
        Some(AgentStep {
            effects: vec![AgentEffect::RaiseShutdown],
            request: AgentRequest::Submit(Op::Shutdown),
        })
    );
    assert_eq!(
        agent.step(AgentInput::SubmitFailed("gone".to_string())),
        Some(AgentStep { effects: Vec::new(), request: AgentRequest::JoinStream })
    );
}

#[test]
fn a_broken_stream_is_fatal_and_ends_the_session() {
    let mut agent = at(AgentPhase::Draining);
    assert_eq!(
        agent.step(AgentInput::StreamJoined(JoinOutcome::Failed("panicked".to_string()))),
        Some(AgentStep { effects: vec![fatal("panicked"), ended()], request: AgentRequest::Stop })
    );
    let mut agent = at(AgentPhase::Draining);
    assert_eq!(
        agent.step(AgentInput::StreamJoined(JoinOutcome::Cancelled)),
        Some(AgentStep { effects: vec![ended()], request: AgentRequest::Stop })
    );
}

#[test]
fn a_resume_replaces_the_conversation() {
    let mut agent = at(AgentPhase::Idle);
    let path = FilePath::from_text("/r/old.jsonl");
    assert_eq!(
        agent.step(AgentInput::Command(ClientCommand::Resume { rollout_path: path.clone() })),
        Some(AgentStep { effects: Vec::new(), request: AgentRequest::Resume(path) })
    );
    assert_eq!(
        agent.step(AgentInput::Resumed(configured_event("old-model"))),
        Some(AgentStep {
            effects: vec![AgentEffect::AbortStream],
            request: AgentRequest::JoinStream,
        })
    );
    assert_eq!(
        agent.step(AgentInput::StreamJoined(JoinOutcome::Cancelled)),
        Some(AgentStep {
            effects: vec![
                AgentEffect::AdoptConversation,
                AgentEffect::Emit(ServerEvent::SessionConfigured {
                    model: "old-model".to_string(),
                    conversation_id: "67e55044-10b1-426f-9247-bb680e5fe0c8".to_string(),
                    rollout_path: FilePath::from_text(""),
                }),
                AgentEffect::SpawnStream,
            ],
            request: AgentRequest::NextCommand,
        })
    );
    assert_eq!(agent.phase, AgentPhase::Idle);
}

#[test]
fn a_failed_resume_ends_the_session() {
    let mut agent = at(AgentPhase::Resuming);
    assert_eq!(
        agent.step(AgentInput::ResumeFailed("no such rollout".to_string())),
        Some(AgentStep {
            effects: vec![fatal("no such rollout"), AgentEffect::RaiseShutdown],
            request: AgentRequest::Submit(Op::Shutdown),
        })
    );
    assert_eq!(agent.step(AgentInput::Command(message("more"))), None);
    assert_eq!(
        agent.step(AgentInput::Submitted),
        Some(AgentStep { effects: Vec::new(), request: AgentRequest::JoinStream })
    );
    // The event stream, which runs out now, announces the end.
    let stream = run_event_stream(Err("agent died".to_string()), true);
    assert_eq!(stream.events, vec![ServerEvent::SessionEnded]);
    assert_eq!(
        agent.step(AgentInput::StreamJoined(JoinOutcome::Finished)),
        Some(AgentStep { effects: Vec::new(), request: AgentRequest::Stop })
    );
}

#[test]
fn a_stream_that_breaks_during_a_resume_ends_the_session() {
    let mut agent = at(AgentPhase::Replacing(configured_event("old-model")));
    assert_eq!(
        agent.step(AgentInput::StreamJoined(JoinOutcome::Failed("panicked".to_string()))),
        Some(AgentStep {
            effects: vec![fatal("panicked"), ended(), AgentEffect::RaiseShutdown],
            request: AgentRequest::Stop,
        })
    );
    assert_eq!(agent.phase, AgentPhase::Stopped);
}

#[test]
fn a_stream_reports_its_error_unless_the_session_is_closing() {
    let step = run_event_stream(Err("lost".to_string()), false);
    assert_eq!(
        step.events,
        vec![ServerEvent::Fatal { message: "lost".to_string() }, ServerEvent::SessionEnded]
    );
    assert!(step.done);
    let step = run_event_stream(Err("lost".to_string()), true);
    assert_eq!(step.events, vec![ServerEvent::SessionEnded]);
    assert!(step.raise_shutdown);
    assert!(step.done);
}

#[test]
fn a_stream_passes_over_what_is_not_surfaced() {
    let step = run_event_stream(
        Ok(AgentEvent { id: "1".to_string(), msg: EventMsg::Other }),
        false,
    );
    assert_eq!(step.events, Vec::new());
    assert!(!step.done);
}

#[test]
fn commands_reach_the_conversation_in_order() {
    let mut session = Session::start(configured_event("mock-model"));
    session.send(message("one"));
    session.send(ClientCommand::Interrupt);
    session.send(message(""));
    session.send(message("two"));
    session.close();
    session.feed(AgentInput::CommandsClosed);
    let text = |t: &str| Op::UserInput { items: vec![InputItem::Text { text: t.to_string() }] };
    assert_eq!(session.submitted, vec![text("one"), Op::Interrupt, text("two"), Op::Shutdown]);
    assert!(session.stopped);
}
