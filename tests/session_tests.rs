use heygpt::{
    decode_batch, is_success_status, reduce_stream, ApiError, BatchReply, ChatError, Command,
    CommandReply, Conversation, DeltaMessage, LineOutcome, Message, ResponseChoice,
    ResponseDeltaChoice, ResponseMessage, ResponseStreamMessage, ResponseUsage, Session,
    SessionOptions, StreamEvent, WrappedApiError,
};

fn options(system: Option<&str>, prompt: &[&str]) -> SessionOptions {
    SessionOptions {
        model: "gpt-3.5-turbo".to_string(),
        stream: true,
        api_key: "test-key".to_string(),
        api_base_url: "https://api.openai.com/v1".to_string(),
        system: system.map(|s| s.to_string()),
        prompt: prompt.iter().map(|w| w.to_string()).collect(),
    }
}

fn msg(role: &str, content: &str) -> Message {
    Message { role: role.to_string(), content: content.to_string() }
}

fn turns(c: &Conversation) -> Vec<(String, String)> {
    c.snapshot().into_iter().map(|m| (m.role, m.content)).collect()
}

fn pair(role: &str, content: &str) -> (String, String) {
    (role.to_string(), content.to_string())
}

fn chunk(role: Option<&str>, content: Option<&str>) -> StreamEvent {
    StreamEvent::Chunk(ResponseStreamMessage {
        id: "chatcmpl-1".to_string(),
        object: "chat.completion.chunk".to_string(),
        created: 1,
        model: "gpt-3.5-turbo".to_string(),
        choices: vec![ResponseDeltaChoice {
            delta: DeltaMessage {
                role: role.map(|r| r.to_string()),
                content: content.map(|c| c.to_string()),
            },
            index: 0,
            finish_reason: None,
        }],
    })
}

fn batch(content: &str) -> ResponseMessage {
    ResponseMessage {
        choices: vec![ResponseChoice {
            message: msg("assistant", content),
            index: 0,
            finish_reason: Some("stop".to_string()),
        }],
        created: 1,
        id: "chatcmpl-2".to_string(),
        model: "gpt-3.5-turbo".to_string(),
        object: "chat.completion".to_string(),
        usage: ResponseUsage { completion_tokens: 3, prompt_tokens: 5, total_tokens: 8 },
    }
}

#[test]
fn streamed_exchange_adds_two_turns() {
    let mut s = Session::new(options(None, &[]), true, true);
    s.begin_turn("hello".to_string());
    let events = vec![
        chunk(Some("assistant"), None),
        chunk(None, Some("\nHi there")),
        StreamEvent::Done,
    ];
    let reply = reduce_stream(events);
    assert!(s.awaiting_reply());
    assert!(s.finish_turn(reply).is_ok());
    assert!(!s.awaiting_reply());
    assert_eq!(
        turns(s.conversation()),
        vec![pair("user", "hello"), pair("assistant", "Hi there")]
    );
}

#[test]
fn transport_error_restores_conversation() {
    let mut s = Session::new(options(Some("Be terse"), &[]), true, true);
    s.start_interactive(None);
    s.begin_turn("first".to_string());
    s.finish_turn(Ok(msg("assistant", "one"))).unwrap();
    let before = turns(s.conversation());
    s.begin_turn("second".to_string());
    let events = vec![
        chunk(Some("assistant"), Some("par")),
        StreamEvent::TransportError("connection reset".to_string()),
    ];
    let r = s.finish_turn(reduce_stream(events));
    match r {
        Err(ChatError::StreamTransportError(c)) => assert_eq!(c, "connection reset"),
        other => panic!("unexpected {:?}", other),
    }
    assert_eq!(turns(s.conversation()), before);
    assert!(!s.awaiting_reply());
}

#[test]
fn back_command_retracts_last_exchange() {
    let mut s = Session::new(options(Some("Be terse"), &[]), true, true);
    assert!(s.is_interactive());
    assert!(!s.asks_for_system_prompt());
    s.start_interactive(None);
    match s.handle_line("2+2") {
        LineOutcome::Prompt(p) => s.begin_turn(p),
        other => panic!("unexpected {:?}", other),
    }
    s.finish_turn(Ok(msg("assistant", "4"))).unwrap();
    assert_eq!(s.conversation().len(), 3);
    match s.handle_line("\\back") {
        LineOutcome::Reply(CommandReply::Retracted) => {}
        other => panic!("unexpected {:?}", other),
    }
    assert_eq!(turns(s.conversation()), vec![pair("system", "Be terse")]);
}

#[test]
fn retract_on_empty_conversation_fails() {
    let mut c = Conversation::new();
    match c.retract() {
        Err(ChatError::NoMessageToRetract) => {}
        other => panic!("unexpected {:?}", other),
    }
    assert_eq!(c.len(), 0);
}

#[test]
fn retract_on_system_only_conversation_fails() {
    let mut c = Conversation::new();
    c.push(msg("system", "Be terse"));
    assert!(matches!(c.retract(), Err(ChatError::NoMessageToRetract)));
    assert!(matches!(c.retract(), Err(ChatError::NoMessageToRetract)));
    assert_eq!(turns(&c), vec![pair("system", "Be terse")]);
}

#[test]
fn retract_after_exchange_restores_previous_state() {
    let mut c = Conversation::new();
    c.push(msg("system", "s"));
    c.push(msg("user", "a"));
    c.push(msg("assistant", "b"));
    let before = turns(&c);
    c.push(msg("user", "c"));
    c.push(msg("assistant", "d"));
    assert!(c.retract().is_ok());
    assert_eq!(turns(&c), before);
}

#[test]
fn retract_removes_unanswered_user_turn() {
    let mut c = Conversation::new();
    c.push(msg("user", "a"));
    c.push(msg("assistant", "b"));
    c.push(msg("user", "c"));
    assert!(c.retract().is_ok());
    assert_eq!(turns(&c), vec![pair("user", "a"), pair("assistant", "b")]);
}

#[test]
fn history_lists_every_turn() {
    let mut c = Conversation::new();
    c.push(msg("system", "s"));
    c.push(msg("user", "u"));
    let h = c.render();
    assert_eq!(h.len(), 2);
    assert_eq!((h[0].index, h[0].role.as_str(), h[0].content.as_str()), (0, "system", "s"));
    assert_eq!((h[1].index, h[1].role.as_str(), h[1].content.as_str()), (1, "user", "u"));
}

#[test]
fn commands_are_recognised() {
    let mut s = Session::new(options(None, &[]), true, true);
    assert!(matches!(s.handle_line(""), LineOutcome::Ignore));
    assert!(matches!(s.handle_line("\\?"), LineOutcome::Reply(CommandReply::Help)));
    assert!(matches!(s.handle_line("\\help"), LineOutcome::Reply(CommandReply::Help)));
    match s.handle_line("\\b") {
        LineOutcome::Reply(CommandReply::RetractFailed(ChatError::NoMessageToRetract)) => {}
        other => panic!("unexpected {:?}", other),
    }
    match s.handle_line("\\h") {
        LineOutcome::Reply(CommandReply::History(h)) => assert!(h.is_empty()),
        other => panic!("unexpected {:?}", other),
    }
    match s.handle_line("\\nope") {
        LineOutcome::Reply(CommandReply::Unknown(n)) => assert_eq!(n, "nope"),
        other => panic!("unexpected {:?}", other),
    }
    match s.run_command(Command::History) {
        CommandReply::History(h) => assert!(h.is_empty()),
        other => panic!("unexpected {:?}", other),
    }
}

#[test]
fn one_shot_joins_prompt_words() {
    let mut s = Session::new(options(Some("sys"), &["what", "is", "rust"]), true, true);
    assert!(!s.is_interactive());
    assert!(!s.needs_piped_input());
    s.prepare_one_shot(None).unwrap();
    assert_eq!(
        turns(s.conversation()),
        vec![pair("system", "sys"), pair("user", "what is rust")]
    );
    assert!(s.awaiting_reply());
}

#[test]
fn one_shot_reads_piped_input() {
    let mut s = Session::new(options(None, &[]), false, true);
    assert!(s.needs_piped_input());
    s.prepare_one_shot(Some("from a pipe\n".to_string())).unwrap();
    assert_eq!(turns(s.conversation()), vec![pair("user", "from a pipe\n")]);
}

#[test]
fn one_shot_without_prompt_fails() {
    let mut s = Session::new(options(None, &[]), true, false);
    assert!(matches!(s.prepare_one_shot(None), Err(ChatError::MissingPrompt)));
    assert_eq!(s.conversation().len(), 0);
    let mut s = Session::new(options(None, &[]), false, true);
    assert!(matches!(s.prepare_one_shot(None), Err(ChatError::MissingPrompt)));
}

#[test]
fn empty_system_prompt_is_asked_for() {
    let mut s = Session::new(options(Some(""), &[]), true, true);
    assert!(s.asks_for_system_prompt());
    s.start_interactive(Some("typed".to_string()));
    assert_eq!(turns(s.conversation()), vec![pair("system", "typed")]);
    let mut s = Session::new(options(None, &[]), true, true);
    s.start_interactive(Some("ignored".to_string()));
    assert_eq!(s.conversation().len(), 0);
}

#[test]
fn request_address_and_authorization() {
    let s = Session::new(options(None, &[]), true, true);
    assert_eq!(s.completions_url(), "https://api.openai.com/v1/chat/completions");
    assert_eq!(s.authorization(), "Bearer test-key");
    assert_eq!(s.settings().model, "gpt-3.5-turbo");
    assert_eq!(s.request_messages().len(), 0);
}

#[test]
fn batch_error_reply_is_remote_api_error() {
    assert!(!is_success_status(401));
    let reply = BatchReply::Failure(WrappedApiError {
        error: ApiError {
            message: "invalid key".to_string(),
            kind: "invalid_request_error".to_string(),
            param: None,
            code: None,
        },
    });
    match decode_batch(reply) {
        Err(ChatError::RemoteApiError { kind, message }) => {
            assert_eq!(kind, "invalid_request_error");
            assert_eq!(message, "invalid key");
        }
        other => panic!("unexpected {:?}", other),
    }
}

#[test]
fn batch_success_strips_one_leading_newline() {
    assert!(is_success_status(200));
    assert!(is_success_status(299));
    assert!(!is_success_status(300));
    assert!(!is_success_status(199));
    let m = decode_batch(BatchReply::Success(batch("\n\nHello"))).unwrap();
    assert_eq!(m.role, "assistant");
    assert_eq!(m.content, "\nHello");
    let m = decode_batch(BatchReply::Success(batch("Hi\n"))).unwrap();
    assert_eq!(m.content, "Hi\n");
}

#[test]
fn batch_without_choice_is_malformed() {
    let mut r = batch("x");
    r.choices.clear();
    match decode_batch(BatchReply::Success(r)) {
        Err(ChatError::MalformedResponse(w)) => assert_eq!(w, "response without a choice"),
        other => panic!("unexpected {:?}", other),
    }
    assert!(matches!(
        decode_batch(BatchReply::Malformed("bad".to_string())),
        Err(ChatError::MalformedResponse(_))
    ));
}

#[test]
fn error_descriptions() {
    assert_eq!(ChatError::MissingPrompt.describe(), "Prompt is required");
    assert_eq!(ChatError::NoMessageToRetract.describe(), "No message to retract");
    assert_eq!(
        ChatError::RemoteApiError { kind: "k".to_string(), message: "m".to_string() }.describe(),
        "k: m"
    );
    assert_eq!(
        ChatError::StreamTransportError("reset".to_string()).describe(),
        "stream error: reset"
    );
    assert_eq!(
        ChatError::MalformedResponse("eof".to_string()).describe(),
        "malformed response: eof"
    );
}

#[test]
fn message_clone_and_default() {
    let m = msg("user", "x");
    let c = m.clone();
    assert_eq!((c.role.as_str(), c.content.as_str()), ("user", "x"));
    let d = Message::default();
    assert!(d.role.is_empty() && d.content.is_empty());
    let n = Message::new("system", "y".to_string());
    assert_eq!(n.role, "system");
}
