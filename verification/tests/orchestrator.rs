use session_core::artifacts::Artifact;
use session_core::error::ErrorKind;
use session_core::orchestrator::{
    choose_mode, commit_response, continuation_for, create_response, plan_response,
    turn_failure, CreateResponseRequest, Mode, ProviderReply, TurnAction, TurnEvent, TurnFailure,
    TurnPlan,
};
use session_core::state::AppState;
use session_core::threads::ThreadState;
use session_core::types::{Role, SessionPointers, ThreadMessage};

fn message(role: Role, content: &str) -> ThreadMessage {
    ThreadMessage { role, content: content.to_string(), created_at: None }
}

fn request(thread_id: &str, instructions: Option<&str>, file_ids: Option<&[&str]>) -> CreateResponseRequest {
    CreateResponseRequest {
        thread_id: thread_id.to_string(),
        instructions: instructions.map(|s| s.to_string()),
        file_ids: file_ids.map(|ids| ids.iter().map(|s| s.to_string()).collect()),
    }
}

fn reply(content: &str, chat_id: Option<&str>, response_id: &str) -> ProviderReply {
    ProviderReply {
        content: content.to_string(),
        chat_id: chat_id.map(|s| s.to_string()),
        response_id: response_id.to_string(),
    }
}

fn artifact(id: &str) -> Artifact {
    Artifact {
        id: id.to_string(),
        name: format!("{}.png", id),
        size: 3,
        file_class: "vision".to_string(),
        reference: format!("https://files.example/{}", id),
    }
}

fn state_with_thread(model: &str, messages: Vec<ThreadMessage>) -> AppState {
    let mut state = AppState::new(Some("tok-a\ntok-b\n"));
    state.create_thread_as("t".to_string(), 100, messages, None, model);
    state
}

fn expect_call(action: TurnAction) -> TurnPlan {
    match action {
        TurnAction::Call(plan) => plan,
        other => panic!("expected a call, got {:?}", other),
    }
}

fn expect_reject(action: TurnAction) -> session_core::error::ApiError {
    match action {
        TurnAction::Reject(e) => e,
        other => panic!("expected a rejection, got {:?}", other),
    }
}

#[test]
fn end_to_end_turn_commits_reply_and_session_pointers() {
    let mut state = AppState::new(None);
    state.set_qwen_token("secret".to_string());
    let (id, _) = state
        .create_thread(vec![message(Role::User, "hello")], None, "qwen-max")
        .unwrap();

    let plan = expect_call(create_response(
        &mut state,
        TurnEvent::Requested(request(&id, None, None)),
    ));
    assert_eq!(plan.thread_id, id);
    assert_eq!(plan.token, "secret");
    assert_eq!(plan.mode, Mode::Plain);
    assert_eq!(plan.content, "hello");
    assert_eq!(plan.model, "qwen-max");
    assert_eq!(plan.provider_model(), Some("qwen-max"));
    assert!(plan.files.is_empty());
    assert!(plan.continuation.is_none());
    assert_eq!(plan.expected_messages, 1);

    let action = create_response(
        &mut state,
        TurnEvent::Replied(plan, reply("world", Some("s1"), "p1")),
    );
    let response = match action {
        TurnAction::Respond(response) => response,
        other => panic!("expected a response, got {:?}", other),
    };
    assert_eq!(response.id.len(), 36);
    assert_eq!(response.thread_id, id);
    assert_eq!(response.model, "qwen-max");
    assert_eq!(response.response.as_deref(), Some("world"));
    assert!(response.created_at > 1_600_000_000);
    assert_eq!(response.object(), "thread.response");
    assert_eq!(response.status(), "completed");

    let thread = state.get_thread(&id).unwrap();
    assert_eq!(thread.messages.len(), 2);
    assert_eq!(thread.messages[0].role, Role::User);
    assert_eq!(thread.messages[0].content, "hello");
    assert_eq!(thread.messages[1].role, Role::Assistant);
    assert_eq!(thread.messages[1].content, "world");
    assert!(thread.messages[1].created_at.is_some());
    let session = thread.session.unwrap();
    assert_eq!(session.chat_id, "s1");
    assert_eq!(session.parent_id, "p1");

    let second = expect_call(create_response(
        &mut state,
        TurnEvent::Requested(request(&id, None, None)),
    ));
    let continuation = second.continuation.unwrap();
    assert_eq!(continuation.chat_id, "s1");
    assert_eq!(continuation.parent_id, "p1");
    assert_eq!(continuation.model_id, "qwen-max");
    assert_eq!(second.content, "hello");
    assert_eq!(second.expected_messages, 2);
}

#[test]
fn reply_without_session_sets_no_pointers() {
    let mut state = state_with_thread("qwen-max", vec![message(Role::User, "hi")]);
    let plan = plan_response(&mut state, &request("t", None, None)).unwrap();
    let response = commit_response(&mut state, &plan, reply("yo", None, "turn-9"), 5, "r".to_string(), 6)
        .unwrap();
    assert_eq!(response.id, "r");
    assert_eq!(response.created_at, 6);
    assert_eq!(response.thread_id, "t");
    assert_eq!(response.response.as_deref(), Some("yo"));
    let thread = state.get_thread("t").unwrap();
    assert!(thread.session.is_none());
    assert_eq!(thread.messages[1].created_at, Some(5));
    let next = plan_response(&mut state, &request("t", None, None)).unwrap();
    assert!(next.continuation.is_none());
}

#[test]
fn unknown_thread_is_not_found_and_draws_no_credential() {
    let mut state = state_with_thread("qwen-max", vec![message(Role::User, "hi")]);
    let e = plan_response(&mut state, &request("nope", None, None)).unwrap_err();
    assert_eq!(e.kind, ErrorKind::NotFound);
    assert_eq!(e.message, "Thread not found");
    assert_eq!(state.next_qwen_token().as_deref(), Some("tok-a"));
}

#[test]
fn thread_without_user_message_is_a_bad_request() {
    let mut state = state_with_thread(
        "qwen-max",
        vec![message(Role::System, "be brief"), message(Role::Assistant, "ok")],
    );
    let e = expect_reject(create_response(
        &mut state,
        TurnEvent::Requested(request("t", None, None)),
    ));
    assert_eq!(e.kind, ErrorKind::BadRequest);
    assert_eq!(e.status(), 400);
    assert_eq!(e.message, "No user message found in thread");
    assert_eq!(state.next_qwen_token().as_deref(), Some("tok-a"));
    let mut empty = state_with_thread("qwen-max", Vec::new());
    let e = plan_response(&mut empty, &request("t", None, None)).unwrap_err();
    assert_eq!(e.message, "No user message found in thread");
}

#[test]
fn blank_last_user_message_is_a_bad_request() {
    let mut state = state_with_thread(
        "qwen-max",
        vec![message(Role::User, "real question"), message(Role::User, " \t\n ")],
    );
    let e = plan_response(&mut state, &request("t", None, None)).unwrap_err();
    assert_eq!(e.kind, ErrorKind::BadRequest);
    assert_eq!(e.message, "Last user message content is empty");
    assert_eq!(state.next_qwen_token().as_deref(), Some("tok-a"));
    let mut empty = state_with_thread("qwen-max", vec![message(Role::User, "")]);
    let e = plan_response(&mut empty, &request("t", None, None)).unwrap_err();
    assert_eq!(e.message, "Last user message content is empty");
}

#[test]
fn unsupported_model_is_a_bad_request() {
    let mut state = state_with_thread("gpt-4", vec![message(Role::User, "hi")]);
    let e = plan_response(&mut state, &request("t", None, None)).unwrap_err();
    assert_eq!(e.kind, ErrorKind::BadRequest);
    assert_eq!(e.message, "Unsupported model: gpt-4. Use 'qwen-*'");
    assert_eq!(state.next_qwen_token().as_deref(), Some("tok-a"));
    let mut upper = state_with_thread("Qwen-max", vec![message(Role::User, "hi")]);
    let e = plan_response(&mut upper, &request("t", None, None)).unwrap_err();
    assert_eq!(e.message, "Unsupported model: Qwen-max. Use 'qwen-*'");
}

#[test]
fn message_checks_come_before_the_model_check() {
    let mut state = state_with_thread("gpt-4", vec![message(Role::Assistant, "hi")]);
    let e = plan_response(&mut state, &request("t", None, None)).unwrap_err();
    assert_eq!(e.message, "No user message found in thread");
}

#[test]
fn missing_credential_is_a_bad_request() {
    let mut state = AppState::new(None);
    state.create_thread_as("t".to_string(), 1, vec![message(Role::User, "hi")], None, "qwen-max");
    let e = plan_response(&mut state, &request("t", None, None)).unwrap_err();
    assert_eq!(e.kind, ErrorKind::BadRequest);
    assert_eq!(
        e.message,
        "Qwen token not configured. Please configure it via POST /v1/config/qwen"
    );
}

#[test]
fn each_plan_draws_the_next_credential() {
    let mut state = state_with_thread("qwen-max", vec![message(Role::User, "hi")]);
    let first = plan_response(&mut state, &request("t", None, None)).unwrap();
    let second = plan_response(&mut state, &request("t", None, None)).unwrap();
    let third = plan_response(&mut state, &request("t", None, None)).unwrap();
    assert_eq!(first.token, "tok-a");
    assert_eq!(second.token, "tok-b");
    assert_eq!(third.token, "tok-a");
}

#[test]
fn mode_precedence_is_files_then_search_then_thinking_then_plain() {
    assert_eq!(choose_mode(&request("t", None, None)), Mode::Plain);
    assert_eq!(choose_mode(&request("t", Some("be nice"), None)), Mode::Plain);
    assert_eq!(choose_mode(&request("t", Some("use thinking"), None)), Mode::Thinking);
    assert_eq!(choose_mode(&request("t", Some("search the web"), None)), Mode::Search);
    assert_eq!(
        choose_mode(&request("t", Some("thinking, then search"), None)),
        Mode::Search
    );
    assert_eq!(
        choose_mode(&request("t", Some("search and thinking"), Some(&["f"]))),
        Mode::Multimodal
    );
    assert_eq!(choose_mode(&request("t", None, Some(&["f"]))), Mode::Multimodal);
    assert_eq!(choose_mode(&request("t", Some("search"), Some(&[]))), Mode::Search);
    assert_eq!(choose_mode(&request("t", None, Some(&[]))), Mode::Plain);
    assert_eq!(choose_mode(&request("t", Some("Search"), None)), Mode::Plain);
    assert_eq!(choose_mode(&request("t", Some("researching"), None)), Mode::Search);
}

#[test]
fn multimodal_plan_carries_the_resolved_artifacts() {
    let mut state = state_with_thread("qwen-vl", vec![message(Role::User, "what is this?")]);
    state.store_uploaded_file(artifact("f1"));
    state.store_uploaded_file(artifact("f2"));
    let plan = plan_response(
        &mut state,
        &request("t", Some("search"), Some(&["f2", "gone", "f1"])),
    )
    .unwrap();
    assert_eq!(plan.mode, Mode::Multimodal);
    assert_eq!(plan.provider_model(), None);
    assert_eq!(plan.model, "qwen-vl");
    let names: Vec<&str> = plan.files.iter().map(|a| a.id.as_str()).collect();
    assert_eq!(names, vec!["f2", "f1"]);
    assert_eq!(plan.files[0].reference, "https://files.example/f2");
}

#[test]
fn no_resolvable_artifact_is_a_bad_request_after_the_draw() {
    let mut state = state_with_thread("qwen-vl", vec![message(Role::User, "what is this?")]);
    state.store_uploaded_file(artifact("f1"));
    let e = plan_response(&mut state, &request("t", None, Some(&["x", "y"]))).unwrap_err();
    assert_eq!(e.kind, ErrorKind::BadRequest);
    assert_eq!(e.message, "No valid files found for provided file_ids");
    assert_eq!(state.next_qwen_token().as_deref(), Some("tok-b"));
}

#[test]
fn plain_plans_carry_no_artifacts() {
    let mut state = state_with_thread("qwen-max", vec![message(Role::User, "hi")]);
    state.store_uploaded_file(artifact("f1"));
    let plan = plan_response(&mut state, &request("t", Some("thinking"), Some(&[]))).unwrap();
    assert_eq!(plan.mode, Mode::Thinking);
    assert!(plan.files.is_empty());
    assert_eq!(plan.provider_model(), Some("qwen-max"));
}

#[test]
fn continuation_comes_from_both_pointers() {
    let mut thread = ThreadState::new(1, None, vec![message(Role::User, "hi")], "qwen-max");
    assert!(continuation_for(&thread).is_none());
    thread.session = Some(SessionPointers {
        chat_id: "chat".to_string(),
        parent_id: "turn".to_string(),
    });
    let c = continuation_for(&thread).unwrap();
    assert_eq!(c.chat_id, "chat");
    assert_eq!(c.parent_id, "turn");
    assert_eq!(c.model_id, "qwen-max");
}

#[test]
fn append_during_a_turn_survives_and_the_turn_conflicts() {
    let mut state = state_with_thread("qwen-max", vec![message(Role::User, "hello")]);
    let plan = expect_call(create_response(
        &mut state,
        TurnEvent::Requested(request("t", None, None)),
    ));
    state.add_message_to_thread("t", Role::User, "one more thing".to_string()).unwrap();
    state.add_message_to_thread("t", Role::User, "and another".to_string()).unwrap();
    let e = expect_reject(create_response(
        &mut state,
        TurnEvent::Replied(plan, reply("world", Some("chat-1"), "turn-1")),
    ));
    assert_eq!(e.kind, ErrorKind::Conflict);
    assert_eq!(e.message, "Thread changed while the response was being generated");
    let thread = state.get_thread("t").unwrap();
    let said: Vec<&str> = thread.messages.iter().map(|m| m.content.as_str()).collect();
    assert_eq!(said, vec!["hello", "one more thing", "and another"]);
    assert!(thread.session.is_none());

    let retry = plan_response(&mut state, &request("t", None, None)).unwrap();
    assert_eq!(retry.content, "and another");
    assert_eq!(retry.expected_messages, 3);
    assert!(commit_response(&mut state, &retry, reply("ok", None, "turn-2"), 1, "r".to_string(), 2).is_ok());
    assert_eq!(state.get_thread("t").unwrap().messages.len(), 4);
}

#[test]
fn reply_for_a_deleted_thread_is_not_found() {
    let mut state = state_with_thread("qwen-max", vec![message(Role::User, "hello")]);
    let plan = plan_response(&mut state, &request("t", None, None)).unwrap();
    state.delete_thread("t").unwrap();
    let e = commit_response(&mut state, &plan, reply("w", Some("s"), "p"), 1, "r".to_string(), 2)
        .unwrap_err();
    assert_eq!(e.kind, ErrorKind::NotFound);
    assert_eq!(e.message, "Thread not found");
    assert_eq!(state.thread_count(), 0);
    let e = plan_response(&mut state, &request("t", None, None)).unwrap_err();
    assert_eq!(e.kind, ErrorKind::NotFound);
}

#[test]
fn upstream_failure_changes_nothing_and_keeps_the_draw() {
    let mut state = state_with_thread("qwen-max", vec![message(Role::User, "hello")]);
    let plan = plan_response(&mut state, &request("t", Some("search"), None)).unwrap();
    assert_eq!(plan.token, "tok-a");
    let e = expect_reject(create_response(
        &mut state,
        TurnEvent::Failed(plan, TurnFailure::Call, "timeout".to_string()),
    ));
    assert_eq!(e.kind, ErrorKind::Internal);
    assert_eq!(e.status(), 500);
    assert_eq!(e.message, "Qwen search error: timeout");
    let thread = state.get_thread("t").unwrap();
    assert_eq!(thread.messages.len(), 1);
    assert!(thread.session.is_none());
    assert_eq!(state.next_qwen_token().as_deref(), Some("tok-b"));
}

#[test]
fn failure_messages_name_the_stage_and_mode() {
    let cases = [
        (TurnFailure::Call, Mode::Plain, "Qwen error: boom"),
        (TurnFailure::Call, Mode::Search, "Qwen search error: boom"),
        (TurnFailure::Call, Mode::Thinking, "Qwen thinking error: boom"),
        (TurnFailure::Call, Mode::Multimodal, "Qwen multimodal error: boom"),
        (TurnFailure::Connect, Mode::Plain, "Could not create Qwen client: boom"),
        (TurnFailure::Connect, Mode::Multimodal, "Could not create Qwen client: boom"),
    ];
    for (stage, mode, expected) in cases {
        let e = turn_failure(stage, mode, "boom");
        assert_eq!(e.kind, ErrorKind::Internal);
        assert_eq!(e.message, expected);
    }
}

#[test]
fn plan_uses_the_last_user_message_untrimmed() {
    let mut state = state_with_thread(
        "qwen-max",
        vec![
            message(Role::User, "a"),
            message(Role::Assistant, "b"),
            message(Role::User, "  c  "),
            message(Role::Assistant, "d"),
        ],
    );
    let plan = plan_response(&mut state, &request("t", None, None)).unwrap();
    assert_eq!(plan.content, "  c  ");
    assert_eq!(plan.expected_messages, 4);
}
