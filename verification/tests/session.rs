use std::cell::RefCell;

use rust_gpt::chat::{Chat, ChatBuilder, ChatChoice, ChatMessage, ChatResponse, Role, Transport, Usage};
use rust_gpt::{ChatModel, SendRequestError};

fn assistant_reply(text: &str) -> ChatResponse {
    ChatResponse {
        id: "id-0".to_string(),
        object: "chat.completion".to_string(),
        created: 0,
        choices: vec![ChatChoice {
            index: 0,
            message: ChatMessage { role: Role::Assistant, content: text.to_string() },
            finish_reason: "stop".to_string(),
        }],
        usage: Usage { prompt_tokens: 0, completion_tokens: 0, total_tokens: 0 },
    }
}

/// Always answers with the same assistant text.
struct FixedReply {
    text: &'static str,
}

impl Transport<()> for FixedReply {
    fn send(
        &self,
        _model: &ChatModel,
        _parameters: &(),
        _messages: &Vec<ChatMessage>,
        _user: &Option<String>,
        _api_key: &str,
    ) -> Result<ChatResponse, SendRequestError> {
        Ok(assistant_reply(self.text))
    }
}

/// Answers with canned texts in order and records what each call carried.
struct Scripted {
    replies: RefCell<Vec<&'static str>>,
    seen_messages: RefCell<Vec<Vec<(Role, String)>>>,
    seen_users: RefCell<Vec<Option<String>>>,
    seen_keys: RefCell<Vec<String>>,
}

impl Scripted {
    fn new(replies: Vec<&'static str>) -> Self {
        Scripted {
            replies: RefCell::new(replies),
            seen_messages: RefCell::new(Vec::new()),
            seen_users: RefCell::new(Vec::new()),
            seen_keys: RefCell::new(Vec::new()),
        }
    }
}

impl Transport<()> for Scripted {
    fn send(
        &self,
        _model: &ChatModel,
        _parameters: &(),
        messages: &Vec<ChatMessage>,
        user: &Option<String>,
        api_key: &str,
    ) -> Result<ChatResponse, SendRequestError> {
        let snapshot: Vec<(Role, String)> =
            messages.iter().map(|m| (m.role, m.content.clone())).collect();
        self.seen_messages.borrow_mut().push(snapshot);
        self.seen_users.borrow_mut().push(user.clone());
        self.seen_keys.borrow_mut().push(api_key.to_string());
        let text = self.replies.borrow_mut().remove(0);
        Ok(assistant_reply(text))
    }
}

/// Fails every call with a structured service error.
struct ServiceRejects {
    diagnostic: &'static str,
}

impl Transport<()> for ServiceRejects {
    fn send(
        &self,
        _model: &ChatModel,
        _parameters: &(),
        _messages: &Vec<ChatMessage>,
        _user: &Option<String>,
        _api_key: &str,
    ) -> Result<ChatResponse, SendRequestError> {
        Err(SendRequestError::RemoteServiceError(self.diagnostic.to_string()))
    }
}

/// Fails every call at the I/O level.
struct WireDown;

impl Transport<()> for WireDown {
    fn send(
        &self,
        _model: &ChatModel,
        _parameters: &(),
        _messages: &Vec<ChatMessage>,
        _user: &Option<String>,
        _api_key: &str,
    ) -> Result<ChatResponse, SendRequestError> {
        Err(SendRequestError::TransportFailure("connection reset".to_string()))
    }
}

/// Answers with a reply that has no choices at all.
struct NoChoices;

impl Transport<()> for NoChoices {
    fn send(
        &self,
        _model: &ChatModel,
        _parameters: &(),
        _messages: &Vec<ChatMessage>,
        _user: &Option<String>,
        _api_key: &str,
    ) -> Result<ChatResponse, SendRequestError> {
        Ok(ChatResponse {
            id: "id-0".to_string(),
            object: "chat.completion".to_string(),
            created: 0,
            choices: vec![],
            usage: Usage { prompt_tokens: 0, completion_tokens: 0, total_tokens: 0 },
        })
    }
}

fn fresh_chat(max_len: usize) -> Chat<()> {
    ChatBuilder::new(ChatModel::Gpt35Turbo, "secret-key".to_string(), ())
        .len(max_len)
        .system(ChatMessage {
            role: Role::System,
            content: "You are a helpful assistant.".to_string(),
        })
        .build()
}

fn shape(messages: &Vec<ChatMessage>) -> Vec<(Role, String)> {
    messages.iter().map(|m| (m.role, m.content.clone())).collect()
}

#[test]
fn submits_accumulate_and_exchanges_dequeue_in_order() {
    let mut chat = fresh_chat(100);
    chat.ask("a").unwrap();
    chat.ask("b").unwrap();
    chat.ask("c").unwrap();

    // Nothing exchanged yet: the snapshot shows no pending entry.
    assert_eq!(chat.get_messages().len(), 1);

    let transport = Scripted::new(vec!["ra", "rb", "rc"]);
    assert_eq!(chat.get_response(&transport, None).unwrap().content, "ra");
    assert_eq!(chat.get_response(&transport, None).unwrap().content, "rb");
    assert_eq!(chat.get_response(&transport, None).unwrap().content, "rc");

    // Exactly three submissions were queued: the fourth exchange finds none.
    assert!(matches!(
        chat.get_response(&transport, None),
        Err(SendRequestError::NoPendingMessage)
    ));

    // Dequeued in submission order, each answered in place.
    let expected = vec![
        (Role::System, "You are a helpful assistant.".to_string()),
        (Role::User, "a".to_string()),
        (Role::Assistant, "ra".to_string()),
        (Role::User, "b".to_string()),
        (Role::Assistant, "rb".to_string()),
        (Role::User, "c".to_string()),
        (Role::Assistant, "rc".to_string()),
    ];
    assert_eq!(shape(&chat.get_messages()), expected);

    // Each outgoing request carried the system preamble first and ended
    // with the user message of its own exchange.
    let seen = transport.seen_messages.borrow();
    assert_eq!(seen[0].first().unwrap().0, Role::System);
    assert_eq!(seen[0].last().unwrap(), &(Role::User, "a".to_string()));
    assert_eq!(seen[1].last().unwrap(), &(Role::User, "b".to_string()));
    assert_eq!(seen[2].last().unwrap(), &(Role::User, "c".to_string()));
    assert_eq!(transport.seen_keys.borrow()[0], "secret-key");
}

#[test]
fn exchange_on_empty_queue_fails_and_changes_nothing() {
    let mut chat = fresh_chat(5);
    let before = shape(&chat.get_messages());

    let transport = FixedReply { text: "hi" };
    let result = chat.get_response(&transport, None);
    assert!(matches!(result, Err(SendRequestError::NoPendingMessage)));

    assert_eq!(shape(&chat.get_messages()), before);
}

#[test]
fn successful_exchange_appends_user_then_reply() {
    let mut chat = fresh_chat(100);
    chat.ask("first question").unwrap();

    let transport = FixedReply { text: "first answer" };
    let reply = chat.get_response(&transport, None).unwrap();
    assert_eq!(reply.role, Role::Assistant);
    assert_eq!(reply.content, "first answer");

    let messages = chat.get_messages();
    let n = messages.len();
    assert_eq!(messages[n - 2].role, Role::User);
    assert_eq!(messages[n - 2].content, "first question");
    assert_eq!(messages[n - 1].role, Role::Assistant);
    assert_eq!(messages[n - 1].content, "first answer");
}

#[test]
fn eviction_drops_the_oldest_entry_never_the_newest() {
    // max_len 6: the trigger (len + 2) * 2 >= 6 fires from len 1 on.
    let mut chat = fresh_chat(6);
    let transport = Scripted::new(vec!["r1", "r2"]);

    chat.ask("q1").unwrap();
    chat.get_response(&transport, None).unwrap();
    assert_eq!(
        shape(&chat.get_messages())[1..],
        [(Role::User, "q1".to_string()), (Role::Assistant, "r1".to_string())]
    );

    chat.ask("q2").unwrap();
    chat.get_response(&transport, None).unwrap();
    // len was 2: the oldest entry (q1) went, everything younger stayed.
    assert_eq!(
        shape(&chat.get_messages())[1..],
        [
            (Role::Assistant, "r1".to_string()),
            (Role::User, "q2".to_string()),
            (Role::Assistant, "r2".to_string()),
        ]
    );
}

#[test]
fn snapshot_begins_with_system_and_hides_the_queue() {
    let mut chat = fresh_chat(5);
    chat.ask("queued but never sent").unwrap();

    let messages = chat.get_messages();
    assert_eq!(messages.len(), 1);
    assert_eq!(messages[0].role, Role::System);
    assert_eq!(messages[0].content, "You are a helpful assistant.");

    // Reading a snapshot mutates nothing.
    let again = chat.get_messages();
    assert_eq!(shape(&messages), shape(&again));
}

#[test]
fn scenario_two_exchanges_under_max_len_five() {
    let mut chat = fresh_chat(5);
    let transport = Scripted::new(vec!["hi", "goodbye"]);

    chat.ask("hello").unwrap();
    let reply = chat.get_response(&transport, None).unwrap();
    assert_eq!(reply.content, "hi");
    assert_eq!(
        shape(&chat.get_messages())[1..],
        [(Role::User, "hello".to_string()), (Role::Assistant, "hi".to_string())]
    );

    chat.ask("bye").unwrap();
    let reply = chat.get_response(&transport, None).unwrap();
    assert_eq!(reply.content, "goodbye");
    // With two entries already recorded, (2 + 2) * 2 = 8 >= 5: the stated
    // eviction inequality fires, so the oldest entry leaves before "bye"
    // is appended.
    assert_eq!(
        shape(&chat.get_messages())[1..],
        [
            (Role::Assistant, "hi".to_string()),
            (Role::User, "bye".to_string()),
            (Role::Assistant, "goodbye".to_string()),
        ]
    );
}

#[test]
fn scenario_two_exchanges_with_room_keep_everything() {
    let mut chat = fresh_chat(10);
    let transport = Scripted::new(vec!["hi", "goodbye"]);

    chat.ask("hello").unwrap();
    chat.get_response(&transport, None).unwrap();
    chat.ask("bye").unwrap();
    chat.get_response(&transport, None).unwrap();

    // (2 + 2) * 2 = 8 < 10: no eviction, all four messages stand.
    assert_eq!(
        shape(&chat.get_messages())[1..],
        [
            (Role::User, "hello".to_string()),
            (Role::Assistant, "hi".to_string()),
            (Role::User, "bye".to_string()),
            (Role::Assistant, "goodbye".to_string()),
        ]
    );
}

#[test]
fn service_error_keeps_user_message_without_reply() {
    let mut chat = fresh_chat(5);
    chat.ask("hello").unwrap();

    let transport = ServiceRejects { diagnostic: "invalid_request" };
    let result = chat.get_response(&transport, None);
    match result {
        Err(SendRequestError::RemoteServiceError(text)) => assert_eq!(text, "invalid_request"),
        other => panic!("expected a remote service error, got {other:?}"),
    }

    // The message was already dequeued: the queue is empty now.
    assert!(matches!(
        chat.get_response(&transport, None),
        Err(SendRequestError::NoPendingMessage)
    ));

    // The user's turn is recorded, the failed reply is not.
    assert_eq!(
        shape(&chat.get_messages())[1..],
        [(Role::User, "hello".to_string())]
    );
}

#[test]
fn transport_failure_keeps_user_message_without_reply() {
    let mut chat = fresh_chat(5);
    chat.ask("hello").unwrap();

    let result = chat.get_response(&WireDown, None);
    assert!(matches!(result, Err(SendRequestError::TransportFailure(_))));
    assert_eq!(
        shape(&chat.get_messages())[1..],
        [(Role::User, "hello".to_string())]
    );
}

#[test]
fn reply_without_choices_is_malformed() {
    let mut chat = fresh_chat(5);
    chat.ask("hello").unwrap();

    let result = chat.get_response(&NoChoices, None);
    match result {
        Err(SendRequestError::MalformedResponse(e)) => {
            assert_eq!(e.json_string(), "reply contained no choices");
        }
        other => panic!("expected a malformed-response error, got {other:?}"),
    }
    assert_eq!(
        shape(&chat.get_messages())[1..],
        [(Role::User, "hello".to_string())]
    );
}

#[test]
fn user_tag_override_wins_over_configured_tag() {
    let chat = ChatBuilder::new(ChatModel::Gpt35Turbo, "k".to_string(), ())
        .user("configured".to_string())
        .build();

    assert_eq!(chat.request_user_tag(None), Some("configured".to_string()));
    assert_eq!(
        chat.request_user_tag(Some("override".to_string())),
        Some("override".to_string())
    );

    let untagged: Chat<()> = ChatBuilder::new(ChatModel::Gpt35Turbo, "k".to_string(), ()).build();
    assert_eq!(untagged.request_user_tag(None), None);
}

#[test]
fn exchange_sends_the_effective_user_tag() {
    let mut chat = ChatBuilder::new(ChatModel::Gpt35Turbo, "k".to_string(), ())
        .len(100)
        .user("configured".to_string())
        .build();
    let transport = Scripted::new(vec!["r1", "r2"]);

    chat.ask("q1").unwrap();
    chat.get_response(&transport, None).unwrap();
    chat.ask("q2").unwrap();
    chat.get_response(&transport, Some("caller".to_string())).unwrap();

    let users = transport.seen_users.borrow();
    assert_eq!(users[0], Some("configured".to_string()));
    assert_eq!(users[1], Some("caller".to_string()));
}

#[test]
fn builder_defaults_to_a_bound_of_five() {
    // Two sessions, one with the default bound and one with an explicit 5,
    // behave identically through two exchanges including the eviction.
    let mut defaulted: Chat<()> =
        ChatBuilder::new(ChatModel::Gpt35Turbo, "k".to_string(), ()).build();
    let mut explicit: Chat<()> =
        ChatBuilder::new(ChatModel::Gpt35Turbo, "k".to_string(), ()).len(5).build();

    for chat in [&mut defaulted, &mut explicit] {
        let transport = Scripted::new(vec!["hi", "goodbye"]);
        chat.ask("hello").unwrap();
        chat.get_response(&transport, None).unwrap();
        chat.ask("bye").unwrap();
        chat.get_response(&transport, None).unwrap();
    }
    assert_eq!(shape(&defaulted.get_messages()), shape(&explicit.get_messages()));

    // The default system preamble is an empty system message.
    let snapshot = defaulted.get_messages();
    assert_eq!(snapshot[0].role, Role::System);
    assert_eq!(snapshot[0].content, "");
}

#[test]
fn tight_bound_evicts_from_the_start_without_panicking() {
    // max_len 0: the trigger always fires, even on an empty buffer.
    let mut chat = fresh_chat(0);
    let transport = Scripted::new(vec!["r1", "r2"]);

    chat.ask("q1").unwrap();
    chat.get_response(&transport, None).unwrap();
    // Eviction on the empty buffer dropped nothing; then q1 and r1 landed.
    // The next exchange evicts q1 (once) before appending.
    chat.ask("q2").unwrap();
    chat.get_response(&transport, None).unwrap();
    assert_eq!(
        shape(&chat.get_messages())[1..],
        [
            (Role::Assistant, "r1".to_string()),
            (Role::User, "q2".to_string()),
            (Role::Assistant, "r2".to_string()),
        ]
    );
}
