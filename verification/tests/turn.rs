use std::collections::HashMap;

use telegram_llm::config::{Config, Settings};
use telegram_llm::message::{ChatOptions, InboundEvent, Input, Request, StoredValue};
use telegram_llm::turn::{
    chat_options, Turn, APOLOGY_TEXT, DENIAL_TEXT, PLACEHOLDER_FAILURE, RESTART_TEXT,
};

/// The outside services, played by memory.
struct Outside {
    store: HashMap<String, StoredValue>,
    sent: Option<i32>,
    completion: Result<String, String>,
    /// What the store held for each conversation when the completion service was called.
    store_at_completion: Vec<StoredValue>,
}

impl Outside {
    fn new() -> Outside {
        Outside {
            store: HashMap::new(),
            sent: Some(7),
            completion: Ok("an answer".to_string()),
            store_at_completion: Vec::new(),
        }
    }

    fn holding(chat: &str, value: StoredValue) -> Outside {
        let mut outside = Outside::new();
        outside.store.insert(chat.to_string(), value);
        outside
    }

    fn stored(&self, key: &str) -> StoredValue {
        self.store.get(key).copied().unwrap_or(StoredValue::Absent)
    }

    fn answer(&mut self, request: &Request) -> Input {
        match request {
            Request::Send { .. } => Input::Sent(self.sent),
            Request::Store { key, pending } => {
                self.store.insert(key.clone(), StoredValue::Flag(*pending));
                Input::Settled
            }
            Request::Fetch { key } => Input::Stored(self.stored(key)),
            Request::Complete { conversation, .. } => {
                self.store_at_completion.push(self.stored(conversation));
                Input::Completed(self.completion.clone())
            }
            Request::Edit { .. } => Input::Settled,
            Request::LogError { .. } => Input::Settled,
        }
    }
}

/// Runs one turn against the outside and returns what it asked for, and where it ended.
fn run_turn(config: &Config, event: InboundEvent, outside: &mut Outside) -> (Vec<Request>, Turn) {
    let mut requests = Vec::new();
    let mut turn = Turn::new();
    let mut input = Input::Event(event);
    loop {
        let (next, request) = turn.step(config, input);
        turn = next;
        match request {
            None => return (requests, turn),
            Some(request) => {
                input = outside.answer(&request);
                requests.push(request);
            }
        }
        assert!(requests.len() <= 6, "a turn makes six requests at most");
    }
}

fn config_for(allowed: &str) -> Config {
    Config::from_settings(Settings {
        allowed_user_id: Some(allowed.to_string()),
        telegram_token: Some("token".to_string()),
        placeholder: Some("Thinking".to_string()),
        system_prompt: Some("Be brief.".to_string()),
        help_mesg: Some("Ask me anything.".to_string()),
        llm_model_name: Some("tiny".to_string()),
        llm_ctx_size: Some("2048".to_string()),
        ..Settings::default()
    })
    .unwrap()
}

fn message(chat: i64, text: &str) -> InboundEvent {
    InboundEvent::Message { chat, text: Some(text.to_string()) }
}

fn send(chat: i64, text: &str) -> Request {
    Request::Send { chat, text: text.to_string() }
}

fn store(key: &str, pending: bool) -> Request {
    Request::Store { key: key.to_string(), pending }
}

fn fetch(key: &str) -> Request {
    Request::Fetch { key: key.to_string() }
}

fn complete(chat: &str, prompt: &str, restart: bool) -> Request {
    Request::Complete {
        conversation: chat.to_string(),
        prompt: prompt.to_string(),
        options: ChatOptions {
            model: "tiny".to_string(),
            token_limit: 2048,
            restart,
            system_prompt: "Be brief.".to_string(),
        },
    }
}

fn edit(chat: i64, message: i32, text: &str) -> Request {
    Request::Edit { chat, message, text: text.to_string() }
}

#[test]
fn the_fixed_texts_are_fixed() {
    assert_eq!(DENIAL_TEXT, "You are not authorized to use this bot.");
    assert_eq!(RESTART_TEXT, "Ok, I am starting a new conversation.");
    assert_eq!(APOLOGY_TEXT, "Sorry, an error has occurred. Please try again later!");
    assert_eq!(PLACEHOLDER_FAILURE, "Error occurs when sending Message to Telegram");
}

#[test]
fn start_in_capitals_sends_help_and_marks_the_conversation() {
    let config = config_for("42");
    let mut outside = Outside::new();
    let (requests, end) = run_turn(&config, message(42, "/START"), &mut outside);
    assert_eq!(requests, vec![send(42, "Ask me anything."), store("42", true)]);
    assert_eq!(end, Turn::Done);
    assert_eq!(outside.stored("42"), StoredValue::Flag(true));
}

#[test]
fn a_query_after_a_restart_consumes_the_mark() {
    let config = config_for("42");
    let mut outside = Outside::holding("42", StoredValue::Flag(true));
    outside.completion = Ok("Hi there".to_string());
    let (requests, end) = run_turn(&config, message(42, "Hello"), &mut outside);
    assert_eq!(
        requests,
        vec![
            send(42, "Thinking"),
            fetch("42"),
            store("42", false),
            complete("42", "Hello", true),
            edit(42, 7, "Hi there"),
        ]
    );
    assert_eq!(end, Turn::Done);
    assert_eq!(outside.stored("42"), StoredValue::Flag(false));
}

#[test]
fn a_stranger_asking_for_help_is_denied() {
    let config = config_for("42");
    let mut outside = Outside::holding("99", StoredValue::Flag(true));
    let (requests, end) = run_turn(&config, message(99, "/help"), &mut outside);
    assert_eq!(requests, vec![send(99, "You are not authorized to use this bot.")]);
    assert_eq!(end, Turn::Done);
    assert_eq!(outside.stored("99"), StoredValue::Flag(true));
    assert_eq!(outside.stored("42"), StoredValue::Absent);
    assert!(outside.store_at_completion.is_empty());
}

#[test]
fn a_stranger_is_denied_whatever_the_text() {
    let config = config_for("42");
    for text in ["/start", "/restart", "/help", "Hello", ""] {
        let mut outside = Outside::new();
        let (requests, end) = run_turn(&config, message(99, text), &mut outside);
        assert_eq!(requests, vec![send(99, DENIAL_TEXT)], "{text:?}");
        assert_eq!(end, Turn::Done);
        assert!(outside.store.is_empty());
        assert!(outside.store_at_completion.is_empty());
    }
    let mut outside = Outside::new();
    let event = InboundEvent::Message { chat: 99, text: None };
    let (requests, _) = run_turn(&config, event, &mut outside);
    assert_eq!(requests, vec![send(99, DENIAL_TEXT)]);
}

#[test]
fn the_allowed_identity_is_compared_exactly() {
    for allowed in ["", "4", "420", "042", " 42", "42 ", "+42", "-42", "42.0", "4\u{0}2", "\u{664}\u{662}"] {
        let config = config_for(allowed);
        let (requests, _) = run_turn(&config, message(42, "/help"), &mut Outside::new());
        assert_eq!(requests, vec![send(42, DENIAL_TEXT)], "{allowed:?}");
    }
    let config = config_for("42");
    for chat in [0, 4, 24, 420, 421, -42, 42_000, i64::MAX, i64::MIN] {
        let (requests, _) = run_turn(&config, message(chat, "/help"), &mut Outside::new());
        assert_eq!(requests, vec![send(chat, DENIAL_TEXT)], "{chat:?}");
    }
    let (requests, _) = run_turn(&config, message(42, "/help"), &mut Outside::new());
    assert_eq!(requests, vec![send(42, "Ask me anything.")]);
}

#[test]
fn a_chat_with_a_negative_number_has_its_own_identity() {
    let config = config_for("-1001234567890");
    let mut outside = Outside::new();
    let (requests, _) = run_turn(&config, message(-1001234567890, "/start"), &mut outside);
    assert_eq!(
        requests,
        vec![send(-1001234567890, "Ask me anything."), store("-1001234567890", true)]
    );
    let (requests, _) = run_turn(&config, message(-1001234567890, "Hello"), &mut outside);
    assert_eq!(
        requests,
        vec![
            send(-1001234567890, "Thinking"),
            fetch("-1001234567890"),
            store("-1001234567890", false),
            complete("-1001234567890", "Hello", true),
            edit(-1001234567890, 7, "an answer"),
        ]
    );
    let (requests, _) = run_turn(&config, message(1001234567890, "Hello"), &mut outside);
    assert_eq!(requests, vec![send(1001234567890, DENIAL_TEXT)]);
}

#[test]
fn a_turn_leaves_other_conversations_alone() {
    let config = config_for("42");
    let mut outside = Outside::holding("99", StoredValue::Flag(true));
    outside.store.insert("4".to_string(), StoredValue::Flag(true));
    outside.store.insert("-42".to_string(), StoredValue::Other);
    for text in ["/start", "Hello", "/restart", "Hello again", "/help"] {
        run_turn(&config, message(42, text), &mut outside);
        assert_eq!(outside.stored("99"), StoredValue::Flag(true));
        assert_eq!(outside.stored("4"), StoredValue::Flag(true));
        assert_eq!(outside.stored("-42"), StoredValue::Other);
        assert_eq!(outside.store.len(), 4);
    }
}

#[test]
fn no_allowed_identity_denies_every_chat() {
    let config = Config::from_settings(Settings {
        telegram_token: Some("token".to_string()),
        ..Settings::default()
    })
    .unwrap();
    let (requests, _) = run_turn(&config, message(42, "/help"), &mut Outside::new());
    assert_eq!(requests, vec![send(42, DENIAL_TEXT)]);
}

#[test]
fn help_sends_the_help_text_and_nothing_else() {
    let config = config_for("42");
    for text in ["/help", "/HELP", "/Help"] {
        let mut outside = Outside::holding("42", StoredValue::Flag(true));
        let (requests, end) = run_turn(&config, message(42, text), &mut outside);
        assert_eq!(requests, vec![send(42, "Ask me anything.")], "{text:?}");
        assert_eq!(end, Turn::Done);
        assert_eq!(outside.stored("42"), StoredValue::Flag(true));
    }
}

#[test]
fn start_marks_the_conversation_whatever_was_stored() {
    let config = config_for("42");
    for before in [
        StoredValue::Absent,
        StoredValue::Flag(false),
        StoredValue::Flag(true),
        StoredValue::Other,
    ] {
        let mut outside = Outside::new();
        if before != StoredValue::Absent {
            outside.store.insert("42".to_string(), before);
        }
        let (requests, end) = run_turn(&config, message(42, "/start"), &mut outside);
        assert_eq!(requests, vec![send(42, "Ask me anything."), store("42", true)]);
        assert_eq!(end, Turn::Done);
        assert_eq!(outside.stored("42"), StoredValue::Flag(true));
    }
}

#[test]
fn restart_acknowledges_and_marks_the_conversation() {
    let config = config_for("42");
    for text in ["/restart", "/RESTART", "/Restart"] {
        let mut outside = Outside::new();
        let (requests, end) = run_turn(&config, message(42, text), &mut outside);
        assert_eq!(
            requests,
            vec![send(42, "Ok, I am starting a new conversation."), store("42", true)],
            "{text:?}"
        );
        assert_eq!(end, Turn::Done);
        assert_eq!(outside.stored("42"), StoredValue::Flag(true));
        assert!(outside.store_at_completion.is_empty());
    }
}

#[test]
fn a_command_marks_the_conversation_even_if_its_reply_is_lost() {
    let config = config_for("42");
    let mut outside = Outside::new();
    outside.sent = None;
    let (requests, end) = run_turn(&config, message(42, "/restart"), &mut outside);
    assert_eq!(requests, vec![send(42, RESTART_TEXT), store("42", true)]);
    assert_eq!(end, Turn::Done);
    let (requests, end) = run_turn(&config, message(42, "/help"), &mut outside);
    assert_eq!(requests, vec![send(42, "Ask me anything.")]);
    assert_eq!(end, Turn::Done);
    let (requests, end) = run_turn(&config, message(99, "/help"), &mut outside);
    assert_eq!(requests, vec![send(99, DENIAL_TEXT)]);
    assert_eq!(end, Turn::Done);
}

#[test]
fn restarting_is_a_query() {
    let config = config_for("42");
    let mut outside = Outside::new();
    let (requests, _) = run_turn(&config, message(42, "/restarting"), &mut outside);
    assert_eq!(
        requests,
        vec![
            send(42, "Thinking"),
            fetch("42"),
            complete("42", "/restarting", false),
            edit(42, 7, "an answer"),
        ]
    );
    assert_eq!(outside.stored("42"), StoredValue::Absent);
}

#[test]
fn a_query_without_a_mark_leaves_the_store_alone() {
    let config = config_for("42");
    for before in [StoredValue::Absent, StoredValue::Flag(false), StoredValue::Other] {
        let mut outside = Outside::new();
        if before != StoredValue::Absent {
            outside.store.insert("42".to_string(), before);
        }
        let stored_before = outside.store.clone();
        let (requests, end) = run_turn(&config, message(42, "Hello"), &mut outside);
        assert_eq!(
            requests,
            vec![
                send(42, "Thinking"),
                fetch("42"),
                complete("42", "Hello", false),
                edit(42, 7, "an answer"),
            ],
            "{before:?}"
        );
        assert_eq!(end, Turn::Done);
        assert_eq!(outside.store, stored_before);
        assert_eq!(outside.store_at_completion, vec![before]);
    }
}

#[test]
fn the_mark_is_gone_before_the_completion_service_is_called() {
    let config = config_for("42");
    for completion in [Ok("Hi".to_string()), Err("no route".to_string())] {
        let mut outside = Outside::holding("42", StoredValue::Flag(true));
        outside.completion = completion;
        let (requests, end) = run_turn(&config, message(42, "Hello"), &mut outside);
        assert_eq!(requests[2], store("42", false));
        assert_eq!(requests[3], complete("42", "Hello", true));
        assert_eq!(outside.store_at_completion, vec![StoredValue::Flag(false)]);
        assert_eq!(outside.stored("42"), StoredValue::Flag(false));
        assert_eq!(end, Turn::Done);
    }
}

#[test]
fn the_mark_is_consumed_once() {
    let config = config_for("42");
    let mut outside = Outside::new();
    run_turn(&config, message(42, "/restart"), &mut outside);
    let (first, _) = run_turn(&config, message(42, "one"), &mut outside);
    let (second, _) = run_turn(&config, message(42, "two"), &mut outside);
    assert_eq!(first[3], complete("42", "one", true));
    assert_eq!(second[2], complete("42", "two", false));
    assert_eq!(outside.stored("42"), StoredValue::Flag(false));
}

#[test]
fn a_failed_completion_becomes_an_apology_and_a_log_entry() {
    let config = config_for("42");
    let mut outside = Outside::new();
    outside.sent = Some(-3);
    outside.completion = Err("503 Service Unavailable".to_string());
    let (requests, end) = run_turn(&config, message(42, "Hello"), &mut outside);
    assert_eq!(
        requests,
        vec![
            send(42, "Thinking"),
            fetch("42"),
            complete("42", "Hello", false),
            edit(42, -3, "Sorry, an error has occurred. Please try again later!"),
            Request::LogError { detail: "503 Service Unavailable".to_string() },
        ]
    );
    assert_eq!(end, Turn::Done);
}

#[test]
fn a_failed_completion_after_a_restart_leaves_no_mark() {
    let config = config_for("42");
    let mut outside = Outside::holding("42", StoredValue::Flag(true));
    outside.completion = Err(String::new());
    let (requests, end) = run_turn(&config, message(42, "Hello"), &mut outside);
    assert_eq!(
        requests,
        vec![
            send(42, "Thinking"),
            fetch("42"),
            store("42", false),
            complete("42", "Hello", true),
            edit(42, 7, APOLOGY_TEXT),
            Request::LogError { detail: String::new() },
        ]
    );
    assert_eq!(end, Turn::Done);
    assert_eq!(outside.stored("42"), StoredValue::Flag(false));
}

#[test]
fn the_placeholder_becomes_exactly_the_chosen_text() {
    let config = config_for("42");
    for choice in ["", " padded ", "line one\nline two", "Sorry, an error has occurred.", "\u{1f600}"] {
        let mut outside = Outside::new();
        outside.sent = Some(i32::MAX);
        outside.completion = Ok(choice.to_string());
        let (requests, _) = run_turn(&config, message(42, "Hello"), &mut outside);
        assert_eq!(requests.len(), 4);
        assert_eq!(requests[3], edit(42, i32::MAX, choice), "{choice:?}");
    }
}

#[test]
fn a_lost_placeholder_aborts_the_turn() {
    let config = config_for("42");
    let mut outside = Outside::holding("42", StoredValue::Flag(true));
    outside.sent = None;
    let (requests, end) = run_turn(&config, message(42, "Hello"), &mut outside);
    assert_eq!(requests, vec![send(42, "Thinking")]);
    assert_eq!(end, Turn::Aborted);
    assert!(end.is_aborted());
    assert!(end.is_over());
    assert_eq!(outside.stored("42"), StoredValue::Flag(true));
    assert!(outside.store_at_completion.is_empty());
}

#[test]
fn other_updates_are_ignored() {
    let config = config_for("42");
    let mut outside = Outside::new();
    let (requests, end) = run_turn(&config, InboundEvent::Other, &mut outside);
    assert_eq!(requests, vec![]);
    assert_eq!(end, Turn::Done);
    assert!(!end.is_aborted());
    assert!(outside.store.is_empty());
}

#[test]
fn a_message_without_text_is_an_empty_query() {
    let config = config_for("42");
    let mut outside = Outside::new();
    let event = InboundEvent::Message { chat: 42, text: None };
    let (requests, end) = run_turn(&config, event, &mut outside);
    assert_eq!(
        requests,
        vec![send(42, "Thinking"), fetch("42"), complete("42", "", false), edit(42, 7, "an answer")]
    );
    assert_eq!(end, Turn::Done);
    let (requests, _) = run_turn(&config, message(42, ""), &mut outside);
    assert_eq!(requests[2], complete("42", "", false));
}

#[test]
fn the_options_come_from_the_settings() {
    let config = Config::from_settings(Settings {
        allowed_user_id: Some("42".to_string()),
        telegram_token: Some("token".to_string()),
        ..Settings::default()
    })
    .unwrap();
    assert_eq!(
        chat_options(&config, false),
        ChatOptions {
            model: "llama".to_string(),
            token_limit: 16384,
            restart: false,
            system_prompt: "You are a helpful assistant answering questions on Telegram."
                .to_string(),
        }
    );
    assert!(chat_options(&config, true).restart);
    let (requests, _) = run_turn(&config, message(42, "Hello"), &mut Outside::new());
    assert_eq!(requests[0], send(42, "Typing ..."));
    assert_eq!(
        requests[2],
        Request::Complete {
            conversation: "42".to_string(),
            prompt: "Hello".to_string(),
            options: chat_options(&config, false),
        }
    );
}

#[test]
fn only_a_stored_true_is_a_mark() {
    assert!(StoredValue::Flag(true).pending());
    assert!(!StoredValue::Flag(false).pending());
    assert!(!StoredValue::Absent.pending());
    assert!(!StoredValue::Other.pending());
}

#[test]
fn opening_a_turn_is_its_first_step() {
    let config = config_for("42");
    for (chat, text) in [(42, "/help"), (42, "/start"), (42, "/restart"), (42, "Hi"), (9, "Hi")] {
        let opened = Turn::open(&config, message(chat, text));
        let stepped = Turn::new().step(&config, Input::Event(message(chat, text)));
        assert_eq!(opened, stepped);
    }
    assert_eq!(Turn::open(&config, InboundEvent::Other), (Turn::Done, None));
    assert_eq!(
        Turn::open(&config, message(42, "Hi")),
        (
            Turn::Placing { chat: 42, prompt: "Hi".to_string() },
            Some(send(42, "Thinking"))
        )
    );
    assert_eq!(
        Turn::open(&config, message(42, "/start")),
        (Turn::Marking { chat: 42 }, Some(send(42, "Ask me anything.")))
    );
}

#[test]
fn a_new_turn_is_not_over() {
    assert_eq!(Turn::new(), Turn::Fresh);
    assert!(!Turn::new().is_over());
    assert!(!Turn::new().is_aborted());
    assert!(Turn::Done.is_over());
    assert!(!Turn::Done.is_aborted());
    assert!(!Turn::Closing.is_over());
}

#[test]
fn a_turn_that_is_over_stays_over() {
    let config = config_for("42");
    for input in [
        Input::Event(message(42, "Hello")),
        Input::Sent(Some(1)),
        Input::Stored(StoredValue::Flag(true)),
        Input::Completed(Ok("x".to_string())),
        Input::Settled,
    ] {
        assert_eq!(Turn::Aborted.step(&config, input), (Turn::Aborted, None));
    }
    assert_eq!(Turn::Done.step(&config, Input::Event(message(42, "Hello"))), (Turn::Done, None));
    assert_eq!(Turn::Done.step(&config, Input::Settled), (Turn::Done, None));
    assert_eq!(Turn::Closing.step(&config, Input::Sent(None)), (Turn::Done, None));
    assert_eq!(Turn::Closing.step(&config, Input::Settled), (Turn::Done, None));
}

#[test]
fn an_answer_of_the_wrong_kind_aborts_the_turn() {
    let config = config_for("42");
    assert_eq!(Turn::new().step(&config, Input::Settled), (Turn::Aborted, None));
    assert_eq!(Turn::new().step(&config, Input::Sent(Some(1))), (Turn::Aborted, None));
    let placing = || Turn::Placing { chat: 42, prompt: "Hi".to_string() };
    assert_eq!(placing().step(&config, Input::Settled), (Turn::Aborted, None));
    assert_eq!(
        placing().step(&config, Input::Stored(StoredValue::Flag(true))),
        (Turn::Aborted, None)
    );
    let reading =
        || Turn::Reading { chat: 42, prompt: "Hi".to_string(), placeholder: 7 };
    assert_eq!(reading().step(&config, Input::Sent(Some(1))), (Turn::Aborted, None));
    assert_eq!(reading().step(&config, Input::Settled), (Turn::Aborted, None));
    let completing = || Turn::Completing { chat: 42, placeholder: 7 };
    assert_eq!(completing().step(&config, Input::Settled), (Turn::Aborted, None));
    assert_eq!(
        completing().step(&config, Input::Stored(StoredValue::Absent)),
        (Turn::Aborted, None)
    );
}

#[test]
fn each_step_of_a_query_asks_for_the_next_thing() {
    let config = config_for("42");
    let (turn, request) = Turn::new().step(&config, Input::Event(message(42, "Hi")));
    assert_eq!(turn, Turn::Placing { chat: 42, prompt: "Hi".to_string() });
    assert_eq!(request, Some(send(42, "Thinking")));
    let (turn, request) = turn.step(&config, Input::Sent(Some(11)));
    assert_eq!(
        turn,
        Turn::Reading { chat: 42, prompt: "Hi".to_string(), placeholder: 11 }
    );
    assert_eq!(request, Some(fetch("42")));
    let (turn, request) = turn.step(&config, Input::Stored(StoredValue::Flag(true)));
    assert_eq!(
        turn,
        Turn::Clearing { chat: 42, prompt: "Hi".to_string(), placeholder: 11 }
    );
    assert_eq!(request, Some(store("42", false)));
    let (turn, request) = turn.step(&config, Input::Settled);
    assert_eq!(turn, Turn::Completing { chat: 42, placeholder: 11 });
    assert_eq!(request, Some(complete("42", "Hi", true)));
    let (turn, request) = turn.step(&config, Input::Completed(Err("boom".to_string())));
    assert_eq!(turn, Turn::Reporting { detail: "boom".to_string() });
    assert_eq!(request, Some(edit(42, 11, APOLOGY_TEXT)));
    let (turn, request) = turn.step(&config, Input::Settled);
    assert_eq!(turn, Turn::Closing);
    assert_eq!(request, Some(Request::LogError { detail: "boom".to_string() }));
    let (turn, request) = turn.step(&config, Input::Settled);
    assert_eq!(turn, Turn::Done);
    assert_eq!(request, None);
}

#[test]
fn a_turn_makes_each_kind_of_request_once_at_most() {
    let config = config_for("42");
    let events = || {
        vec![
            InboundEvent::Other,
            message(99, "Hello"),
            message(42, "/help"),
            message(42, "/start"),
            message(42, "/restart"),
            message(42, "Hello"),
            InboundEvent::Message { chat: 42, text: None },
        ]
    };
    for stored in [StoredValue::Absent, StoredValue::Flag(false), StoredValue::Flag(true)] {
        for sent in [None, Some(1)] {
            for completion in [Ok("fine".to_string()), Err("bad".to_string())] {
                for event in events() {
                    let mut outside = Outside::holding("42", stored);
                    outside.sent = sent;
                    outside.completion = completion.clone();
                    let (requests, end) = run_turn(&config, event, &mut outside);
                    let count = |wanted: fn(&Request) -> bool| {
                        requests.iter().filter(|r| wanted(r)).count()
                    };
                    assert!(count(|r| matches!(r, Request::Send { .. })) <= 1);
                    assert!(count(|r| matches!(r, Request::Store { .. })) <= 1);
                    assert!(count(|r| matches!(r, Request::Fetch { .. })) <= 1);
                    assert!(count(|r| matches!(r, Request::Complete { .. })) <= 1);
                    assert!(count(|r| matches!(r, Request::Edit { .. })) <= 1);
                    assert!(count(|r| matches!(r, Request::LogError { .. })) <= 1);
                    assert!(end.is_over());
                }
            }
        }
    }
}
