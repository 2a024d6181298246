//! One turn of the relay: everything that follows from one inbound event.
//!
//! A turn is a small state machine. It is handed the event, answers with a
//! request, is handed the answer to that request, and so on until it asks for
//! nothing more. It makes one request at a time and waits for its answer
//! before the next, so the requests of a turn are made in a fixed order.

use vstd::prelude::*;
use vstd::string::*;
use crate::command::{classify, command_of, Command};
use crate::config::{Config, ConfigView};
use crate::decimal::{decimal_string, decimal_text};
use crate::message::{
    ChatOptions, ChatOptionsView, InboundEvent, InboundEventView, Input, InputView, Request,
    RequestView,
};

verus! {

/// The reply to a chat that is not the allowed one.
pub const DENIAL_TEXT: &'static str = "You are not authorized to use this bot.";

/// The reply to the restart command.
pub const RESTART_TEXT: &'static str = "Ok, I am starting a new conversation.";

/// What the placeholder becomes when the completion service fails.
pub const APOLOGY_TEXT: &'static str = "Sorry, an error has occurred. Please try again later!";

/// What went wrong where a turn was given up because its placeholder could
/// not be sent.
pub const PLACEHOLDER_FAILURE: &'static str = "Error occurs when sending Message to Telegram";

/// How far a turn has come.
#[derive(Debug, PartialEq, Eq)]
pub enum Turn {
    /// Nothing has happened yet: the turn waits for its event.
    Fresh,
    /// The reply to a start or restart command is on its way; the
    /// conversation is marked for a restart next.
    Marking { chat: i64 },
    /// The placeholder is on its way.
    Placing { chat: i64, prompt: String },
    /// The placeholder stands; the store was asked whether a restart is
    /// pending.
    Reading { chat: i64, prompt: String, placeholder: i32 },
    /// A restart was pending; the mark is being taken back.
    Clearing { chat: i64, prompt: String, placeholder: i32 },
    /// The completion service was asked.
    Completing { chat: i64, placeholder: i32 },
    /// The completion failed and the apology is on its way; the failure is
    /// logged next.
    Reporting { detail: String },
    /// The last request of the turn was made.
    Closing,
    /// The turn is over.
    Done,
    /// The turn was given up: the placeholder could not be sent, or the turn
    /// was handed something that it did not wait for.
    Aborted,
}

/// A `Turn` as mathematical values.
pub enum TurnView {
    Fresh,
    Marking { chat: i64 },
    Placing { chat: i64, prompt: Seq<char> },
    Reading { chat: i64, prompt: Seq<char>, placeholder: i32 },
    Clearing { chat: i64, prompt: Seq<char>, placeholder: i32 },
    Completing { chat: i64, placeholder: i32 },
    Reporting { detail: Seq<char> },
    Closing,
    Done,
    Aborted,
}

impl View for Turn {
    type V = TurnView;

    open spec fn view(&self) -> TurnView {
        match *self {
            Turn::Fresh => TurnView::Fresh,
            Turn::Marking { chat } => TurnView::Marking { chat },
            Turn::Placing { chat, prompt } => TurnView::Placing { chat, prompt: prompt@ },
            Turn::Reading { chat, prompt, placeholder } => TurnView::Reading {
                chat,
                prompt: prompt@,
                placeholder,
            },
            Turn::Clearing { chat, prompt, placeholder } => TurnView::Clearing {
                chat,
                prompt: prompt@,
                placeholder,
            },
            Turn::Completing { chat, placeholder } => TurnView::Completing {
                chat,
                placeholder,
            },
            Turn::Reporting { detail } => TurnView::Reporting { detail: detail@ },
            Turn::Closing => TurnView::Closing,
            Turn::Done => TurnView::Done,
            Turn::Aborted => TurnView::Aborted,
        }
    }
}

/// The options of a completion call: model, token limit and system prompt
/// come from the settings, the restart flag from the conversation.
pub open spec fn options_for(config: ConfigView, restart: bool) -> ChatOptionsView {
    ChatOptionsView {
        model: config.llm_model_name,
        token_limit: config.llm_ctx_size,
        restart,
        system_prompt: config.system_prompt,
    }
}

/// The identity of a chat: its number as decimal text. Under this text its
/// conversation is stored, and by it the completion service knows the
/// conversation.
pub open spec fn key_of(chat: i64) -> Seq<char> {
    decimal_text(chat as int)
}

/// The text of a message; a message without text counts as the empty text.
pub open spec fn text_of(text: Option<Seq<char>>) -> Seq<char> {
    match text {
        Some(t) => t,
        None => Seq::empty(),
    }
}

/// How a turn begins. The first rule that applies decides:
/// an update that is no message is ignored; a message from a chat other than
/// the allowed one is denied; a command is answered, and start and restart
/// go on to mark the conversation; any other text is a query, which begins
/// with the placeholder.
pub open spec fn begin(config: ConfigView, event: InboundEventView) -> (
    TurnView,
    Option<RequestView>,
) {
    match event {
        InboundEventView::Other => (TurnView::Done, None),
        InboundEventView::Message { chat, text } => {
            if key_of(chat) != config.allowed_user_id {
                (TurnView::Closing, Some(RequestView::Send { chat, text: DENIAL_TEXT@ }))
            } else {
                match command_of(text_of(text)) {
                    Command::Help => (
                        TurnView::Closing,
                        Some(RequestView::Send { chat, text: config.help_mesg }),
                    ),
                    Command::Start => (
                        TurnView::Marking { chat },
                        Some(RequestView::Send { chat, text: config.help_mesg }),
                    ),
                    Command::Restart => (
                        TurnView::Marking { chat },
                        Some(RequestView::Send { chat, text: RESTART_TEXT@ }),
                    ),
                    Command::Query => (
                        TurnView::Placing { chat, prompt: text_of(text) },
                        Some(RequestView::Send { chat, text: config.placeholder_text }),
                    ),
                }
            }
        },
    }
}

/// The transition of a turn: from where it stands and what it is handed to
/// where it stands next and what it asks for. `None` ends the turn.
///
/// Where the turn waits for the outcome of a request that is made on a best
/// effort (a reply, a write to the store, an edit, a log entry), it goes on
/// whatever it is handed. Where it needs the answer (the identity of the
/// placeholder, the stored value, the completion), anything else makes it
/// give up.
pub open spec fn next(config: ConfigView, turn: TurnView, input: InputView) -> (
    TurnView,
    Option<RequestView>,
) {
    match turn {
        TurnView::Fresh => match input {
            InputView::Event(event) => begin(config, event),
            _ => (TurnView::Aborted, None),
        },
        TurnView::Marking { chat } => (
            TurnView::Closing,
            Some(RequestView::Store { key: key_of(chat), pending: true }),
        ),
        TurnView::Placing { chat, prompt } => match input {
            InputView::Sent(Some(placeholder)) => (
                TurnView::Reading { chat, prompt, placeholder },
                Some(RequestView::Fetch { key: key_of(chat) }),
            ),
            _ => (TurnView::Aborted, None),
        },
        TurnView::Reading { chat, prompt, placeholder } => match input {
            InputView::Stored(value) => if value.is_pending() {
                (
                    TurnView::Clearing { chat, prompt, placeholder },
                    Some(RequestView::Store { key: key_of(chat), pending: false }),
                )
            } else {
                (
                    TurnView::Completing { chat, placeholder },
                    Some(
                        RequestView::Complete {
                            conversation: key_of(chat),
                            prompt,
                            options: options_for(config, false),
                        },
                    ),
                )
            },
            _ => (TurnView::Aborted, None),
        },
        TurnView::Clearing { chat, prompt, placeholder } => (
            TurnView::Completing { chat, placeholder },
            Some(
                RequestView::Complete {
                    conversation: key_of(chat),
                    prompt,
                    options: options_for(config, true),
                },
            ),
        ),
        TurnView::Completing { chat, placeholder } => match input {
            InputView::Completed(Ok(choice)) => (
                TurnView::Closing,
                Some(RequestView::Edit { chat, message: placeholder, text: choice }),
            ),
            InputView::Completed(Err(detail)) => (
                TurnView::Reporting { detail },
                Some(RequestView::Edit { chat, message: placeholder, text: APOLOGY_TEXT@ }),
            ),
            _ => (TurnView::Aborted, None),
        },
        TurnView::Reporting { detail } => (
            TurnView::Closing,
            Some(RequestView::LogError { detail }),
        ),
        TurnView::Closing => (TurnView::Done, None),
        TurnView::Done => (TurnView::Done, None),
        TurnView::Aborted => (TurnView::Aborted, None),
    }
}

/// The options of a completion call under these settings.
pub fn chat_options(config: &Config, restart: bool) -> (options: ChatOptions)
    ensures
        options@ == options_for(config@, restart),
{
    ChatOptions {
        model: config.llm_model_name.clone(),
        token_limit: config.llm_ctx_size,
        restart,
        system_prompt: config.system_prompt.clone(),
    }
}

impl Turn {
    /// A turn that has not begun.
    pub fn new() -> (turn: Turn)
        ensures
            turn@ == TurnView::Fresh,
    {
        Turn::Fresh
    }

    /// Whether the turn asks for nothing more.
    pub fn is_over(&self) -> (r: bool)
        ensures
            r == (self@ == TurnView::Done || self@ == TurnView::Aborted),
    {
        match self {
            Turn::Done => true,
            Turn::Aborted => true,
            _ => false,
        }
    }

    /// Whether the turn was given up.
    pub fn is_aborted(&self) -> (r: bool)
        ensures
            r == (self@ == TurnView::Aborted),
    {
        match self {
            Turn::Aborted => true,
            _ => false,
        }
    }

    /// Begins a turn with the event that arrived.
    pub fn open(config: &Config, event: InboundEvent) -> (r: (Turn, Option<Request>))
        ensures
            (r.0@, r.1.deep_view()) == begin(config@, event@),
    {
        match event {
            InboundEvent::Other => (Turn::Done, None),
            InboundEvent::Message { chat, text } => {
                if decimal_string(chat) != config.allowed_user_id {
                    return (
                        Turn::Closing,
                        Some(Request::Send { chat, text: String::from_str(DENIAL_TEXT) }),
                    );
                }
                let prompt = match text {
                    Some(t) => t,
                    None => String::new(),
                };
                match classify(prompt.as_str()) {
                    Command::Help => (
                        Turn::Closing,
                        Some(Request::Send { chat, text: config.help_mesg.clone() }),
                    ),
                    Command::Start => (
                        Turn::Marking { chat },
                        Some(Request::Send { chat, text: config.help_mesg.clone() }),
                    ),
                    Command::Restart => (
                        Turn::Marking { chat },
                        Some(Request::Send { chat, text: String::from_str(RESTART_TEXT) }),
                    ),
                    Command::Query => (
                        Turn::Placing { chat, prompt },
                        Some(Request::Send { chat, text: config.placeholder_text.clone() }),
                    ),
                }
            },
        }
    }

    /// Takes the turn one step on: hands it the event or the answer to its
    /// last request, and returns where it stands and what it asks for next.
    pub fn step(self, config: &Config, input: Input) -> (r: (Turn, Option<Request>))
        ensures
            (r.0@, r.1.deep_view()) == next(config@, self@, input@),
    {
        match self {
            Turn::Fresh => match input {
                Input::Event(event) => Turn::open(config, event),
                _ => (Turn::Aborted, None),
            },
            Turn::Marking { chat } => (
                Turn::Closing,
                Some(Request::Store { key: decimal_string(chat), pending: true }),
            ),
            Turn::Placing { chat, prompt } => match input {
                Input::Sent(Some(placeholder)) => (
                    Turn::Reading { chat, prompt, placeholder },
                    Some(Request::Fetch { key: decimal_string(chat) }),
                ),
                _ => (Turn::Aborted, None),
            },
            Turn::Reading { chat, prompt, placeholder } => match input {
                Input::Stored(value) => if value.pending() {
                    (
                        Turn::Clearing { chat, prompt, placeholder },
                        Some(Request::Store { key: decimal_string(chat), pending: false }),
                    )
                } else {
                    (
                        Turn::Completing { chat, placeholder },
                        Some(
                            Request::Complete {
                                conversation: decimal_string(chat),
                                prompt,
                                options: chat_options(config, false),
                            },
                        ),
                    )
                },
                _ => (Turn::Aborted, None),
            },
            Turn::Clearing { chat, prompt, placeholder } => (
                Turn::Completing { chat, placeholder },
                Some(
                    Request::Complete {
                        conversation: decimal_string(chat),
                        prompt,
                        options: chat_options(config, true),
                    },
                ),
            ),
            Turn::Completing { chat, placeholder } => match input {
                Input::Completed(Ok(choice)) => (
                    Turn::Closing,
                    Some(Request::Edit { chat, message: placeholder, text: choice }),
                ),
                Input::Completed(Err(detail)) => (
                    Turn::Reporting { detail },
                    Some(
                        Request::Edit {
                            chat,
                            message: placeholder,
                            text: String::from_str(APOLOGY_TEXT),
                        },
                    ),
                ),
                _ => (Turn::Aborted, None),
            },
            Turn::Reporting { detail } => (Turn::Closing, Some(Request::LogError { detail })),
            Turn::Closing => (Turn::Done, None),
            Turn::Done => (Turn::Done, None),
            Turn::Aborted => (Turn::Aborted, None),
        }
    }
}

} // verus!
