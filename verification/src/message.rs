//! What passes between the relay and the outside: the event that opens a
//! turn, the requests that the relay makes, and the answers it is given.

use vstd::prelude::*;

verus! {

/// One update from the messaging platform.
#[derive(Debug, PartialEq, Eq)]
pub enum InboundEvent {
    /// A new message in the chat with the number `chat`. `text` is absent
    /// where the message carries something other than text.
    Message { chat: i64, text: Option<String> },
    /// Any other kind of update.
    Other,
}

/// An `InboundEvent` as mathematical values.
pub enum InboundEventView {
    Message { chat: i64, text: Option<Seq<char>> },
    Other,
}

impl View for InboundEvent {
    type V = InboundEventView;

    open spec fn view(&self) -> InboundEventView {
        match *self {
            InboundEvent::Message { chat, text } => InboundEventView::Message {
                chat,
                text: text.deep_view(),
            },
            InboundEvent::Other => InboundEventView::Other,
        }
    }
}

/// What the conversation store holds under a key.
#[derive(Clone, Copy, Debug, PartialEq, Eq, Structural)]
pub enum StoredValue {
    /// Nothing is stored under the key.
    Absent,
    /// A boolean is stored.
    Flag(bool),
    /// Something that is not a boolean is stored.
    Other,
}

impl StoredValue {
    /// Whether the value marks the conversation for a restart: only a stored
    /// `true` does.
    pub open spec fn is_pending(self) -> bool {
        self == StoredValue::Flag(true)
    }

    /// Whether the value marks the conversation for a restart.
    pub fn pending(self) -> (r: bool)
        ensures
            r == self.is_pending(),
    {
        match self {
            StoredValue::Flag(flag) => flag,
            _ => false,
        }
    }
}

/// The options of one completion call.
#[derive(Debug, PartialEq, Eq)]
pub struct ChatOptions {
    /// The model to use.
    pub model: String,
    /// The token limit of the model.
    pub token_limit: u32,
    /// Whether the service is to begin a new conversation.
    pub restart: bool,
    /// The prompt of the system role.
    pub system_prompt: String,
}

/// `ChatOptions` as mathematical values.
pub struct ChatOptionsView {
    pub model: Seq<char>,
    pub token_limit: u32,
    pub restart: bool,
    pub system_prompt: Seq<char>,
}

impl View for ChatOptions {
    type V = ChatOptionsView;

    open spec fn view(&self) -> ChatOptionsView {
        ChatOptionsView {
            model: self.model@,
            token_limit: self.token_limit,
            restart: self.restart,
            system_prompt: self.system_prompt@,
        }
    }
}

/// Something that the relay asks the outside to do.
#[derive(Debug, PartialEq, Eq)]
pub enum Request {
    /// Send a new message with this text to the chat.
    Send { chat: i64, text: String },
    /// Store the flag under the key, without an expiry.
    Store { key: String, pending: bool },
    /// Read what is stored under the key.
    Fetch { key: String },
    /// Ask the completion service for an answer to `prompt` in the
    /// conversation named `conversation`.
    Complete { conversation: String, prompt: String, options: ChatOptions },
    /// Replace the text of the message `message` in the chat.
    Edit { chat: i64, message: i32, text: String },
    /// Write an entry at error level to the log.
    LogError { detail: String },
}

/// A `Request` as mathematical values.
pub enum RequestView {
    Send { chat: i64, text: Seq<char> },
    Store { key: Seq<char>, pending: bool },
    Fetch { key: Seq<char> },
    Complete { conversation: Seq<char>, prompt: Seq<char>, options: ChatOptionsView },
    Edit { chat: i64, message: i32, text: Seq<char> },
    LogError { detail: Seq<char> },
}

impl View for Request {
    type V = RequestView;

    open spec fn view(&self) -> RequestView {
        match *self {
            Request::Send { chat, text } => RequestView::Send { chat, text: text@ },
            Request::Store { key, pending } => RequestView::Store { key: key@, pending },
            Request::Fetch { key } => RequestView::Fetch { key: key@ },
            Request::Complete { conversation, prompt, options } => RequestView::Complete {
                conversation: conversation@,
                prompt: prompt@,
                options: options@,
            },
            Request::Edit { chat, message, text } => RequestView::Edit {
                chat,
                message,
                text: text@,
            },
            Request::LogError { detail } => RequestView::LogError { detail: detail@ },
        }
    }
}

impl DeepView for Request {
    type V = RequestView;

    open spec fn deep_view(&self) -> RequestView {
        self@
    }
}

/// What the relay is handed: the event that opens a turn, or the answer to
/// the request it made last.
#[derive(Debug, PartialEq, Eq)]
pub enum Input {
    /// An update arrived.
    Event(InboundEvent),
    /// The answer to `Request::Send`: the identity of the new message, or
    /// nothing where the message could not be sent.
    Sent(Option<i32>),
    /// The answer to `Request::Fetch`.
    Stored(StoredValue),
    /// The answer to `Request::Complete`: the text of the chosen completion,
    /// or what went wrong.
    Completed(Result<String, String>),
    /// The answer to a request whose outcome the relay does not ask for.
    Settled,
}

/// An `Input` as mathematical values.
pub enum InputView {
    Event(InboundEventView),
    Sent(Option<i32>),
    Stored(StoredValue),
    Completed(Result<Seq<char>, Seq<char>>),
    Settled,
}

impl View for Input {
    type V = InputView;

    open spec fn view(&self) -> InputView {
        match *self {
            Input::Event(event) => InputView::Event(event@),
            Input::Sent(message) => InputView::Sent(message),
            Input::Stored(value) => InputView::Stored(value),
            Input::Completed(Ok(choice)) => InputView::Completed(Ok(choice@)),
            Input::Completed(Err(detail)) => InputView::Completed(Err(detail@)),
            Input::Settled => InputView::Settled,
        }
    }
}

} // verus!
