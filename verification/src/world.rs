//! A model of the outside during one turn, and what holds of every turn
//! that is run against it.
//!
//! The model answers each request of a turn the way the outside services
//! would: the store remembers what was written to it, the messaging platform
//! and the completion service answer as the model says they will. Running a
//! turn against the model gives the requests of the turn in order, and the
//! store as the turn leaves it.

use vstd::prelude::*;
use crate::command::{command_of, Command};
use crate::config::ConfigView;
use crate::decimal::lemma_decimal_text_is_unique;
use crate::message::{InboundEventView, InputView, RequestView, StoredValue};
use crate::turn::{
    key_of, next, options_for, text_of, TurnView, APOLOGY_TEXT, DENIAL_TEXT, RESTART_TEXT,
};

verus! {

/// The outside as one turn meets it.
pub struct World {
    /// What the conversation store holds, by key.
    pub store: Map<Seq<char>, StoredValue>,
    /// What the messaging platform answers when a message is sent: the
    /// identity of the new message, or nothing where sending fails.
    pub sent: Option<i32>,
    /// What the completion service answers.
    pub completion: Result<Seq<char>, Seq<char>>,
}

impl World {
    /// What the store holds under a key.
    pub open spec fn stored(self, key: Seq<char>) -> StoredValue {
        if self.store.dom().contains(key) {
            self.store[key]
        } else {
            StoredValue::Absent
        }
    }

    /// The answer to a request.
    pub open spec fn answer(self, request: RequestView) -> InputView {
        match request {
            RequestView::Send { .. } => InputView::Sent(self.sent),
            RequestView::Fetch { key } => InputView::Stored(self.stored(key)),
            RequestView::Complete { .. } => InputView::Completed(self.completion),
            _ => InputView::Settled,
        }
    }

    /// The world once a request is carried out: a write to the store
    /// replaces what was stored under the key, nothing else changes anything
    /// that the model holds.
    pub open spec fn after(self, request: RequestView) -> World {
        match request {
            RequestView::Store { key, pending } => World {
                store: self.store.insert(key, StoredValue::Flag(pending)),
                ..self
            },
            _ => self,
        }
    }

    /// The world once a sequence of requests is carried out in order.
    pub open spec fn after_all(self, requests: Seq<RequestView>) -> World
        decreases requests.len(),
    {
        if requests.len() == 0 {
            self
        } else {
            self.after(requests.first()).after_all(requests.drop_first())
        }
    }
}

/// How many requests a turn can still make, at most.
pub open spec fn requests_left(turn: TurnView) -> nat {
    match turn {
        TurnView::Fresh => 6,
        TurnView::Placing { .. } => 5,
        TurnView::Reading { .. } => 4,
        TurnView::Clearing { .. } => 3,
        TurnView::Completing { .. } => 2,
        TurnView::Reporting { .. } => 1,
        TurnView::Marking { .. } => 1,
        TurnView::Closing => 0,
        TurnView::Done => 0,
        TurnView::Aborted => 0,
    }
}

/// A turn that was run to its end.
pub struct Run {
    /// The requests that the turn made, in order.
    pub requests: Seq<RequestView>,
    /// Where the turn stood when it asked for nothing more.
    pub end: TurnView,
    /// The outside as the turn left it.
    pub world: World,
}

/// Runs a turn from where it stands: hands it the input, carries out what it
/// asks for, hands it the answer, until it asks for nothing more.
pub open spec fn run_from(config: ConfigView, turn: TurnView, input: InputView, world: World) -> Run
    decreases requests_left(turn),
{
    let (then, request) = next(config, turn, input);
    match request {
        None => Run { requests: Seq::empty(), end: then, world },
        Some(r) => {
            let rest = run_from(config, then, world.answer(r), world.after(r));
            Run { requests: seq![r] + rest.requests, end: rest.end, world: rest.world }
        },
    }
}

/// Runs the turn that an event opens.
pub open spec fn run(config: ConfigView, event: InboundEventView, world: World) -> Run {
    run_from(config, TurnView::Fresh, InputView::Event(event), world)
}

/// Every request brings a turn nearer to its end, and a turn that asks for
/// nothing more is over: it is done or was given up.
pub proof fn lemma_turn_ends(config: ConfigView, turn: TurnView, input: InputView)
    ensures
        next(config, turn, input).1 is Some ==> requests_left(next(config, turn, input).0)
            < requests_left(turn),
        next(config, turn, input).1 is None ==> next(config, turn, input).0 == TurnView::Done
            || next(config, turn, input).0 == TurnView::Aborted,
{
}

/// A run makes no more requests than its turn had left, so a whole turn
/// makes six at most; and it ends done or given up.
pub proof fn lemma_run_is_short(config: ConfigView, turn: TurnView, input: InputView, world: World)
    ensures
        run_from(config, turn, input, world).requests.len() <= requests_left(turn),
        run_from(config, turn, input, world).end == TurnView::Done || run_from(
            config,
            turn,
            input,
            world,
        ).end == TurnView::Aborted,
    decreases requests_left(turn),
{
    let (then, request) = next(config, turn, input);
    match request {
        None => {},
        Some(r) => {
            lemma_run_is_short(config, then, world.answer(r), world.after(r));
        },
    }
}

/// The requests that end a query once the completion service has answered:
/// on success the placeholder becomes the chosen text; on failure it becomes
/// the apology, and the failure goes to the log.
pub open spec fn closing_requests(
    chat: i64,
    placeholder: i32,
    completion: Result<Seq<char>, Seq<char>>,
) -> Seq<RequestView> {
    match completion {
        Ok(choice) => seq![RequestView::Edit { chat, message: placeholder, text: choice }],
        Err(detail) => seq![
            RequestView::Edit { chat, message: placeholder, text: APOLOGY_TEXT@ },
            RequestView::LogError { detail },
        ],
    }
}

/// The outside as a turn leaves it is the outside in which the requests of
/// the turn were carried out one after the other.
pub proof fn lemma_world_follows_requests(
    config: ConfigView,
    turn: TurnView,
    input: InputView,
    world: World,
)
    ensures
        run_from(config, turn, input, world).world == world.after_all(
            run_from(config, turn, input, world).requests,
        ),
    decreases requests_left(turn),
{
    let (then, request) = next(config, turn, input);
    match request {
        None => {},
        Some(r) => {
            let rest = run_from(config, then, world.answer(r), world.after(r));
            lemma_world_follows_requests(config, then, world.answer(r), world.after(r));
            let all = seq![r] + rest.requests;
            assert(all.first() == r);
            assert(all.drop_first() =~= rest.requests);
        },
    }
}

/// An update that is no message is ignored: nothing is asked of the outside.
pub proof fn lemma_other_updates_are_ignored(config: ConfigView, world: World)
    ensures
        run(config, InboundEventView::Other, world) == (Run {
            requests: Seq::empty(),
            end: TurnView::Done,
            world,
        }),
{
}

/// A message from any chat but the allowed one has one effect: the denial
/// is sent. The store and the completion service are not touched, whatever
/// the text says.
pub proof fn lemma_stranger_is_denied(
    config: ConfigView,
    chat: i64,
    text: Option<Seq<char>>,
    world: World,
)
    requires
        key_of(chat) != config.allowed_user_id,
    ensures
        run(config, InboundEventView::Message { chat, text }, world) == (Run {
            requests: seq![RequestView::Send { chat, text: DENIAL_TEXT@ }],
            end: TurnView::Done,
            world,
        }),
{
    reveal_with_fuel(run_from, 3);
    let r = run(config, InboundEventView::Message { chat, text }, world);
    assert(r.requests =~= seq![RequestView::Send { chat, text: DENIAL_TEXT@ }]);
}

/// The help command of the allowed chat has one effect: the help text is
/// sent.
pub proof fn lemma_help_is_answered(
    config: ConfigView,
    chat: i64,
    text: Option<Seq<char>>,
    world: World,
)
    requires
        key_of(chat) == config.allowed_user_id,
        command_of(text_of(text)) == Command::Help,
    ensures
        run(config, InboundEventView::Message { chat, text }, world) == (Run {
            requests: seq![RequestView::Send { chat, text: config.help_mesg }],
            end: TurnView::Done,
            world,
        }),
{
    reveal_with_fuel(run_from, 3);
    let r = run(config, InboundEventView::Message { chat, text }, world);
    assert(r.requests =~= seq![RequestView::Send { chat, text: config.help_mesg }]);
}

/// The start and restart commands of the allowed chat send one message, the
/// help text for start and the acknowledgement for restart, and then mark the
/// conversation of that chat for a restart. Nothing is edited and the
/// completion service is not called. What the store held before, and whether
/// the message could be sent, makes no difference.
pub proof fn lemma_start_and_restart_mark(
    config: ConfigView,
    chat: i64,
    text: Option<Seq<char>>,
    world: World,
)
    requires
        key_of(chat) == config.allowed_user_id,
        command_of(text_of(text)) == Command::Start || command_of(text_of(text))
            == Command::Restart,
    ensures
        ({
            let r = run(config, InboundEventView::Message { chat, text }, world);
            let reply = if command_of(text_of(text)) == Command::Start {
                config.help_mesg
            } else {
                RESTART_TEXT@
            };
            &&& r.requests == seq![
                RequestView::Send { chat, text: reply },
                RequestView::Store { key: key_of(chat), pending: true },
            ]
            &&& r.end == TurnView::Done
            &&& r.world.store == world.store.insert(key_of(chat), StoredValue::Flag(true))
            &&& r.world.stored(key_of(chat)) == StoredValue::Flag(true)
        }),
{
    reveal_with_fuel(run_from, 4);
    let r = run(config, InboundEventView::Message { chat, text }, world);
    let reply = if command_of(text_of(text)) == Command::Start {
        config.help_mesg
    } else {
        RESTART_TEXT@
    };
    assert(r.requests =~= seq![
        RequestView::Send { chat, text: reply },
        RequestView::Store { key: key_of(chat), pending: true },
    ]);
}

/// A query whose placeholder cannot be sent is given up at once: the store
/// is not read and the completion service is not called.
pub proof fn lemma_query_without_placeholder_is_given_up(
    config: ConfigView,
    chat: i64,
    text: Option<Seq<char>>,
    world: World,
)
    requires
        key_of(chat) == config.allowed_user_id,
        command_of(text_of(text)) == Command::Query,
        world.sent is None,
    ensures
        run(config, InboundEventView::Message { chat, text }, world) == (Run {
            requests: seq![RequestView::Send { chat, text: config.placeholder_text }],
            end: TurnView::Aborted,
            world,
        }),
{
    reveal_with_fuel(run_from, 3);
    let r = run(config, InboundEventView::Message { chat, text }, world);
    assert(r.requests =~= seq![RequestView::Send { chat, text: config.placeholder_text }]);
}

/// A query while no restart is pending (nothing is stored for the chat, or
/// `false`, or something that is no boolean): the store is left as it was,
/// and if the completion service is called, the restart option is off. Where
/// the placeholder can be sent, the turn sends it, reads the store, calls the
/// completion service and replaces the placeholder.
pub proof fn lemma_query_without_mark(
    config: ConfigView,
    chat: i64,
    text: Option<Seq<char>>,
    world: World,
)
    requires
        key_of(chat) == config.allowed_user_id,
        command_of(text_of(text)) == Command::Query,
        !world.stored(key_of(chat)).is_pending(),
    ensures
        ({
            let r = run(config, InboundEventView::Message { chat, text }, world);
            &&& r.world == world
            &&& forall|i: int|
                0 <= i < r.requests.len() ==> (#[trigger] r.requests[i] matches RequestView::Complete {
                    options,
                    ..
                } ==> !options.restart)
            &&& world.sent is Some ==> {
                &&& r.requests == seq![
                    RequestView::Send { chat, text: config.placeholder_text },
                    RequestView::Fetch { key: key_of(chat) },
                    RequestView::Complete {
                        conversation: key_of(chat),
                        prompt: text_of(text),
                        options: options_for(config, false),
                    },
                ] + closing_requests(chat, world.sent->0, world.completion)
                &&& r.end == TurnView::Done
            }
        }),
{
    if world.sent is None {
        lemma_query_without_placeholder_is_given_up(config, chat, text, world);
    } else {
        reveal_with_fuel(run_from, 7);
        let r = run(config, InboundEventView::Message { chat, text }, world);
        assert(r.requests =~= seq![
            RequestView::Send { chat, text: config.placeholder_text },
            RequestView::Fetch { key: key_of(chat) },
            RequestView::Complete {
                conversation: key_of(chat),
                prompt: text_of(text),
                options: options_for(config, false),
            },
        ] + closing_requests(chat, world.sent->0, world.completion));
    }
}

/// A query while a restart is pending: the placeholder is sent, the store is
/// read, the mark is taken back, and only then the completion service is
/// called, with the restart option on. When the service is called the store
/// holds `false` for the chat, and it still does when the turn is over,
/// whether the service answered or failed.
pub proof fn lemma_query_consumes_mark(
    config: ConfigView,
    chat: i64,
    text: Option<Seq<char>>,
    world: World,
)
    requires
        key_of(chat) == config.allowed_user_id,
        command_of(text_of(text)) == Command::Query,
        world.sent is Some,
        world.stored(key_of(chat)).is_pending(),
    ensures
        ({
            let r = run(config, InboundEventView::Message { chat, text }, world);
            &&& r.requests == seq![
                RequestView::Send { chat, text: config.placeholder_text },
                RequestView::Fetch { key: key_of(chat) },
                RequestView::Store { key: key_of(chat), pending: false },
                RequestView::Complete {
                    conversation: key_of(chat),
                    prompt: text_of(text),
                    options: options_for(config, true),
                },
            ] + closing_requests(chat, world.sent->0, world.completion)
            &&& world.after_all(r.requests.take(3)).stored(key_of(chat)) == StoredValue::Flag(false)
            &&& r.end == TurnView::Done
            &&& r.world.store == world.store.insert(key_of(chat), StoredValue::Flag(false))
            &&& r.world.stored(key_of(chat)) == StoredValue::Flag(false)
        }),
{
    reveal_with_fuel(run_from, 8);
    let r = run(config, InboundEventView::Message { chat, text }, world);
    let head = seq![
        RequestView::Send { chat, text: config.placeholder_text },
        RequestView::Fetch { key: key_of(chat) },
        RequestView::Store { key: key_of(chat), pending: false },
        RequestView::Complete {
            conversation: key_of(chat),
            prompt: text_of(text),
            options: options_for(config, true),
        },
    ];
    assert(r.requests =~= head + closing_requests(chat, world.sent->0, world.completion));
    let first = r.requests.take(3);
    assert(first =~= seq![head[0], head[1], head[2]]);
    reveal_with_fuel(World::after_all, 4);
    assert(first.drop_first() =~= seq![head[1], head[2]]);
    assert(first.drop_first().drop_first() =~= seq![head[2]]);
    assert(first.drop_first().drop_first().drop_first() =~= Seq::<RequestView>::empty());
}

/// How a query ends, whether or not a restart was pending. Where the
/// completion service answers, the last request of the turn replaces the
/// placeholder by exactly the chosen text, and nothing is logged. Where the
/// service fails, the placeholder is replaced by the apology and the failure
/// is logged, once, as the last request of the turn.
pub proof fn lemma_completion_replaces_placeholder(
    config: ConfigView,
    chat: i64,
    text: Option<Seq<char>>,
    world: World,
)
    requires
        key_of(chat) == config.allowed_user_id,
        command_of(text_of(text)) == Command::Query,
        world.sent is Some,
    ensures
        ({
            let r = run(config, InboundEventView::Message { chat, text }, world);
            let n = r.requests.len() as int;
            match world.completion {
                Ok(choice) => {
                    &&& n >= 1
                    &&& r.requests[n - 1] == RequestView::Edit {
                        chat,
                        message: world.sent->0,
                        text: choice,
                    }
                    &&& forall|i: int| 0 <= i < n ==> !(#[trigger] r.requests[i] is LogError)
                },
                Err(detail) => {
                    &&& n >= 2
                    &&& r.requests[n - 2] == RequestView::Edit {
                        chat,
                        message: world.sent->0,
                        text: APOLOGY_TEXT@,
                    }
                    &&& r.requests[n - 1] == RequestView::LogError { detail }
                    &&& forall|i: int|
                        0 <= i < n ==> (#[trigger] r.requests[i] is LogError <==> i == n - 1)
                },
            }
        }),
{
    if world.stored(key_of(chat)).is_pending() {
        lemma_query_consumes_mark(config, chat, text, world);
    } else {
        lemma_query_without_mark(config, chat, text, world);
    }
}

/// A turn leaves the conversations of all other chats as they are: whatever
/// the event of a chat brings about, what the store holds for another chat
/// is the same before and after.
pub proof fn lemma_turn_keeps_other_conversations(
    config: ConfigView,
    chat: i64,
    text: Option<Seq<char>>,
    world: World,
    other: i64,
)
    requires
        other != chat,
    ensures
        run(config, InboundEventView::Message { chat, text }, world).world.stored(key_of(other))
            == world.stored(key_of(other)),
{
    if key_of(other) == key_of(chat) {
        lemma_decimal_text_is_unique(other as int, chat as int);
    }
    if key_of(chat) != config.allowed_user_id {
        lemma_stranger_is_denied(config, chat, text, world);
    } else {
        match command_of(text_of(text)) {
            Command::Help => lemma_help_is_answered(config, chat, text, world),
            Command::Start => lemma_start_and_restart_mark(config, chat, text, world),
            Command::Restart => lemma_start_and_restart_mark(config, chat, text, world),
            Command::Query => {
                if world.sent is None {
                    lemma_query_without_placeholder_is_given_up(config, chat, text, world);
                } else if world.stored(key_of(chat)).is_pending() {
                    lemma_query_consumes_mark(config, chat, text, world);
                } else {
                    lemma_query_without_mark(config, chat, text, world);
                }
            },
        }
    }
}

/// A mark lasts for one query. After a start or restart command, the next
/// query of the chat calls the completion service with the restart option
/// on, and the query after that with the option off.
pub proof fn lemma_mark_lasts_one_query(
    config: ConfigView,
    chat: i64,
    command: Option<Seq<char>>,
    first: Option<Seq<char>>,
    second: Option<Seq<char>>,
    world: World,
)
    requires
        key_of(chat) == config.allowed_user_id,
        command_of(text_of(command)) == Command::Start || command_of(text_of(command))
            == Command::Restart,
        command_of(text_of(first)) == Command::Query,
        command_of(text_of(second)) == Command::Query,
        world.sent is Some,
    ensures
        ({
            let marked = run(config, InboundEventView::Message { chat, text: command }, world);
            let once = run(config, InboundEventView::Message { chat, text: first }, marked.world);
            let twice = run(config, InboundEventView::Message { chat, text: second }, once.world);
            &&& once.requests[3] == RequestView::Complete {
                conversation: key_of(chat),
                prompt: text_of(first),
                options: options_for(config, true),
            }
            &&& twice.requests[2] == RequestView::Complete {
                conversation: key_of(chat),
                prompt: text_of(second),
                options: options_for(config, false),
            }
            &&& twice.world.stored(key_of(chat)) == StoredValue::Flag(false)
        }),
{
    let marked = run(config, InboundEventView::Message { chat, text: command }, world);
    lemma_start_and_restart_mark(config, chat, command, world);
    lemma_world_keeps_its_answers(
        config,
        TurnView::Fresh,
        InputView::Event(InboundEventView::Message { chat, text: command }),
        world,
    );
    let once = run(config, InboundEventView::Message { chat, text: first }, marked.world);
    lemma_query_consumes_mark(config, chat, first, marked.world);
    lemma_world_keeps_its_answers(
        config,
        TurnView::Fresh,
        InputView::Event(InboundEventView::Message { chat, text: first }),
        marked.world,
    );
    lemma_query_without_mark(config, chat, second, once.world);
}

/// A turn changes nothing in how the messaging platform and the completion
/// service answer.
pub proof fn lemma_world_keeps_its_answers(
    config: ConfigView,
    turn: TurnView,
    input: InputView,
    world: World,
)
    ensures
        run_from(config, turn, input, world).world.sent == world.sent,
        run_from(config, turn, input, world).world.completion == world.completion,
    decreases requests_left(turn),
{
    let (then, request) = next(config, turn, input);
    match request {
        None => {},
        Some(r) => {
            lemma_world_keeps_its_answers(config, then, world.answer(r), world.after(r));
        },
    }
}

/// How many of the requests are of the wanted kind.
pub open spec fn occurrences(
    requests: Seq<RequestView>,
    wanted: spec_fn(RequestView) -> bool,
) -> nat
    decreases requests.len(),
{
    if requests.len() == 0 {
        0
    } else if wanted(requests.first()) {
        1 + occurrences(requests.drop_first(), wanted)
    } else {
        occurrences(requests.drop_first(), wanted)
    }
}

/// Where no step of a turn spends more than it has of a budget, the whole
/// run stays within the budget.
proof fn lemma_run_stays_within(
    config: ConfigView,
    turn: TurnView,
    input: InputView,
    world: World,
    wanted: spec_fn(RequestView) -> bool,
    budget: spec_fn(TurnView) -> nat,
)
    requires
        forall|t: TurnView, i: InputView|
            (#[trigger] next(config, t, i)).1 matches Some(r) ==> budget(next(config, t, i).0) + (
            if wanted(r) {
                1nat
            } else {
                0nat
            }) <= budget(t),
    ensures
        occurrences(run_from(config, turn, input, world).requests, wanted) <= budget(turn),
    decreases requests_left(turn),
{
    let (then, request) = next(config, turn, input);
    match request {
        None => {},
        Some(r) => {
            let rest = run_from(config, then, world.answer(r), world.after(r));
            lemma_run_stays_within(config, then, world.answer(r), world.after(r), wanted, budget);
            let all = seq![r] + rest.requests;
            assert(all.first() == r);
            assert(all.drop_first() =~= rest.requests);
        },
    }
}

/// A turn makes each kind of request once at most, whatever the event and
/// however the outside answers: one message is sent and one is edited at
/// most, the store is read once at most and written once at most, the
/// completion service is called once at most, and one entry at most goes to
/// the log.
pub proof fn lemma_each_request_once(config: ConfigView, event: InboundEventView, world: World)
    ensures
        ({
            let requests = run(config, event, world).requests;
            &&& occurrences(requests, |r: RequestView| r is Send) <= 1
            &&& occurrences(requests, |r: RequestView| r is Fetch) <= 1
            &&& occurrences(requests, |r: RequestView| r is Store) <= 1
            &&& occurrences(requests, |r: RequestView| r is Complete) <= 1
            &&& occurrences(requests, |r: RequestView| r is Edit) <= 1
            &&& occurrences(requests, |r: RequestView| r is LogError) <= 1
        }),
{
    let start = TurnView::Fresh;
    let input = InputView::Event(event);
    lemma_run_stays_within(
        config,
        start,
        input,
        world,
        |r: RequestView| r is Send,
        |t: TurnView|
            if t is Fresh {
                1nat
            } else {
                0nat
            },
    );
    lemma_run_stays_within(
        config,
        start,
        input,
        world,
        |r: RequestView| r is Fetch,
        |t: TurnView|
            if t is Fresh || t is Placing {
                1nat
            } else {
                0nat
            },
    );
    lemma_run_stays_within(
        config,
        start,
        input,
        world,
        |r: RequestView| r is Store,
        |t: TurnView|
            if t is Fresh || t is Placing || t is Reading || t is Marking {
                1nat
            } else {
                0nat
            },
    );
    lemma_run_stays_within(
        config,
        start,
        input,
        world,
        |r: RequestView| r is Complete,
        |t: TurnView|
            if t is Fresh || t is Placing || t is Reading || t is Clearing {
                1nat
            } else {
                0nat
            },
    );
    lemma_run_stays_within(
        config,
        start,
        input,
        world,
        |r: RequestView| r is Edit,
        |t: TurnView|
            if t is Fresh || t is Placing || t is Reading || t is Clearing || t is Completing {
                1nat
            } else {
                0nat
            },
    );
    lemma_run_stays_within(
        config,
        start,
        input,
        world,
        |r: RequestView| r is LogError,
        |t: TurnView|
            if t is Closing || t is Done || t is Aborted || t is Marking {
                0nat
            } else {
                1nat
            },
    );
}

} // verus!
