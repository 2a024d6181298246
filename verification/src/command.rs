//! The command vocabulary and how a text is read as a command.

use vstd::prelude::*;
use vstd::string::*;

verus! {

/// The text that asks for the help message.
pub const HELP_COMMAND: &'static str = "/help";

/// The text that opens a conversation.
pub const START_COMMAND: &'static str = "/start";

/// The text that asks for a fresh conversation.
pub const RESTART_COMMAND: &'static str = "/restart";

/// What an inbound text asks for.
#[derive(Clone, Copy, Debug, PartialEq, Eq, Structural)]
pub enum Command {
    /// Show the help message.
    Help,
    /// Show the help message and mark the conversation for a restart.
    Start,
    /// Acknowledge and mark the conversation for a restart.
    Restart,
    /// Anything else: a turn of the conversation.
    Query,
}

/// One character with the ASCII capitals moved to lower case; every other
/// character is left as it is.
pub open spec fn ascii_lower(c: char) -> char {
    if 'A' <= c && c <= 'Z' {
        ((c as int) + 32) as char
    } else {
        c
    }
}

/// Two texts are the same up to the case of their ASCII letters.
pub open spec fn same_ignoring_ascii_case(a: Seq<char>, b: Seq<char>) -> bool {
    &&& a.len() == b.len()
    &&& forall|i: int| 0 <= i < a.len() ==> ascii_lower(#[trigger] a[i]) == ascii_lower(b[i])
}

/// The command that a text stands for. A command is the whole text, in any
/// mix of upper and lower case; a text that only begins with or contains a
/// command is a query.
pub open spec fn command_of(text: Seq<char>) -> Command {
    if same_ignoring_ascii_case(text, HELP_COMMAND@) {
        Command::Help
    } else if same_ignoring_ascii_case(text, START_COMMAND@) {
        Command::Start
    } else if same_ignoring_ascii_case(text, RESTART_COMMAND@) {
        Command::Restart
    } else {
        Command::Query
    }
}

fn lower_byte(b: u8) -> (r: u8)
    requires
        b < 128,
    ensures
        r < 128,
        r as char == ascii_lower(b as char),
{
    if 65 <= b && b <= 90 {
        b + 32
    } else {
        b
    }
}

/// Compares an ASCII text with an ASCII pattern, letter case aside.
fn matches_ascii(text: &str, pattern: &str) -> (r: bool)
    requires
        is_ascii(text),
        is_ascii(pattern),
    ensures
        r == same_ignoring_ascii_case(text@, pattern@),
{
    broadcast use is_ascii_spec_bytes;

    let left = text.as_bytes();
    let right = pattern.as_bytes();
    assert(left@.len() == text@.len() && right@.len() == pattern@.len());
    let n: usize = left.len();
    if n != right.len() {
        return false;
    }
    let mut i: usize = 0;
    while i < n
        invariant
            vstd::utf8::is_ascii_chars(text@),
            vstd::utf8::is_ascii_chars(pattern@),
            left@.len() == text@.len(),
            right@.len() == pattern@.len(),
            forall|j: int| 0 <= j < text@.len() ==> #[trigger] left@[j] == text@[j] as u8,
            forall|j: int| 0 <= j < pattern@.len() ==> #[trigger] right@[j] == pattern@[j] as u8,
            n == left@.len(),
            n == right@.len(),
            i <= n,
            forall|j: int|
                0 <= j < i ==> ascii_lower(#[trigger] text@[j]) == ascii_lower(pattern@[j]),
        decreases n - i,
    {
        let a: u8 = left[i];
        let b: u8 = right[i];
        assert(a == text@[i as int] as u8 && b == pattern@[i as int] as u8);
        assert(a as char == text@[i as int] && b as char == pattern@[i as int]);
        if lower_byte(a) != lower_byte(b) {
            assert(ascii_lower(text@[i as int]) != ascii_lower(pattern@[i as int]));
            return false;
        }
        i += 1;
    }
    true
}

/// Reads a text as a command.
pub fn classify(text: &str) -> (c: Command)
    ensures
        c == command_of(text@),
{
    proof {
        reveal_strlit("/help");
        reveal_strlit("/start");
        reveal_strlit("/restart");
    }
    if !text.is_ascii() {
        proof {
            lemma_not_ascii_is_query(text@);
        }
        return Command::Query;
    }
    if matches_ascii(text, HELP_COMMAND) {
        Command::Help
    } else if matches_ascii(text, START_COMMAND) {
        Command::Start
    } else if matches_ascii(text, RESTART_COMMAND) {
        Command::Restart
    } else {
        Command::Query
    }
}

/// A text with a character outside ASCII matches no ASCII pattern, so it is
/// a query.
proof fn lemma_not_ascii_is_query(text: Seq<char>)
    requires
        !vstd::utf8::is_ascii_chars(text),
    ensures
        command_of(text) == Command::Query,
{
    reveal_strlit("/help");
    reveal_strlit("/start");
    reveal_strlit("/restart");
    let i = choose|i: int| 0 <= i < text.len() && !('\0' <= #[trigger] text[i] <= '\u{7f}');
    assert(ascii_lower(text[i]) == text[i]);
    if text.len() == HELP_COMMAND@.len() {
        assert(ascii_lower(HELP_COMMAND@[i]) <= '\u{7f}');
    }
    if text.len() == START_COMMAND@.len() {
        assert(ascii_lower(START_COMMAND@[i]) <= '\u{7f}');
    }
    if text.len() == RESTART_COMMAND@.len() {
        assert(ascii_lower(RESTART_COMMAND@[i]) <= '\u{7f}');
    }
}

/// Each command is recognised by its own text and by nothing else.
pub proof fn lemma_command_matches_its_text(text: Seq<char>)
    ensures
        command_of(text) == Command::Help <==> same_ignoring_ascii_case(text, HELP_COMMAND@),
        command_of(text) == Command::Start <==> same_ignoring_ascii_case(text, START_COMMAND@),
        command_of(text) == Command::Restart <==> same_ignoring_ascii_case(
            text,
            RESTART_COMMAND@,
        ),
{
    reveal_strlit("/help");
    reveal_strlit("/start");
    reveal_strlit("/restart");
}

/// The command of a text does not depend on the case of its ASCII letters:
/// two texts that differ in nothing else stand for the same command.
pub proof fn lemma_command_ignores_case(a: Seq<char>, b: Seq<char>)
    requires
        same_ignoring_ascii_case(a, b),
    ensures
        command_of(a) == command_of(b),
{
    lemma_same_pattern(a, b, HELP_COMMAND@);
    lemma_same_pattern(a, b, START_COMMAND@);
    lemma_same_pattern(a, b, RESTART_COMMAND@);
}

proof fn lemma_same_pattern(a: Seq<char>, b: Seq<char>, pattern: Seq<char>)
    requires
        same_ignoring_ascii_case(a, b),
    ensures
        same_ignoring_ascii_case(a, pattern) == same_ignoring_ascii_case(b, pattern),
{
    if same_ignoring_ascii_case(a, pattern) {
        assert forall|i: int| 0 <= i < b.len() implies ascii_lower(#[trigger] b[i])
            == ascii_lower(pattern[i]) by {
            assert(ascii_lower(a[i]) == ascii_lower(b[i]));
        }
    }
    if same_ignoring_ascii_case(b, pattern) {
        assert forall|i: int| 0 <= i < a.len() implies ascii_lower(#[trigger] a[i])
            == ascii_lower(pattern[i]) by {
            assert(ascii_lower(a[i]) == ascii_lower(b[i]));
        }
    }
}

/// A command is the whole text. A text that holds a command and anything
/// before or after it is a query.
pub proof fn lemma_command_is_whole_text(before: Seq<char>, command: Seq<char>, after: Seq<char>)
    requires
        command_of(command) != Command::Query,
        before.len() + after.len() > 0,
    ensures
        command_of(before + command + after) == Command::Query,
{
    reveal_strlit("/help");
    reveal_strlit("/start");
    reveal_strlit("/restart");
    let text = before + command + after;
    let k = before.len() as int;
    assert(text[k] == command[0]);
    assert(text[k + 1] == command[1]);
    assert(ascii_lower(command[0]) == '/');
    assert(ascii_lower(command[1]) == 'h' || ascii_lower(command[1]) == 's' || ascii_lower(
        command[1],
    ) == 'r');
    if same_ignoring_ascii_case(text, START_COMMAND@) {
        assert(ascii_lower(text[k]) == ascii_lower(START_COMMAND@[k]));
        assert(ascii_lower(text[k + 1]) == ascii_lower(START_COMMAND@[k + 1]));
    }
    if same_ignoring_ascii_case(text, RESTART_COMMAND@) {
        assert(ascii_lower(text[k]) == ascii_lower(RESTART_COMMAND@[k]));
        assert(ascii_lower(text[k + 1]) == ascii_lower(RESTART_COMMAND@[k + 1]));
    }
}

} // verus!
