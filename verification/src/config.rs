//! The settings of the relay.

use vstd::prelude::*;
use vstd::string::*;
use crate::decimal::{decimal_value, is_digit};

verus! {

/// The placeholder where none is set.
pub const DEFAULT_PLACEHOLDER: &'static str = "Typing ...";

/// The system prompt where none is set.
pub const DEFAULT_SYSTEM_PROMPT: &'static str =
    "You are a helpful assistant answering questions on Telegram.";

/// The help text where none is set.
pub const DEFAULT_HELP: &'static str =
    "I am your assistant on Telegram. Ask me any question! To start a new conversation, type the /restart command.";

/// The completion endpoint where none is set.
pub const DEFAULT_ENDPOINT: &'static str = "https://llama.us.gaianet.network/v1";

/// The model where none is set.
pub const DEFAULT_MODEL: &'static str = "llama";

/// The context size where none is set.
pub const DEFAULT_CONTEXT_SIZE: u32 = 16384;

/// The credential for the completion service where none is set.
pub const DEFAULT_API_KEY: &'static str = "LLAMAEDGE";

/// The settings that one process works with. They are fixed when the process
/// starts and only read afterwards.
#[derive(Debug, PartialEq, Eq)]
pub struct Config {
    /// The one chat identity that may talk to the relay.
    pub allowed_user_id: String,
    /// The credential for the messaging platform.
    pub telegram_token: String,
    /// The text shown while an answer is being produced.
    pub placeholder_text: String,
    /// The system prompt handed to the completion service.
    pub system_prompt: String,
    /// The text sent for the help and start commands.
    pub help_mesg: String,
    /// Where the completion service is reached.
    pub llm_api_endpoint: String,
    /// The model asked for.
    pub llm_model_name: String,
    /// The context size of the model, in tokens.
    pub llm_ctx_size: u32,
    /// The credential for the completion service.
    pub llm_api_key: String,
}

/// What a `Config` holds, as mathematical values.
pub struct ConfigView {
    pub allowed_user_id: Seq<char>,
    pub telegram_token: Seq<char>,
    pub placeholder_text: Seq<char>,
    pub system_prompt: Seq<char>,
    pub help_mesg: Seq<char>,
    pub llm_api_endpoint: Seq<char>,
    pub llm_model_name: Seq<char>,
    pub llm_ctx_size: u32,
    pub llm_api_key: Seq<char>,
}

impl View for Config {
    type V = ConfigView;

    open spec fn view(&self) -> ConfigView {
        ConfigView {
            allowed_user_id: self.allowed_user_id@,
            telegram_token: self.telegram_token@,
            placeholder_text: self.placeholder_text@,
            system_prompt: self.system_prompt@,
            help_mesg: self.help_mesg@,
            llm_api_endpoint: self.llm_api_endpoint@,
            llm_model_name: self.llm_model_name@,
            llm_ctx_size: self.llm_ctx_size,
            llm_api_key: self.llm_api_key@,
        }
    }
}

/// The settings as the environment of the process gives them: each one the
/// text that was set, or nothing.
#[derive(Debug, PartialEq, Eq)]
pub struct Settings {
    pub allowed_user_id: Option<String>,
    pub telegram_token: Option<String>,
    pub placeholder: Option<String>,
    pub system_prompt: Option<String>,
    pub help_mesg: Option<String>,
    pub llm_api_endpoint: Option<String>,
    pub llm_model_name: Option<String>,
    pub llm_ctx_size: Option<String>,
    pub llm_api_key: Option<String>,
}

/// `Settings` as mathematical values.
pub struct SettingsView {
    pub allowed_user_id: Option<Seq<char>>,
    pub telegram_token: Option<Seq<char>>,
    pub placeholder: Option<Seq<char>>,
    pub system_prompt: Option<Seq<char>>,
    pub help_mesg: Option<Seq<char>>,
    pub llm_api_endpoint: Option<Seq<char>>,
    pub llm_model_name: Option<Seq<char>>,
    pub llm_ctx_size: Option<Seq<char>>,
    pub llm_api_key: Option<Seq<char>>,
}

impl View for Settings {
    type V = SettingsView;

    open spec fn view(&self) -> SettingsView {
        SettingsView {
            allowed_user_id: self.allowed_user_id.deep_view(),
            telegram_token: self.telegram_token.deep_view(),
            placeholder: self.placeholder.deep_view(),
            system_prompt: self.system_prompt.deep_view(),
            help_mesg: self.help_mesg.deep_view(),
            llm_api_endpoint: self.llm_api_endpoint.deep_view(),
            llm_model_name: self.llm_model_name.deep_view(),
            llm_ctx_size: self.llm_ctx_size.deep_view(),
            llm_api_key: self.llm_api_key.deep_view(),
        }
    }
}

impl Default for Settings {
    /// Settings of which none is set.
    fn default() -> (settings: Settings)
        ensures
            settings@ == (SettingsView {
                allowed_user_id: None,
                telegram_token: None,
                placeholder: None,
                system_prompt: None,
                help_mesg: None,
                llm_api_endpoint: None,
                llm_model_name: None,
                llm_ctx_size: None,
                llm_api_key: None,
            }),
    {
        Settings {
            allowed_user_id: None,
            telegram_token: None,
            placeholder: None,
            system_prompt: None,
            help_mesg: None,
            llm_api_endpoint: None,
            llm_model_name: None,
            llm_ctx_size: None,
            llm_api_key: None,
        }
    }
}

/// Why settings make no `Config`.
#[derive(Clone, Copy, Debug, PartialEq, Eq, Structural)]
pub enum ConfigError {
    /// The credential for the messaging platform is not set.
    MissingToken,
}

/// A text without the plus sign that may stand in front of a number.
pub open spec fn without_sign(text: Seq<char>) -> Seq<char> {
    if text.len() > 0 && text[0] == '+' {
        text.drop_first()
    } else {
        text
    }
}

/// Whether a text writes a number that is not negative: one or more decimal
/// digits, with or without a plus sign in front, and nothing else.
pub open spec fn is_number(text: Seq<char>) -> bool {
    let digits = without_sign(text);
    &&& digits.len() > 0
    &&& forall|i: int| 0 <= i < digits.len() ==> is_digit(#[trigger] digits[i])
}

/// The context size that a text sets: the number it writes, or zero where it
/// writes none or one that is too large for 32 bits.
pub open spec fn context_size_of(text: Seq<char>) -> u32 {
    if is_number(text) && decimal_value(without_sign(text)) <= u32::MAX {
        decimal_value(without_sign(text)) as u32
    } else {
        0
    }
}

/// A setting, or its default where it is not set.
pub open spec fn or_default(value: Option<Seq<char>>, default: Seq<char>) -> Seq<char> {
    match value {
        Some(text) => text,
        None => default,
    }
}

/// The `Config` that settings make, given that the credential for the
/// messaging platform is set. The allowed chat identity is empty where it is
/// not set; the other texts have their defaults.
pub open spec fn config_of(settings: SettingsView) -> ConfigView {
    ConfigView {
        allowed_user_id: or_default(settings.allowed_user_id, Seq::empty()),
        telegram_token: or_default(settings.telegram_token, Seq::empty()),
        placeholder_text: or_default(settings.placeholder, DEFAULT_PLACEHOLDER@),
        system_prompt: or_default(settings.system_prompt, DEFAULT_SYSTEM_PROMPT@),
        help_mesg: or_default(settings.help_mesg, DEFAULT_HELP@),
        llm_api_endpoint: or_default(settings.llm_api_endpoint, DEFAULT_ENDPOINT@),
        llm_model_name: or_default(settings.llm_model_name, DEFAULT_MODEL@),
        llm_ctx_size: match settings.llm_ctx_size {
            Some(text) => context_size_of(text),
            None => DEFAULT_CONTEXT_SIZE,
        },
        llm_api_key: or_default(settings.llm_api_key, DEFAULT_API_KEY@),
    }
}

/// A number is at least as large as the number that its first digits write.
proof fn lemma_decimal_value_grows(digits: Seq<char>, n: int)
    requires
        0 <= n <= digits.len(),
        forall|i: int| 0 <= i < digits.len() ==> is_digit(#[trigger] digits[i]),
    ensures
        decimal_value(digits.take(n)) <= decimal_value(digits),
    decreases digits.len(),
{
    if n == digits.len() {
        assert(digits.take(n) =~= digits);
    } else {
        lemma_decimal_value_grows(digits.drop_last(), n);
        assert(digits.drop_last().take(n) =~= digits.take(n));
        assert(is_digit(digits[digits.len() - 1]));
    }
}

/// Reads the context size from the text of its setting.
pub fn parse_context_size(text: &str) -> (size: u32)
    ensures
        size == context_size_of(text@),
{
    broadcast use is_ascii_spec_bytes;

    if !text.is_ascii() {
        proof {
            let i = choose|i: int| 0 <= i < text@.len() && !('\0' <= #[trigger] text@[i] <= '\u{7f}');
            let digits = without_sign(text@);
            if digits.len() == text@.len() {
                assert(!is_digit(digits[i]));
            } else {
                assert(!is_digit(digits[i - 1]));
            }
        }
        return 0;
    }
    let bytes = text.as_bytes();
    assert(bytes@.len() == text@.len());
    let len: usize = bytes.len();
    let start: usize = if len > 0 && bytes[0] == 43 {
        1
    } else {
        0
    };
    let ghost digits = without_sign(text@);
    assert(digits =~= text@.subrange(start as int, len as int)) by {
        if len > 0 {
            assert(bytes@[0] == text@[0] as u8);
        }
    }
    if start == len {
        return 0;
    }
    let mut value: u32 = 0;
    let mut i: usize = start;
    while i < len
        invariant
            start <= i <= len,
            len == text@.len(),
            len == bytes@.len(),
            vstd::utf8::is_ascii_chars(text@),
            forall|j: int| 0 <= j < len ==> #[trigger] bytes@[j] == text@[j] as u8,
            digits == text@.subrange(start as int, len as int),
            digits == without_sign(text@),
            digits.len() > 0,
            forall|j: int| 0 <= j < i - start ==> is_digit(#[trigger] digits[j]),
            value == decimal_value(digits.take(i - start)),
        decreases len - i,
    {
        let b: u8 = bytes[i];
        assert(b as char == digits[i - start]) by {
            assert(bytes@[i as int] == text@[i as int] as u8);
        }
        if b < 48 || b > 57 {
            assert(!is_digit(digits[i - start]));
            return 0;
        }
        let d: u32 = (b - 48) as u32;
        proof {
            let longer = digits.take(i - start + 1);
            assert(longer.drop_last() =~= digits.take(i - start));
            assert(longer.last() == digits[i - start]);
            assert(decimal_value(longer) == 10 * value + d);
            if is_number(text@) {
                lemma_decimal_value_grows(digits, i - start + 1);
            }
        }
        if value > (u32::MAX - d) / 10 {
            return 0;
        }
        value = value * 10 + d;
        i += 1;
    }
    assert(digits.take(len - start) =~= digits);
    value
}

fn setting_or(value: Option<String>, default: &'static str) -> (text: String)
    ensures
        text@ == or_default(value.deep_view(), default@),
{
    match value {
        Some(text) => text,
        None => String::from_str(default),
    }
}

impl Config {
    /// Makes the `Config` of a process from its settings. The credential for
    /// the messaging platform has no default: without it there is no
    /// `Config`. Every other setting that is missing takes its default.
    pub fn from_settings(settings: Settings) -> (r: Result<Config, ConfigError>)
        ensures
            settings@.telegram_token is None ==> r == Err::<Config, ConfigError>(
                ConfigError::MissingToken,
            ),
            settings@.telegram_token is Some ==> r is Ok && r->Ok_0@ == config_of(settings@),
    {
        proof {
            reveal_strlit("");
        }
        let telegram_token = match settings.telegram_token {
            Some(token) => token,
            None => {
                return Err(ConfigError::MissingToken);
            },
        };
        let llm_ctx_size = match settings.llm_ctx_size {
            Some(text) => parse_context_size(text.as_str()),
            None => DEFAULT_CONTEXT_SIZE,
        };
        let config = Config {
            allowed_user_id: setting_or(settings.allowed_user_id, ""),
            telegram_token,
            placeholder_text: setting_or(settings.placeholder, DEFAULT_PLACEHOLDER),
            system_prompt: setting_or(settings.system_prompt, DEFAULT_SYSTEM_PROMPT),
            help_mesg: setting_or(settings.help_mesg, DEFAULT_HELP),
            llm_api_endpoint: setting_or(settings.llm_api_endpoint, DEFAULT_ENDPOINT),
            llm_model_name: setting_or(settings.llm_model_name, DEFAULT_MODEL),
            llm_ctx_size,
            llm_api_key: setting_or(settings.llm_api_key, DEFAULT_API_KEY),
        };
        assert(config@.allowed_user_id =~= config_of(settings@).allowed_user_id);
        Ok(config)
    }
}

} // verus!
