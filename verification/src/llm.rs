//! Chat completion: the messages, the events of a streamed answer, and the
//! stored configuration of the provider.

use vstd::prelude::*;
use vstd::hash_map::StringHashMap;
use vstd::string::*;
use crate::error::{error_view, ErrorKind, ErrorView, InvmstError, InvmstResult};
use crate::llm::provider::open_ai::OpenAiProvider;
use crate::utils::text::{eq_ignore_ascii_case, same_ignoring_ascii_case, trim, trimmed};

pub mod completion;
pub mod provider;
pub mod stream;

verus! {

/// The wire protocol that a provider speaks.
#[derive(Clone, Copy, Debug, PartialEq, Eq, Structural)]
pub enum Protocol {
    OpenAI,
}

/// Who wrote a message.
#[derive(Clone, Copy, Debug, PartialEq, Eq, Structural)]
pub enum Role {
    Bot,
    User,
    System,
}

/// One message of a conversation.
#[derive(Clone, Debug)]
pub struct ChatMessage {
    pub role: Role,
    pub content: String,
    pub reasoning: Option<String>,
}

/// A message as contracts see it.
pub struct ChatMessageView {
    pub role: Role,
    pub content: Seq<char>,
    pub reasoning: Option<Seq<char>>,
}

/// One event of a streamed answer.
#[derive(Debug)]
pub enum ChatCompletionEvent {
    /// A piece of the answer.
    Content(String),
    /// A piece of the model's reasoning.
    ReasoningContent(String),
    /// A frame or a read that failed; the stream goes on.
    Error(InvmstError),
}

/// An event as contracts see it.
pub enum ChatCompletionEventView {
    Content(Seq<char>),
    ReasoningContent(Seq<char>),
    Error(ErrorView),
}

/// The stored configuration of the provider.
#[derive(Debug)]
pub struct Config {
    protocol: Protocol,
    base_url: String,
    api_key: String,
    model: String,
}

/// A configuration as contracts see it.
pub struct ConfigView {
    pub protocol: Protocol,
    pub base_url: Seq<char>,
    pub api_key: Seq<char>,
    pub model: Seq<char>,
}

impl View for ChatMessage {
    type V = ChatMessageView;

    open spec fn view(&self) -> ChatMessageView {
        ChatMessageView {
            role: self.role,
            content: self.content@,
            reasoning: match self.reasoning {
                Some(r) => Some(r@),
                None => None,
            },
        }
    }
}

impl View for ChatCompletionEvent {
    type V = ChatCompletionEventView;

    open spec fn view(&self) -> ChatCompletionEventView {
        match *self {
            ChatCompletionEvent::Content(t) => ChatCompletionEventView::Content(t@),
            ChatCompletionEvent::ReasoningContent(t) => ChatCompletionEventView::ReasoningContent(t@),
            ChatCompletionEvent::Error(e) => ChatCompletionEventView::Error(e@),
        }
    }
}

impl View for Config {
    type V = ConfigView;

    closed spec fn view(&self) -> ConfigView {
        ConfigView {
            protocol: self.protocol,
            base_url: self.base_url@,
            api_key: self.api_key@,
            model: self.model@,
        }
    }
}

/// The views of a list of messages.
pub open spec fn message_views(messages: Seq<ChatMessage>) -> Seq<ChatMessageView> {
    Seq::new(messages.len(), |i: int| messages[i]@)
}

/// The views of a list of events.
pub open spec fn event_views(events: Seq<ChatCompletionEvent>) -> Seq<ChatCompletionEventView> {
    Seq::new(events.len(), |i: int| events[i]@)
}

/// The protocol that `name` stands for, whatever the case of its letters.
pub open spec fn protocol_named(name: Seq<char>) -> Option<Protocol> {
    if same_ignoring_ascii_case(name, "OpenAI"@) {
        Some(Protocol::OpenAI)
    } else {
        None
    }
}

/// The role that `name` stands for, whatever the case of its letters.
pub open spec fn role_named(name: Seq<char>) -> Option<Role> {
    if same_ignoring_ascii_case(name, "Bot"@) {
        Some(Role::Bot)
    } else if same_ignoring_ascii_case(name, "User"@) {
        Some(Role::User)
    } else if same_ignoring_ascii_case(name, "System"@) {
        Some(Role::System)
    } else {
        None
    }
}

impl Protocol {
    /// The protocol's name.
    pub open spec fn name(self) -> Seq<char> {
        "OpenAI"@
    }

    /// The protocol's name.
    pub fn as_str(&self) -> (s: &'static str)
        ensures
            s@ == self.name(),
    {
        "OpenAI"
    }

    /// The protocol's name.
    pub fn to_string(&self) -> (s: String)
        ensures
            s@ == self.name(),
    {
        String::from_str(self.as_str())
    }

    /// The protocol that `name` stands for, whatever the case of its letters.
    pub fn from_str(name: &str) -> (r: Option<Protocol>)
        ensures
            r == protocol_named(name@),
    {
        if eq_ignore_ascii_case(name, "OpenAI") {
            Some(Protocol::OpenAI)
        } else {
            None
        }
    }
}

impl Default for Protocol {
    fn default() -> (p: Protocol)
        ensures
            p == Protocol::OpenAI,
    {
        Protocol::OpenAI
    }
}

impl Role {
    /// The role's name.
    pub open spec fn name(self) -> Seq<char> {
        match self {
            Role::Bot => "Bot"@,
            Role::User => "User"@,
            Role::System => "System"@,
        }
    }

    /// The role's name.
    pub fn as_str(&self) -> (s: &'static str)
        ensures
            s@ == self.name(),
    {
        match self {
            Role::Bot => "Bot",
            Role::User => "User",
            Role::System => "System",
        }
    }

    /// The role's name.
    pub fn to_string(&self) -> (s: String)
        ensures
            s@ == self.name(),
    {
        String::from_str(self.as_str())
    }

    /// The role that `name` stands for, whatever the case of its letters.
    pub fn from_str(name: &str) -> (r: Option<Role>)
        ensures
            r == role_named(name@),
    {
        if eq_ignore_ascii_case(name, "Bot") {
            Some(Role::Bot)
        } else if eq_ignore_ascii_case(name, "User") {
            Some(Role::User)
        } else if eq_ignore_ascii_case(name, "System") {
            Some(Role::System)
        } else {
            None
        }
    }
}

impl ChatMessage {
    /// A message of `role` that says `content`, without reasoning.
    pub fn new(role: Role, content: &str) -> (m: ChatMessage)
        ensures
            m@ == (ChatMessageView { role, content: content@, reasoning: None }),
    {
        ChatMessage { role, content: String::from_str(content), reasoning: None }
    }
}

/// The text of option `key`, trimmed, where `options` has it, else `current`.
pub open spec fn option_or(options: Map<Seq<char>, String>, key: Seq<char>, current: Seq<char>) -> Seq<
    char,
> {
    if options.contains_key(key) {
        trimmed(options[key]@)
    } else {
        current
    }
}

/// What `configure` makes of a configuration: the protocol named, and each of
/// `base_url`, `api_key` and `model` replaced by the option of that name,
/// trimmed, where there is one.
pub open spec fn configured(
    current: ConfigView,
    protocol: Protocol,
    options: Map<Seq<char>, String>,
) -> ConfigView {
    ConfigView {
        protocol,
        base_url: option_or(options, "base_url"@, current.base_url),
        api_key: option_or(options, "api_key"@, current.api_key),
        model: option_or(options, "model"@, current.model),
    }
}

/// The first of `base_url`, `api_key` and `model` that is empty in `config`.
pub open spec fn missing_option(config: ConfigView) -> Option<Seq<char>> {
    if config.base_url.len() == 0 {
        Some("base_url"@)
    } else if config.api_key.len() == 0 {
        Some("api_key"@)
    } else if config.model.len() == 0 {
        Some("model"@)
    } else {
        None
    }
}

/// The text of the error for a missing option.
pub open spec fn missing_option_message(name: Seq<char>) -> Seq<char> {
    "Required option '"@ + name + "' is missing"@
}

/// The text of the error for a protocol that is not known.
pub open spec fn unknown_protocol_message(name: Seq<char>) -> Seq<char> {
    "Invalid LLM protocol '"@ + name + "'"@
}

/// What `Config::configure` returns.
pub open spec fn configure_outcome(
    current: ConfigView,
    protocol: Seq<char>,
    options: Map<Seq<char>, String>,
) -> Result<ConfigView, ErrorView> {
    match protocol_named(protocol) {
        None => Err(
            error_view(ErrorKind::Invalid, "INVALID_LLM_PROTOCOL"@, unknown_protocol_message(protocol)),
        ),
        Some(p) => {
            let next = configured(current, p, options);
            match missing_option(next) {
                Some(name) => Err(
                    error_view(ErrorKind::Required, "OPTION_REQUIRED"@, missing_option_message(name)),
                ),
                None => Ok(next),
            }
        },
    }
}

fn option_text(options: &StringHashMap<String>, key: &str, current: String) -> (r: String)
    ensures
        r@ == option_or(options@, key@, current@),
{
    match options.get(key) {
        Some(text) => trim(text.as_str()).to_owned(),
        None => current,
    }
}

fn missing(name: &str) -> (e: InvmstError)
    ensures
        e@ == error_view(ErrorKind::Required, "OPTION_REQUIRED"@, missing_option_message(name@)),
{
    let text = String::from_str("Required option '").concat(name).concat("' is missing");
    InvmstError::Required("OPTION_REQUIRED", text)
}

impl Config {
    /// A configuration of the given values.
    pub fn new(protocol: Protocol, base_url: &str, api_key: &str, model: &str) -> (c: Config)
        ensures
            c@ == (ConfigView { protocol, base_url: base_url@, api_key: api_key@, model: model@ }),
    {
        Config {
            protocol,
            base_url: String::from_str(base_url),
            api_key: String::from_str(api_key),
            model: String::from_str(model),
        }
    }

    pub fn protocol(&self) -> (p: Protocol)
        ensures
            p == self@.protocol,
    {
        self.protocol
    }

    pub fn base_url(&self) -> (s: &str)
        ensures
            s@ == self@.base_url,
    {
        self.base_url.as_str()
    }

    pub fn api_key(&self) -> (s: &str)
        ensures
            s@ == self@.api_key,
    {
        self.api_key.as_str()
    }

    pub fn model(&self) -> (s: &str)
        ensures
            s@ == self@.model,
    {
        self.model.as_str()
    }

    /// This configuration with the protocol named `protocol` and with the
    /// options `base_url`, `api_key` and `model` taken from `options` where
    /// they are there. Fails with `Invalid` if no protocol has that name, and
    /// with `Required` if one of the three is then empty.
    pub fn configure(self, protocol: &str, options: &StringHashMap<String>) -> (r: InvmstResult<
        Config,
    >)
        ensures
            match configure_outcome(self@, protocol@, options@) {
                Ok(c) => r is Ok && r->Ok_0@ == c,
                Err(e) => r is Err && r->Err_0@ == e,
            },
    {
        let p = match Protocol::from_str(protocol) {
            Some(p) => p,
            None => {
                let text = String::from_str("Invalid LLM protocol '").concat(protocol).concat("'");
                return Err(InvmstError::Invalid("INVALID_LLM_PROTOCOL", text));
            },
        };
        let next = Config {
            protocol: p,
            base_url: option_text(options, "base_url", self.base_url),
            api_key: option_text(options, "api_key", self.api_key),
            model: option_text(options, "model", self.model),
        };
        if next.base_url.as_str().is_empty() {
            return Err(missing("base_url"));
        }
        if next.api_key.as_str().is_empty() {
            return Err(missing("api_key"));
        }
        if next.model.as_str().is_empty() {
            return Err(missing("model"));
        }
        Ok(next)
    }

    /// The provider that this configuration describes.
    pub fn provider(&self) -> (p: OpenAiProvider)
        ensures
            p@.base_url == self@.base_url,
            p@.api_key == self@.api_key,
            p@.model == self@.model,
    {
        match self.protocol {
            Protocol::OpenAI => OpenAiProvider::new(
                self.base_url.as_str(),
                self.api_key.as_str(),
                self.model.as_str(),
            ),
        }
    }
}

impl Default for Config {
    fn default() -> (c: Config)
        ensures
            c@ == (ConfigView {
                protocol: Protocol::OpenAI,
                base_url: Seq::empty(),
                api_key: Seq::empty(),
                model: Seq::empty(),
            }),
    {
        Config {
            protocol: Protocol::OpenAI,
            base_url: String::new(),
            api_key: String::new(),
            model: String::new(),
        }
    }
}

} // verus!
