//! What the command line and other callers use of the library.

use vstd::prelude::*;
use vstd::hash_map::StringHashMap;
use vstd::string::*;
use crate::error::{error_view, ErrorKind, ErrorView, InvmstError, InvmstResult};
use crate::llm::{
    configure_outcome,
    message_views,
    ChatMessageView,
    Config,
    Role,
};
use crate::master::{all_masters, Master};
use crate::utils::text::{str_eq, views};

pub mod masters;

verus! {

pub type ChatCompletionEvent = crate::llm::ChatCompletionEvent;

pub type ChatMessage = crate::llm::ChatMessage;

pub type EvaluateOptions = crate::evaluate::EvaluateOptions;

pub type Evaluation = crate::evaluate::Evaluation;

pub type Prospect = crate::financial::Prospect;

/// The kinds of model that can be configured.
pub open spec fn supported_types() -> Seq<Seq<char>> {
    seq!["chat"@]
}

/// The protocols that can be configured, as the command line names them.
pub open spec fn supported_protocols() -> Seq<Seq<char>> {
    seq!["openai"@]
}

/// The kinds of model that can be configured.
pub fn llm_supported_types() -> (types: Vec<&'static str>)
    ensures
        views(types@) == supported_types(),
{
    let mut types: Vec<&'static str> = Vec::new();
    types.push("chat");
    assert(views(types@) =~= supported_types());
    types
}

/// The protocols that can be configured.
pub fn llm_supported_protocols() -> (protocols: Vec<&'static str>)
    ensures
        views(protocols@) == supported_protocols(),
{
    let mut protocols: Vec<&'static str> = Vec::new();
    protocols.push("openai");
    assert(views(protocols@) =~= supported_protocols());
    protocols
}

/// Whether `name` is one of `choices`, letter for letter.
pub fn is_supported(name: &str, choices: &Vec<&'static str>) -> (b: bool)
    ensures
        b == views(choices@).contains(name@),
{
    let mut i: usize = 0;
    while i < choices.len()
        invariant
            i <= choices.len(),
            forall|j: int| 0 <= j < i ==> views(choices@)[j] != name@,
        decreases choices.len() - i,
    {
        assert(views(choices@)[i as int] == choices@[i as int]@);
        if str_eq(choices[i], name) {
            return true;
        }
        i += 1;
    }
    false
}

/// The messages of a conversation that begins with `prompt`: the system's
/// message first where there is one, then the user's.
pub open spec fn conversation(prompt: Seq<char>, system: Option<Seq<char>>) -> Seq<ChatMessageView> {
    let user = ChatMessageView { role: Role::User, content: prompt, reasoning: None };
    match system {
        Some(text) => seq![ChatMessageView { role: Role::System, content: text, reasoning: None }, user],
        None => seq![user],
    }
}

/// The view of a text that may be there.
pub open spec fn option_text_view(text: Option<&str>) -> Option<Seq<char>> {
    match text {
        Some(t) => Some(t@),
        None => None,
    }
}

/// The messages of a conversation that begins with `prompt`.
pub fn chat_messages(prompt: &str, system: Option<&str>) -> (messages: Vec<ChatMessage>)
    ensures
        message_views(messages@) == conversation(prompt@, option_text_view(system)),
{
    let mut messages: Vec<ChatMessage> = Vec::new();
    if let Some(system) = system {
        messages.push(ChatMessage::new(Role::System, system));
    }
    messages.push(ChatMessage::new(Role::User, prompt));
    assert(message_views(messages@) =~= conversation(prompt@, option_text_view(system)));
    messages
}

/// The text of the error for a kind of model that cannot be configured.
pub open spec fn invalid_type_message(kind: Seq<char>) -> Seq<char> {
    "Invalid LLM type '"@ + kind + "'"@
}

/// The error for a kind of model that cannot be configured.
pub open spec fn invalid_type(kind: Seq<char>) -> ErrorView {
    error_view(ErrorKind::Invalid, "INVALID_LLM_TYPE"@, invalid_type_message(kind))
}

/// The error for a kind of model that cannot be configured.
pub fn invalid_llm_type(kind: &str) -> (e: InvmstError)
    ensures
        e@ == invalid_type(kind@),
{
    InvmstError::Invalid(
        "INVALID_LLM_TYPE",
        String::from_str("Invalid LLM type '").concat(kind).concat("'"),
    )
}

/// The configuration that is stored when a model of kind `kind` is
/// configured: for `chat` what `Config::configure` makes of `current`, for
/// any other kind an `Invalid` error.
pub fn llm_config(
    kind: &str,
    protocol: &str,
    options: &StringHashMap<String>,
    current: Config,
) -> (r: InvmstResult<Config>)
    ensures
        kind@ != "chat"@ ==> r is Err && r->Err_0@ == invalid_type(kind@),
        kind@ == "chat"@ ==> match configure_outcome(current@, protocol@, options@) {
            Ok(c) => r is Ok && r->Ok_0@ == c,
            Err(e) => r is Err && r->Err_0@ == e,
        },
{
    if str_eq(kind, "chat") {
        current.configure(protocol, options)
    } else {
        Err(invalid_llm_type(kind))
    }
}

/// Every analyzer once, in a fixed order.
pub fn masters() -> (all: Vec<Master>)
    ensures
        all@ == all_masters(),
{
    Master::iter()
}

} // verus!
