//! The provider that speaks the protocol of OpenAI's chat completions.

use vstd::prelude::*;
use vstd::string::*;
use crate::error::{error_view, ErrorKind, InvmstError};
use crate::llm::{ChatMessage, Role};
use crate::utils::text::{has_prefix, starts_with};

verus! {

/// Where and as whom to ask, and which model.
#[derive(Debug)]
pub struct OpenAiProvider {
    base_url: String,
    api_key: String,
    model: String,
}

/// A provider as contracts see it.
pub struct OpenAiProviderView {
    pub base_url: Seq<char>,
    pub api_key: Seq<char>,
    pub model: Seq<char>,
}

impl View for OpenAiProvider {
    type V = OpenAiProviderView;

    closed spec fn view(&self) -> OpenAiProviderView {
        OpenAiProviderView { base_url: self.base_url@, api_key: self.api_key@, model: self.model@ }
    }
}

impl OpenAiProvider {
    pub fn new(base_url: &str, api_key: &str, model: &str) -> (p: OpenAiProvider)
        ensures
            p@ == (OpenAiProviderView { base_url: base_url@, api_key: api_key@, model: model@ }),
    {
        OpenAiProvider {
            base_url: String::from_str(base_url),
            api_key: String::from_str(api_key),
            model: String::from_str(model),
        }
    }
}

/// A role as the protocol names it.
#[derive(Clone, Copy, Debug, PartialEq, Eq, Structural)]
pub enum OpenAiRole {
    User,
    Assistant,
    System,
}

/// A message as it goes into the request: the role under the protocol's
/// name for it, and the text.
#[derive(Debug)]
pub struct WireMessage {
    pub role: OpenAiRole,
    pub content: String,
}

/// A request message as contracts see it.
pub struct WireMessageView {
    pub role: OpenAiRole,
    pub content: Seq<char>,
}

impl View for WireMessage {
    type V = WireMessageView;

    open spec fn view(&self) -> WireMessageView {
        WireMessageView { role: self.role, content: self.content@ }
    }
}

/// The views of a list of request messages.
pub open spec fn wire_views(messages: Seq<WireMessage>) -> Seq<WireMessageView> {
    Seq::new(messages.len(), |i: int| messages[i]@)
}

/// The protocol's role for each role of a message.
pub open spec fn wire_role(role: Role) -> OpenAiRole {
    match role {
        Role::User => OpenAiRole::User,
        Role::Bot => OpenAiRole::Assistant,
        Role::System => OpenAiRole::System,
    }
}

/// Whether models of this name switch between a thinking and a plain mode by
/// an instruction in the last message.
pub open spec fn switches_thinking(model: Seq<char>) -> bool {
    has_prefix(model, "qwen3"@)
}

/// The instruction for the mode asked for.
pub open spec fn think_instruction(enable_think: bool) -> Seq<char> {
    if enable_think {
        "/think"@
    } else {
        "/no_think"@
    }
}

/// The text of message `index` of `count` in a request to `model`: that of
/// the message, and behind the last one, for a model that switches, a space
/// and the instruction.
pub open spec fn wire_content(
    model: Seq<char>,
    enable_think: bool,
    content: Seq<char>,
    index: int,
    count: int,
) -> Seq<char> {
    if switches_thinking(model) && index == count - 1 {
        content + " "@ + think_instruction(enable_think)
    } else {
        content
    }
}

/// The messages of a request to `model`.
pub open spec fn wire_messages(
    model: Seq<char>,
    enable_think: bool,
    messages: Seq<ChatMessage>,
) -> Seq<WireMessageView> {
    Seq::new(
        messages.len(),
        |i: int|
            WireMessageView {
                role: wire_role(messages[i].role),
                content: wire_content(
                    model,
                    enable_think,
                    messages[i].content@,
                    i,
                    messages.len() as int,
                ),
            },
    )
}

/// Whether an HTTP status code stands for success: 200 to 299.
pub open spec fn is_success_status(code: u16) -> bool {
    200 <= code <= 299
}

impl OpenAiRole {
    /// The protocol's role for `role`.
    pub fn from(role: Role) -> (r: OpenAiRole)
        ensures
            r == wire_role(role),
    {
        match role {
            Role::User => OpenAiRole::User,
            Role::Bot => OpenAiRole::Assistant,
            Role::System => OpenAiRole::System,
        }
    }

    /// The role's name in a request.
    pub open spec fn name(self) -> Seq<char> {
        match self {
            OpenAiRole::User => "user"@,
            OpenAiRole::Assistant => "assistant"@,
            OpenAiRole::System => "system"@,
        }
    }

    /// The role's name in a request.
    pub fn as_str(&self) -> (s: &'static str)
        ensures
            s@ == self.name(),
    {
        match self {
            OpenAiRole::User => "user",
            OpenAiRole::Assistant => "assistant",
            OpenAiRole::System => "system",
        }
    }

    /// The role's name in a request.
    pub fn to_string(&self) -> (s: String)
        ensures
            s@ == self.name(),
    {
        String::from_str(self.as_str())
    }
}

/// One message as it goes into the request, without any instruction.
pub fn chat_message_to_wire(chat_message: &ChatMessage) -> (w: WireMessage)
    ensures
        w@ == (WireMessageView {
            role: wire_role(chat_message.role),
            content: chat_message.content@,
        }),
{
    WireMessage { role: OpenAiRole::from(chat_message.role), content: chat_message.content.clone() }
}

impl OpenAiProvider {
    pub fn base_url(&self) -> (s: &str)
        ensures
            s@ == self@.base_url,
    {
        self.base_url.as_str()
    }

    pub fn api_key(&self) -> (s: &str)
        ensures
            s@ == self@.api_key,
    {
        self.api_key.as_str()
    }

    pub fn model(&self) -> (s: &str)
        ensures
            s@ == self@.model,
    {
        self.model.as_str()
    }

    /// Where the request goes: the base address, then `/chat/completions`.
    pub fn request_url(&self) -> (url: String)
        ensures
            url@ == self@.base_url + "/chat/completions"@,
    {
        self.base_url.clone().concat("/chat/completions")
    }

    /// The value of the request's `Authorization` header.
    pub fn authorization(&self) -> (value: String)
        ensures
            value@ == "Bearer "@ + self@.api_key,
    {
        String::from_str("Bearer ").concat(self.api_key.as_str())
    }

    /// The messages of the request, in the order given. For a model that
    /// switches between thinking and not, the last one ends with the
    /// instruction for the mode asked for.
    pub fn request_messages(&self, messages: &[ChatMessage], enable_think: bool) -> (wire: Vec<
        WireMessage,
    >)
        ensures
            wire_views(wire@) == wire_messages(self@.model, enable_think, messages@),
    {
        let switches = starts_with(self.model.as_str(), "qwen3");
        let count = messages.len();
        let mut wire: Vec<WireMessage> = Vec::new();
        let mut i: usize = 0;
        while i < count
            invariant
                count == messages.len(),
                i <= count,
                switches == switches_thinking(self@.model),
                wire.len() == i,
                forall|j: int|
                    0 <= j < i ==> (#[trigger] wire@[j])@ == wire_messages(
                        self@.model,
                        enable_think,
                        messages@,
                    )[j],
            decreases count - i,
        {
            let mut message = chat_message_to_wire(&messages[i]);
            if switches && i == count - 1 {
                let instruction = if enable_think {
                    "/think"
                } else {
                    "/no_think"
                };
                message.content = message.content.concat(" ").concat(instruction);
            }
            wire.push(message);
            i += 1;
        }
        assert(wire_views(wire@) =~= wire_messages(self@.model, enable_think, messages@));
        wire
    }
}

/// Whether an HTTP status code stands for success.
pub fn is_success(code: u16) -> (b: bool)
    ensures
        b == is_success_status(code),
{
    200 <= code && code <= 299
}

/// The error for a response whose status is no success: the status line,
/// a space, and the body.
pub fn status_error(status: &str, body: &str) -> (e: InvmstError)
    ensures
        e@ == error_view(ErrorKind::HttpStatus, Seq::empty(), status@ + " "@ + body@),
{
    InvmstError::HttpStatusError(String::from_str(status).concat(" ").concat(body))
}

} // verus!
