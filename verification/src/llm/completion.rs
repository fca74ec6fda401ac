//! Putting the events of a streamed answer together into one message.
//!
//! The pieces of the answer are joined in the order in which they came, and
//! so are the pieces of reasoning. The first error among the events is the
//! result in place of a message.

use vstd::prelude::*;
use vstd::string::*;
use crate::error::{ErrorView, InvmstError, InvmstResult};
use crate::llm::{
    event_views,
    ChatCompletionEvent,
    ChatCompletionEventView,
    ChatMessage,
    ChatMessageView,
    Role,
};

verus! {

/// The first error among the events from index `from` on.
pub open spec fn first_error(events: Seq<ChatCompletionEventView>, from: int) -> Option<ErrorView>
    decreases events.len() - from,
{
    if from < 0 || from >= events.len() {
        None
    } else {
        match events[from] {
            ChatCompletionEventView::Error(e) => Some(e),
            _ => first_error(events, from + 1),
        }
    }
}

/// The piece of the answer that an event carries.
pub open spec fn content_piece(event: ChatCompletionEventView) -> Seq<char> {
    match event {
        ChatCompletionEventView::Content(text) => text,
        _ => Seq::empty(),
    }
}

/// The piece of reasoning that an event carries.
pub open spec fn reasoning_piece(event: ChatCompletionEventView) -> Seq<char> {
    match event {
        ChatCompletionEventView::ReasoningContent(text) => text,
        _ => Seq::empty(),
    }
}

/// The pieces of the answer in `events`, joined in order.
pub open spec fn content_text(events: Seq<ChatCompletionEventView>) -> Seq<char>
    decreases events.len(),
{
    if events.len() == 0 {
        Seq::empty()
    } else {
        content_text(events.drop_last()) + content_piece(events.last())
    }
}

/// The pieces of reasoning in `events`, joined in order.
pub open spec fn reasoning_text(events: Seq<ChatCompletionEventView>) -> Seq<char>
    decreases events.len(),
{
    if events.len() == 0 {
        Seq::empty()
    } else {
        reasoning_text(events.drop_last()) + reasoning_piece(events.last())
    }
}

/// The message made of an answer and of reasoning: the bot's, with the
/// reasoning left out where it is empty.
pub open spec fn bot_message(content: Seq<char>, reasoning: Seq<char>) -> ChatMessageView {
    ChatMessageView {
        role: Role::Bot,
        content,
        reasoning: if reasoning.len() == 0 {
            None
        } else {
            Some(reasoning)
        },
    }
}

/// What a whole stream of events comes to: its first error, or the message
/// made of all its pieces.
pub open spec fn completion_of(events: Seq<ChatCompletionEventView>) -> Result<
    ChatMessageView,
    ErrorView,
> {
    match first_error(events, 0) {
        Some(e) => Err(e),
        None => Ok(bot_message(content_text(events), reasoning_text(events))),
    }
}

/// The answer as far as it has come.
#[derive(Debug)]
pub struct MessageBuilder {
    content: String,
    reasoning: String,
}

/// A builder as contracts see it.
pub struct MessageBuilderView {
    pub content: Seq<char>,
    pub reasoning: Seq<char>,
}

impl View for MessageBuilder {
    type V = MessageBuilderView;

    closed spec fn view(&self) -> MessageBuilderView {
        MessageBuilderView { content: self.content@, reasoning: self.reasoning@ }
    }
}

impl MessageBuilder {
    /// A builder that holds nothing yet.
    pub fn new() -> (b: MessageBuilder)
        ensures
            b@.content == Seq::<char>::empty(),
            b@.reasoning == Seq::<char>::empty(),
    {
        MessageBuilder { content: String::new(), reasoning: String::new() }
    }

    /// Takes one event in. A piece is put behind those that came before; an
    /// error is handed back and leaves the builder as it was.
    pub fn push(&mut self, event: ChatCompletionEvent) -> (r: Result<(), InvmstError>)
        ensures
            match event@ {
                ChatCompletionEventView::Error(e) => r is Err && r->Err_0@ == e && final(self)@ == old(
                    self,
                )@,
                _ => r is Ok && final(self)@.content == old(self)@.content + content_piece(event@)
                    && final(self)@.reasoning == old(self)@.reasoning + reasoning_piece(event@),
            },
    {
        match event {
            ChatCompletionEvent::Content(delta) => {
                self.content.append(delta.as_str());
                assert(self.reasoning@ + Seq::<char>::empty() =~= self.reasoning@);
                Ok(())
            },
            ChatCompletionEvent::ReasoningContent(delta) => {
                self.reasoning.append(delta.as_str());
                assert(self.content@ + Seq::<char>::empty() =~= self.content@);
                Ok(())
            },
            ChatCompletionEvent::Error(e) => Err(e),
        }
    }

    /// The message made of what has been taken in.
    pub fn finish(self) -> (m: ChatMessage)
        ensures
            m@ == bot_message(self@.content, self@.reasoning),
    {
        let reasoning = if self.reasoning.as_str().is_empty() {
            None
        } else {
            Some(self.reasoning)
        };
        ChatMessage { role: Role::Bot, content: self.content, reasoning }
    }
}

/// No error among the first `upto` events, none from `upto` on: none at all.
proof fn lemma_first_error_split(events: Seq<ChatCompletionEventView>, from: int, upto: int)
    requires
        0 <= from <= upto <= events.len(),
        forall|j: int| from <= j < upto ==> !(events[j] is Error),
    ensures
        first_error(events, from) == first_error(events, upto),
    decreases upto - from,
{
    if from < upto {
        lemma_first_error_split(events, from + 1, upto);
    }
}

/// What a whole stream of events comes to.
pub fn complete(events: Vec<ChatCompletionEvent>) -> (r: InvmstResult<ChatMessage>)
    ensures
        match completion_of(event_views(events@)) {
            Ok(m) => r is Ok && r->Ok_0@ == m,
            Err(e) => r is Err && r->Err_0@ == e,
        },
{
    let ghost all = event_views(events@);
    let mut builder = MessageBuilder::new();
    for event in it: events.into_iter()
        invariant
            it.seq() == events@,
            all == event_views(events@),
            forall|j: int| 0 <= j < it.index() ==> !(all[j] is Error),
            builder@.content == content_text(all.take(it.index() as int)),
            builder@.reasoning == reasoning_text(all.take(it.index() as int)),
    {
        let ghost i = it.index() as int;
        assert(all[i] == event@);
        assert(all.take(i + 1).drop_last() =~= all.take(i));
        match builder.push(event) {
            Ok(()) => {},
            Err(e) => {
                proof {
                    lemma_first_error_split(all, 0, i);
                }
                return Err(e);
            },
        }
    }
    proof {
        lemma_first_error_split(all, 0, all.len() as int);
        assert(all.take(all.len() as int) =~= all);
    }
    Ok(builder.finish())
}

} // verus!
