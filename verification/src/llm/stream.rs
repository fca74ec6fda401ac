//! From the bytes of a streamed response to events.
//!
//! The response is a sequence of chunks. Each chunk is decoded by itself and
//! cut into lines; a line that begins with `data: ` carries a payload. The
//! payload `[DONE]` ends the work on its chunk. Any other payload is a JSON
//! document that stands for at most one event.

use vstd::prelude::*;
use vstd::string::*;
use crate::error::{error_view, ErrorKind, InvmstError};
use crate::json::{
    json_as_str,
    json_data,
    json_element,
    json_from_str,
    json_member,
    json_parsed,
    JsonData,
};
use crate::llm::provider::open_ai::{is_success, is_success_status, status_error};
use crate::llm::{event_views, ChatCompletionEvent, ChatCompletionEventView};
use crate::utils::text::{
    from_utf8_lossy,
    has_prefix,
    lines,
    lines_of,
    str_eq,
    strip_prefix,
    utf8_lossy,
    views,
};

verus! {

/// The payload of a line: what follows `data: ` in a line that begins so.
pub open spec fn line_payload(line: Seq<char>) -> Option<Seq<char>> {
    if has_prefix(line, "data: "@) {
        Some(line.subrange("data: "@.len() as int, line.len() as int))
    } else {
        None
    }
}

/// The object of a frame that carries the piece of text.
pub open spec fn frame_delta(doc: JsonData) -> JsonData {
    doc.member("choices"@).element(0).member("delta"@)
}

/// The event that a frame stands for: its `content` where that is a string,
/// else its `reasoning_content` where that is one, else none.
pub open spec fn frame_event(doc: JsonData) -> Option<ChatCompletionEventView> {
    match frame_delta(doc).member("content"@).as_text() {
        Some(text) => Some(ChatCompletionEventView::Content(text)),
        None => match frame_delta(doc).member("reasoning_content"@).as_text() {
            Some(text) => Some(ChatCompletionEventView::ReasoningContent(text)),
            None => None,
        },
    }
}

/// The event that a payload other than `[DONE]` stands for: that of its
/// frame, or an error where it is no JSON.
pub open spec fn payload_event(payload: Seq<char>) -> Option<ChatCompletionEventView> {
    match json_parsed(payload) {
        Ok(doc) => frame_event(doc),
        Err(message) => Some(
            ChatCompletionEventView::Error(error_view(ErrorKind::Json, Seq::empty(), message)),
        ),
    }
}

/// The events of the lines from index `from` on: those of each data line in
/// order, up to the first whose payload is `[DONE]`.
pub open spec fn lines_events(lines: Seq<Seq<char>>, from: int) -> Seq<ChatCompletionEventView>
    decreases lines.len() - from,
{
    if from < 0 || from >= lines.len() {
        Seq::empty()
    } else {
        match line_payload(lines[from]) {
            None => lines_events(lines, from + 1),
            Some(payload) => if payload == "[DONE]"@ {
                Seq::empty()
            } else {
                match payload_event(payload) {
                    Some(event) => seq![event] + lines_events(lines, from + 1),
                    None => lines_events(lines, from + 1),
                }
            },
        }
    }
}

/// The events of one chunk, decoded.
pub open spec fn text_events(text: Seq<char>) -> Seq<ChatCompletionEventView> {
    lines_events(lines_of(text), 0)
}

/// A payload that is no JSON stands for exactly one event, an error of
/// kind `Json` with the parser's message.
pub proof fn lemma_malformed_payload_is_one_error(payload: Seq<char>)
    requires
        json_parsed(payload) is Err,
    ensures
        payload_event(payload) == Some(
            ChatCompletionEventView::Error(
                error_view(ErrorKind::Json, Seq::empty(), json_parsed(payload)->Err_0),
            ),
        ),
{
}

/// No line stands for more than one event.
pub proof fn lemma_at_most_one_event_a_line(lines: Seq<Seq<char>>, from: int)
    requires
        0 <= from <= lines.len(),
    ensures
        lines_events(lines, from).len() <= lines.len() - from,
    decreases lines.len() - from,
{
    if from < lines.len() {
        lemma_at_most_one_event_a_line(lines, from + 1);
    }
}

/// Behind a line whose payload is `[DONE]` nothing of the chunk counts: the
/// events are those of the lines before it.
pub proof fn lemma_done_ends_the_chunk(lines: Seq<Seq<char>>, done: int)
    requires
        0 <= done < lines.len(),
        line_payload(lines[done]) == Some("[DONE]"@),
    ensures
        lines_events(lines, 0) == lines_events(lines.take(done), 0),
{
    lemma_lines_events_prefix(lines, done, 0);
}

proof fn lemma_lines_events_prefix(lines: Seq<Seq<char>>, done: int, from: int)
    requires
        0 <= from <= done < lines.len(),
        line_payload(lines[done]) == Some("[DONE]"@),
    ensures
        lines_events(lines, from) == lines_events(lines.take(done), from),
    decreases done - from,
{
    let head = lines.take(done);
    if from < done {
        assert(head[from] == lines[from]);
        lemma_lines_events_prefix(lines, done, from + 1);
    }
}

/// The view of an event that may be there.
pub open spec fn option_event_view(event: Option<ChatCompletionEvent>) -> Option<
    ChatCompletionEventView,
> {
    match event {
        Some(e) => Some(e@),
        None => None,
    }
}

/// The event that a frame stands for.
pub fn event_of_frame(doc: &serde_json::Value) -> (event: Option<ChatCompletionEvent>)
    ensures
        option_event_view(event) == frame_event(json_data(*doc)),
{
    let delta = json_member(json_element(json_member(doc, "choices"), 0), "delta");
    match json_as_str(json_member(delta, "content")) {
        Some(text) => Some(ChatCompletionEvent::Content(text.to_owned())),
        None => match json_as_str(json_member(delta, "reasoning_content")) {
            Some(text) => Some(ChatCompletionEvent::ReasoningContent(text.to_owned())),
            None => None,
        },
    }
}

/// The event that a payload other than `[DONE]` stands for.
pub fn event_of_payload(payload: &str) -> (event: Option<ChatCompletionEvent>)
    ensures
        option_event_view(event) == payload_event(payload@),
{
    match json_from_str(payload) {
        Ok(doc) => event_of_frame(&doc),
        Err(message) => Some(ChatCompletionEvent::Error(InvmstError::JsonError(message))),
    }
}

/// The events of one chunk that has been decoded.
pub fn events_of_text(text: &str) -> (events: Vec<ChatCompletionEvent>)
    ensures
        event_views(events@) == text_events(text@),
{
    let all = lines(text);
    let mut events: Vec<ChatCompletionEvent> = Vec::new();
    let mut i: usize = 0;
    assert(event_views(events@) + lines_events(views(all@), 0) =~= text_events(text@));
    while i < all.len()
        invariant
            i <= all.len(),
            views(all@) == lines_of(text@),
            event_views(events@) + lines_events(views(all@), i as int) == text_events(text@),
        decreases all.len() - i,
    {
        let ghost before = event_views(events@);
        assert(views(all@)[i as int] == all@[i as int]@);
        match strip_prefix(all[i], "data: ") {
            None => {},
            Some(payload) => {
                if str_eq(payload, "[DONE]") {
                    assert(lines_events(views(all@), i as int) =~= Seq::empty());
                    assert(event_views(events@) =~= text_events(text@));
                    return events;
                }
                match event_of_payload(payload) {
                    Some(event) => {
                        events.push(event);
                        assert(event_views(events@) =~= before + seq![event@]);
                        assert(event_views(events@) + lines_events(views(all@), i + 1) =~= before
                            + lines_events(views(all@), i as int));
                    },
                    None => {},
                }
            },
        }
        i += 1;
    }
    assert(event_views(events@) + lines_events(views(all@), i as int) =~= event_views(events@));
    events
}

/// The events of one chunk as it was read. A frame that two chunks share is
/// not put together again: each chunk stands for itself.
pub fn events_of_chunk(chunk: &[u8]) -> (events: Vec<ChatCompletionEvent>)
    ensures
        event_views(events@) == text_events(utf8_lossy(chunk@)),
{
    let text = from_utf8_lossy(chunk);
    events_of_text(text.as_str())
}

/// The event for a read that failed.
pub fn event_of_read_error(message: String) -> (event: ChatCompletionEvent)
    ensures
        event@ == ChatCompletionEventView::Error(
            error_view(ErrorKind::Http, Seq::empty(), message@),
        ),
{
    ChatCompletionEvent::Error(InvmstError::HttpError(message))
}

/// Where a streaming session stands.
#[derive(Clone, Copy, Debug, PartialEq, Eq, Structural)]
pub enum StreamState {
    /// Nothing has been sent.
    Idle,
    /// The request is on its way; no response has come.
    RequestSent,
    /// The response is a success and is being read.
    Streaming,
    /// The request could not be made, or the response was no success.
    Failed,
    /// The response has been read to its end.
    Closed,
}

/// What the transport reports to a session.
#[derive(Debug)]
pub enum StreamInput {
    /// The request has been handed over.
    Sent,
    /// The request could not be made.
    SendFailed(String),
    /// A response has come: its status code, its status line, and its body
    /// where the status is no success (it is not read otherwise).
    Response(u16, String, String),
    /// The next chunk of the body.
    Chunk(Vec<u8>),
    /// A read of the body failed.
    ReadFailed(String),
    /// The body has ended.
    End,
}

/// A report as contracts see it.
pub enum StreamInputView {
    Sent,
    SendFailed(Seq<char>),
    Response(u16, Seq<char>, Seq<char>),
    Chunk(Seq<u8>),
    ReadFailed(Seq<char>),
    End,
}

impl View for StreamInput {
    type V = StreamInputView;

    open spec fn view(&self) -> StreamInputView {
        match *self {
            StreamInput::Sent => StreamInputView::Sent,
            StreamInput::SendFailed(m) => StreamInputView::SendFailed(m@),
            StreamInput::Response(code, status, body) => StreamInputView::Response(
                code,
                status@,
                body@,
            ),
            StreamInput::Chunk(bytes) => StreamInputView::Chunk(bytes@),
            StreamInput::ReadFailed(m) => StreamInputView::ReadFailed(m@),
            StreamInput::End => StreamInputView::End,
        }
    }
}

/// What a session does with one report.
#[derive(Debug)]
pub struct StreamStep {
    /// Where the session stands now.
    pub state: StreamState,
    /// What goes to the consumer, in order.
    pub events: Vec<ChatCompletionEvent>,
    /// Why the call fails, where this report makes it fail.
    pub failure: Option<InvmstError>,
}

/// Where a session in `state` stands after `input`. A report that does not
/// belong to the state leaves it as it is.
pub open spec fn next_state(state: StreamState, input: StreamInputView) -> StreamState {
    match (state, input) {
        (StreamState::Idle, StreamInputView::Sent) => StreamState::RequestSent,
        (StreamState::RequestSent, StreamInputView::SendFailed(_)) => StreamState::Failed,
        (StreamState::RequestSent, StreamInputView::Response(code, _, _)) => if is_success_status(
            code,
        ) {
            StreamState::Streaming
        } else {
            StreamState::Failed
        },
        (StreamState::Streaming, StreamInputView::End) => StreamState::Closed,
        _ => state,
    }
}

/// What a session in `state` hands to the consumer on `input`: the events of
/// a chunk or one error for a failed read while it is streaming, else nothing.
pub open spec fn step_events(state: StreamState, input: StreamInputView) -> Seq<
    ChatCompletionEventView,
> {
    match (state, input) {
        (StreamState::Streaming, StreamInputView::Chunk(bytes)) => text_events(utf8_lossy(bytes)),
        (StreamState::Streaming, StreamInputView::ReadFailed(message)) => seq![
            ChatCompletionEventView::Error(error_view(ErrorKind::Http, Seq::empty(), message)),
        ],
        _ => Seq::empty(),
    }
}

/// Why the call fails on `input` in `state`, if it does: the request could
/// not be made, or the response is no success.
pub open spec fn step_failure(state: StreamState, input: StreamInputView) -> Option<
    crate::error::ErrorView,
> {
    match (state, input) {
        (StreamState::RequestSent, StreamInputView::SendFailed(message)) => Some(
            error_view(ErrorKind::Http, Seq::empty(), message),
        ),
        (StreamState::RequestSent, StreamInputView::Response(code, status, body)) => if is_success_status(
            code,
        ) {
            None
        } else {
            Some(error_view(ErrorKind::HttpStatus, Seq::empty(), status + " "@ + body))
        },
        _ => None,
    }
}

/// Where a session that starts in `state` stands after all of `inputs`.
pub open spec fn state_after(state: StreamState, inputs: Seq<StreamInputView>) -> StreamState
    decreases inputs.len(),
{
    if inputs.len() == 0 {
        state
    } else {
        next_state(state_after(state, inputs.drop_last()), inputs.last())
    }
}

/// All that a session that starts in `state` hands to the consumer on
/// `inputs`, in order.
pub open spec fn events_after(state: StreamState, inputs: Seq<StreamInputView>) -> Seq<
    ChatCompletionEventView,
>
    decreases inputs.len(),
{
    if inputs.len() == 0 {
        Seq::empty()
    } else {
        events_after(state, inputs.drop_last()) + step_events(
            state_after(state, inputs.drop_last()),
            inputs.last(),
        )
    }
}

/// The view of an error that may be there.
pub open spec fn option_error_view(error: Option<InvmstError>) -> Option<crate::error::ErrorView> {
    match error {
        Some(e) => Some(e@),
        None => None,
    }
}

/// Takes one report of the transport and says where the session stands
/// after it, what goes to the consumer, and whether the call has failed.
pub fn step(state: StreamState, input: StreamInput) -> (r: StreamStep)
    ensures
        r.state == next_state(state, input@),
        event_views(r.events@) == step_events(state, input@),
        option_error_view(r.failure) == step_failure(state, input@),
{
    match state {
        StreamState::Idle => {
            let next = match input {
                StreamInput::Sent => StreamState::RequestSent,
                _ => StreamState::Idle,
            };
            let events: Vec<ChatCompletionEvent> = Vec::new();
            assert(event_views(events@) =~= Seq::empty());
            StreamStep { state: next, events, failure: None }
        },
        StreamState::RequestSent => {
            let events: Vec<ChatCompletionEvent> = Vec::new();
            assert(event_views(events@) =~= Seq::empty());
            match input {
                StreamInput::SendFailed(message) => StreamStep {
                    state: StreamState::Failed,
                    events,
                    failure: Some(InvmstError::HttpError(message)),
                },
                StreamInput::Response(code, status, body) => {
                    if is_success(code) {
                        StreamStep { state: StreamState::Streaming, events, failure: None }
                    } else {
                        StreamStep {
                            state: StreamState::Failed,
                            events,
                            failure: Some(status_error(status.as_str(), body.as_str())),
                        }
                    }
                },
                _ => StreamStep { state: StreamState::RequestSent, events, failure: None },
            }
        },
        StreamState::Streaming => {
            match input {
                StreamInput::Chunk(bytes) => StreamStep {
                    state: StreamState::Streaming,
                    events: events_of_chunk(bytes.as_slice()),
                    failure: None,
                },
                StreamInput::ReadFailed(message) => {
                    let mut events: Vec<ChatCompletionEvent> = Vec::new();
                    events.push(event_of_read_error(message));
                    assert(event_views(events@) =~= step_events(state, input@));
                    StreamStep { state: StreamState::Streaming, events, failure: None }
                },
                StreamInput::End => {
                    let events: Vec<ChatCompletionEvent> = Vec::new();
                    assert(event_views(events@) =~= Seq::empty());
                    StreamStep { state: StreamState::Closed, events, failure: None }
                },
                _ => {
                    let events: Vec<ChatCompletionEvent> = Vec::new();
                    assert(event_views(events@) =~= Seq::empty());
                    StreamStep { state: StreamState::Streaming, events, failure: None }
                },
            }
        },
        StreamState::Failed => {
            let events: Vec<ChatCompletionEvent> = Vec::new();
            assert(event_views(events@) =~= Seq::empty());
            StreamStep { state: StreamState::Failed, events, failure: None }
        },
        StreamState::Closed => {
            let events: Vec<ChatCompletionEvent> = Vec::new();
            assert(event_views(events@) =~= Seq::empty());
            StreamStep { state: StreamState::Closed, events, failure: None }
        },
    }
}

/// A session that has failed or is closed stays so, and hands nothing more
/// to the consumer, whatever is reported to it.
pub proof fn lemma_ended_session_is_silent(state: StreamState, inputs: Seq<StreamInputView>)
    requires
        state == StreamState::Failed || state == StreamState::Closed,
    ensures
        state_after(state, inputs) == state,
        events_after(state, inputs) == Seq::<ChatCompletionEventView>::empty(),
    decreases inputs.len(),
{
    if inputs.len() > 0 {
        lemma_ended_session_is_silent(state, inputs.drop_last());
    }
}

/// The events of a run are those of its first part, then those of the rest
/// from where the first part ended.
pub proof fn lemma_events_after_concat(
    state: StreamState,
    first: Seq<StreamInputView>,
    rest: Seq<StreamInputView>,
)
    ensures
        state_after(state, first + rest) == state_after(state_after(state, first), rest),
        events_after(state, first + rest) == events_after(state, first) + events_after(
            state_after(state, first),
            rest,
        ),
    decreases rest.len(),
{
    if rest.len() == 0 {
        assert(first + rest =~= first);
        assert(events_after(state, first) + Seq::<ChatCompletionEventView>::empty() =~= events_after(
            state,
            first,
        ));
    } else {
        lemma_events_after_concat(state, first, rest.drop_last());
        assert((first + rest).drop_last() =~= first + rest.drop_last());
        assert((first + rest).last() == rest.last());
        assert(events_after(state, first) + (events_after(
            state_after(state, first),
            rest.drop_last(),
        ) + step_events(
            state_after(state_after(state, first), rest.drop_last()),
            rest.last(),
        )) =~= (events_after(state, first) + events_after(
            state_after(state, first),
            rest.drop_last(),
        )) + step_events(state_after(state_after(state, first), rest.drop_last()), rest.last()));
    }
}

/// Nothing reaches the consumer before the response has come, and a response
/// that is no success fails the call with the status line and the body: no
/// event is ever handed over in such a session, whatever is reported later.
pub proof fn lemma_rejected_response_delivers_nothing(
    code: u16,
    status: Seq<char>,
    body: Seq<char>,
    later: Seq<StreamInputView>,
)
    requires
        !is_success_status(code),
    ensures
        step_failure(StreamState::RequestSent, StreamInputView::Response(code, status, body))
            == Some(error_view(ErrorKind::HttpStatus, Seq::empty(), status + " "@ + body)),
        events_after(
            StreamState::Idle,
            seq![StreamInputView::Sent, StreamInputView::Response(code, status, body)] + later,
        ) == Seq::<ChatCompletionEventView>::empty(),
{
    let first = seq![StreamInputView::Sent, StreamInputView::Response(code, status, body)];
    let one = seq![StreamInputView::Sent];
    assert(first.drop_last() =~= one);
    let none = Seq::<StreamInputView>::empty();
    assert(one.drop_last() =~= none);
    assert(state_after(StreamState::Idle, none) == StreamState::Idle);
    assert(events_after(StreamState::Idle, none) =~= Seq::<ChatCompletionEventView>::empty());
    assert(state_after(StreamState::Idle, one) == StreamState::RequestSent);
    assert(events_after(StreamState::Idle, one) =~= Seq::<ChatCompletionEventView>::empty());
    assert(state_after(StreamState::Idle, first) == StreamState::Failed);
    assert(events_after(StreamState::Idle, first) =~= Seq::<ChatCompletionEventView>::empty());
    lemma_events_after_concat(StreamState::Idle, first, later);
    lemma_ended_session_is_silent(StreamState::Failed, later);
}

/// The events of a list of chunks: those of each chunk by itself, in the
/// order of the chunks.
pub open spec fn chunks_events(chunks: Seq<Seq<u8>>) -> Seq<ChatCompletionEventView>
    decreases chunks.len(),
{
    if chunks.len() == 0 {
        Seq::empty()
    } else {
        chunks_events(chunks.drop_last()) + text_events(utf8_lossy(chunks.last()))
    }
}

/// The reports of a body that is read chunk by chunk without a failure.
pub open spec fn chunk_inputs(chunks: Seq<Seq<u8>>) -> Seq<StreamInputView> {
    Seq::new(chunks.len(), |i: int| StreamInputView::Chunk(chunks[i]))
}

/// A session that is streaming hands over the events of each chunk in the
/// order in which the chunks come, and goes on streaming.
pub proof fn lemma_chunks_are_delivered_in_order(chunks: Seq<Seq<u8>>)
    ensures
        state_after(StreamState::Streaming, chunk_inputs(chunks)) == StreamState::Streaming,
        events_after(StreamState::Streaming, chunk_inputs(chunks)) == chunks_events(chunks),
    decreases chunks.len(),
{
    if chunks.len() > 0 {
        lemma_chunks_are_delivered_in_order(chunks.drop_last());
        assert(chunk_inputs(chunks).drop_last() =~= chunk_inputs(chunks.drop_last()));
        assert(chunk_inputs(chunks).last() == StreamInputView::Chunk(chunks.last()));
    }
}

/// A whole session with a response that is a success: the consumer gets
/// the events of the chunks in their order, nothing else, and the session
/// is closed when the body ends, whether or not a chunk said `[DONE]`.
pub proof fn lemma_successful_session(
    code: u16,
    status: Seq<char>,
    body: Seq<char>,
    chunks: Seq<Seq<u8>>,
)
    requires
        is_success_status(code),
    ensures
        state_after(
            StreamState::Idle,
            seq![StreamInputView::Sent, StreamInputView::Response(code, status, body)]
                + chunk_inputs(chunks) + seq![StreamInputView::End],
        ) == StreamState::Closed,
        events_after(
            StreamState::Idle,
            seq![StreamInputView::Sent, StreamInputView::Response(code, status, body)]
                + chunk_inputs(chunks) + seq![StreamInputView::End],
        ) == chunks_events(chunks),
{
    let first = seq![StreamInputView::Sent, StreamInputView::Response(code, status, body)];
    let one = seq![StreamInputView::Sent];
    let none = Seq::<StreamInputView>::empty();
    let end = seq![StreamInputView::End];
    assert(first.drop_last() =~= one);
    assert(one.drop_last() =~= none);
    assert(state_after(StreamState::Idle, none) == StreamState::Idle);
    assert(events_after(StreamState::Idle, none) =~= Seq::<ChatCompletionEventView>::empty());
    assert(state_after(StreamState::Idle, one) == StreamState::RequestSent);
    assert(events_after(StreamState::Idle, one) =~= Seq::<ChatCompletionEventView>::empty());
    assert(state_after(StreamState::Idle, first) == StreamState::Streaming);
    assert(events_after(StreamState::Idle, first) =~= Seq::<ChatCompletionEventView>::empty());
    lemma_chunks_are_delivered_in_order(chunks);
    lemma_events_after_concat(StreamState::Idle, first, chunk_inputs(chunks));
    assert(end.drop_last() =~= none);
    assert(state_after(StreamState::Streaming, none) == StreamState::Streaming);
    assert(events_after(StreamState::Streaming, none) =~= Seq::<ChatCompletionEventView>::empty());
    assert(state_after(StreamState::Streaming, end) == StreamState::Closed);
    assert(events_after(StreamState::Streaming, end) =~= Seq::<ChatCompletionEventView>::empty());
    lemma_events_after_concat(StreamState::Idle, first + chunk_inputs(chunks), end);
    assert(events_after(StreamState::Idle, first + chunk_inputs(chunks) + end) =~= chunks_events(
        chunks,
    ));
}

/// Events come only from a session that is streaming.
pub proof fn lemma_events_only_while_streaming(state: StreamState, input: StreamInputView)
    requires
        step_events(state, input).len() > 0,
    ensures
        state == StreamState::Streaming,
        next_state(state, input) == StreamState::Streaming,
{
}

} // verus!
