use invmst::llm::completion::MessageBuilder;
use invmst::llm::stream::{step, StreamInput, StreamState};
use invmst::llm::ChatCompletionEvent;

fn chunk(i: usize) -> Vec<u8> {
    format!("data: {{\"choices\":[{{\"delta\":{{\"content\":\"<{}>\"}}}}]}}\n\n", i).into_bytes()
}

/// Runs a session whose reader hands every event to a channel of the given
/// capacity, with a consumer that takes its time, and returns what the
/// consumer saw.
fn observed(capacity: usize, chunks: usize, pause_ms: u64) -> Vec<String> {
    let runtime = tokio::runtime::Builder::new_current_thread().enable_time().build().unwrap();
    runtime.block_on(async move {
        let (sender, mut receiver) = tokio::sync::mpsc::channel::<ChatCompletionEvent>(capacity);

        let producer = tokio::spawn(async move {
            let mut state = step(StreamState::Idle, StreamInput::Sent).state;
            state = step(state, StreamInput::Response(200, "200 OK".to_string(), String::new())).state;
            let mut sent = 0usize;
            for i in 0..chunks {
                let taken = step(state, StreamInput::Chunk(chunk(i)));
                state = taken.state;
                for event in taken.events {
                    if sender.send(event).await.is_ok() {
                        sent += 1;
                    }
                }
            }
            state = step(state, StreamInput::End).state;
            (state, sent)
        });

        let mut seen: Vec<String> = vec![];
        while let Some(event) = receiver.recv().await {
            tokio::time::sleep(std::time::Duration::from_millis(pause_ms)).await;
            match event {
                ChatCompletionEvent::Content(text) => seen.push(text),
                other => panic!("{:?}", other),
            }
        }

        let (state, sent) = producer.await.unwrap();
        assert_eq!(state, StreamState::Closed);
        assert_eq!(sent, chunks);
        seen
    })
}

#[test]
fn a_slow_consumer_gets_every_event_once_and_in_order() {
    let expected: Vec<String> = (0..40).map(|i| format!("<{}>", i)).collect();
    assert_eq!(observed(1, 40, 2), expected);
}

#[test]
fn the_capacity_does_not_change_what_is_observed() {
    let expected: Vec<String> = (0..100).map(|i| format!("<{}>", i)).collect();
    assert_eq!(observed(1, 100, 0), expected);
    assert_eq!(observed(64, 100, 0), expected);
    assert_eq!(observed(invmst::CHANNEL_BUFFER_DEFAULT, 100, 0), expected);
}

#[test]
fn a_consumer_that_leaves_does_not_stop_the_reader() {
    let runtime = tokio::runtime::Builder::new_current_thread().enable_time().build().unwrap();
    runtime.block_on(async move {
        let (sender, mut receiver) = tokio::sync::mpsc::channel::<ChatCompletionEvent>(1);
        let producer = tokio::spawn(async move {
            let mut state = StreamState::Streaming;
            let mut handed = 0usize;
            for i in 0..10 {
                let taken = step(state, StreamInput::Chunk(chunk(i)));
                state = taken.state;
                for event in taken.events {
                    let _ = sender.send(event).await;
                    handed += 1;
                }
            }
            (step(state, StreamInput::End).state, handed)
        });

        let mut builder = MessageBuilder::new();
        if let Some(event) = receiver.recv().await {
            assert!(builder.push(event).is_ok());
        }
        receiver.close();
        drop(receiver);

        let (state, handed) = producer.await.unwrap();
        assert_eq!(state, StreamState::Closed);
        assert_eq!(handed, 10);
        assert_eq!(builder.finish().content, "<0>");
    });
}
