use videotaxi_speech_rs::{
    EndOfStreamPayload, Event, EventReceiver, Frame, FrameOutcome, ReceiverState, SpeechApiError,
    StartOfStreamPayload,
};

fn end_frame(reason: &str) -> Frame {
    Frame::Text(format!(
        "{{\"events\":[{{\"kind\":\"end_of_stream\",\"payload\":{{\"reason\":\"{reason}\"}}}}]}}"
    ))
}

fn end_event(reason: &str) -> Event {
    Event::EndOfStream(EndOfStreamPayload { reason: reason.to_string() })
}

#[test]
fn new_receiver_runs_with_nothing_queued() {
    let mut receiver = EventReceiver::new();
    assert_eq!(receiver.state(), ReceiverState::Running);
    assert!(!receiver.is_finished());
    assert_eq!(receiver.next_event(), None);
}

#[test]
fn events_leave_in_arrival_order() {
    let mut receiver = EventReceiver::new();
    assert_eq!(receiver.accept_frame(&end_frame("A")), FrameOutcome::Forwarded(1));
    assert_eq!(receiver.accept_frame(&end_frame("B")), FrameOutcome::Forwarded(1));
    assert_eq!(receiver.accept_frame(&end_frame("C")), FrameOutcome::Forwarded(1));
    assert_eq!(receiver.next_event(), Some(end_event("A")));
    assert_eq!(receiver.next_event(), Some(end_event("B")));
    assert_eq!(receiver.next_event(), Some(end_event("C")));
    assert_eq!(receiver.next_event(), None);
    assert_eq!(receiver.state(), ReceiverState::Running);
}

#[test]
fn taking_between_frames_keeps_the_order() {
    let mut receiver = EventReceiver::new();
    receiver.accept_frame(&end_frame("A"));
    receiver.accept_frame(&end_frame("B"));
    assert_eq!(receiver.next_event(), Some(end_event("A")));
    receiver.accept_frame(&end_frame("C"));
    assert_eq!(receiver.next_event(), Some(end_event("B")));
    assert_eq!(receiver.next_event(), Some(end_event("C")));
    assert_eq!(receiver.next_event(), None);
}

#[test]
fn one_frame_with_several_events_keeps_array_order() {
    let mut receiver = EventReceiver::new();
    let frame = Frame::Text(
        r#"{"events":[{"kind":"start_of_stream","payload":{}},{"kind":"end_of_stream","payload":{"reason":"x"}}]}"#
            .to_string(),
    );
    assert_eq!(receiver.accept_frame(&frame), FrameOutcome::Forwarded(2));
    assert_eq!(receiver.next_event(), Some(Event::StartOfStream(StartOfStreamPayload {})));
    assert_eq!(receiver.next_event(), Some(end_event("x")));
}

#[test]
fn end_to_end_example_frames() {
    let mut receiver = EventReceiver::new();
    receiver.accept_frame(&Frame::Text(
        r#"{"events":[{"kind":"start_of_stream","payload":{}}]}"#.to_string(),
    ));
    receiver.accept_frame(&Frame::Text(
        r#"{"events":[{"kind":"transcript","payload":{"sentence_id":"s1","text":"hello","latency":0.2,"speaker":"A","created_at":1000,"from_ms":0,"to_ms":500}}]}"#.to_string(),
    ));
    assert_eq!(receiver.next_event(), Some(Event::StartOfStream(StartOfStreamPayload {})));
    match receiver.next_event() {
        Some(Event::Transcript(p)) => {
            assert_eq!(p.sentence_id, "s1");
            assert_eq!(p.text, "hello");
            assert_eq!(f64::from_bits(p.latency), 0.2);
            assert_eq!(p.speaker, "A");
            assert_eq!(p.created_at, 1000);
            assert_eq!(f64::from_bits(p.from_ms), 0.0);
            assert_eq!(f64::from_bits(p.to_ms), 500.0);
        }
        other => panic!("not a transcript: {other:?}"),
    }
    assert_eq!(receiver.next_event(), None);
}

#[test]
fn malformed_text_is_reported_and_the_next_frame_is_delivered() {
    let mut receiver = EventReceiver::new();
    for bad in ["", "garbage", "{\"events\":3}", "{\"events\":[{\"kind\":\"nope\",\"payload\":{}}]}"] {
        let outcome = receiver.accept_frame(&Frame::Text(bad.to_string()));
        assert!(
            matches!(outcome, FrameOutcome::Malformed(SpeechApiError::JsonError(_))),
            "{bad}"
        );
        assert_eq!(receiver.state(), ReceiverState::Running);
    }
    assert_eq!(receiver.next_event(), None);
    assert_eq!(receiver.accept_frame(&end_frame("ok")), FrameOutcome::Forwarded(1));
    assert_eq!(receiver.next_event(), Some(end_event("ok")));
}

#[test]
fn binary_and_other_frames_are_ignored() {
    let mut receiver = EventReceiver::new();
    assert_eq!(receiver.accept_frame(&Frame::Binary(vec![1, 2, 3])), FrameOutcome::Ignored);
    assert_eq!(receiver.accept_frame(&Frame::Other), FrameOutcome::Ignored);
    assert_eq!(receiver.state(), ReceiverState::Running);
    assert_eq!(receiver.next_event(), None);
}

#[test]
fn close_frame_stops_and_queue_drains() {
    let mut receiver = EventReceiver::new();
    receiver.accept_frame(&end_frame("bye"));
    assert_eq!(receiver.accept_frame(&Frame::Close), FrameOutcome::Stopped);
    assert_eq!(receiver.state(), ReceiverState::Closed);
    assert!(!receiver.is_finished());
    assert_eq!(receiver.accept_frame(&end_frame("late")), FrameOutcome::Stopped);
    assert_eq!(receiver.next_event(), Some(end_event("bye")));
    assert_eq!(receiver.next_event(), None);
    assert!(receiver.is_finished());
}

#[test]
fn transport_error_stops_without_an_event() {
    let mut receiver = EventReceiver::new();
    assert_eq!(
        receiver.accept_frame(&Frame::TransportError("reset".to_string())),
        FrameOutcome::Stopped
    );
    assert_eq!(receiver.state(), ReceiverState::Closed);
    assert_eq!(receiver.next_event(), None);
    assert!(receiver.is_finished());
}

#[test]
fn dropped_consumer_stops_forwarding() {
    let mut receiver = EventReceiver::new();
    receiver.consumer_dropped();
    assert_eq!(receiver.state(), ReceiverState::Closed);
    assert_eq!(receiver.accept_frame(&end_frame("late")), FrameOutcome::Stopped);
    assert_eq!(receiver.next_event(), None);
}
