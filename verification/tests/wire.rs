use videotaxi_speech_rs::wire::{
    decode_event, decode_message, encode_event, encode_message, encode_payload, parse_document,
    parse_message,
};
use videotaxi_speech_rs::{
    EndOfStreamPayload, Event, Json, JsonMember, JsonNumber, PartialPayload, SpeechApiError,
    StartOfStreamPayload, TranscriptPayload, TranslationPayload, VoicePayload, VoiceoverPayload,
    WebSocketMessage,
};

fn bits(x: f64) -> u64 {
    x.to_bits()
}

fn one_event(text: &str) -> Event {
    let mut events = parse_message(text).unwrap().events;
    assert_eq!(events.len(), 1);
    events.remove(0)
}

fn sample_events() -> Vec<Event> {
    vec![
        Event::Partial(PartialPayload { id: None, text: "hel".to_string(), latency: bits(0.1) }),
        Event::Partial(PartialPayload {
            id: Some("p1".to_string()),
            text: "hello \"you\"".to_string(),
            latency: bits(f64::NAN),
        }),
        Event::Transcript(TranscriptPayload {
            sentence_id: "s1".to_string(),
            text: "hello".to_string(),
            latency: bits(0.2),
            speaker: "A".to_string(),
            created_at: 1000,
            from_ms: bits(0.0),
            to_ms: bits(500.0),
        }),
        Event::Translation(TranslationPayload {
            id: "t1".to_string(),
            sentence_id: "s1".to_string(),
            text: "hallo".to_string(),
            original: "hello".to_string(),
            latency: bits(0.3),
            speaker: "B".to_string(),
            created_at: -5,
            from_ms: bits(10.5),
            to_ms: bits(20.25),
        }),
        Event::Voiceover(VoiceoverPayload {
            id: "vo1".to_string(),
            text: "hallo".to_string(),
            original: "hello".to_string(),
            latency: bits(1.5),
            speaker: "C".to_string(),
            created_at: i64::MAX,
            playback_uri: "https://example.test/a.mp3".to_string(),
            from_ms: bits(0.0),
            to_ms: bits(1.0),
        }),
        Event::Voice(VoicePayload {
            id: "v1".to_string(),
            sentence_id: "s1".to_string(),
            text: "hallo".to_string(),
            latency: bits(0.4),
            speaker: "D".to_string(),
            created_at: i64::MIN,
            audio: "AQD+/w==".to_string(),
            seq: u32::MAX,
            from_ms: bits(100.0),
            to_ms: bits(200.0),
        }),
        Event::StartOfStream(StartOfStreamPayload {}),
        Event::EndOfStream(EndOfStreamPayload { reason: "done".to_string() }),
    ]
}

#[test]
fn start_of_stream_frame_yields_one_event() {
    let message =
        parse_message(r#"{"events":[{"kind":"start_of_stream","payload":{}}]}"#).unwrap();
    assert_eq!(message.events, vec![Event::StartOfStream(StartOfStreamPayload {})]);
}

#[test]
fn transcript_frame_yields_exact_fields() {
    let event = one_event(
        r#"{"events":[{"kind":"transcript","payload":{"sentence_id":"s1","text":"hello","latency":0.2,"speaker":"A","created_at":1000,"from_ms":0,"to_ms":500}}]}"#,
    );
    match event {
        Event::Transcript(p) => {
            assert_eq!(p.sentence_id, "s1");
            assert_eq!(p.text, "hello");
            assert_eq!(f64::from_bits(p.latency), 0.2);
            assert_eq!(p.speaker, "A");
            assert_eq!(p.created_at, 1000);
            assert_eq!(f64::from_bits(p.from_ms), 0.0);
            assert_eq!(f64::from_bits(p.to_ms), 500.0);
        }
        other => panic!("not a transcript: {other:?}"),
    }
}

#[test]
fn partial_frame_with_and_without_id() {
    let event = one_event(r#"{"events":[{"kind":"partial","payload":{"text":"he","latency":0.5}}]}"#);
    assert_eq!(
        event,
        Event::Partial(PartialPayload { id: None, text: "he".to_string(), latency: bits(0.5) })
    );
    let event = one_event(
        r#"{"events":[{"kind":"partial","payload":{"id":null,"text":"he","latency":1}}]}"#,
    );
    assert_eq!(
        event,
        Event::Partial(PartialPayload { id: None, text: "he".to_string(), latency: bits(1.0) })
    );
    let event = one_event(
        r#"{"events":[{"payload":{"id":"p9","text":"he","latency":2.5},"kind":"partial"}]}"#,
    );
    assert_eq!(
        event,
        Event::Partial(PartialPayload {
            id: Some("p9".to_string()),
            text: "he".to_string(),
            latency: bits(2.5)
        })
    );
}

#[test]
fn translation_frame_decodes() {
    let event = one_event(
        r#"{"events":[{"kind":"translation","payload":{"id":"t1","sentence_id":"s1","text":"hallo","original":"hello","latency":0.3,"speaker":"B","created_at":-5,"from_ms":10.5,"to_ms":20.25}}]}"#,
    );
    assert_eq!(event, sample_events()[3]);
}

#[test]
fn voiceover_frame_decodes() {
    let event = one_event(
        r#"{"events":[{"kind":"voiceover","payload":{"id":"vo1","text":"hallo","original":"hello","latency":1.5,"speaker":"C","created_at":9223372036854775807,"playback_uri":"https://example.test/a.mp3","from_ms":0.0,"to_ms":1.0}}]}"#,
    );
    assert_eq!(event, sample_events()[4]);
}

#[test]
fn voice_frame_decodes() {
    let event = one_event(
        r#"{"events":[{"kind":"voice","payload":{"id":"v1","sentence_id":"s1","text":"hallo","latency":0.4,"speaker":"D","created_at":-9223372036854775808,"audio":"AQD+/w==","seq":4294967295,"from_ms":100.0,"to_ms":200.0}}]}"#,
    );
    assert_eq!(event, sample_events()[5]);
}

#[test]
fn end_of_stream_frame_decodes() {
    let event = one_event(r#"{"events":[{"kind":"end_of_stream","payload":{"reason":"done"}}]}"#);
    assert_eq!(event, Event::EndOfStream(EndOfStreamPayload { reason: "done".to_string() }));
}

#[test]
fn events_keep_the_order_of_the_array() {
    let message = parse_message(
        r#"{"events":[{"kind":"end_of_stream","payload":{"reason":"a"}},{"kind":"start_of_stream","payload":{}},{"kind":"end_of_stream","payload":{"reason":"b"}}]}"#,
    )
    .unwrap();
    assert_eq!(
        message.events,
        vec![
            Event::EndOfStream(EndOfStreamPayload { reason: "a".to_string() }),
            Event::StartOfStream(StartOfStreamPayload {}),
            Event::EndOfStream(EndOfStreamPayload { reason: "b".to_string() }),
        ]
    );
    assert_eq!(parse_message(r#"{"events":[]}"#).unwrap().events, Vec::<Event>::new());
}

#[test]
fn unknown_fields_are_ignored() {
    let event = one_event(
        r#"{"trace":7,"events":[{"kind":"end_of_stream","extra":[1,2],"payload":{"reason":"done","more":{"a":null}}}]}"#,
    );
    assert_eq!(event, Event::EndOfStream(EndOfStreamPayload { reason: "done".to_string() }));
}

#[test]
fn malformed_texts_are_decode_failures() {
    let bad = [
        "",
        "not json",
        "{",
        "[]",
        "{}",
        r#"{"events":{}}"#,
        r#"{"events":[1]}"#,
        r#"{"events":[{"payload":{}}]}"#,
        r#"{"events":[{"kind":"start_of_stream"}]}"#,
        r#"{"events":[{"kind":"bogus","payload":{}}]}"#,
        r#"{"events":[{"kind":"Partial","payload":{"text":"a","latency":1}}]}"#,
        r#"{"events":[{"kind":"partial","payload":{"text":"a"}}]}"#,
        r#"{"events":[{"kind":"partial","payload":{"id":5,"text":"a","latency":1}}]}"#,
        r#"{"events":[{"kind":"partial","payload":{"text":"a","latency":"1"}}]}"#,
        r#"{"events":[{"kind":"start_of_stream","payload":null}]}"#,
        r#"{"events":[{"kind":"end_of_stream","payload":{}}]}"#,
        r#"{"events":[{"kind":"transcript","payload":{"sentence_id":"s1","text":"hello","latency":0.2,"speaker":"A","created_at":1.5,"from_ms":0,"to_ms":500}}]}"#,
        r#"{"events":[{"kind":"voice","payload":{"id":"v1","sentence_id":"s1","text":"hallo","latency":0.4,"speaker":"D","created_at":1,"audio":"","seq":4294967296,"from_ms":100.0,"to_ms":200.0}}]}"#,
        r#"{"events":[{"kind":"voice","payload":{"id":"v1","sentence_id":"s1","text":"hallo","latency":0.4,"speaker":"D","created_at":1,"audio":"","seq":-1,"from_ms":100.0,"to_ms":200.0}}]}"#,
        r#"{"events":[{"kind":"start_of_stream","payload":{}},{"kind":"bogus","payload":{}}]}"#,
    ];
    for text in bad {
        let result = parse_message(text);
        assert!(matches!(result, Err(SpeechApiError::JsonError(_))), "{text}");
    }
}

#[test]
fn decode_event_tells_unknown_kind_from_bad_payload() {
    let empty = Json::Object(Vec::new());
    assert_eq!(
        decode_event("bogus", &empty),
        Err(SpeechApiError::JsonError("unknown event kind".to_string()))
    );
    assert_eq!(
        decode_event("", &empty),
        Err(SpeechApiError::JsonError("unknown event kind".to_string()))
    );
    assert_eq!(
        decode_event("voice", &empty),
        Err(SpeechApiError::JsonError("event payload does not match its kind".to_string()))
    );
    assert_eq!(
        decode_event("start_of_stream", &Json::Null),
        Err(SpeechApiError::JsonError("event payload does not match its kind".to_string()))
    );
    assert_eq!(
        decode_event("start_of_stream", &empty),
        Ok(Event::StartOfStream(StartOfStreamPayload {}))
    );
}

#[test]
fn decode_event_reads_fields_by_name() {
    let payload = Json::Object(vec![
        JsonMember {
            name: "latency".to_string(),
            value: Json::Number(JsonNumber { integer: Some(2), float_bits: Some(bits(2.0)) }),
        },
        JsonMember { name: "text".to_string(), value: Json::Text("hi".to_string()) },
        JsonMember { name: "text".to_string(), value: Json::Text("later".to_string()) },
    ]);
    assert_eq!(
        decode_event("partial", &payload),
        Ok(Event::Partial(PartialPayload { id: None, text: "hi".to_string(), latency: bits(2.0) }))
    );
}

#[test]
fn every_kind_round_trips_through_its_entry() {
    for event in sample_events() {
        let entry = encode_event(&event);
        assert_eq!(entry.member("kind"), Some(&Json::Text(event.kind().to_string())));
        let payload = entry.member("payload").unwrap();
        assert_eq!(decode_event(event.kind(), payload), Ok(event.clone()));
        assert_eq!(decode_event(event.kind(), &encode_payload(&event)), Ok(event.clone()));
    }
}

#[test]
fn kinds_are_the_seven_tags() {
    let kinds: Vec<&str> = sample_events().iter().map(|e| e.kind()).collect();
    assert_eq!(
        kinds,
        vec![
            "partial",
            "partial",
            "transcript",
            "translation",
            "voiceover",
            "voice",
            "start_of_stream",
            "end_of_stream"
        ]
    );
}

#[test]
fn a_payload_under_another_tag_is_not_coerced() {
    let transcript = &sample_events()[2];
    let payload = encode_payload(transcript);
    assert!(decode_event("translation", &payload).is_err());
    assert!(decode_event("voice", &payload).is_err());
    assert!(matches!(decode_event("partial", &payload), Ok(Event::Partial(_))));
}

#[test]
fn message_round_trips_through_its_document() {
    let message = WebSocketMessage { events: sample_events() };
    let doc = encode_message(&message);
    assert_eq!(decode_message(&doc), Ok(message));
    let none = WebSocketMessage { events: Vec::new() };
    assert_eq!(decode_message(&encode_message(&none)), Ok(none));
}

#[test]
fn parse_document_reads_json_values() {
    assert_eq!(parse_document("null"), Some(Json::Null));
    assert_eq!(parse_document("true"), Some(Json::Bool(true)));
    assert_eq!(parse_document("\"a\\nb\""), Some(Json::Text("a\nb".to_string())));
    assert_eq!(
        parse_document("[1, -2.5]"),
        Some(Json::Array(vec![
            Json::Number(JsonNumber { integer: Some(1), float_bits: Some(bits(1.0)) }),
            Json::Number(JsonNumber { integer: None, float_bits: Some(bits(-2.5)) }),
        ]))
    );
    assert_eq!(
        parse_document(r#"{"a":{"b":"c"}}"#),
        Some(Json::Object(vec![JsonMember {
            name: "a".to_string(),
            value: Json::Object(vec![JsonMember {
                name: "b".to_string(),
                value: Json::Text("c".to_string())
            }]),
        }]))
    );
    assert_eq!(parse_document("{\"a\":"), None);
    assert_eq!(parse_document("1 2"), None);
}

#[test]
fn json_lookups() {
    let doc = parse_document(r#"{"s":"x","n":3,"f":1.5,"z":null,"big":18446744073709551615}"#).unwrap();
    assert!(doc.is_object());
    assert_eq!(doc.text_field("s"), Some("x".to_string()));
    assert_eq!(doc.text_field("n"), None);
    assert_eq!(doc.text_field("missing"), None);
    assert_eq!(doc.optional_text_field("s"), Some(Some("x".to_string())));
    assert_eq!(doc.optional_text_field("z"), Some(None));
    assert_eq!(doc.optional_text_field("missing"), Some(None));
    assert_eq!(doc.optional_text_field("n"), None);
    assert_eq!(doc.integer_field("n"), Some(3));
    assert_eq!(doc.integer_field("f"), None);
    assert_eq!(doc.integer_field("big"), None);
    assert_eq!(doc.float_field("n"), Some(bits(3.0)));
    assert_eq!(doc.float_field("f"), Some(bits(1.5)));
    assert_eq!(doc.float_field("s"), None);
    assert_eq!(doc.member("z"), Some(&Json::Null));
    assert_eq!(Json::Null.member("s"), None);
    assert!(!Json::Array(Vec::new()).is_object());
}

#[test]
fn decode_failures_say_what_is_wrong() {
    assert_eq!(
        parse_message("nope"),
        Err(SpeechApiError::JsonError("text is not JSON".to_string()))
    );
    assert_eq!(
        parse_message("{}"),
        Err(SpeechApiError::JsonError("message has no list of events".to_string()))
    );
    assert_eq!(
        parse_message(r#"{"events":"x"}"#),
        Err(SpeechApiError::JsonError("message has no list of events".to_string()))
    );
    assert_eq!(
        parse_message(r#"{"events":[{}]}"#),
        Err(SpeechApiError::JsonError("malformed event entry".to_string()))
    );
    assert_eq!(
        decode_message(&Json::Null),
        Err(SpeechApiError::JsonError("message has no list of events".to_string()))
    );
}
