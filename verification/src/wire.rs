use crate::error::{Result, SpeechApiError};
use crate::json::{find_member, json_document, parse_json, Json, JsonMember, JsonNumber};
use crate::types::{
    EndOfStreamPayload, Event, PartialPayload, StartOfStreamPayload, TranscriptPayload,
    TranslationPayload, VoicePayload, VoiceoverPayload, WebSocketMessage,
};
use vstd::prelude::*;

verus! {

impl Event {
    /// The tag that names this event's variant on the wire.
    pub open spec fn spec_kind(self) -> Seq<char> {
        match self {
            Event::Partial(_) => "partial"@,
            Event::Transcript(_) => "transcript"@,
            Event::Translation(_) => "translation"@,
            Event::Voiceover(_) => "voiceover"@,
            Event::Voice(_) => "voice"@,
            Event::StartOfStream(_) => "start_of_stream"@,
            Event::EndOfStream(_) => "end_of_stream"@,
        }
    }

    /// The tag that names this event's variant on the wire.
    pub fn kind(&self) -> (r: &'static str)
        ensures
            r@ == self.spec_kind(),
    {
        match self {
            Event::Partial(_) => "partial",
            Event::Transcript(_) => "transcript",
            Event::Translation(_) => "translation",
            Event::Voiceover(_) => "voiceover",
            Event::Voice(_) => "voice",
            Event::StartOfStream(_) => "start_of_stream",
            Event::EndOfStream(_) => "end_of_stream",
        }
    }
}

/// Whether `kind` is one of the seven tags.
pub open spec fn spec_known_kind(kind: Seq<char>) -> bool {
    kind == "partial"@ || kind == "transcript"@ || kind == "translation"@ || kind == "voiceover"@
        || kind == "voice"@ || kind == "start_of_stream"@ || kind == "end_of_stream"@
}

pub open spec fn spec_partial(p: Json) -> Option<PartialPayload> {
    match (p.spec_optional_text("id"@), p.spec_text("text"@), p.spec_float("latency"@)) {
        (Some(id), Some(text), Some(latency)) => Some(PartialPayload { id, text, latency }),
        _ => None,
    }
}

pub open spec fn spec_transcript(p: Json) -> Option<TranscriptPayload> {
    match (
        p.spec_text("sentence_id"@),
        p.spec_text("text"@),
        p.spec_float("latency"@),
        p.spec_text("speaker"@),
        p.spec_integer("created_at"@),
        p.spec_float("from_ms"@),
        p.spec_float("to_ms"@),
    ) {
        (
            Some(sentence_id),
            Some(text),
            Some(latency),
            Some(speaker),
            Some(created_at),
            Some(from_ms),
            Some(to_ms),
        ) => Some(
            TranscriptPayload { sentence_id, text, latency, speaker, created_at, from_ms, to_ms },
        ),
        _ => None,
    }
}

pub open spec fn spec_translation(p: Json) -> Option<TranslationPayload> {
    match (
        p.spec_text("id"@),
        p.spec_text("sentence_id"@),
        p.spec_text("text"@),
        p.spec_text("original"@),
        p.spec_float("latency"@),
        p.spec_text("speaker"@),
        p.spec_integer("created_at"@),
        p.spec_float("from_ms"@),
        p.spec_float("to_ms"@),
    ) {
        (
            Some(id),
            Some(sentence_id),
            Some(text),
            Some(original),
            Some(latency),
            Some(speaker),
            Some(created_at),
            Some(from_ms),
            Some(to_ms),
        ) => Some(
            TranslationPayload {
                id,
                sentence_id,
                text,
                original,
                latency,
                speaker,
                created_at,
                from_ms,
                to_ms,
            },
        ),
        _ => None,
    }
}

pub open spec fn spec_voiceover(p: Json) -> Option<VoiceoverPayload> {
    match (
        p.spec_text("id"@),
        p.spec_text("text"@),
        p.spec_text("original"@),
        p.spec_float("latency"@),
        p.spec_text("speaker"@),
        p.spec_integer("created_at"@),
        p.spec_text("playback_uri"@),
        p.spec_float("from_ms"@),
        p.spec_float("to_ms"@),
    ) {
        (
            Some(id),
            Some(text),
            Some(original),
            Some(latency),
            Some(speaker),
            Some(created_at),
            Some(playback_uri),
            Some(from_ms),
            Some(to_ms),
        ) => Some(
            VoiceoverPayload {
                id,
                text,
                original,
                latency,
                speaker,
                created_at,
                playback_uri,
                from_ms,
                to_ms,
            },
        ),
        _ => None,
    }
}

/// The sequence number under `"seq"`: an integer that fits 32 unsigned bits.
pub open spec fn spec_sequence_number(p: Json) -> Option<u32> {
    match p.spec_integer("seq"@) {
        Some(n) => if 0 <= n <= u32::MAX {
            Some(n as u32)
        } else {
            None
        },
        None => None,
    }
}

pub open spec fn spec_voice(p: Json) -> Option<VoicePayload> {
    match (
        p.spec_text("id"@),
        p.spec_text("sentence_id"@),
        p.spec_text("text"@),
        p.spec_float("latency"@),
        p.spec_text("speaker"@),
        p.spec_integer("created_at"@),
        p.spec_text("audio"@),
        spec_sequence_number(p),
        p.spec_float("from_ms"@),
        p.spec_float("to_ms"@),
    ) {
        (
            Some(id),
            Some(sentence_id),
            Some(text),
            Some(latency),
            Some(speaker),
            Some(created_at),
            Some(audio),
            Some(seq),
            Some(from_ms),
            Some(to_ms),
        ) => Some(
            VoicePayload {
                id,
                sentence_id,
                text,
                latency,
                speaker,
                created_at,
                audio,
                seq,
                from_ms,
                to_ms,
            },
        ),
        _ => None,
    }
}

pub open spec fn spec_end_of_stream(p: Json) -> Option<EndOfStreamPayload> {
    match p.spec_text("reason"@) {
        Some(reason) => Some(EndOfStreamPayload { reason }),
        None => None,
    }
}

pub open spec fn spec_start_of_stream(p: Json) -> Option<StartOfStreamPayload> {
    if p.spec_is_object() {
        Some(StartOfStreamPayload {  })
    } else {
        None
    }
}

/// The event that a tag and a payload stand for: the variant that the tag
/// names, with each field read from the payload member of its name. `None`
/// where the tag is not one of the seven, or the payload lacks a field of
/// that variant or holds it in another type.
pub open spec fn spec_decode_event(kind: Seq<char>, p: Json) -> Option<Event> {
    if kind == "partial"@ {
        match spec_partial(p) {
            Some(x) => Some(Event::Partial(x)),
            None => None,
        }
    } else if kind == "transcript"@ {
        match spec_transcript(p) {
            Some(x) => Some(Event::Transcript(x)),
            None => None,
        }
    } else if kind == "translation"@ {
        match spec_translation(p) {
            Some(x) => Some(Event::Translation(x)),
            None => None,
        }
    } else if kind == "voiceover"@ {
        match spec_voiceover(p) {
            Some(x) => Some(Event::Voiceover(x)),
            None => None,
        }
    } else if kind == "voice"@ {
        match spec_voice(p) {
            Some(x) => Some(Event::Voice(x)),
            None => None,
        }
    } else if kind == "start_of_stream"@ {
        match spec_start_of_stream(p) {
            Some(x) => Some(Event::StartOfStream(x)),
            None => None,
        }
    } else if kind == "end_of_stream"@ {
        match spec_end_of_stream(p) {
            Some(x) => Some(Event::EndOfStream(x)),
            None => None,
        }
    } else {
        None
    }
}

/// The event that one entry of a message stands for: its `"kind"` is the
/// tag, its `"payload"` the payload.
pub open spec fn spec_decode_entry(entry: Json) -> Option<Event> {
    match (entry.spec_text("kind"@), entry.spec_member("payload"@)) {
        (Some(kind), Some(payload)) => spec_decode_event(kind@, payload),
        _ => None,
    }
}

/// The events of a list of entries, in the order of the entries; `None`
/// where any entry fails to decode.
pub open spec fn spec_decode_entries(entries: Seq<Json>) -> Option<Seq<Event>> {
    if forall|i: int| 0 <= i < entries.len() ==> (#[trigger] spec_decode_entry(entries[i])) is Some {
        Some(Seq::new(entries.len(), |i: int| spec_decode_entry(entries[i])->Some_0))
    } else {
        None
    }
}

/// The events of a message document: those of the array under `"events"`.
pub open spec fn spec_decode_message(doc: Json) -> Option<Seq<Event>> {
    match doc.spec_member("events"@) {
        Some(Json::Array(entries)) => spec_decode_entries(entries@),
        _ => None,
    }
}

/// Why a document is no message, for one that is none.
pub open spec fn spec_message_problem(doc: Json) -> Seq<char> {
    match doc.spec_member("events"@) {
        Some(Json::Array(_)) => "malformed event entry"@,
        _ => "message has no list of events"@,
    }
}

/// Why a text is no message, for one that is none.
pub open spec fn spec_parse_problem(text: Seq<char>) -> Seq<char> {
    match json_document(text) {
        Some(doc) => spec_message_problem(doc),
        None => "text is not JSON"@,
    }
}

/// The events that the text of one frame carries, in order; `None` where
/// the text is not JSON or not a well-formed message.
pub open spec fn spec_parse_message(text: Seq<char>) -> Option<Seq<Event>> {
    match json_document(text) {
        Some(doc) => spec_decode_message(doc),
        None => None,
    }
}

fn same_text(a: &str, b: &str) -> (r: bool)
    ensures
        r == (a@ == b@),
{
    let left = a.to_owned();
    let right = b.to_owned();
    left == right
}

fn decode_partial(p: &Json) -> (r: Option<PartialPayload>)
    ensures
        r == spec_partial(*p),
{
    let id = match p.optional_text_field("id") {
        Some(v) => v,
        None => return None,
    };
    let text = match p.text_field("text") {
        Some(v) => v,
        None => return None,
    };
    let latency: u64 = match p.float_field("latency") {
        Some(v) => v,
        None => return None,
    };
    Some(PartialPayload { id, text, latency })
}

fn decode_transcript(p: &Json) -> (r: Option<TranscriptPayload>)
    ensures
        r == spec_transcript(*p),
{
    let sentence_id = match p.text_field("sentence_id") {
        Some(v) => v,
        None => return None,
    };
    let text = match p.text_field("text") {
        Some(v) => v,
        None => return None,
    };
    let latency: u64 = match p.float_field("latency") {
        Some(v) => v,
        None => return None,
    };
    let speaker = match p.text_field("speaker") {
        Some(v) => v,
        None => return None,
    };
    let created_at: i64 = match p.integer_field("created_at") {
        Some(v) => v,
        None => return None,
    };
    let from_ms: u64 = match p.float_field("from_ms") {
        Some(v) => v,
        None => return None,
    };
    let to_ms: u64 = match p.float_field("to_ms") {
        Some(v) => v,
        None => return None,
    };
    Some(TranscriptPayload { sentence_id, text, latency, speaker, created_at, from_ms, to_ms })
}

fn decode_translation(p: &Json) -> (r: Option<TranslationPayload>)
    ensures
        r == spec_translation(*p),
{
    let id = match p.text_field("id") {
        Some(v) => v,
        None => return None,
    };
    let sentence_id = match p.text_field("sentence_id") {
        Some(v) => v,
        None => return None,
    };
    let text = match p.text_field("text") {
        Some(v) => v,
        None => return None,
    };
    let original = match p.text_field("original") {
        Some(v) => v,
        None => return None,
    };
    let latency: u64 = match p.float_field("latency") {
        Some(v) => v,
        None => return None,
    };
    let speaker = match p.text_field("speaker") {
        Some(v) => v,
        None => return None,
    };
    let created_at: i64 = match p.integer_field("created_at") {
        Some(v) => v,
        None => return None,
    };
    let from_ms: u64 = match p.float_field("from_ms") {
        Some(v) => v,
        None => return None,
    };
    let to_ms: u64 = match p.float_field("to_ms") {
        Some(v) => v,
        None => return None,
    };
    Some(
        TranslationPayload {
            id,
            sentence_id,
            text,
            original,
            latency,
            speaker,
            created_at,
            from_ms,
            to_ms,
        },
    )
}

fn decode_voiceover(p: &Json) -> (r: Option<VoiceoverPayload>)
    ensures
        r == spec_voiceover(*p),
{
    let id = match p.text_field("id") {
        Some(v) => v,
        None => return None,
    };
    let text = match p.text_field("text") {
        Some(v) => v,
        None => return None,
    };
    let original = match p.text_field("original") {
        Some(v) => v,
        None => return None,
    };
    let latency: u64 = match p.float_field("latency") {
        Some(v) => v,
        None => return None,
    };
    let speaker = match p.text_field("speaker") {
        Some(v) => v,
        None => return None,
    };
    let created_at: i64 = match p.integer_field("created_at") {
        Some(v) => v,
        None => return None,
    };
    let playback_uri = match p.text_field("playback_uri") {
        Some(v) => v,
        None => return None,
    };
    let from_ms: u64 = match p.float_field("from_ms") {
        Some(v) => v,
        None => return None,
    };
    let to_ms: u64 = match p.float_field("to_ms") {
        Some(v) => v,
        None => return None,
    };
    Some(
        VoiceoverPayload {
            id,
            text,
            original,
            latency,
            speaker,
            created_at,
            playback_uri,
            from_ms,
            to_ms,
        },
    )
}

fn decode_sequence_number(p: &Json) -> (r: Option<u32>)
    ensures
        r == spec_sequence_number(*p),
{
    match p.integer_field("seq") {
        Some(n) => {
            if 0 <= n && n <= 4294967295 {
                Some(n as u32)
            } else {
                None
            }
        },
        None => None,
    }
}

fn decode_voice(p: &Json) -> (r: Option<VoicePayload>)
    ensures
        r == spec_voice(*p),
{
    let id = match p.text_field("id") {
        Some(v) => v,
        None => return None,
    };
    let sentence_id = match p.text_field("sentence_id") {
        Some(v) => v,
        None => return None,
    };
    let text = match p.text_field("text") {
        Some(v) => v,
        None => return None,
    };
    let latency: u64 = match p.float_field("latency") {
        Some(v) => v,
        None => return None,
    };
    let speaker = match p.text_field("speaker") {
        Some(v) => v,
        None => return None,
    };
    let created_at: i64 = match p.integer_field("created_at") {
        Some(v) => v,
        None => return None,
    };
    let audio = match p.text_field("audio") {
        Some(v) => v,
        None => return None,
    };
    let seq: u32 = match decode_sequence_number(p) {
        Some(v) => v,
        None => return None,
    };
    let from_ms: u64 = match p.float_field("from_ms") {
        Some(v) => v,
        None => return None,
    };
    let to_ms: u64 = match p.float_field("to_ms") {
        Some(v) => v,
        None => return None,
    };
    Some(
        VoicePayload {
            id,
            sentence_id,
            text,
            latency,
            speaker,
            created_at,
            audio,
            seq,
            from_ms,
            to_ms,
        },
    )
}

fn decode_end_of_stream(p: &Json) -> (r: Option<EndOfStreamPayload>)
    ensures
        r == spec_end_of_stream(*p),
{
    match p.text_field("reason") {
        Some(reason) => Some(EndOfStreamPayload { reason }),
        None => None,
    }
}

fn decode_start_of_stream(p: &Json) -> (r: Option<StartOfStreamPayload>)
    ensures
        r == spec_start_of_stream(*p),
{
    if p.is_object() {
        Some(StartOfStreamPayload {  })
    } else {
        None
    }
}

fn decode_known(kind: &str, payload: &Json) -> (r: Option<Event>)
    ensures
        r == spec_decode_event(kind@, *payload),
{
    if same_text(kind, "partial") {
        match decode_partial(payload) {
            Some(x) => Some(Event::Partial(x)),
            None => None,
        }
    } else if same_text(kind, "transcript") {
        match decode_transcript(payload) {
            Some(x) => Some(Event::Transcript(x)),
            None => None,
        }
    } else if same_text(kind, "translation") {
        match decode_translation(payload) {
            Some(x) => Some(Event::Translation(x)),
            None => None,
        }
    } else if same_text(kind, "voiceover") {
        match decode_voiceover(payload) {
            Some(x) => Some(Event::Voiceover(x)),
            None => None,
        }
    } else if same_text(kind, "voice") {
        match decode_voice(payload) {
            Some(x) => Some(Event::Voice(x)),
            None => None,
        }
    } else if same_text(kind, "start_of_stream") {
        match decode_start_of_stream(payload) {
            Some(x) => Some(Event::StartOfStream(x)),
            None => None,
        }
    } else if same_text(kind, "end_of_stream") {
        match decode_end_of_stream(payload) {
            Some(x) => Some(Event::EndOfStream(x)),
            None => None,
        }
    } else {
        None
    }
}

/// Builds the event that a tag and its payload stand for. A tag that is
/// none of the seven is refused, never mapped to a variant; so is a payload
/// that does not hold the variant's fields.
pub fn decode_event(kind: &str, payload: &Json) -> (r: Result<Event>)
    ensures
        match spec_decode_event(kind@, *payload) {
            Some(event) => r == Ok::<Event, SpeechApiError>(event),
            None => r is Err && r->Err_0 is JsonError && r->Err_0->JsonError_0@ == (
            if spec_known_kind(kind@) {
                "event payload does not match its kind"@
            } else {
                "unknown event kind"@
            }),
        },
{
    match decode_known(kind, payload) {
        Some(event) => Ok(event),
        None => {
            let known = same_text(kind, "partial") || same_text(kind, "transcript") || same_text(
                kind,
                "translation",
            ) || same_text(kind, "voiceover") || same_text(kind, "voice") || same_text(
                kind,
                "start_of_stream",
            ) || same_text(kind, "end_of_stream");
            if known {
                Err(SpeechApiError::JsonError("event payload does not match its kind".to_owned()))
            } else {
                Err(SpeechApiError::JsonError("unknown event kind".to_owned()))
            }
        },
    }
}

fn decode_entry(entry: &Json) -> (r: Option<Event>)
    ensures
        r == spec_decode_entry(*entry),
{
    let kind = match entry.text_field("kind") {
        Some(v) => v,
        None => return None,
    };
    match entry.member("payload") {
        Some(payload) => decode_known(kind.as_str(), payload),
        None => None,
    }
}

/// Reads the events of a message document, in the order of its `"events"`
/// array. One entry that does not decode fails the whole message.
pub fn decode_message(doc: &Json) -> (r: Result<WebSocketMessage>)
    ensures
        match spec_decode_message(*doc) {
            Some(events) => r is Ok && r->Ok_0.events@ == events,
            None => r is Err && r->Err_0 is JsonError && r->Err_0->JsonError_0@
                == spec_message_problem(*doc),
        },
{
    match doc.member("events") {
        Some(Json::Array(entries)) => {
            let mut events: Vec<Event> = Vec::new();
            let mut i: usize = 0;
            while i < entries.len()
                invariant
                    i <= entries@.len(),
                    events@.len() == i,
                    spec_decode_message(*doc) == spec_decode_entries(entries@),
                    spec_message_problem(*doc) == "malformed event entry"@,
                    forall|k: int|
                        0 <= k < i ==> (#[trigger] spec_decode_entry(entries@[k])) == Some(
                            events@[k],
                        ),
                decreases entries@.len() - i,
            {
                match decode_entry(&entries[i]) {
                    Some(event) => {
                        events.push(event);
                    },
                    None => {
                        assert(spec_decode_entry(entries@[i as int]) is None);
                        assert(spec_decode_entries(entries@) is None);
                        assert(spec_decode_message(*doc) is None);
                        return Err(
                            SpeechApiError::JsonError("malformed event entry".to_owned()),
                        );
                    },
                }
                i += 1;
            }
            assert(spec_decode_entries(entries@) is Some);
            assert(events@ =~= spec_decode_entries(entries@)->Some_0);
            Ok(WebSocketMessage { events })
        },
        _ => Err(SpeechApiError::JsonError("message has no list of events".to_owned())),
    }
}

/// Parses the text of one frame into its events.
pub fn parse_message(text: &str) -> (r: Result<WebSocketMessage>)
    ensures
        match spec_parse_message(text@) {
            Some(events) => r is Ok && r->Ok_0.events@ == events,
            None => r is Err && r->Err_0 is JsonError && r->Err_0->JsonError_0@
                == spec_parse_problem(text@),
        },
{
    match parse_json(text) {
        Some(doc) => decode_message(&doc),
        None => Err(SpeechApiError::JsonError("text is not JSON".to_owned())),
    }
}

/// Parses any JSON text into a document.
pub fn parse_document(text: &str) -> (r: Option<Json>)
    ensures
        r == json_document(text@),
{
    parse_json(text)
}

proof fn lemma_names_differ()
    ensures
        "id"@.len() == 2,
        "text"@.len() == 4 && "text"@[0] == 't',
        "latency"@.len() == 7 && "latency"@[0] == 'l',
        "sentence_id"@.len() == 11,
        "speaker"@.len() == 7 && "speaker"@[0] == 's',
        "created_at"@.len() == 10,
        "from_ms"@.len() == 7 && "from_ms"@[0] == 'f',
        "to_ms"@.len() == 5 && "to_ms"@[0] == 't',
        "original"@.len() == 8,
        "playback_uri"@.len() == 12,
        "audio"@.len() == 5 && "audio"@[0] == 'a',
        "seq"@.len() == 3,
        "reason"@.len() == 6,
        "kind"@.len() == 4 && "kind"@[0] == 'k',
        "payload"@.len() == 7 && "payload"@[0] == 'p',
        "partial"@.len() == 7,
        "transcript"@.len() == 10,
        "translation"@.len() == 11,
        "voiceover"@.len() == 9,
        "voice"@.len() == 5,
        "start_of_stream"@.len() == 15,
        "end_of_stream"@.len() == 13,
{
    reveal_strlit("id");
    reveal_strlit("text");
    reveal_strlit("latency");
    reveal_strlit("sentence_id");
    reveal_strlit("speaker");
    reveal_strlit("created_at");
    reveal_strlit("from_ms");
    reveal_strlit("to_ms");
    reveal_strlit("original");
    reveal_strlit("playback_uri");
    reveal_strlit("audio");
    reveal_strlit("seq");
    reveal_strlit("reason");
    reveal_strlit("kind");
    reveal_strlit("payload");
    reveal_strlit("partial");
    reveal_strlit("transcript");
    reveal_strlit("translation");
    reveal_strlit("voiceover");
    reveal_strlit("voice");
    reveal_strlit("start_of_stream");
    reveal_strlit("end_of_stream");
}

/// A member found at position `at` is the one that a lookup by its name
/// gives, where no member before it has that name.
proof fn lemma_member_at(members: Seq<JsonMember>, key: Seq<char>, at: int, from: int)
    requires
        0 <= from <= at < members.len(),
        members[at].name@ == key,
        forall|j: int| from <= j < at ==> members[j].name@ != key,
    ensures
        find_member(members, key, from) == Some(members[at].value),
    decreases at - from,
{
    if from < at {
        lemma_member_at(members, key, at, from + 1);
    }
}

fn text_member(name: &str, value: &String) -> (r: JsonMember)
    ensures
        r.name@ == name@,
        r.value == Json::Text(*value),
{
    JsonMember { name: name.to_owned(), value: Json::Text(value.clone()) }
}

fn float_member(name: &str, bits: u64) -> (r: JsonMember)
    ensures
        r.name@ == name@,
        r.value == Json::Number(JsonNumber { integer: None, float_bits: Some(bits) }),
{
    JsonMember {
        name: name.to_owned(),
        value: Json::Number(JsonNumber { integer: None, float_bits: Some(bits) }),
    }
}

fn integer_member(name: &str, number: i64) -> (r: JsonMember)
    ensures
        r.name@ == name@,
        r.value == Json::Number(JsonNumber { integer: Some(number), float_bits: None }),
{
    JsonMember {
        name: name.to_owned(),
        value: Json::Number(JsonNumber { integer: Some(number), float_bits: None }),
    }
}

fn encode_partial(p: &PartialPayload) -> (r: Json)
    ensures
        spec_partial(r) == Some(*p),
{
    let mut members: Vec<JsonMember> = Vec::new();
    match &p.id {
        Some(id) => members.push(text_member("id", id)),
        None => members.push(JsonMember { name: "id".to_owned(), value: Json::Null }),
    }
    members.push(text_member("text", &p.text));
    members.push(float_member("latency", p.latency));
    proof {
        lemma_names_differ();
        lemma_member_at(members@, "id"@, 0, 0);
        lemma_member_at(members@, "text"@, 1, 0);
        lemma_member_at(members@, "latency"@, 2, 0);
    }
    Json::Object(members)
}

fn encode_transcript(p: &TranscriptPayload) -> (r: Json)
    ensures
        spec_transcript(r) == Some(*p),
{
    let mut members: Vec<JsonMember> = Vec::new();
    members.push(text_member("sentence_id", &p.sentence_id));
    members.push(text_member("text", &p.text));
    members.push(float_member("latency", p.latency));
    members.push(text_member("speaker", &p.speaker));
    members.push(integer_member("created_at", p.created_at));
    members.push(float_member("from_ms", p.from_ms));
    members.push(float_member("to_ms", p.to_ms));
    proof {
        lemma_names_differ();
        lemma_member_at(members@, "sentence_id"@, 0, 0);
        lemma_member_at(members@, "text"@, 1, 0);
        lemma_member_at(members@, "latency"@, 2, 0);
        lemma_member_at(members@, "speaker"@, 3, 0);
        lemma_member_at(members@, "created_at"@, 4, 0);
        lemma_member_at(members@, "from_ms"@, 5, 0);
        lemma_member_at(members@, "to_ms"@, 6, 0);
    }
    Json::Object(members)
}

fn encode_translation(p: &TranslationPayload) -> (r: Json)
    ensures
        spec_translation(r) == Some(*p),
{
    let mut members: Vec<JsonMember> = Vec::new();
    members.push(text_member("id", &p.id));
    members.push(text_member("sentence_id", &p.sentence_id));
    members.push(text_member("text", &p.text));
    members.push(text_member("original", &p.original));
    members.push(float_member("latency", p.latency));
    members.push(text_member("speaker", &p.speaker));
    members.push(integer_member("created_at", p.created_at));
    members.push(float_member("from_ms", p.from_ms));
    members.push(float_member("to_ms", p.to_ms));
    proof {
        lemma_names_differ();
        lemma_member_at(members@, "id"@, 0, 0);
        lemma_member_at(members@, "sentence_id"@, 1, 0);
        lemma_member_at(members@, "text"@, 2, 0);
        lemma_member_at(members@, "original"@, 3, 0);
        lemma_member_at(members@, "latency"@, 4, 0);
        lemma_member_at(members@, "speaker"@, 5, 0);
        lemma_member_at(members@, "created_at"@, 6, 0);
        lemma_member_at(members@, "from_ms"@, 7, 0);
        lemma_member_at(members@, "to_ms"@, 8, 0);
    }
    Json::Object(members)
}

fn encode_voiceover(p: &VoiceoverPayload) -> (r: Json)
    ensures
        spec_voiceover(r) == Some(*p),
{
    let mut members: Vec<JsonMember> = Vec::new();
    members.push(text_member("id", &p.id));
    members.push(text_member("text", &p.text));
    members.push(text_member("original", &p.original));
    members.push(float_member("latency", p.latency));
    members.push(text_member("speaker", &p.speaker));
    members.push(integer_member("created_at", p.created_at));
    members.push(text_member("playback_uri", &p.playback_uri));
    members.push(float_member("from_ms", p.from_ms));
    members.push(float_member("to_ms", p.to_ms));
    proof {
        lemma_names_differ();
        lemma_member_at(members@, "id"@, 0, 0);
        lemma_member_at(members@, "text"@, 1, 0);
        lemma_member_at(members@, "original"@, 2, 0);
        lemma_member_at(members@, "latency"@, 3, 0);
        lemma_member_at(members@, "speaker"@, 4, 0);
        lemma_member_at(members@, "created_at"@, 5, 0);
        lemma_member_at(members@, "playback_uri"@, 6, 0);
        lemma_member_at(members@, "from_ms"@, 7, 0);
        lemma_member_at(members@, "to_ms"@, 8, 0);
    }
    Json::Object(members)
}

fn encode_voice(p: &VoicePayload) -> (r: Json)
    ensures
        spec_voice(r) == Some(*p),
{
    let mut members: Vec<JsonMember> = Vec::new();
    members.push(text_member("id", &p.id));
    members.push(text_member("sentence_id", &p.sentence_id));
    members.push(text_member("text", &p.text));
    members.push(float_member("latency", p.latency));
    members.push(text_member("speaker", &p.speaker));
    members.push(integer_member("created_at", p.created_at));
    members.push(text_member("audio", &p.audio));
    members.push(integer_member("seq", p.seq as i64));
    members.push(float_member("from_ms", p.from_ms));
    members.push(float_member("to_ms", p.to_ms));
    proof {
        lemma_names_differ();
        lemma_member_at(members@, "id"@, 0, 0);
        lemma_member_at(members@, "sentence_id"@, 1, 0);
        lemma_member_at(members@, "text"@, 2, 0);
        lemma_member_at(members@, "latency"@, 3, 0);
        lemma_member_at(members@, "speaker"@, 4, 0);
        lemma_member_at(members@, "created_at"@, 5, 0);
        lemma_member_at(members@, "audio"@, 6, 0);
        lemma_member_at(members@, "seq"@, 7, 0);
        lemma_member_at(members@, "from_ms"@, 8, 0);
        lemma_member_at(members@, "to_ms"@, 9, 0);
    }
    Json::Object(members)
}

fn encode_end_of_stream(p: &EndOfStreamPayload) -> (r: Json)
    ensures
        spec_end_of_stream(r) == Some(*p),
{
    let mut members: Vec<JsonMember> = Vec::new();
    members.push(text_member("reason", &p.reason));
    proof {
        lemma_member_at(members@, "reason"@, 0, 0);
    }
    Json::Object(members)
}

/// The payload document of an event: an object with one member for each
/// field of the variant, under the field's name.
pub fn encode_payload(event: &Event) -> (payload: Json)
    ensures
        spec_decode_event(event.spec_kind(), payload) == Some(*event),
{
    proof {
        lemma_names_differ();
    }
    match event {
        Event::Partial(p) => encode_partial(p),
        Event::Transcript(p) => encode_transcript(p),
        Event::Translation(p) => encode_translation(p),
        Event::Voiceover(p) => encode_voiceover(p),
        Event::Voice(p) => encode_voice(p),
        Event::StartOfStream(_) => Json::Object(Vec::new()),
        Event::EndOfStream(p) => encode_end_of_stream(p),
    }
}

/// The entry of an event in a message: its tag under `"kind"`, beside its
/// payload under `"payload"`. Decoding the entry gives the event back, of
/// the same variant and with every field as it was.
pub fn encode_event(event: &Event) -> (entry: Json)
    ensures
        spec_decode_entry(entry) == Some(*event),
        entry.spec_text("kind"@) is Some,
        entry.spec_text("kind"@)->Some_0@ == event.spec_kind(),
{
    let tag = event.kind().to_owned();
    let payload = encode_payload(event);
    let mut members: Vec<JsonMember> = Vec::new();
    members.push(text_member("kind", &tag));
    members.push(JsonMember { name: "payload".to_owned(), value: payload });
    proof {
        lemma_names_differ();
        lemma_member_at(members@, "kind"@, 0, 0);
        lemma_member_at(members@, "payload"@, 1, 0);
    }
    Json::Object(members)
}

/// The document of a message: its events' entries, in order, in an array
/// under `"events"`. Decoding the document gives the events back.
pub fn encode_message(message: &WebSocketMessage) -> (doc: Json)
    ensures
        spec_decode_message(doc) == Some(message.events@),
{
    let mut entries: Vec<Json> = Vec::new();
    let mut i: usize = 0;
    while i < message.events.len()
        invariant
            i <= message.events@.len(),
            entries@.len() == i,
            forall|k: int|
                0 <= k < i ==> (#[trigger] spec_decode_entry(entries@[k])) == Some(
                    message.events@[k],
                ),
        decreases message.events@.len() - i,
    {
        entries.push(encode_event(&message.events[i]));
        i += 1;
    }
    let ghost all = entries@;
    let mut members: Vec<JsonMember> = Vec::new();
    members.push(JsonMember { name: "events".to_owned(), value: Json::Array(entries) });
    proof {
        lemma_member_at(members@, "events"@, 0, 0);
        assert(spec_decode_entries(all) is Some);
        assert(spec_decode_entries(all)->Some_0 =~= message.events@);
    }
    Json::Object(members)
}

/// Decoding never invents a variant: an event that comes out is of the
/// variant that the tag names, and the tag is one of the seven.
pub proof fn lemma_decoded_kind_matches(kind: Seq<char>, payload: Json)
    requires
        spec_decode_event(kind, payload) is Some,
    ensures
        spec_known_kind(kind),
        spec_decode_event(kind, payload)->Some_0.spec_kind() == kind,
{
}

} // verus!
