use vstd::prelude::*;

verus! {

/// Options chosen by the caller for one session. Fixed once the session exists.
#[derive(Debug, Clone, PartialEq)]
pub struct SessionConfig {
    pub session_name: String,
    pub translation_languages: Vec<String>,
    pub master_language: String,
    pub viewer_language: String,
    pub enable_voiceover: bool,
}

impl SessionConfig {
    /// The languages requested, each as its characters.
    pub open spec fn spec_languages(self) -> Seq<Seq<char>> {
        Seq::new(self.translation_languages@.len(), |i: int| self.translation_languages@[i]@)
    }
}

impl Default for SessionConfig {
    fn default() -> (r: Self)
        ensures
            r.session_name@ == "Rust SDK Session"@,
            r.spec_languages() == seq!["en-US"@, "nb"@],
            r.master_language@ == "de"@,
            r.viewer_language@ == "en-US"@,
            r.enable_voiceover,
    {
        let mut languages: Vec<String> = Vec::new();
        languages.push("en-US".to_owned());
        languages.push("nb".to_owned());
        let r = SessionConfig {
            session_name: "Rust SDK Session".to_owned(),
            translation_languages: languages,
            master_language: "de".to_owned(),
            viewer_language: "en-US".to_owned(),
            enable_voiceover: true,
        };
        assert(r.spec_languages() =~= seq!["en-US"@, "nb"@]);
        r
    }
}

/// The body of one inbound text frame: events in the order in which they
/// are to be delivered.
#[derive(Debug, Clone, PartialEq)]
pub struct WebSocketMessage {
    pub events: Vec<Event>,
}

/// One unit of realtime output. The wire form names the variant in a tag
/// that stands beside the payload.
///
/// Fractional quantities (`latency`, `from_ms`, `to_ms`) are held as the
/// IEEE-754 bit pattern of the 64-bit number that the wire carried, so that
/// every value, and nothing but the value, passes through unchanged.
#[derive(Debug, Clone, PartialEq)]
pub enum Event {
    Partial(PartialPayload),
    Transcript(TranscriptPayload),
    Translation(TranslationPayload),
    Voiceover(VoiceoverPayload),
    Voice(VoicePayload),
    StartOfStream(StartOfStreamPayload),
    EndOfStream(EndOfStreamPayload),
}

#[derive(Debug, Clone, PartialEq)]
pub struct PartialPayload {
    pub id: Option<String>,
    pub text: String,
    /// Seconds, as the bits of a 64-bit float.
    pub latency: u64,
}

#[derive(Debug, Clone, PartialEq)]
pub struct TranscriptPayload {
    pub sentence_id: String,
    pub text: String,
    /// Seconds, as the bits of a 64-bit float.
    pub latency: u64,
    pub speaker: String,
    /// Milliseconds since the epoch.
    pub created_at: i64,
    /// Milliseconds, as the bits of a 64-bit float.
    pub from_ms: u64,
    /// Milliseconds, as the bits of a 64-bit float.
    pub to_ms: u64,
}

#[derive(Debug, Clone, PartialEq)]
pub struct TranslationPayload {
    pub id: String,
    pub sentence_id: String,
    pub text: String,
    pub original: String,
    pub latency: u64,
    pub speaker: String,
    pub created_at: i64,
    pub from_ms: u64,
    pub to_ms: u64,
}

#[derive(Debug, Clone, PartialEq)]
pub struct VoiceoverPayload {
    pub id: String,
    pub text: String,
    pub original: String,
    pub latency: u64,
    pub speaker: String,
    pub created_at: i64,
    pub playback_uri: String,
    pub from_ms: u64,
    pub to_ms: u64,
}

#[derive(Debug, Clone, PartialEq)]
pub struct VoicePayload {
    pub id: String,
    pub sentence_id: String,
    pub text: String,
    pub latency: u64,
    pub speaker: String,
    pub created_at: i64,
    /// Base64 text of little-endian signed 16-bit samples.
    pub audio: String,
    /// Rises with each chunk; a hint for consumers, never acted on here.
    pub seq: u32,
    pub from_ms: u64,
    pub to_ms: u64,
}

#[derive(Debug, Clone, PartialEq)]
pub struct EndOfStreamPayload {
    pub reason: String,
}

#[derive(Debug, Clone, PartialEq)]
pub struct StartOfStreamPayload {}

/// Raw bytes with a format tag. The tag informs consumers; nothing in the
/// transport reads it.
#[derive(Debug, Clone, PartialEq)]
pub struct AudioFrame {
    pub data: Vec<u8>,
    pub format: AudioFormat,
}

#[derive(Debug, Clone, Copy, PartialEq, Eq, Structural)]
pub enum AudioFormat {
    WebM,
    MpegTs,
    Raw,
}

} // verus!
