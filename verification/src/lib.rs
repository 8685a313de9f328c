//! Realtime streaming client logic for a captioning and translation service:
//! the event data model and its wire form, the audio sample codec, the
//! inbound frame pipeline, the connection retry policy and the decisions of
//! session provisioning.

pub mod audio;
pub mod client;
pub mod error;
pub mod json;
pub mod receiver;
pub mod retry;
pub mod types;
pub mod wire;

pub use audio::AudioUtils;
pub use client::{VideoTaxiClient, VideoTaxiSession};
pub use error::{Result, SpeechApiError};
pub use json::{Json, JsonMember, JsonNumber};
pub use receiver::{EventReceiver, Frame, FrameOutcome, ReceiverState};
pub use retry::{ConnectAttempts, ConnectStep, RetryPolicy};
pub use types::{
    AudioFormat, AudioFrame, EndOfStreamPayload, Event, PartialPayload, SessionConfig,
    StartOfStreamPayload, TranscriptPayload, TranslationPayload, VoicePayload, VoiceoverPayload,
    WebSocketMessage,
};
