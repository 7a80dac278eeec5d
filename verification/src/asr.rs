//! The speech recogniser, as far as the engine reads its messages.

use crate::json::{read_string_field, string_field};
use crate::text::str_eq;
use vstd::prelude::*;

verus! {

/// The model of the speech recogniser.
pub const ASR_MODEL: &'static str = "qwen3-asr-flash-realtime";

/// The address of the speech recogniser.
pub const ASR_URL: &'static str = "wss://dashscope.aliyuncs.com/api-ws/v1/realtime";

/// The sample rate of the audio that the recogniser takes, in hertz.
pub const ASR_SAMPLE_RATE: u32 = 16000;

/// The kind of message that carries a finished transcript.
pub const TRANSCRIPT_COMPLETED: &'static str =
    "conversation.item.input_audio_transcription.completed";

/// The fragment of speech that a message of the recogniser carries: the
/// transcript of a message that says a transcription is complete.
pub open spec fn transcript_of(message: Seq<char>) -> Option<Seq<char>> {
    if string_field(message, "type"@) == Some(TRANSCRIPT_COMPLETED@) {
        string_field(message, "transcript"@)
    } else {
        None
    }
}

/// Reads the fragment of speech out of a message of the recogniser, if the
/// message carries one.
pub fn completed_transcript(message: &str) -> (r: Option<String>)
    ensures
        match transcript_of(message@) {
            Some(t) => r is Some && r->0@ == t,
            None => r is None,
        },
{
    match read_string_field(message, "type") {
        Some(kind) => {
            if str_eq(kind.as_str(), TRANSCRIPT_COMPLETED) {
                read_string_field(message, "transcript")
            } else {
                None
            }
        },
        None => None,
    }
}

/// The address to connect to: the address of the recogniser with the model
/// as its query.
pub fn connect_url() -> (r: String)
    ensures
        r@ == ASR_URL@ + "?model="@ + ASR_MODEL@,
{
    let mut url = ASR_URL.to_string();
    url.append("?model=");
    url.append(ASR_MODEL);
    url
}

} // verus!
