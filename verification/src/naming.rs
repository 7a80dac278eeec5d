//! Auto-naming: a recording that still has its default name gets a title
//! once its document is long enough.

use crate::bytes::{byte_len, str_byte_len};
use crate::chat::{message_views, system_message_of, user_message, ChatMessage};
use crate::concise::{trim_char, trim_char_chars};
use crate::prompts::auto_naming::{AUTO_NAME_SYSTEM_PROMPT, AUTO_NAME_USER_TEMPLATE};
use crate::rewrite::{replace_all, replace_str};
use crate::text::{
    char_count, chars_to_string, starts_with, starts_with_chars, str_eq, str_to_chars, subvec, trim,
    trim_chars,
};
use vstd::prelude::*;

verus! {

/// A document must be longer than this many characters to be named.
pub const AUTO_NAME_MIN_CHARS: usize = 150;

/// How many characters of the document the title is made from.
pub const AUTO_NAME_SNIPPET_CHARS: usize = 1000;

/// The name that a recording gets when none is given.
pub const DEFAULT_RECORDING_NAME: &'static str = "New Recording";

/// A name that nobody chose: the default name, the default name with a
/// number behind it, or the id of the recording itself.
pub open spec fn is_default_name(name: Seq<char>, recording_id: Seq<char>) -> bool {
    name == "New Recording"@ || starts_with(name, "New Recording ("@) || name == recording_id
}

/// Whether a recording is due for a title.
pub open spec fn auto_name_due(content: Seq<char>, name: Seq<char>, recording_id: Seq<char>) -> bool {
    content.len() > AUTO_NAME_MIN_CHARS && is_default_name(name, recording_id)
}

/// The part of the document that the title is made from: the first 1000
/// characters where the document takes more than 1000 bytes, else all of it.
pub open spec fn naming_snippet(content: Seq<char>) -> Seq<char> {
    if byte_len(content) > AUTO_NAME_SNIPPET_CHARS && content.len() > AUTO_NAME_SNIPPET_CHARS {
        content.take(AUTO_NAME_SNIPPET_CHARS as int)
    } else {
        content
    }
}

/// The title in the model's answer: trimmed, without quotes and `#` around
/// it, trimmed again.
pub open spec fn cleaned_title(answer: Seq<char>) -> Seq<char> {
    trim(trim_char(trim_char(trim(answer), '"'), '#'))
}

/// Whether the recording with this display name is due for a title, now that
/// its document holds `content`.
pub fn should_auto_name(content: &str, name: &str, recording_id: &str) -> (b: bool)
    ensures
        b == auto_name_due(content@, name@, recording_id@),
{
    if char_count(content) <= AUTO_NAME_MIN_CHARS {
        return false;
    }
    let nv = str_to_chars(name);
    let numbered = str_to_chars("New Recording (");
    str_eq(name, "New Recording") || starts_with_chars(&nv, &numbered) || str_eq(
        name,
        recording_id,
    )
}

/// The request that asks the model for a title.
pub fn build_naming_messages(content: &str) -> (r: Vec<ChatMessage>)
    ensures
        message_views(r@) == seq![
            system_message_of(AUTO_NAME_SYSTEM_PROMPT@),
            user_message(
                replace_all(AUTO_NAME_USER_TEMPLATE@, "{content}"@, naming_snippet(content@)),
            ),
        ],
{
    let cv = str_to_chars(content);
    let snippet = if str_byte_len(content) > AUTO_NAME_SNIPPET_CHARS && cv.len()
        > AUTO_NAME_SNIPPET_CHARS {
        let head = subvec(&cv, 0, AUTO_NAME_SNIPPET_CHARS);
        chars_to_string(&head)
    } else {
        content.to_string()
    };
    let user = replace_str(AUTO_NAME_USER_TEMPLATE, "{content}", snippet.as_str());
    let mut messages: Vec<ChatMessage> = Vec::new();
    messages.push(ChatMessage::system(AUTO_NAME_SYSTEM_PROMPT.to_string()));
    messages.push(ChatMessage::user(user));
    assert(message_views(messages@) =~= seq![messages@[0]@, messages@[1]@]);
    messages
}

/// The title that the model's answer gives, or an error where nothing is
/// left of the answer once it is cleaned.
pub fn clean_title(answer: &str) -> (r: Result<String, String>)
    ensures
        match r {
            Ok(title) => title@ == cleaned_title(answer@) && title@.len() > 0,
            Err(e) => cleaned_title(answer@).len() == 0 && e@ == "Generated title is empty"@,
        },
{
    let v = str_to_chars(answer);
    let a = trim_chars(&v);
    let b = trim_char_chars(&a, '"');
    let c = trim_char_chars(&b, '#');
    let d = trim_chars(&c);
    if d.len() == 0 {
        Err("Generated title is empty".to_string())
    } else {
        Ok(chars_to_string(&d))
    }
}

} // verus!
