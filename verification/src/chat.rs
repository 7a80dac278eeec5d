//! Messages exchanged with the language models, and the short chat history
//! that a turn hands on to the next.

use crate::speech::MAX_HISTORY;
use vstd::prelude::*;

verus! {

/// One message of a conversation with a model.
#[derive(Debug, Clone)]
pub struct ChatMessage {
    pub role: String,
    pub content: String,
}

impl View for ChatMessage {
    type V = (Seq<char>, Seq<char>);

    open spec fn view(&self) -> (Seq<char>, Seq<char>) {
        (self.role@, self.content@)
    }
}

/// Why a call of a model failed.
#[derive(Debug)]
pub enum LLMError {
    RequestFailed(String),
    ParseError(String),
}

/// The messages of a list as plain values.
pub open spec fn message_views(messages: Seq<ChatMessage>) -> Seq<(Seq<char>, Seq<char>)> {
    Seq::new(messages.len(), |i: int| messages[i]@)
}

pub proof fn lemma_message_views_push(messages: Seq<ChatMessage>, m: ChatMessage)
    ensures
        message_views(messages.push(m)) == message_views(messages).push(m@),
{
    assert(message_views(messages.push(m)) =~= message_views(messages).push(m@));
}

pub open spec fn user_message(content: Seq<char>) -> (Seq<char>, Seq<char>) {
    ("user"@, content)
}

pub open spec fn assistant_message(content: Seq<char>) -> (Seq<char>, Seq<char>) {
    ("assistant"@, content)
}

pub open spec fn system_message_of(content: Seq<char>) -> (Seq<char>, Seq<char>) {
    ("system"@, content)
}

impl ChatMessage {
    pub fn user(content: String) -> (m: Self)
        ensures
            m@ == user_message(content@),
    {
        ChatMessage { role: "user".to_string(), content }
    }

    pub fn assistant(content: String) -> (m: Self)
        ensures
            m@ == assistant_message(content@),
    {
        ChatMessage { role: "assistant".to_string(), content }
    }

    pub fn system(content: String) -> (m: Self)
        ensures
            m@ == system_message_of(content@),
    {
        ChatMessage { role: "system".to_string(), content }
    }

    pub fn duplicate(&self) -> (m: Self)
        ensures
            m@ == self@,
    {
        ChatMessage { role: self.role.clone(), content: self.content.clone() }
    }
}

/// The last `n` items of `s`.
pub open spec fn keep_last<T>(s: Seq<T>, n: nat) -> Seq<T> {
    if s.len() > n {
        s.skip(s.len() - n)
    } else {
        s
    }
}

/// The history after one exchange was recorded: what the user said and what
/// the assistant answered are added, and the newest six messages are kept.
pub open spec fn recorded(
    history: Seq<(Seq<char>, Seq<char>)>,
    user: Seq<char>,
    assistant: Seq<char>,
) -> Seq<(Seq<char>, Seq<char>)> {
    keep_last(history.push(user_message(user)).push(assistant_message(assistant)), MAX_HISTORY as nat)
}

/// The chat history: at most six messages, oldest first.
pub struct ChatHistory {
    messages: Vec<ChatMessage>,
}

impl View for ChatHistory {
    type V = Seq<(Seq<char>, Seq<char>)>;

    closed spec fn view(&self) -> Seq<(Seq<char>, Seq<char>)> {
        message_views(self.messages@)
    }
}

fn last_messages(all: &Vec<ChatMessage>, n: usize) -> (r: Vec<ChatMessage>)
    ensures
        message_views(r@) == keep_last(message_views(all@), n as nat),
        r@.len() <= n,
{
    let drop: usize = if all.len() > n {
        all.len() - n
    } else {
        0
    };
    let mut kept: Vec<ChatMessage> = Vec::new();
    let mut i: usize = drop;
    while i < all.len()
        invariant
            drop <= i <= all.len(),
            kept@.len() == i - drop,
            forall|j: int| 0 <= j < kept@.len() ==> (#[trigger] kept@[j])@ == all@[drop + j]@,
        decreases all.len() - i,
    {
        kept.push(all[i].duplicate());
        i += 1;
    }
    assert(message_views(kept@) =~= keep_last(message_views(all@), n as nat));
    kept
}

impl ChatHistory {
    #[verifier::type_invariant]
    spec fn bounded(self) -> bool {
        self.messages@.len() <= MAX_HISTORY
    }

    pub fn new() -> (h: Self)
        ensures
            h@.len() == 0,
    {
        ChatHistory { messages: Vec::new() }
    }

    /// The history that holds the newest six of `messages`.
    pub fn from_messages(messages: Vec<ChatMessage>) -> (h: Self)
        ensures
            h@ == keep_last(message_views(messages@), MAX_HISTORY as nat),
    {
        ChatHistory { messages: last_messages(&messages, MAX_HISTORY) }
    }

    /// How many messages the history holds: never more than six.
    pub fn len(&self) -> (n: usize)
        ensures
            n == self@.len(),
            n <= MAX_HISTORY,
    {
        proof {
            use_type_invariant(self);
        }
        self.messages.len()
    }

    /// A copy of the messages, oldest first.
    pub fn to_vec(&self) -> (r: Vec<ChatMessage>)
        ensures
            message_views(r@) == self@,
            r@.len() <= MAX_HISTORY,
    {
        proof {
            use_type_invariant(self);
        }
        let r = last_messages(&self.messages, MAX_HISTORY);
        r
    }

    /// A copy of the history.
    pub fn duplicate(&self) -> (h: Self)
        ensures
            h@ == self@,
    {
        proof {
            use_type_invariant(self);
        }
        ChatHistory { messages: last_messages(&self.messages, MAX_HISTORY) }
    }

    pub fn clear(&mut self)
        ensures
            final(self)@.len() == 0,
    {
        self.messages = Vec::new();
    }

    /// Records what the user said and what the assistant answered, and keeps
    /// the newest six messages.
    pub fn record_exchange(&mut self, user: String, assistant: String)
        ensures
            final(self)@ == recorded(old(self)@, user@, assistant@),
            final(self)@.len() <= MAX_HISTORY,
            final(self)@.len() >= 2,
            final(self)@.last() == assistant_message(assistant@),
    {
        proof {
            use_type_invariant(&*self);
        }
        let mut all = last_messages(&self.messages, MAX_HISTORY);
        let ghost before = message_views(all@);
        all.push(ChatMessage::user(user));
        all.push(ChatMessage::assistant(assistant));
        assert(message_views(all@) =~= before.push(user_message(user@)).push(
            assistant_message(assistant@),
        ));
        self.messages = last_messages(&all, MAX_HISTORY);
    }
}

} // verus!
