use vstd::prelude::*;

use super::chat::{msg_view, ChatMessage, VideoContext};
use crate::text::{append_str, chars_eq, chars_of, string_of};

verus! {

/// The wire protocol an AI provider speaks.
#[derive(Debug, Clone, Copy, PartialEq, Eq, Structural)]
pub enum Provider {
    Anthropic,
    Gemini,
    Ollama,
    /// OpenAI and every provider not named otherwise.
    OpenAiCompatible,
}

pub open spec fn provider_named(name: Seq<char>) -> Provider {
    if name == "anthropic"@ {
        Provider::Anthropic
    } else if name == "gemini"@ {
        Provider::Gemini
    } else if name == "ollama"@ {
        Provider::Ollama
    } else {
        Provider::OpenAiCompatible
    }
}

pub fn provider_of(name: &str) -> (r: Provider)
    ensures
        r == provider_named(name@),
{
    let n = chars_of(name);
    if chars_eq(&n, "anthropic") {
        Provider::Anthropic
    } else if chars_eq(&n, "gemini") {
        Provider::Gemini
    } else if chars_eq(&n, "ollama") {
        Provider::Ollama
    } else {
        Provider::OpenAiCompatible
    }
}

/// Why a chat request cannot be sent.
#[derive(Debug, Clone, Copy, PartialEq, Eq, Structural)]
pub enum ChatError {
    /// No API key, and the provider needs one.
    MissingApiKey,
}

impl ChatError {
    pub fn message(&self) -> (r: &'static str)
        ensures
            r@ == "API key not found. Run: aux config ai --setup"@,
    {
        "API key not found. Run: aux config ai --setup"
    }
}

/// The key a request carries: the configured one, or empty.
pub open spec fn key_text(api_key: Option<Seq<char>>) -> Seq<char> {
    match api_key {
        Some(k) => k,
        None => Seq::empty(),
    }
}

/// Every provider but Ollama needs a non-empty API key.
pub fn require_api_key(provider_name: &str, api_key: &Option<String>) -> (r: Result<(), ChatError>)
    ensures
        r is Err <==> (key_text(crate::library::playlist::opt_string_view(*api_key)).len() == 0 && provider_name@
            != "ollama"@),
{
    let empty = match api_key {
        Some(k) => k.as_str().is_empty(),
        None => true,
    };
    if empty && !chars_eq(&chars_of(provider_name), "ollama") {
        Err(ChatError::MissingApiKey)
    } else {
        Ok(())
    }
}

/// The service address used when none is configured.
pub open spec fn default_url_text(p: Provider) -> Seq<char> {
    match p {
        Provider::Anthropic => "https://api.anthropic.com"@,
        Provider::Gemini => "https://generativelanguage.googleapis.com"@,
        Provider::Ollama => "http://localhost:11434"@,
        Provider::OpenAiCompatible => "https://api.openai.com/v1"@,
    }
}

pub fn default_base_url(provider: &str) -> (r: &'static str)
    ensures
        r@ == default_url_text(provider_named(provider@)),
{
    match provider_of(provider) {
        Provider::Anthropic => "https://api.anthropic.com",
        Provider::Gemini => "https://generativelanguage.googleapis.com",
        Provider::Ollama => "http://localhost:11434",
        Provider::OpenAiCompatible => "https://api.openai.com/v1",
    }
}

/// The endpoint a chat request goes to.
pub open spec fn endpoint_text(p: Provider, base_url: Seq<char>, model: Seq<char>, api_key: Seq<char>) -> Seq<char> {
    match p {
        Provider::Anthropic => base_url + "/v1/messages"@,
        Provider::Gemini => base_url + "/v1beta/models/"@ + model + ":generateContent?key="@ + api_key,
        Provider::Ollama => base_url + "/api/chat"@,
        Provider::OpenAiCompatible => base_url + "/chat/completions"@,
    }
}

pub fn endpoint(p: Provider, base_url: &str, model: &str, api_key: &str) -> (r: String)
    ensures
        r@ == endpoint_text(p, base_url@, model@, api_key@),
{
    let mut out: Vec<char> = Vec::new();
    append_str(&mut out, base_url);
    match p {
        Provider::Anthropic => append_str(&mut out, "/v1/messages"),
        Provider::Gemini => {
            append_str(&mut out, "/v1beta/models/");
            append_str(&mut out, model);
            append_str(&mut out, ":generateContent?key=");
            append_str(&mut out, api_key);
        },
        Provider::Ollama => append_str(&mut out, "/api/chat"),
        Provider::OpenAiCompatible => append_str(&mut out, "/chat/completions"),
    }
    string_of(&out)
}

/// The authentication headers, as name and value: Anthropic takes the key
/// and an API version, OpenAI-compatible services a bearer token; Gemini
/// carries the key in the URL and Ollama needs none.
pub open spec fn auth_headers_of(p: Provider, api_key: Seq<char>) -> Seq<(Seq<char>, Seq<char>)> {
    match p {
        Provider::Anthropic => seq![("x-api-key"@, api_key), ("anthropic-version"@, "2023-06-01"@)],
        Provider::Gemini => Seq::empty(),
        Provider::Ollama => Seq::empty(),
        Provider::OpenAiCompatible => seq![("Authorization"@, "Bearer "@ + api_key)],
    }
}

pub fn auth_headers(p: Provider, api_key: &str) -> (r: Vec<(String, String)>)
    ensures
        Seq::new(r@.len(), |i: int| (r@[i].0@, r@[i].1@)) == auth_headers_of(p, api_key@),
{
    let mut out: Vec<(String, String)> = Vec::new();
    match p {
        Provider::Anthropic => {
            out.push((string_of(&chars_of("x-api-key")), string_of(&chars_of(api_key))));
            out.push((string_of(&chars_of("anthropic-version")), string_of(&chars_of("2023-06-01"))));
        },
        Provider::Gemini => {},
        Provider::Ollama => {},
        Provider::OpenAiCompatible => {
            let mut v: Vec<char> = Vec::new();
            append_str(&mut v, "Bearer ");
            append_str(&mut v, api_key);
            out.push((string_of(&chars_of("Authorization")), string_of(&v)));
        },
    }
    assert(Seq::new(out@.len(), |i: int| (out@[i].0@, out@[i].1@)) =~= auth_headers_of(p, api_key@));
    out
}

/// Gemini knows only `user` and `model` turns: the system prompt goes in
/// as a user turn.
pub open spec fn gemini_role_of(role: Seq<char>) -> Seq<char> {
    if role == "assistant"@ {
        "model"@
    } else {
        "user"@
    }
}

/// The messages as Gemini takes them: roles mapped, contents kept.
pub fn gemini_messages(messages: &Vec<ChatMessage>) -> (r: Vec<ChatMessage>)
    ensures
        r@.len() == messages@.len(),
        forall|i: int|
            0 <= i < messages@.len() ==> (#[trigger] r@[i]).role@ == gemini_role_of(messages@[i].role@)
                && r@[i].content@ == messages@[i].content@,
{
    let mut out: Vec<ChatMessage> = Vec::new();
    let mut i: usize = 0;
    while i < messages.len()
        invariant
            i <= messages@.len(),
            out@.len() == i,
            forall|k: int|
                0 <= k < i ==> (#[trigger] out@[k]).role@ == gemini_role_of(messages@[k].role@) && out@[k].content@
                    == messages@[k].content@,
        decreases messages@.len() - i,
    {
        let m = &messages[i];
        let role = if chars_eq(&chars_of(m.role.as_str()), "assistant") {
            "model"
        } else {
            "user"
        };
        out.push(ChatMessage { role: string_of(&chars_of(role)), content: string_of(&chars_of(m.content.as_str())) });
        i = i + 1;
    }
    out
}

/// Anthropic takes the system prompt apart: the first message's content,
/// and the messages after it.
pub fn split_system(messages: &Vec<ChatMessage>) -> (r: (String, Vec<ChatMessage>))
    ensures
        messages@.len() == 0 ==> r.0@.len() == 0 && r.1@.len() == 0,
        messages@.len() > 0 ==> r.0@ == messages@[0].content@ && r.1@.len() == messages@.len() - 1 && (forall|i: int|
            0 <= i < r.1@.len() ==> #[trigger] msg_view(r.1@[i]) == msg_view(messages@[i + 1])),
{
    if messages.len() == 0 {
        return (String::new(), Vec::new());
    }
    let system = string_of(&chars_of(messages[0].content.as_str()));
    let mut rest: Vec<ChatMessage> = Vec::new();
    let mut i: usize = 1;
    while i < messages.len()
        invariant
            1 <= i <= messages@.len(),
            rest@.len() == i - 1,
            forall|k: int| 0 <= k < rest@.len() ==> #[trigger] msg_view(rest@[k]) == msg_view(messages@[k + 1]),
        decreases messages@.len() - i,
    {
        let m = &messages[i];
        rest.push(
            ChatMessage { role: string_of(&chars_of(m.role.as_str())), content: string_of(&chars_of(m.content.as_str())) },
        );
        i = i + 1;
    }
    (system, rest)
}

/// The reply limit a provider's request names, if any.
pub fn max_tokens(p: Provider) -> (r: Option<u32>)
    ensures
        r == (match p {
            Provider::Anthropic | Provider::OpenAiCompatible => Some(1000u32),
            _ => None,
        }),
{
    match p {
        Provider::Anthropic | Provider::OpenAiCompatible => Some(1000),
        _ => None,
    }
}

/// The text shown when a reply has no text where the provider puts it.
pub fn reply_text_or_default(text: Option<String>) -> (r: String)
    ensures
        r@ == (match text {
            Some(t) => t@,
            None => "(no response)"@,
        }),
{
    match text {
        Some(t) => t,
        None => string_of(&chars_of("(no response)")),
    }
}

/// A conversation history as (role, content) pairs.
pub open spec fn history_views(h: Seq<ChatMessage>) -> Seq<(Seq<char>, Seq<char>)> {
    Seq::new(h.len(), |i: int| msg_view(h[i]))
}

/// `after` is `before` with the user's `message` appended.
pub open spec fn user_turn_added(before: Seq<ChatMessage>, after: Seq<ChatMessage>, message: Seq<char>) -> bool {
    history_views(after) == history_views(before).push(("user"@, message))
}

/// `after` is `before` with the assistant's `reply` appended.
pub open spec fn reply_added(before: Seq<ChatMessage>, after: Seq<ChatMessage>, reply: Seq<char>) -> bool {
    history_views(after) == history_views(before).push(("assistant"@, reply))
}

/// An exchange that completes adds the user's message and then the reply,
/// in that order, to the history.
pub proof fn lemma_exchange_history(
    h0: Seq<ChatMessage>,
    h1: Seq<ChatMessage>,
    h2: Seq<ChatMessage>,
    message: Seq<char>,
    reply: Seq<char>,
)
    requires
        user_turn_added(h0, h1, message),
        reply_added(h1, h2, reply),
    ensures
        history_views(h2) == history_views(h0) + seq![("user"@, message), ("assistant"@, reply)],
{
    assert(history_views(h0).push(("user"@, message)).push(("assistant"@, reply)) =~= history_views(h0) + seq![
        ("user"@, message),
        ("assistant"@, reply),
    ]);
}

impl VideoContext {
    /// Record the user's message in the history and build the messages of
    /// the request; the message ends up both as the last history entry and
    /// as the final user turn.
    pub fn begin_exchange(&mut self, user_message: &str) -> (r: Vec<ChatMessage>)
        requires
            old(self).prompt_buildable(),
        ensures
            final(self).chat_history@.len() == old(self).chat_history@.len() + 1,
            final(self).chat_history@.drop_last() == old(self).chat_history@,
            final(self).chat_history@.last().role@ == "user"@,
            final(self).chat_history@.last().content@ == user_message@,
            user_turn_added(old(self).chat_history@, final(self).chat_history@, user_message@),
            final(self).video == old(self).video,
            final(self).transcript == old(self).transcript,
            final(self).current_position == old(self).current_position,
            final(self).search_results == old(self).search_results,
            r@.len() == final(self).recent_history().len() + 2,
            r@[0].role@ == "system"@,
            r@[0].content@ == final(self).system_prompt(),
            forall|k: int|
                0 <= k < final(self).recent_history().len() ==> #[trigger] msg_view(r@[k + 1]) == msg_view(
                    final(self).recent_history()[k],
                ),
            r@.last().role@ == "user"@,
            r@.last().content@ == user_message@,
    {
        let ghost before = self.chat_history@;
        self.chat_history.push(
            ChatMessage { role: string_of(&chars_of("user")), content: string_of(&chars_of(user_message)) },
        );
        assert(history_views(self.chat_history@) =~= history_views(before).push(("user"@, user_message@)));
        assert(self.prompt_buildable());
        self.build_messages(user_message)
    }

    /// Open a chat exchange: without a needed key the request is refused and
    /// the history stays as it was; otherwise the user's message is recorded
    /// and the request's messages built, ending with it.
    pub fn open_exchange(&mut self, provider_name: &str, api_key: &Option<String>, user_message: &str) -> (r: Result<
        Vec<ChatMessage>,
        ChatError,
    >)
        requires
            old(self).prompt_buildable(),
        ensures
            r is Err <==> (key_text(crate::library::playlist::opt_string_view(*api_key)).len() == 0
                && provider_name@ != "ollama"@),
            r is Err ==> *final(self) == *old(self),
            r matches Ok(m) ==> user_turn_added(old(self).chat_history@, final(self).chat_history@, user_message@)
                && m@.len() == final(self).recent_history().len() + 2 && m@[0].role@ == "system"@ && m@[0].content@
                == final(self).system_prompt() && m@.last().role@ == "user"@ && m@.last().content@ == user_message@
                && (forall|k: int|
                0 <= k < final(self).recent_history().len() ==> #[trigger] msg_view(m@[k + 1]) == msg_view(
                    final(self).recent_history()[k],
                )),
    {
        match require_api_key(provider_name, api_key) {
            Err(e) => Err(e),
            Ok(()) => Ok(self.begin_exchange(user_message)),
        }
    }

    /// Record the assistant's reply (its message, not the raw JSON).
    pub fn finish_exchange(&mut self, reply_message: String)
        ensures
            final(self).chat_history@ == old(self).chat_history@.push(
                ChatMessage { role: final(self).chat_history@.last().role, content: reply_message },
            ),
            final(self).chat_history@.last().role@ == "assistant"@,
            reply_added(old(self).chat_history@, final(self).chat_history@, reply_message@),
            final(self).video == old(self).video,
            final(self).transcript == old(self).transcript,
            final(self).current_position == old(self).current_position,
            final(self).search_results == old(self).search_results,
    {
        let ghost before = self.chat_history@;
        let ghost reply = reply_message@;
        self.chat_history.push(ChatMessage { role: string_of(&chars_of("assistant")), content: reply_message });
        assert(history_views(self.chat_history@) =~= history_views(before).push(("assistant"@, reply)));
    }
}

} // verus!
