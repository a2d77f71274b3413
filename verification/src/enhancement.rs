//! Transcript enhancement through an OpenAI-compatible chat completion
//! endpoint: the prompt, the request, and how the provider's reply turns
//! into a result or an error.
use vstd::prelude::*;
use crate::settings::{AppSettings, EnhancementProvider, PromptProfile};
use crate::text::{chars_of, decimal, decimal_string, push_str, string_from_chars, trim, trim_chars};

verus! {

#[derive(Debug, Clone)]
pub struct EnhancementResult {
    pub text: String,
    pub provider: String,
    pub model: String,
}

impl EnhancementResult {
    pub fn duplicate(&self) -> (r: Self)
        ensures
            r == *self,
    {
        EnhancementResult {
            text: self.text.clone(),
            provider: self.provider.clone(),
            model: self.model.clone(),
        }
    }
}

/// The canonical reason phrase of an HTTP status code, as the status
/// table of the `http` crate (re-exported by `reqwest`) lists it; none for
/// a code the table does not list.
pub uninterp spec fn canonical_reason_of(code: u16) -> Option<Seq<char>>;

/// The reason phrase of a status code: `StatusCode::canonical_reason` of
/// `StatusCode::from_u16(code)`. A code outside `100..=999` is no status
/// code, so it has none either.
#[verifier::external_body]
fn canonical_reason(code: u16) -> (r: Option<&'static str>)
    ensures
        match r {
            Some(t) => canonical_reason_of(code) == Some(t@),
            None => canonical_reason_of(code) is None,
        },
{
    match reqwest::StatusCode::from_u16(code) {
        Ok(status) => status.canonical_reason(),
        Err(_) => None,
    }
}

/// A status as `StatusCode` displays it: its number, a space, and its
/// reason phrase (`<unknown status code>` when it has none).
pub open spec fn status_display(code: u16) -> Seq<char> {
    decimal(code as nat) + " "@ + match canonical_reason_of(code) {
        Some(t) => t,
        None => "<unknown status code>"@,
    }
}

#[derive(Debug)]
pub enum EnhancementError {
    Disabled,
    MissingApiKey(String),
    /// The request could not be sent or its reply not decoded; the text is
    /// the transport's description.
    Request(String),
    /// The provider answered with a status outside `200..=299`.
    Provider { status: u16, body: String },
    EmptyResponse,
}

/// One message of a chat completion conversation.
#[derive(Debug, Clone)]
pub struct ChatMessage {
    pub role: String,
    pub content: String,
}

/// The credential slot of a provider.
pub open spec fn provider_key_of(provider: EnhancementProvider) -> Seq<char> {
    match provider {
        EnhancementProvider::OpenAi => "openai"@,
        EnhancementProvider::Groq => "groq"@,
        EnhancementProvider::CustomOpenAiCompatible => "custom-openai-compatible"@,
    }
}

pub fn provider_key(provider: &EnhancementProvider) -> (k: &'static str)
    ensures
        k@ == provider_key_of(*provider),
{
    match provider {
        EnhancementProvider::OpenAi => "openai",
        EnhancementProvider::Groq => "groq",
        EnhancementProvider::CustomOpenAiCompatible => "custom-openai-compatible",
    }
}

/// The system instruction of a prompt profile.
pub open spec fn system_prompt(profile: PromptProfile) -> Seq<char> {
    match profile {
        PromptProfile::Default =>
            "Clean up dictated text while preserving meaning, speaker intent, and technical terms."@,
        PromptProfile::CleanTranscript =>
            "Return a polished transcript with punctuation, capitalization, and obvious filler removed."@,
        PromptProfile::Email =>
            "Rewrite the dictated text as a concise email draft. Preserve names, dates, and requested actions."@,
        PromptProfile::CodeComments =>
            "Rewrite the dictated text as clear code comments or developer notes. Preserve identifiers exactly."@,
    }
}

/// Each prompt profile asks for its own kind of rewrite: the default and
/// clean-transcript profiles clean the text up, the email profile drafts an
/// email and the code-comments profile writes code comments, each in the
/// words below; and no two profiles share an instruction.
pub proof fn law_profiles_have_their_own_instruction()
    ensures
        system_prompt(PromptProfile::Default)
            == "Clean up dictated text while preserving meaning, speaker intent, and technical terms."@,
        system_prompt(PromptProfile::CleanTranscript)
            == "Return a polished transcript with punctuation, capitalization, and obvious filler removed."@,
        system_prompt(PromptProfile::Email)
            == "Rewrite the dictated text as a concise email draft. Preserve names, dates, and requested actions."@,
        system_prompt(PromptProfile::CodeComments)
            == "Rewrite the dictated text as clear code comments or developer notes. Preserve identifiers exactly."@,
        forall|p: PromptProfile, q: PromptProfile|
            p != q ==> #[trigger] system_prompt(p) != #[trigger] system_prompt(q),
{
    reveal_strlit("Clean up dictated text while preserving meaning, speaker intent, and technical terms.");
    reveal_strlit("Return a polished transcript with punctuation, capitalization, and obvious filler removed.");
    reveal_strlit("Rewrite the dictated text as a concise email draft. Preserve names, dates, and requested actions.");
    reveal_strlit("Rewrite the dictated text as clear code comments or developer notes. Preserve identifiers exactly.");
    let d = system_prompt(PromptProfile::Default);
    let c = system_prompt(PromptProfile::CleanTranscript);
    let e = system_prompt(PromptProfile::Email);
    let k = system_prompt(PromptProfile::CodeComments);
    assert(d[0] != c[0] && d[0] != e[0] && d[0] != k[0]);
    assert(c[2] != e[2] && c[2] != k[2]);
    assert(e[30] != k[30]);
}

fn system_prompt_text(profile: &PromptProfile) -> (s: &'static str)
    ensures
        s@ == system_prompt(*profile),
{
    match profile {
        PromptProfile::Default => {
            "Clean up dictated text while preserving meaning, speaker intent, and technical terms."
        },
        PromptProfile::CleanTranscript => {
            "Return a polished transcript with punctuation, capitalization, and obvious filler removed."
        },
        PromptProfile::Email => {
            "Rewrite the dictated text as a concise email draft. Preserve names, dates, and requested actions."
        },
        PromptProfile::CodeComments => {
            "Rewrite the dictated text as clear code comments or developer notes. Preserve identifiers exactly."
        },
    }
}

/// The conversation for a transcript: the profile's system instruction,
/// then the transcript itself as the user's message.
pub open spec fn is_prompt_for(messages: Seq<ChatMessage>, profile: PromptProfile, transcript: Seq<char>) -> bool {
    &&& messages.len() == 2
    &&& messages[0].role@ == "system"@
    &&& messages[0].content@ == system_prompt(profile)
    &&& messages[1].role@ == "user"@
    &&& messages[1].content@ == transcript
}

pub fn render_prompt(profile: &PromptProfile, transcript: &str) -> (messages: Vec<ChatMessage>)
    ensures
        is_prompt_for(messages@, *profile, transcript@),
{
    let mut messages: Vec<ChatMessage> = Vec::new();
    messages.push(
        ChatMessage {
            role: String::from_str("system"),
            content: String::from_str(system_prompt_text(profile)),
        },
    );
    messages.push(
        ChatMessage { role: String::from_str("user"), content: String::from_str(transcript) },
    );
    messages
}

/// `s` without trailing `/` characters (`str::trim_end_matches('/')`).
pub open spec fn without_trailing_slashes(s: Seq<char>) -> Seq<char>
    decreases s.len(),
{
    if s.len() > 0 && s.last() == '/' {
        without_trailing_slashes(s.drop_last())
    } else {
        s
    }
}

/// The chat completions endpoint under a base URL.
pub open spec fn completions_url(base_url: Seq<char>) -> Seq<char> {
    without_trailing_slashes(base_url) + "/chat/completions"@
}

fn chat_completions_url(base_url: &str) -> (url: String)
    ensures
        url@ == completions_url(base_url@),
{
    let v = chars_of(base_url);
    let mut n: usize = v.len();
    assert(v@.take(n as int) =~= v@);
    while n > 0 && v[n - 1] == '/'
        invariant
            n <= v.len(),
            without_trailing_slashes(v@) == without_trailing_slashes(v@.take(n as int)),
        decreases n,
    {
        assert(v@.take(n as int).drop_last() =~= v@.take(n - 1));
        n = n - 1;
    }
    let mut kept: Vec<char> = Vec::new();
    let mut i: usize = 0;
    while i < n
        invariant
            n <= v.len(),
            i <= n,
            kept@ == v@.take(i as int),
        decreases n - i,
    {
        kept.push(v[i]);
        i = i + 1;
        assert(kept@ =~= v@.take(i as int));
    }
    let mut url = string_from_chars(&kept);
    push_str(&mut url, "/chat/completions");
    url
}

/// A chat completion request, ready to be sent.
#[derive(Debug, Clone)]
pub struct ChatRequest {
    /// Where the request is posted.
    pub url: String,
    /// The bearer token.
    pub api_key: String,
    /// Seconds before the request times out; at least one.
    pub timeout_seconds: u64,
    pub model: String,
    pub messages: Vec<ChatMessage>,
}

/// The request that enhancing `transcript` sends, or why none is sent:
/// enhancement is off, or the provider has no API key.
pub fn enhancement_request(transcript: &str, settings: &AppSettings, api_key: Option<String>) -> (res:
    Result<ChatRequest, EnhancementError>)
    ensures
        !settings.enhancement.enabled ==> res matches Err(EnhancementError::Disabled),
        settings.enhancement.enabled && api_key is None ==> (res matches Err(
            EnhancementError::MissingApiKey(p),
        ) && p@ == provider_key_of(settings.enhancement.provider)),
        settings.enhancement.enabled && api_key is Some ==> (res matches Ok(r) && {
            &&& r.url@ == completions_url(settings.enhancement.base_url@)
            &&& r.api_key == api_key->0
            &&& r.timeout_seconds == if settings.enhancement.timeout_seconds == 0 {
                1
            } else {
                settings.enhancement.timeout_seconds
            }
            &&& r.model@ == settings.enhancement.model@
            &&& is_prompt_for(r.messages@, settings.enhancement.prompt_profile, transcript@)
        }),
{
    if !settings.enhancement.enabled {
        return Err(EnhancementError::Disabled);
    }
    let provider = provider_key(&settings.enhancement.provider);
    let api_key = match api_key {
        Some(k) => k,
        None => return Err(EnhancementError::MissingApiKey(String::from_str(provider))),
    };
    let timeout_seconds: u64 = if settings.enhancement.timeout_seconds < 1 {
        1
    } else {
        settings.enhancement.timeout_seconds
    };
    Ok(
        ChatRequest {
            url: chat_completions_url(settings.enhancement.base_url.as_str()),
            api_key,
            timeout_seconds,
            model: settings.enhancement.model.clone(),
            messages: render_prompt(&settings.enhancement.prompt_profile, transcript),
        },
    )
}

/// A reply status in `200..=299` means success.
pub open spec fn is_success_status(status: u16) -> bool {
    200 <= status <= 299
}

/// What to do with the provider's reply: decode its choices on success,
/// else read its body as the error detail.
#[derive(Debug, Clone, Copy, PartialEq, Eq, Structural)]
pub enum ReplyHandling {
    ReadChoices,
    ReadErrorBody,
}

pub fn reply_handling(status: u16) -> (h: ReplyHandling)
    ensures
        h == (if is_success_status(status) {
            ReplyHandling::ReadChoices
        } else {
            ReplyHandling::ReadErrorBody
        }),
{
    if 200 <= status && status <= 299 {
        ReplyHandling::ReadChoices
    } else {
        ReplyHandling::ReadErrorBody
    }
}

/// The error of a reply that did not succeed.
pub fn provider_error(status: u16, body: String) -> (e: EnhancementError)
    ensures
        e matches EnhancementError::Provider { status: s, body: b } && s == status && b@ == body@,
{
    EnhancementError::Provider { status, body }
}

/// The result of a successful reply whose choices hold the given message
/// contents: the first one, trimmed.
pub fn enhancement_from_choices(choices: &Vec<String>, settings: &AppSettings) -> (res: Result<
    EnhancementResult,
    EnhancementError,
>)
    ensures
        choices.len() == 0 ==> res matches Err(EnhancementError::EmptyResponse),
        choices.len() > 0 ==> (res matches Ok(r) && r.text@ == trim(choices@[0]@) && r.provider@
            == provider_key_of(settings.enhancement.provider) && r.model@
            == settings.enhancement.model@),
{
    if choices.len() == 0 {
        return Err(EnhancementError::EmptyResponse);
    }
    let content = chars_of(choices[0].as_str());
    let trimmed = trim_chars(&content);
    Ok(
        EnhancementResult {
            text: string_from_chars(&trimmed),
            provider: String::from_str(provider_key(&settings.enhancement.provider)),
            model: settings.enhancement.model.clone(),
        },
    )
}

/// `m` is the message of `e`.
pub open spec fn is_enhancement_message(e: EnhancementError, m: Seq<char>) -> bool {
    match e {
        EnhancementError::Disabled => m == "enhancement is disabled"@,
        EnhancementError::MissingApiKey(p) => m == "missing API key for "@ + p@,
        EnhancementError::Request(d) => m == "failed to call enhancement provider: "@ + d@,
        EnhancementError::Provider { status, body } => m == "enhancement provider returned "@
            + status_display(status) + ": "@ + body@,
        EnhancementError::EmptyResponse => m == "enhancement provider returned no choices"@,
    }
}

impl EnhancementError {
    /// The error's message.
    pub fn message(&self) -> (m: String)
        ensures
            is_enhancement_message(*self, m@),
    {
        match self {
            EnhancementError::Disabled => String::from_str("enhancement is disabled"),
            EnhancementError::MissingApiKey(p) => {
                let mut m = String::from_str("missing API key for ");
                push_str(&mut m, p.as_str());
                m
            },
            EnhancementError::Request(d) => {
                let mut m = String::from_str("failed to call enhancement provider: ");
                push_str(&mut m, d.as_str());
                m
            },
            EnhancementError::Provider { status, body } => {
                let mut m = String::from_str("enhancement provider returned ");
                let code = decimal_string(*status as u64);
                push_str(&mut m, code.as_str());
                push_str(&mut m, " ");
                let ghost shown = m@;
                match canonical_reason(*status) {
                    Some(reason) => push_str(&mut m, reason),
                    None => push_str(&mut m, "<unknown status code>"),
                }
                assert(m@ =~= "enhancement provider returned "@ + status_display(*status)) by {
                    assert(shown =~= "enhancement provider returned "@ + decimal(*status as nat)
                        + " "@);
                }
                push_str(&mut m, ": ");
                push_str(&mut m, body.as_str());
                assert(m@ =~= "enhancement provider returned "@ + status_display(*status) + ": "@
                    + body@);
                m
            },
            EnhancementError::EmptyResponse => String::from_str(
                "enhancement provider returned no choices",
            ),
        }
    }
}

} // verus!
