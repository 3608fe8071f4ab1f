//! Optional clean-up of a transcription by a local Ollama model: settings,
//! the request body, and what the reply turns into.

use vstd::prelude::*;

use crate::json::{
    escaped_all, json_string, lemma_json_string_round_trip, to_json_string, unescape,
};
use crate::text::{decimal, is_white_space, lemma_trimmed, push_decimal, trim, trimmed};

verus! {

/// Settings of the post-processing step.
#[derive(Debug, Clone)]
pub struct PostProcessSettings {
    /// Whether transcriptions are sent to the model at all.
    pub enabled: bool,
    /// Name of the Ollama model.
    pub model: String,
    /// System prompt that tells the model what to correct.
    pub system_prompt: String,
    /// Time limit of one request, in seconds.
    pub timeout_secs: u64,
}

/// Model used when none is configured.
pub open spec fn default_model() -> Seq<char> {
    "gemma4:e4b"@
}

/// System prompt used when none is configured.
pub open spec fn default_system_prompt() -> Seq<char> {
    "You are a post-processor for speech-to-text output. Fix transcription errors: spelling, spacing, misheard words, missing punctuation. Remove filler words (um, uh, like, you know). Keep the original language and meaning. Return only the corrected text with no explanations, no quotes, no preamble."@
}

impl Default for PostProcessSettings {
    fn default() -> (r: Self)
        ensures
            !r.enabled,
            r.model@ == default_model(),
            r.system_prompt@ == default_system_prompt(),
            r.timeout_secs == 30,
    {
        PostProcessSettings {
            enabled: false,
            model: String::from_str("gemma4:e4b"),
            system_prompt: String::from_str(
                "You are a post-processor for speech-to-text output. Fix transcription errors: spelling, spacing, misheard words, missing punctuation. Remove filler words (um, uh, like, you know). Keep the original language and meaning. Return only the corrected text with no explanations, no quotes, no preamble.",
            ),
            timeout_secs: 30,
        }
    }
}

/// `a` and `b` hold the same settings.
pub open spec fn same_settings(a: PostProcessSettings, b: PostProcessSettings) -> bool {
    &&& a.enabled == b.enabled
    &&& a.model@ == b.model@
    &&& a.system_prompt@ == b.system_prompt@
    &&& a.timeout_secs == b.timeout_secs
}

/// The settings used for a dictation: those reloaded from the settings file
/// when that worked, so that changes apply without a restart, and otherwise
/// the ones loaded at start-up.
pub fn settings_for_dictation(reloaded: Option<PostProcessSettings>, startup: &PostProcessSettings) -> (r:
    PostProcessSettings)
    ensures
        match reloaded {
            Some(fresh) => r == fresh,
            None => same_settings(r, *startup),
        },
{
    match reloaded {
        Some(fresh) => fresh,
        None => PostProcessSettings {
            enabled: startup.enabled,
            model: startup.model.clone(),
            system_prompt: startup.system_prompt.clone(),
            timeout_secs: startup.timeout_secs,
        },
    }
}

/// The body of a generate request, given the JSON literals of the model name,
/// the prompt and the system prompt: a compact JSON object with its keys in
/// sorted order, streaming and thinking off, the model kept loaded for ten
/// minutes and temperature zero.
pub open spec fn framed_body(model: Seq<char>, prompt: Seq<char>, system: Seq<char>) -> Seq<char> {
    "{\"keep_alive\":\"10m\",\"model\":"@ + model + ",\"options\":{\"temperature\":0.0},\"prompt\":"@
        + prompt + ",\"stream\":false,\"system\":"@ + system + ",\"think\":false}"@
}

/// The body of the generate request that asks `model` to correct `prompt`
/// under the system prompt `system`.
pub open spec fn request_body(model: Seq<char>, prompt: Seq<char>, system: Seq<char>) -> Seq<char> {
    framed_body(json_string(model), json_string(prompt), json_string(system))
}

/// The request is one fixed template with three holes: for any two choices
/// of model, prompt and system prompt, both bodies are the same four pieces
/// of text around the three values. The piece after the prompt turns
/// streaming off, the last one turns thinking off, the one before the prompt
/// sets temperature zero and the first keeps the model loaded for ten
/// minutes, whatever the values are.
pub proof fn lemma_body_is_fixed_template(
    m1: Seq<char>,
    p1: Seq<char>,
    s1: Seq<char>,
    m2: Seq<char>,
    p2: Seq<char>,
    s2: Seq<char>,
)
    ensures
        exists|a: Seq<char>, b: Seq<char>, c: Seq<char>, d: Seq<char>|
            {
                &&& framed_body(m1, p1, s1) == a + m1 + b + p1 + c + s1 + d
                &&& framed_body(m2, p2, s2) == a + m2 + b + p2 + c + s2 + d
                &&& a == "{\"keep_alive\":\"10m\",\"model\":"@
                &&& b == ",\"options\":{\"temperature\":0.0},\"prompt\":"@
                &&& c == ",\"stream\":false,\"system\":"@
                &&& d == ",\"think\":false}"@
            },
{
    let a = "{\"keep_alive\":\"10m\",\"model\":"@;
    let b = ",\"options\":{\"temperature\":0.0},\"prompt\":"@;
    let c = ",\"stream\":false,\"system\":"@;
    let d = ",\"think\":false}"@;
    assert(framed_body(m1, p1, s1) == a + m1 + b + p1 + c + s1 + d);
    assert(framed_body(m2, p2, s2) == a + m2 + b + p2 + c + s2 + d);
}

/// The generate request carries its three values unchanged: the body is the
/// fixed template around three JSON string literals, and reading back the
/// inside of each literal gives exactly the model name, the transcription
/// and the system prompt.
pub proof fn lemma_request_carries_values(model: Seq<char>, prompt: Seq<char>, system: Seq<char>)
    ensures
        exists|em: Seq<char>, ep: Seq<char>, es: Seq<char>|
            {
                &&& request_body(model, prompt, system) == framed_body(
                    seq!['"'] + em + seq!['"'],
                    seq!['"'] + ep + seq!['"'],
                    seq!['"'] + es + seq!['"'],
                )
                &&& unescape(em) == model
                &&& unescape(ep) == prompt
                &&& unescape(es) == system
            },
{
    lemma_json_string_round_trip(model);
    lemma_json_string_round_trip(prompt);
    lemma_json_string_round_trip(system);
    let em = escaped_all(model);
    let ep = escaped_all(prompt);
    let es = escaped_all(system);
    assert(request_body(model, prompt, system) == framed_body(
        seq!['"'] + em + seq!['"'],
        seq!['"'] + ep + seq!['"'],
        seq!['"'] + es + seq!['"'],
    ));
}

/// Places three JSON string literals into the generate request object.
pub fn frame_request_body(quoted_model: &str, quoted_prompt: &str, quoted_system: &str) -> (b:
    String)
    ensures
        b@ == framed_body(quoted_model@, quoted_prompt@, quoted_system@),
{
    let mut b = String::from_str("{\"keep_alive\":\"10m\",\"model\":");
    b.append(quoted_model);
    b.append(",\"options\":{\"temperature\":0.0},\"prompt\":");
    b.append(quoted_prompt);
    b.append(",\"stream\":false,\"system\":");
    b.append(quoted_system);
    b.append(",\"think\":false}");
    b
}

/// The JSON body that asks the configured model to correct `transcription`.
pub fn generate_request_body(transcription: &str, settings: &PostProcessSettings) -> (b: String)
    ensures
        b@ == request_body(settings.model@, transcription@, settings.system_prompt@),
{
    let model = to_json_string(settings.model.as_str()).unwrap();
    let prompt = to_json_string(transcription).unwrap();
    let system = to_json_string(settings.system_prompt.as_str()).unwrap();
    frame_request_body(model.as_str(), prompt.as_str(), system.as_str())
}

/// Why a request to Ollama produced no reply to read.
#[derive(Debug)]
pub enum RequestFailure {
    /// The server answered with an error status; `body` is what it sent
    /// (empty when it could not be read).
    Status { code: u16, body: String },
    /// The request did not get an answer; `detail` describes why.
    Transport { detail: String },
}

/// The message reported for a failed request.
pub open spec fn failure_text(failure: RequestFailure) -> Seq<char> {
    match failure {
        RequestFailure::Status { code, body } => if body@.len() == 0 {
            "Ollama returned status "@ + decimal(code as nat)
        } else {
            "Ollama returned status "@ + decimal(code as nat) + ": "@ + trimmed(body@)
        },
        RequestFailure::Transport { detail } => "Ollama request failed: "@ + detail@,
    }
}

/// The message reported for a failed request: the status code and the
/// trimmed error body the server sent, or why no answer came.
pub fn failure_message(failure: &RequestFailure) -> (m: String)
    ensures
        m@ == failure_text(*failure),
{
    match failure {
        RequestFailure::Status { code, body } => {
            let mut m = String::from_str("Ollama returned status ");
            push_decimal(&mut m, *code as u64);
            if body.as_str().is_empty() {
                m
            } else {
                m.append(": ");
                let t = trim(body.as_str());
                m.append(t.as_str());
                m
            }
        },
        RequestFailure::Transport { detail } => {
            let mut m = String::from_str("Ollama request failed: ");
            m.append(detail.as_str());
            m
        },
    }
}

/// What a reply of the generate endpoint yields: the trimmed `response`
/// field, unless it is empty or the reply could not be read.
pub open spec fn correction_outcome(reply: Result<Seq<char>, Seq<char>>) -> Result<
    Seq<char>,
    Seq<char>,
> {
    match reply {
        Err(e) => Err("Bad Ollama response: "@ + e),
        Ok(text) => if trimmed(text).len() == 0 {
            Err("Ollama returned empty response"@)
        } else {
            Ok(trimmed(text))
        },
    }
}

/// A result of texts, viewed as sequences of characters.
pub open spec fn text_result(r: Result<String, String>) -> Result<Seq<char>, Seq<char>> {
    match r {
        Ok(t) => Ok(t@),
        Err(e) => Err(e@),
    }
}

/// Turns the decoded reply (`Ok` with the `response` field, `Err` with why it
/// could not be decoded) into the corrected text or an error message.
pub fn finish_correction(reply: Result<String, String>) -> (r: Result<String, String>)
    ensures
        text_result(r) == correction_outcome(text_result(reply)),
{
    match reply {
        Err(e) => {
            let mut m = String::from_str("Bad Ollama response: ");
            m.append(e.as_str());
            Err(m)
        },
        Ok(text) => {
            let t = trim(text.as_str());
            if t.as_str().is_empty() {
                Err(String::from_str("Ollama returned empty response"))
            } else {
                Ok(t)
            }
        },
    }
}

/// A correction that succeeds is never empty and has no whitespace at
/// either end; it is the reply's text with surrounding whitespace removed.
pub proof fn lemma_correction_is_trimmed(reply: Result<Seq<char>, Seq<char>>)
    ensures
        correction_outcome(reply) matches Ok(out) ==> {
            &&& reply matches Ok(text) && out == trimmed(text)
            &&& out.len() > 0
            &&& trimmed(out) == out
            &&& !is_white_space(out[0])
            &&& !is_white_space(out.last())
        },
{
    if let Ok(text) = reply {
        lemma_trimmed(text);
    }
}

/// A reply is accepted exactly when its text is not blank, and then the
/// correction is that text without surrounding whitespace, whatever its
/// length; a reply that could not be read is always an error.
pub proof fn lemma_correction_accepts_non_blank(reply: Result<Seq<char>, Seq<char>>)
    ensures
        reply matches Ok(text) ==> (correction_outcome(reply) is Ok <==> exists|k: int|
            0 <= k < text.len() && !is_white_space(#[trigger] text[k])),
        reply matches Ok(text) ==> (correction_outcome(reply) is Ok ==> correction_outcome(reply)
            == Ok::<Seq<char>, Seq<char>>(trimmed(text))),
        reply is Err ==> correction_outcome(reply) is Err,
{
    if let Ok(text) = reply {
        lemma_trimmed(text);
        let t = trimmed(text);
        let (i, j) = choose|i: int, j: int|
            {
                &&& 0 <= i <= j <= text.len()
                &&& t == text.subrange(i, j)
                &&& forall|k: int| 0 <= k < i ==> is_white_space(#[trigger] text[k])
                &&& forall|k: int| j <= k < text.len() ==> is_white_space(#[trigger] text[k])
            };
        if t.len() > 0 {
            assert(text[i] == t[0]);
            assert(!is_white_space(text[i]));
        } else {
            assert forall|k: int| 0 <= k < text.len() implies is_white_space(#[trigger] text[k]) by {
                if k >= i {
                    assert(k >= j);
                }
            }
        }
    }
}

/// The model names to offer: those the server listed, or none when the
/// list could not be fetched or read.
pub fn available_models(listed: Option<Vec<String>>) -> (r: Vec<String>)
    ensures
        match listed {
            Some(names) => r@ == names@,
            None => r@.len() == 0,
        },
{
    match listed {
        Some(names) => names,
        None => Vec::new(),
    }
}

} // verus!
