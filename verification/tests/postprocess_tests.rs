use serde_json::Value;
use whispr::postprocess::{
    available_models, failure_message, finish_correction, frame_request_body,
    generate_request_body, settings_for_dictation, RequestFailure,
};
use whispr::PostProcessSettings;

fn reference_body(model: &str, prompt: &str, system: &str) -> String {
    let mut options = serde_json::Map::new();
    options.insert("temperature".to_string(), Value::from(0.0f64));
    let mut m = serde_json::Map::new();
    m.insert("model".to_string(), Value::from(model));
    m.insert("prompt".to_string(), Value::from(prompt));
    m.insert("system".to_string(), Value::from(system));
    m.insert("stream".to_string(), Value::from(false));
    m.insert("think".to_string(), Value::from(false));
    m.insert("keep_alive".to_string(), Value::from("10m"));
    m.insert("options".to_string(), Value::Object(options));
    Value::Object(m).to_string()
}

#[test]
fn default_settings_are_disabled_gemma_thirty_seconds() {
    let s = PostProcessSettings::default();
    assert!(!s.enabled);
    assert_eq!(s.model, "gemma4:e4b");
    assert_eq!(s.timeout_secs, 30);
    assert_eq!(
        s.system_prompt,
        "You are a post-processor for speech-to-text output. \
Fix transcription errors: spelling, spacing, misheard words, missing punctuation. \
Remove filler words (um, uh, like, you know). \
Keep the original language and meaning. \
Return only the corrected text with no explanations, no quotes, no preamble."
    );
}

#[test]
fn request_body_matches_serde_json_object() {
    let s = PostProcessSettings::default();
    let raw = "so um i was thinking we should like validate the findings before we submit the paper";
    let body = generate_request_body(raw, &s);
    assert_eq!(body, reference_body(&s.model, raw, &s.system_prompt));
    assert!(serde_json::from_str::<Value>(&body).is_ok());
}

#[test]
fn request_body_escapes_special_characters() {
    let mut s = PostProcessSettings::default();
    s.model = "m\"x\\y".to_string();
    s.system_prompt = "line1\nline2\ttab\r\u{8}\u{c}\u{1}\u{1f}\u{7f}".to_string();
    let prompt = "Grüße, \"Zitat\" – 日本語 🎙️ \u{0}";
    let body = generate_request_body(prompt, &s);
    assert_eq!(body, reference_body(&s.model, prompt, &s.system_prompt));
    let v: Value = serde_json::from_str(&body).unwrap();
    assert_eq!(v["prompt"], Value::from(prompt));
    assert_eq!(v["model"], Value::from("m\"x\\y"));
}

#[test]
fn frame_places_literals_in_sorted_object() {
    let b = frame_request_body("\"a\"", "\"b\"", "\"c\"");
    assert_eq!(
        b,
        "{\"keep_alive\":\"10m\",\"model\":\"a\",\"options\":{\"temperature\":0.0},\"prompt\":\"b\",\"stream\":false,\"system\":\"c\",\"think\":false}"
    );
}

#[test]
fn status_failure_without_body() {
    let m = failure_message(&RequestFailure::Status { code: 500, body: String::new() });
    assert_eq!(m, "Ollama returned status 500");
}

#[test]
fn status_failure_with_body_is_trimmed() {
    let m = failure_message(&RequestFailure::Status {
        code: 404,
        body: "  {\"error\":\"model 'x' not found\"}\n".to_string(),
    });
    assert_eq!(m, "Ollama returned status 404: {\"error\":\"model 'x' not found\"}");
}

#[test]
fn status_failure_with_blank_body_keeps_colon() {
    let m = failure_message(&RequestFailure::Status { code: 503, body: " \n".to_string() });
    assert_eq!(m, "Ollama returned status 503: ");
}

#[test]
fn transport_failure_message() {
    let m = failure_message(&RequestFailure::Transport { detail: "timed out".to_string() });
    assert_eq!(m, "Ollama request failed: timed out");
}

#[test]
fn correction_is_trimmed() {
    let r = finish_correction(Ok("  So I was thinking we should validate the findings.\n".to_string()));
    assert_eq!(r, Ok("So I was thinking we should validate the findings.".to_string()));
}

#[test]
fn blank_correction_is_an_error() {
    let r = finish_correction(Ok(" \t\n\u{3000}".to_string()));
    assert_eq!(r, Err("Ollama returned empty response".to_string()));
    let r = finish_correction(Ok(String::new()));
    assert_eq!(r, Err("Ollama returned empty response".to_string()));
}

#[test]
fn unreadable_reply_is_an_error() {
    let r = finish_correction(Err("Failed to read JSON: missing field `response`".to_string()));
    assert_eq!(
        r,
        Err("Bad Ollama response: Failed to read JSON: missing field `response`".to_string())
    );
}

#[test]
fn models_listed_or_none() {
    let names = vec!["gemma4:e4b".to_string(), "llama3:8b".to_string()];
    assert_eq!(available_models(Some(names.clone())), names);
    assert!(available_models(None).is_empty());
}

#[test]
fn reloaded_settings_win_over_startup_ones() {
    let startup = PostProcessSettings::default();
    let mut fresh = PostProcessSettings::default();
    fresh.enabled = true;
    fresh.model = "llama3:8b".to_string();
    let r = settings_for_dictation(Some(fresh), &startup);
    assert!(r.enabled);
    assert_eq!(r.model, "llama3:8b");
    let r = settings_for_dictation(None, &startup);
    assert!(!r.enabled);
    assert_eq!(r.model, startup.model);
    assert_eq!(r.system_prompt, startup.system_prompt);
    assert_eq!(r.timeout_secs, 30);
}
