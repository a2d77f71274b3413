use fluid_voice_windows::enhancement::{
    enhancement_from_choices, enhancement_request, provider_key, render_prompt, reply_handling,
    provider_error, EnhancementError, ReplyHandling,
};
use fluid_voice_windows::settings::{AppSettings, EnhancementProvider, PromptProfile};

#[test]
fn provider_keys_match_secret_slots() {
    assert_eq!(provider_key(&EnhancementProvider::OpenAi), "openai");
    assert_eq!(provider_key(&EnhancementProvider::Groq), "groq");
    assert_eq!(
        provider_key(&EnhancementProvider::CustomOpenAiCompatible),
        "custom-openai-compatible"
    );
}

#[test]
fn prompt_keeps_transcript_as_user_message() {
    let messages = render_prompt(&PromptProfile::Email, "send this tomorrow");

    assert_eq!(messages.len(), 2);
    assert_eq!(messages[1].role, "user");
    assert_eq!(messages[1].content, "send this tomorrow");
}

#[test]
fn prompt_starts_with_profile_instruction() {
    let messages = render_prompt(&PromptProfile::CodeComments, "todo fix");
    assert_eq!(messages[0].role, "system");
    assert_eq!(
        messages[0].content,
        "Rewrite the dictated text as clear code comments or developer notes. Preserve identifiers exactly."
    );
}

fn enabled_settings() -> AppSettings {
    let mut settings = AppSettings::default();
    settings.enhancement.enabled = true;
    settings
}

#[test]
fn disabled_enhancement_sends_nothing() {
    let settings = AppSettings::default();
    let res = enhancement_request("hello", &settings, Some("k".to_string()));
    assert!(matches!(res, Err(EnhancementError::Disabled)));
    assert_eq!(res.unwrap_err().message(), "enhancement is disabled");
}

#[test]
fn missing_key_names_the_provider_slot() {
    let mut settings = enabled_settings();
    settings.enhancement.provider = EnhancementProvider::Groq;
    match enhancement_request("hello", &settings, None) {
        Err(e) => {
            assert!(matches!(&e, EnhancementError::MissingApiKey(p) if p == "groq"));
            assert_eq!(e.message(), "missing API key for groq");
        }
        Ok(_) => panic!("a request without a key"),
    }
}

#[test]
fn request_strips_trailing_slashes_and_floors_timeout() {
    let mut settings = enabled_settings();
    settings.enhancement.base_url = "https://example.test/v1//".to_string();
    settings.enhancement.timeout_seconds = 0;
    let request = enhancement_request("hi", &settings, Some("secret".to_string())).unwrap();
    assert_eq!(request.url, "https://example.test/v1/chat/completions");
    assert_eq!(request.api_key, "secret");
    assert_eq!(request.timeout_seconds, 1);
    assert_eq!(request.model, "gpt-4.1-mini");
    assert_eq!(request.messages[1].content, "hi");
}

#[test]
fn default_base_url_gives_openai_endpoint() {
    let settings = enabled_settings();
    let request = enhancement_request("hi", &settings, Some("k".to_string())).unwrap();
    assert_eq!(request.url, "https://api.openai.com/v1/chat/completions");
    assert_eq!(request.timeout_seconds, 20);
}

#[test]
fn reply_status_decides_handling() {
    assert_eq!(reply_handling(200), ReplyHandling::ReadChoices);
    assert_eq!(reply_handling(299), ReplyHandling::ReadChoices);
    assert_eq!(reply_handling(199), ReplyHandling::ReadErrorBody);
    assert_eq!(reply_handling(401), ReplyHandling::ReadErrorBody);
    let e = provider_error(401, "bad key".to_string());
    assert_eq!(e.message(), "enhancement provider returned 401 Unauthorized: bad key");
    let e = provider_error(599, "".to_string());
    assert_eq!(e.message(), "enhancement provider returned 599 <unknown status code>: ");
    let e = provider_error(503, "down".to_string());
    assert_eq!(e.message(), "enhancement provider returned 503 Service Unavailable: down");
}

#[test]
fn first_choice_is_trimmed() {
    let settings = enabled_settings();
    let choices = vec!["  Send it tomorrow.\n".to_string(), "other".to_string()];
    let result = enhancement_from_choices(&choices, &settings).unwrap();
    assert_eq!(result.text, "Send it tomorrow.");
    assert_eq!(result.provider, "openai");
    assert_eq!(result.model, "gpt-4.1-mini");
}

#[test]
fn no_choices_is_an_empty_response() {
    let settings = enabled_settings();
    let res = enhancement_from_choices(&Vec::new(), &settings);
    assert!(matches!(res, Err(EnhancementError::EmptyResponse)));
}
