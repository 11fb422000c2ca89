use cmd_engine::config::Config;
use cmd_engine::provider::{
    exchange_result, Answer,
    build_provider, classify_send_failure, decode_failure_message, is_success_status,
    join_endpoint, reply_result, send_failure_message, status_failure_message, AnthropicProvider,
    LlmProvider, OpenAiProvider, Provider, SendFailure,
};

fn config(provider_type: &str, provider_url: &str, api_key: &str) -> Config {
    Config {
        provider_type: provider_type.to_string(),
        provider_url: provider_url.to_string(),
        api_key: api_key.to_string(),
        model: "m1".to_string(),
        daemon_port: 11435,
        hotkey: "Ctrl+T".to_string(),
        session_history_lines: 10,
        include_env_vars: true,
        timeout_ms: 7000,
    }
}

fn json(text: &str) -> serde_json::Value {
    serde_json::from_str(text).unwrap()
}

#[test]
fn endpoint_drops_trailing_slashes() {
    assert_eq!(join_endpoint("https://api.openai.com/v1///", "/chat/completions"), "https://api.openai.com/v1/chat/completions");
    assert_eq!(join_endpoint("http://h", "/messages"), "http://h/messages");
    assert_eq!(join_endpoint("", "/messages"), "/messages");
}

#[test]
fn openai_config_gives_openai_provider() {
    match build_provider(&config("openai", "http://localhost:11434/v1/", "")) {
        Ok(Provider::OpenAi(p)) => {
            assert_eq!(p.url, "http://localhost:11434/v1/chat/completions");
            assert_eq!(p.api_key, "");
            assert_eq!(p.model, "m1");
            assert_eq!(p.timeout_ms, 7000);
        }
        other => panic!("unexpected {:?}", other),
    }
}

#[test]
fn anthropic_config_gives_anthropic_provider() {
    match build_provider(&config("anthropic", "https://api.anthropic.com", "key")) {
        Ok(Provider::Anthropic(p)) => {
            assert_eq!(p.url, "https://api.anthropic.com/messages");
            assert_eq!(p.api_key, "key");
        }
        other => panic!("unexpected {:?}", other),
    }
}

#[test]
fn anthropic_needs_a_key() {
    let e = build_provider(&config("anthropic", "https://api.anthropic.com", "  ")).unwrap_err();
    assert_eq!(e, "Config incomplete: api_key is required for Anthropic provider");
    assert!(AnthropicProvider::new(&config("anthropic", "u", "")).is_err());
}

#[test]
fn unknown_provider_type_is_refused() {
    let e = build_provider(&config("gemini", "u", "k")).unwrap_err();
    assert_eq!(e, "Unknown provider_type: gemini");
}

#[test]
fn openai_headers_carry_bearer_token_only_with_key() {
    let p = OpenAiProvider::new(&config("openai", "u", "sk-1")).unwrap();
    assert_eq!(p.request_headers(), vec![("Authorization".to_string(), "Bearer sk-1".to_string())]);
    let q = OpenAiProvider::new(&config("openai", "u", "")).unwrap();
    assert!(q.request_headers().is_empty());
}

#[test]
fn anthropic_headers() {
    let p = Provider::Anthropic(AnthropicProvider::new(&config("anthropic", "u", "k9")).unwrap());
    assert_eq!(
        p.request_headers(),
        vec![
            ("x-api-key".to_string(), "k9".to_string()),
            ("anthropic-version".to_string(), "2023-06-01".to_string()),
        ]
    );
    assert_eq!(p.endpoint(), "u/messages");
    assert_eq!(p.model_id(), "m1");
    assert_eq!(p.timeout_ms(), 7000);
}

#[test]
fn request_fields_per_provider() {
    let o = Provider::OpenAi(OpenAiProvider::new(&config("openai", "u", "")).unwrap());
    let r = o.request_fields("sys", "usr");
    assert_eq!(r.model, "m1");
    assert_eq!(r.system, None);
    assert_eq!(r.max_tokens, 500);
    let m: Vec<(String, String)> = r.messages.iter().map(|m| (m.role.clone(), m.content.clone())).collect();
    assert_eq!(m, vec![("system".to_string(), "sys".to_string()), ("user".to_string(), "usr".to_string())]);
    let a = Provider::Anthropic(AnthropicProvider::new(&config("anthropic", "u", "k")).unwrap());
    let r = a.request_fields("sys", "usr");
    assert_eq!(r.system, Some("sys".to_string()));
    assert_eq!(r.messages.len(), 1);
    assert_eq!((r.messages[0].role.as_str(), r.messages[0].content.as_str()), ("user", "usr"));
}

#[test]
fn openai_reply_is_first_choice_content() {
    let p = Provider::OpenAi(OpenAiProvider::new(&config("openai", "u", "")).unwrap());
    let reply = json(r#"{"choices":[{"message":{"role":"assistant","content":"ls -la"}},{"message":{"content":"no"}}]}"#);
    assert_eq!(p.reply_text(&reply), Some("ls -la".to_string()));
    assert_eq!(p.reply_text(&json(r#"{"choices":[]}"#)), None);
    assert_eq!(p.reply_text(&json(r#"{"choices":[{"message":{"content":42}}]}"#)), None);
    assert_eq!(p.reply_text(&json(r#"{"content":[{"text":"ls"}]}"#)), None);
}

#[test]
fn anthropic_reply_is_first_content_text() {
    let p = Provider::Anthropic(AnthropicProvider::new(&config("anthropic", "u", "k")).unwrap());
    let reply = json(r#"{"content":[{"type":"text","text":"pwd"}]}"#);
    assert_eq!(p.reply_text(&reply), Some("pwd".to_string()));
    assert_eq!(p.reply_text(&json("null")), None);
}

#[test]
fn send_failures_are_named() {
    assert!(matches!(classify_send_failure(true, true, "x".to_string()), SendFailure::Timeout));
    assert!(matches!(classify_send_failure(false, true, "x".to_string()), SendFailure::Connect));
    assert!(matches!(classify_send_failure(false, false, "x".to_string()), SendFailure::Other(d) if d == "x"));
    assert_eq!(send_failure_message(&SendFailure::Timeout, "u"), "LLM timeout");
    assert_eq!(send_failure_message(&SendFailure::Connect, "http://h/messages"), "Cannot reach provider at http://h/messages");
    assert_eq!(send_failure_message(&SendFailure::Other("boom".to_string()), "u"), "Provider request failed: boom");
}

#[test]
fn status_and_decoding_failures() {
    assert!(is_success_status(200));
    assert!(is_success_status(299));
    assert!(!is_success_status(199));
    assert!(!is_success_status(300));
    assert!(!is_success_status(404));
    assert_eq!(status_failure_message("401 Unauthorized", "bad key"), "Provider returned 401 Unauthorized: bad key");
    assert_eq!(decode_failure_message("eof"), "Bad JSON response: eof");
}

#[test]
fn missing_reply_text_is_an_error() {
    assert_eq!(reply_result(Some("ls".to_string())), Ok("ls".to_string()));
    assert_eq!(reply_result(None), Err("Empty response from LLM".to_string()));
}

#[test]
fn exchange_results() {
    assert_eq!(exchange_result(Answer::Failed(SendFailure::Timeout), "u"), Err("LLM timeout".to_string()));
    assert_eq!(exchange_result(Answer::Failed(SendFailure::Connect), "http://h/messages"), Err("Cannot reach provider at http://h/messages".to_string()));
    assert_eq!(
        exchange_result(Answer::Refused { status: "500 Internal Server Error".to_string(), body: "oops".to_string() }, "u"),
        Err("Provider returned 500 Internal Server Error: oops".to_string())
    );
    assert_eq!(exchange_result(Answer::Undecodable("eof".to_string()), "u"), Err("Bad JSON response: eof".to_string()));
    assert_eq!(exchange_result(Answer::Decoded(None), "u"), Err("Empty response from LLM".to_string()));
    assert_eq!(exchange_result(Answer::Decoded(Some("ls".to_string())), "u"), Ok("ls".to_string()));
}
