use cmd_engine::numbers::{decimal, parse_u64};
use cmd_engine::setup::{
    api_key_may_be_empty, config_json, connection_outcome, history_lines_setting, hotkey_for_choice,
    hotkey_items, is_custom_url_choice, mask_key, number_or_default, official_provider_url,
    provider_type_for_choice, provider_url_items, trial_config_json, ConnectionOutcome,
};

#[test]
fn provider_choices() {
    assert_eq!(provider_type_for_choice(0), "openai");
    assert_eq!(provider_type_for_choice(1), "anthropic");
    assert_eq!(official_provider_url("openai"), "https://api.openai.com/v1");
    assert_eq!(official_provider_url("anthropic"), "https://api.anthropic.com");
    assert_eq!(provider_url_items("openai"), vec!["https://api.openai.com/v1".to_string(), "Custom URL".to_string()]);
    assert!(is_custom_url_choice(1));
    assert!(!is_custom_url_choice(0));
    assert!(api_key_may_be_empty("openai"));
    assert!(!api_key_may_be_empty("anthropic"));
}

#[test]
fn hotkey_choices() {
    assert_eq!(hotkey_items(), vec!["Ctrl+T", "Ctrl+G", "Ctrl+/", "Custom"]);
    assert_eq!(hotkey_for_choice(0), Some("Ctrl+T".to_string()));
    assert_eq!(hotkey_for_choice(2), Some("Ctrl+/".to_string()));
    assert_eq!(hotkey_for_choice(3), None);
}

#[test]
fn numbers_are_read_as_u64_from_str() {
    for s in ["0", "15000", "+7", "007", "18446744073709551615", "", "+", "-1", " 5", "5 ", "1e3", "18446744073709551616", "٣"] {
        assert_eq!(parse_u64(s), s.parse::<u64>().ok(), "{:?}", s);
    }
}

#[test]
fn numbers_are_written_in_decimal() {
    for n in [0u64, 9, 10, 11435, 15000, u64::MAX] {
        assert_eq!(decimal(n), n.to_string());
        assert_eq!(parse_u64(&decimal(n)), Some(n));
    }
}

#[test]
fn typed_numbers_fall_back_to_default() {
    assert_eq!(number_or_default(Some("20000"), 15000), 20000);
    assert_eq!(number_or_default(Some("soon"), 15000), 15000);
    assert_eq!(number_or_default(None, 10), 10);
    assert_eq!(history_lines_setting(10), 10);
    assert_eq!(history_lines_setting(300), 44);
}

#[test]
fn keys_are_masked() {
    assert_eq!(mask_key(""), "(none)");
    assert_eq!(mask_key("abcdefgh"), "••••");
    assert_eq!(mask_key("sk-1234567890"), "sk-1••••7890");
    assert_eq!(mask_key("éé"), "••••");
}

#[test]
fn config_file_text() {
    let text = config_json("openai", "https://api.openai.com/v1", "sk-x", "gpt-4.1-mini", 11435, "Ctrl+T", 10, 15000);
    assert_eq!(
        text,
        "{\n  \"provider_type\": \"openai\",\n  \"provider_url\": \"https://api.openai.com/v1\",\n  \"api_key\": \"sk-x\",\n  \"model\": \"gpt-4.1-mini\",\n  \"daemon_port\": 11435,\n  \"hotkey\": \"Ctrl+T\",\n  \"session_history_lines\": 10,\n  \"include_env_vars\": true,\n  \"timeout_ms\": 15000\n}"
    );
    let parsed: serde_json::Value = serde_json::from_str(&text).unwrap();
    assert_eq!(parsed["timeout_ms"].as_u64(), Some(15000));
    assert_eq!(trial_config_json("openai", "https://api.openai.com/v1", "sk-x", "gpt-4.1-mini", 15000), text);
}

#[test]
fn trial_outcomes() {
    assert!(matches!(connection_outcome("  {\"command\":\"echo hello world\",\"error\":null}\n"), ConnectionOutcome::Working(c) if c == "echo hello world"));
    assert!(matches!(connection_outcome("{\"command\":null,\"error\":\"LLM timeout\"}"), ConnectionOutcome::Failed(e) if e == "LLM timeout"));
    assert!(matches!(connection_outcome(""), ConnectionOutcome::NoResponse));
    assert!(matches!(connection_outcome("{\"command\":null,\"error\":null}"), ConnectionOutcome::NoResponse));
    assert!(matches!(connection_outcome("not json"), ConnectionOutcome::NoResponse));
}
