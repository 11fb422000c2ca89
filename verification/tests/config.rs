use cmd_engine::config::{
    default_daemon_port, default_hotkey, default_include_env_vars, default_session_history_lines,
    default_timeout_ms, Config,
};

fn config(provider_type: &str, provider_url: &str, api_key: &str, model: &str) -> Config {
    Config {
        provider_type: provider_type.to_string(),
        provider_url: provider_url.to_string(),
        api_key: api_key.to_string(),
        model: model.to_string(),
        daemon_port: default_daemon_port(),
        hotkey: default_hotkey(),
        session_history_lines: default_session_history_lines(),
        include_env_vars: default_include_env_vars(),
        timeout_ms: default_timeout_ms(),
    }
}

#[test]
fn defaults_are_the_documented_values() {
    assert_eq!(default_daemon_port(), 11435);
    assert_eq!(default_hotkey(), "Ctrl+T");
    assert_eq!(default_session_history_lines(), 10);
    assert!(default_include_env_vars());
    assert_eq!(default_timeout_ms(), 5000);
}

#[test]
fn accepts_complete_openai_config() {
    assert_eq!(config("openai", "https://api.openai.com/v1", "sk-x", "gpt-4.1-mini").validate(), Ok(()));
}

#[test]
fn accepts_openai_config_without_key() {
    assert_eq!(config("openai", "http://localhost:11434/v1", "", "qwen2.5:3b").validate(), Ok(()));
}

#[test]
fn rejects_blank_url() {
    assert_eq!(
        config("openai", " \t ", "k", "m").validate(),
        Err("Config incomplete: missing provider_url".to_string())
    );
}

#[test]
fn rejects_unknown_provider_type() {
    assert_eq!(
        config("ollama", "http://x", "k", "m").validate(),
        Err("Config invalid: provider_type must be 'openai' or 'anthropic', got 'ollama'".to_string())
    );
}

#[test]
fn provider_type_is_case_sensitive() {
    assert!(config("OpenAI", "http://x", "k", "m").validate().is_err());
}

#[test]
fn rejects_blank_model() {
    assert_eq!(
        config("anthropic", "https://api.anthropic.com", "k", "  ").validate(),
        Err("Config incomplete: missing model".to_string())
    );
}

#[test]
fn url_is_checked_before_type() {
    assert_eq!(
        config("bogus", "", "k", "").validate(),
        Err("Config incomplete: missing provider_url".to_string())
    );
}

#[test]
fn empty_key_warning() {
    assert!(config("openai", "http://localhost:11434/v1", " ", "").warns_of_empty_key());
    assert!(!config("openai", "http://x", "k", "m").warns_of_empty_key());
    assert!(!config("anthropic", "http://x", "", "m").warns_of_empty_key());
    assert!(!config("openai", "", "", "m").warns_of_empty_key());
}
