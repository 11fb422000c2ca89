use cmd_engine::daemon::{listen_address, translation_response, wants_setup};

#[test]
fn successful_translation_is_cleaned() {
    let r = translation_response(Ok("```\nls -la\n```".to_string()));
    assert_eq!(r.command, Some("ls -la".to_string()));
    assert_eq!(r.error, None);
}

#[test]
fn failed_translation_carries_error() {
    let r = translation_response(Err("LLM timeout".to_string()));
    assert_eq!(r.command, None);
    assert_eq!(r.error, Some("LLM timeout".to_string()));
}

#[test]
fn listens_on_loopback() {
    assert_eq!(listen_address(11435), "127.0.0.1:11435");
    assert_eq!(listen_address(0), "127.0.0.1:0");
    assert_eq!(listen_address(65535), "127.0.0.1:65535");
}

#[test]
fn setup_argument() {
    let args = |v: &[&str]| v.iter().map(|s| s.to_string()).collect::<Vec<String>>();
    assert!(wants_setup(&args(&["cmd-engine", "setup"])));
    assert!(wants_setup(&args(&["cmd-engine", "setup", "x"])));
    assert!(!wants_setup(&args(&["cmd-engine"])));
    assert!(!wants_setup(&args(&["cmd-engine", "Setup"])));
}
