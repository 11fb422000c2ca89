use cmd_engine::prompt::{build_system_prompt, build_user_prompt, TranslateRequest};

fn request(history: Vec<&str>) -> TranslateRequest {
    TranslateRequest {
        input: "find all files named foo in bar".to_string(),
        shell: "bash".to_string(),
        cwd: "/home/user/projects".to_string(),
        os: "linux".to_string(),
        history: history.into_iter().map(|s| s.to_string()).collect(),
    }
}

#[test]
fn system_prompt_asks_for_bare_command() {
    let p = build_system_prompt();
    assert!(p.starts_with("You are a shell command translator."));
    assert!(p.contains("output ONLY the shell command — no explanations, no markdown, no backticks, no commentary."));
    assert!(p.ends_with("Respond with the raw command text and nothing else."));
}

#[test]
fn user_prompt_without_history() {
    assert_eq!(
        build_user_prompt(&request(vec![])),
        "Shell: bash\nOS: linux\nCurrent directory: /home/user/projects\n\nRequest: find all files named foo in bar\n\nCommand:"
    );
}

#[test]
fn user_prompt_with_history() {
    assert_eq!(
        build_user_prompt(&request(vec!["cd bar", "ls -la"])),
        "Shell: bash\nOS: linux\nCurrent directory: /home/user/projects\nRecent commands:\n  cd bar\n  ls -la\n\nRequest: find all files named foo in bar\n\nCommand:"
    );
}
