use cmd_engine::text::replace_text;
use cmd_engine::hooks::{
    binding_for, detect_shell, hook_addition, hook_snippet, hotkey_is_bindable, rc_path_for, BASH_HOOK_BODY,
    FISH_HOOK_BODY, PWSH_HOOK_TAIL, ZSH_HOOK_BODY,
};
use cmd_engine::service::{
    control_lines, launchd_plist, register_commands, schtasks_create_args, service_manager_for, start_command,
    systemd_unit, ServiceManager, SYSTEMD_TEMPLATE,
};

#[test]
fn shell_detection() {
    assert_eq!(detect_shell(true, true, false, "/bin/bash"), "zsh");
    assert_eq!(detect_shell(false, true, true, ""), "bash");
    assert_eq!(detect_shell(false, false, true, "/bin/zsh"), "fish");
    assert_eq!(detect_shell(false, false, false, "/usr/bin/zsh"), "zsh");
    assert_eq!(detect_shell(false, false, false, "/usr/bin/fish"), "fish");
    assert_eq!(detect_shell(false, false, false, "/opt/pwsh"), "pwsh");
    assert_eq!(detect_shell(false, false, false, "/bin/sh"), "bash");
}

#[test]
fn startup_files() {
    assert_eq!(rc_path_for("bash", "/home/u", false), "/home/u/.bashrc");
    assert_eq!(rc_path_for("zsh", "/home/u", false), "/home/u/.zshrc");
    assert_eq!(rc_path_for("fish", "/home/u", false), "/home/u/.config/fish/config.fish");
    assert_eq!(rc_path_for("pwsh", "/home/u", false), "/home/u/.config/powershell/Microsoft.PowerShell_profile.ps1");
    assert_eq!(rc_path_for("pwsh", "/home/u", true), "Documents\\PowerShell\\Microsoft.PowerShell_profile.ps1");
    assert_eq!(rc_path_for("ksh", "", false), "/.bashrc");
}

#[test]
fn hotkeys_that_can_be_bound() {
    for k in ["Ctrl+T", "Ctrl+G", "Ctrl+/", "Ctrl+e"] {
        assert!(hotkey_is_bindable(k), "{}", k);
    }
    for k in ["Ctrl+Space", "Alt+T", "Ctrl+1", "Ctrl+", "ctrl+t", "Ctrl+é"] {
        assert!(!hotkey_is_bindable(k), "{}", k);
    }
}

#[test]
fn bindings_follow_the_hotkey() {
    assert_eq!(binding_for("bash", "Ctrl+T"), "bind -x '\"\\C-t\": __cmd_engine_translate'");
    assert_eq!(binding_for("bash", "Ctrl+/"), "bind -x '\"\\C-_\": __cmd_engine_translate'");
    assert_eq!(binding_for("zsh", "Ctrl+g"), "bindkey '^G' __cmd_engine_translate");
    assert_eq!(binding_for("zsh", "Ctrl+/"), "bindkey '^_' __cmd_engine_translate");
    assert_eq!(binding_for("fish", "Ctrl+E"), "bind \\ce __cmd_engine_translate");
    assert_eq!(binding_for("pwsh", "Ctrl+G"), "Set-PSReadLineKeyHandler -Key Ctrl+G");
    assert_eq!(binding_for("pwsh", "Alt+X"), "Set-PSReadLineKeyHandler -Key Ctrl+T");
    assert_eq!(binding_for("bash", "Ctrl+Space"), "bind -x '\"\\C-t\": __cmd_engine_translate'");
    assert_eq!(binding_for("tcsh", "Ctrl+T"), "");
}

#[test]
fn hooks_per_shell() {
    let bash = hook_snippet("bash", "Ctrl+G");
    assert_eq!(bash, format!("{}\nbind -x '\"\\C-g\": __cmd_engine_translate'", BASH_HOOK_BODY));
    assert!(bash.contains("READLINE_LINE"));
    let zsh = hook_snippet("zsh", "Ctrl+G");
    assert_eq!(zsh, format!("{}\nzle -N __cmd_engine_translate\nbindkey '^G' __cmd_engine_translate", ZSH_HOOK_BODY));
    assert!(zsh.contains("BUFFER=") && !zsh.contains("READLINE"));
    assert!(ZSH_HOOK_BODY.contains("--arg shell \"zsh\""));
    let fish = hook_snippet("fish", "Ctrl+T");
    assert_eq!(fish, format!("{}\nbind \\ct __cmd_engine_translate", FISH_HOOK_BODY));
    let pwsh = hook_snippet("pwsh", "Ctrl+/");
    assert!(pwsh.starts_with("# __cmd_engine_translate: cmd-engine — AI terminal command translator\nSet-PSReadLineKeyHandler -Key Ctrl+/ -ScriptBlock {"));
    assert!(pwsh.ends_with(PWSH_HOOK_TAIL));
    assert_eq!(hook_snippet("tcsh", "Ctrl+T"), "");
    assert!(BASH_HOOK_BODY.contains("http://127.0.0.1:11435/translate"));
}

#[test]
fn hook_is_added_once() {
    for shell in ["bash", "zsh", "fish", "pwsh"] {
        let hook = hook_snippet(shell, "Ctrl+T");
        let first = hook_addition(Some("alias ll='ls -l'\n"), &hook).unwrap();
        assert_eq!(first, format!("\n{}\n", hook));
        let after = format!("alias ll='ls -l'\n{}", first);
        assert_eq!(hook_addition(Some(&after), &hook), None, "{}", shell);
        let fresh = hook_addition(None, &hook).unwrap();
        assert_eq!(hook_addition(Some(&fresh), &hook), None, "{}", shell);
    }
}

#[test]
fn service_texts() {
    let unit = systemd_unit("/usr/bin/cmd-engine", "/home/u/.cache");
    assert_eq!(unit, SYSTEMD_TEMPLATE.replace("DAEMON_BIN_PLACEHOLDER", "/usr/bin/cmd-engine").replace("LOG_DIR_PLACEHOLDER", "/home/u/.cache"));
    assert!(unit.contains("ExecStart=/usr/bin/cmd-engine\n"));
    assert!(unit.contains("StandardError=append:/home/u/.cache/cmd-engine.log"));
    let plist = launchd_plist("/usr/local/bin/cmd-engine", "/Users/u");
    assert!(plist.contains("<string>/usr/local/bin/cmd-engine</string>"));
    assert!(plist.contains("<string>/Users/u/Library/Logs/cmd-engine.log</string>"));
    assert_eq!(schtasks_create_args("c.exe"), vec!["/create", "/tn", "cmd-engine", "/tr", "c.exe", "/sc", "onlogon", "/f"]);
    assert_eq!(service_manager_for("linux"), Some(ServiceManager::Systemd));
    assert_eq!(service_manager_for("macos"), Some(ServiceManager::Launchd));
    assert_eq!(service_manager_for("windows"), Some(ServiceManager::TaskScheduler));
    assert_eq!(service_manager_for("freebsd"), None);
}

#[test]
fn service_commands() {
    assert_eq!(
        register_commands(ServiceManager::Systemd, "/bin/c", "p"),
        vec![vec!["systemctl", "daemon-reload"], vec!["systemctl", "enable", "cmd-engine.service"]]
    );
    assert_eq!(register_commands(ServiceManager::Launchd, "/bin/c", "/p.plist"), vec![vec!["launchctl", "load", "-w", "/p.plist"]]);
    assert_eq!(
        register_commands(ServiceManager::TaskScheduler, "c.exe", ""),
        vec![vec!["schtasks", "/create", "/tn", "cmd-engine", "/tr", "c.exe", "/sc", "onlogon", "/f"]]
    );
    assert_eq!(start_command(ServiceManager::Systemd, ""), vec!["systemctl", "start", "cmd-engine.service"]);
    assert_eq!(start_command(ServiceManager::Launchd, "/p"), vec!["launchctl", "load", "-w", "/p"]);
    assert_eq!(start_command(ServiceManager::TaskScheduler, ""), vec!["schtasks", "/run", "/tn", "cmd-engine"]);
    let lines = control_lines(ServiceManager::Systemd);
    assert_eq!(lines.len(), 3);
    assert_eq!(lines[2], ("Logs:  ".to_string(), "journalctl -u cmd-engine -f".to_string(), "(tail logs)".to_string()));
    assert_eq!(control_lines(ServiceManager::Launchd)[0].2, "");
    assert_eq!(control_lines(ServiceManager::TaskScheduler)[1].1, "schtasks /run /tn cmd-engine");
}

#[test]
fn replace_matches_std() {
    for (s, p, r) in [("aaaa", "aa", "b"), ("abcabc", "bc", ""), ("x", "xy", "z"), ("ééé", "é", "e")] {
        assert_eq!(replace_text(s, p, r), s.replace(p, r));
    }
}
