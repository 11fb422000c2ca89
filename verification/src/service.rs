//! The background service that starts the daemon at boot or logon: which
//! service manager a platform has, and the unit, property list or task that
//! setup registers with it.

use vstd::prelude::*;
use vstd::string::*;
use crate::text::{
    contains, has_prefix, has_suffix, lemma_occurs_across, lemma_occurs_inside, lemma_prefix_of_concat,
    lemma_suffix_of_concat, occurs_at, replace_all, replace_text, same_text,
};

verus! {

/// The systemd unit, with places for the daemon's path and the log directory.
pub const SYSTEMD_TEMPLATE: &'static str = r#"[Unit]
Description=cmd-engine — AI Terminal Command Translator Daemon
After=network-online.target
Wants=network-online.target

[Service]
Type=simple
ExecStart=DAEMON_BIN_PLACEHOLDER
Restart=on-failure
RestartSec=5
Environment=RUST_LOG=info
StandardOutput=append:LOG_DIR_PLACEHOLDER/cmd-engine.log
StandardError=append:LOG_DIR_PLACEHOLDER/cmd-engine.log

[Install]
WantedBy=multi-user.target
"#;

/// The systemd unit for the daemon at `daemon_bin`, logging into `log_dir`:
/// the template with its two places filled in turn.
pub open spec fn systemd_unit_text(daemon_bin: Seq<char>, log_dir: Seq<char>) -> Seq<char> {
    replace_all(
        replace_all(SYSTEMD_TEMPLATE@, "DAEMON_BIN_PLACEHOLDER"@, daemon_bin),
        "LOG_DIR_PLACEHOLDER"@,
        log_dir,
    )
}

/// Writes the systemd unit for the daemon.
pub fn systemd_unit(daemon_bin: &str, log_dir: &str) -> (unit: String)
    ensures
        unit@ == systemd_unit_text(daemon_bin@, log_dir@),
{
    proof {
        reveal_strlit("DAEMON_BIN_PLACEHOLDER");
        reveal_strlit("LOG_DIR_PLACEHOLDER");
    }
    let unit = replace_text(SYSTEMD_TEMPLATE, "DAEMON_BIN_PLACEHOLDER", daemon_bin);
    replace_text(unit.as_str(), "LOG_DIR_PLACEHOLDER", log_dir)
}

/// The launchd property list for the daemon at `daemon_bin`, logging under
/// the home directory `home`.
pub open spec fn launchd_plist_text(daemon_bin: Seq<char>, home: Seq<char>) -> Seq<char> {
    r#"<?xml version="1.0" encoding="UTF-8"?>
<!DOCTYPE plist PUBLIC "-//Apple//DTD PLIST 1.0//EN" "http://www.apple.com/DTDs/PropertyList-1.0.dtd">
<plist version="1.0">
<dict>
    <key>Label</key>
    <string>com.cmdplz.cmd-engine</string>
    <key>ProgramArguments</key>
    <array>
        <string>"#@ + daemon_bin + r#"</string>
    </array>
    <key>RunAtLoad</key>
    <true/>
    <key>KeepAlive</key>
    <true/>
    <key>StandardOutPath</key>
    <string>"#@ + home + r#"/Library/Logs/cmd-engine.log</string>
    <key>StandardErrorPath</key>
    <string>"#@ + home
        + r#"/Library/Logs/cmd-engine.log</string>
</dict>
</plist>"#@
}

/// Writes the launchd property list for the daemon.
pub fn launchd_plist(daemon_bin: &str, home: &str) -> (plist: String)
    ensures
        plist@ == launchd_plist_text(daemon_bin@, home@),
{
    let mut t = String::from_str(r#"<?xml version="1.0" encoding="UTF-8"?>
<!DOCTYPE plist PUBLIC "-//Apple//DTD PLIST 1.0//EN" "http://www.apple.com/DTDs/PropertyList-1.0.dtd">
<plist version="1.0">
<dict>
    <key>Label</key>
    <string>com.cmdplz.cmd-engine</string>
    <key>ProgramArguments</key>
    <array>
        <string>"#);
    t.append(daemon_bin);
    t.append(r#"</string>
    </array>
    <key>RunAtLoad</key>
    <true/>
    <key>KeepAlive</key>
    <true/>
    <key>StandardOutPath</key>
    <string>"#);
    t.append(home);
    t.append(r#"/Library/Logs/cmd-engine.log</string>
    <key>StandardErrorPath</key>
    <string>"#);
    t.append(home);
    t.append(r#"/Library/Logs/cmd-engine.log</string>
</dict>
</plist>"#);
    t
}

/// The arguments that register the daemon with the Windows task scheduler,
/// to run at logon.
pub fn schtasks_create_args(daemon_bin: &str) -> (args: Vec<String>)
    ensures
        args@.map_values(|a: String| a@) == seq![
            "/create"@,
            "/tn"@,
            "cmd-engine"@,
            "/tr"@,
            daemon_bin@,
            "/sc"@,
            "onlogon"@,
            "/f"@,
        ],
{
    let mut args: Vec<String> = Vec::new();
    args.push(String::from_str("/create"));
    args.push(String::from_str("/tn"));
    args.push(String::from_str("cmd-engine"));
    args.push(String::from_str("/tr"));
    args.push(String::from_str(daemon_bin));
    args.push(String::from_str("/sc"));
    args.push(String::from_str("onlogon"));
    args.push(String::from_str("/f"));
    assert(args@.map_values(|a: String| a@) =~= seq![
        "/create"@,
        "/tn"@,
        "cmd-engine"@,
        "/tr"@,
        daemon_bin@,
        "/sc"@,
        "onlogon"@,
        "/f"@,
    ]);
    args
}

/// The service managers that setup can register the daemon with.
#[derive(Debug, Clone, Copy, PartialEq, Eq, Structural)]
pub enum ServiceManager {
    Systemd,
    Launchd,
    TaskScheduler,
}

/// The service manager of an operating system, as `std::env::consts::OS`
/// names it: systemd on Linux, launchd on macOS, the task scheduler on
/// Windows, none elsewhere.
pub open spec fn manager_of(os: Seq<char>) -> Option<ServiceManager> {
    if os == "linux"@ {
        Some(ServiceManager::Systemd)
    } else if os == "macos"@ {
        Some(ServiceManager::Launchd)
    } else if os == "windows"@ {
        Some(ServiceManager::TaskScheduler)
    } else {
        None
    }
}

/// Picks the service manager for an operating system.
pub fn service_manager_for(os: &str) -> (m: Option<ServiceManager>)
    ensures
        m == manager_of(os@),
{
    if same_text(os, "linux") {
        Some(ServiceManager::Systemd)
    } else if same_text(os, "macos") {
        Some(ServiceManager::Launchd)
    } else if same_text(os, "windows") {
        Some(ServiceManager::TaskScheduler)
    } else {
        None
    }
}


/// The texts of a list of strings.
pub open spec fn texts(v: Seq<String>) -> Seq<Seq<char>> {
    v.map_values(|a: String| a@)
}

/// The texts of a list of commands.
pub open spec fn command_texts(v: Seq<Vec<String>>) -> Seq<Seq<Seq<char>>> {
    v.map_values(|c: Vec<String>| texts(c@))
}

/// A command from literal words.
fn words(a: &str, b: &str, c: &str, d: &str, n: usize) -> (cmd: Vec<String>)
    requires
        1 <= n <= 4,
    ensures
        texts(cmd@) == seq![a@, b@, c@, d@].take(n as int),
{
    let mut cmd: Vec<String> = Vec::new();
    cmd.push(String::from_str(a));
    if n > 1 {
        cmd.push(String::from_str(b));
    }
    if n > 2 {
        cmd.push(String::from_str(c));
    }
    if n > 3 {
        cmd.push(String::from_str(d));
    }
    assert(texts(cmd@) =~= seq![a@, b@, c@, d@].take(n as int));
    cmd
}

/// The commands that register the daemon with a service manager: systemd
/// reloads its units and enables the daemon's; launchd loads the property
/// list at `plist_path`; the task scheduler creates a logon task for the
/// daemon at `daemon_bin`.
pub open spec fn register_command_texts(m: ServiceManager, daemon_bin: Seq<char>, plist_path: Seq<char>) -> Seq<Seq<Seq<char>>> {
    match m {
        ServiceManager::Systemd => seq![
            seq!["systemctl"@, "daemon-reload"@],
            seq!["systemctl"@, "enable"@, "cmd-engine.service"@],
        ],
        ServiceManager::Launchd => seq![seq!["launchctl"@, "load"@, "-w"@, plist_path]],
        ServiceManager::TaskScheduler => seq![
            seq!["schtasks"@, "/create"@, "/tn"@, "cmd-engine"@, "/tr"@, daemon_bin, "/sc"@, "onlogon"@, "/f"@],
        ],
    }
}

/// The commands, each a program and its arguments, that register the daemon.
pub fn register_commands(m: ServiceManager, daemon_bin: &str, plist_path: &str) -> (cmds: Vec<Vec<String>>)
    ensures
        command_texts(cmds@) == register_command_texts(m, daemon_bin@, plist_path@),
{
    let mut cmds: Vec<Vec<String>> = Vec::new();
    match m {
        ServiceManager::Systemd => {
            let reload = words("systemctl", "daemon-reload", "", "", 2);
            let enable = words("systemctl", "enable", "cmd-engine.service", "", 3);
            assert(texts(reload@) =~= seq!["systemctl"@, "daemon-reload"@]);
            assert(texts(enable@) =~= seq!["systemctl"@, "enable"@, "cmd-engine.service"@]);
            cmds.push(reload);
            cmds.push(enable);
        },
        ServiceManager::Launchd => {
            let load = words("launchctl", "load", "-w", plist_path, 4);
            assert(texts(load@) =~= seq!["launchctl"@, "load"@, "-w"@, plist_path@]);
            cmds.push(load);
        },
        ServiceManager::TaskScheduler => {
            let mut cmd: Vec<String> = Vec::new();
            cmd.push(String::from_str("schtasks"));
            let mut rest = schtasks_create_args(daemon_bin);
            let ghost r = rest@;
            cmd.append(&mut rest);
            assert(texts(cmd@) =~= seq!["schtasks"@] + r.map_values(|a: String| a@));
            assert(texts(cmd@) =~= seq![
                "schtasks"@, "/create"@, "/tn"@, "cmd-engine"@, "/tr"@, daemon_bin@, "/sc"@, "onlogon"@, "/f"@,
            ]);
            cmds.push(cmd);
        },
    }
    assert(command_texts(cmds@) =~~= register_command_texts(m, daemon_bin@, plist_path@));
    cmds
}

/// The command that starts the registered daemon now.
pub open spec fn start_command_text(m: ServiceManager, plist_path: Seq<char>) -> Seq<Seq<char>> {
    match m {
        ServiceManager::Systemd => seq!["systemctl"@, "start"@, "cmd-engine.service"@],
        ServiceManager::Launchd => seq!["launchctl"@, "load"@, "-w"@, plist_path],
        ServiceManager::TaskScheduler => seq!["schtasks"@, "/run"@, "/tn"@, "cmd-engine"@],
    }
}

/// The command, a program and its arguments, that starts the daemon now.
pub fn start_command(m: ServiceManager, plist_path: &str) -> (cmd: Vec<String>)
    ensures
        texts(cmd@) == start_command_text(m, plist_path@),
{
    let cmd = match m {
        ServiceManager::Systemd => words("systemctl", "start", "cmd-engine.service", "", 3),
        ServiceManager::Launchd => words("launchctl", "load", "-w", plist_path, 4),
        ServiceManager::TaskScheduler => words("schtasks", "/run", "/tn", "cmd-engine", 4),
    };
    assert(texts(cmd@) =~~= start_command_text(m, plist_path@));
    cmd
}

/// The lines that tell how to control the daemon by hand: a padded label,
/// a command, and a note (empty where none is shown).
pub open spec fn control_line_texts(m: ServiceManager) -> Seq<(Seq<char>, Seq<char>, Seq<char>)> {
    match m {
        ServiceManager::Systemd => seq![
            ("Stop:  "@, "systemctl stop cmd-engine"@, "(manual control)"@),
            ("Start: "@, "systemctl start cmd-engine"@, "(manual control)"@),
            ("Logs:  "@, "journalctl -u cmd-engine -f"@, "(tail logs)"@),
        ],
        ServiceManager::Launchd => seq![
            ("Stop:  "@, "launchctl unload ~/Library/LaunchAgents/com.cmdplz.cmd-engine.plist"@, ""@),
            ("Start: "@, "launchctl load ~/Library/LaunchAgents/com.cmdplz.cmd-engine.plist"@, ""@),
        ],
        ServiceManager::TaskScheduler => seq![
            ("Stop:  "@, "schtasks /end /tn cmd-engine"@, "(manual control)"@),
            ("Start: "@, "schtasks /run /tn cmd-engine"@, "(manual control)"@),
        ],
    }
}

/// The texts of label, command and note lines.
pub open spec fn line_texts(v: Seq<(String, String, String)>) -> Seq<(Seq<char>, Seq<char>, Seq<char>)> {
    v.map_values(|l: (String, String, String)| (l.0@, l.1@, l.2@))
}

/// A line from literal texts.
fn line(label: &str, command: &str, note: &str) -> (l: (String, String, String))
    ensures
        l.0@ == label@ && l.1@ == command@ && l.2@ == note@,
{
    (String::from_str(label), String::from_str(command), String::from_str(note))
}

/// The lines that tell how to stop, start and watch the daemon.
pub fn control_lines(m: ServiceManager) -> (lines: Vec<(String, String, String)>)
    ensures
        line_texts(lines@) == control_line_texts(m),
{
    let mut lines: Vec<(String, String, String)> = Vec::new();
    match m {
        ServiceManager::Systemd => {
            lines.push(line("Stop:  ", "systemctl stop cmd-engine", "(manual control)"));
            lines.push(line("Start: ", "systemctl start cmd-engine", "(manual control)"));
            lines.push(line("Logs:  ", "journalctl -u cmd-engine -f", "(tail logs)"));
        },
        ServiceManager::Launchd => {
            lines.push(line("Stop:  ", "launchctl unload ~/Library/LaunchAgents/com.cmdplz.cmd-engine.plist", ""));
            lines.push(line("Start: ", "launchctl load ~/Library/LaunchAgents/com.cmdplz.cmd-engine.plist", ""));
        },
        ServiceManager::TaskScheduler => {
            lines.push(line("Stop:  ", "schtasks /end /tn cmd-engine", "(manual control)"));
            lines.push(line("Start: ", "schtasks /run /tn cmd-engine", "(manual control)"));
        },
    }
    assert(line_texts(lines@) =~= control_line_texts(m));
    lines
}

/// The property list runs the daemon at `daemon_bin` when it is loaded and
/// keeps it alive, under the label `com.cmdplz.cmd-engine`, and sends its
/// output and errors to `Library/Logs/cmd-engine.log` under `home`.
pub proof fn plist_runs_and_keeps_daemon(daemon_bin: Seq<char>, home: Seq<char>)
    ensures
        contains(launchd_plist_text(daemon_bin, home), r#"<key>RunAtLoad</key>
    <true/>"#@),
        contains(launchd_plist_text(daemon_bin, home), r#"<key>KeepAlive</key>
    <true/>"#@),
        contains(launchd_plist_text(daemon_bin, home), r#"<key>Label</key>
    <string>com.cmdplz.cmd-engine</string>"#@),
        contains(
            launchd_plist_text(daemon_bin, home),
            r#"<key>ProgramArguments</key>
    <array>
        <string>"#@ + daemon_bin + "</string>"@,
        ),
        contains(
            launchd_plist_text(daemon_bin, home),
            r#"<key>StandardOutPath</key>
    <string>"#@ + home + "/Library/Logs/cmd-engine.log</string>"@,
        ),
        contains(
            launchd_plist_text(daemon_bin, home),
            r#"<key>StandardErrorPath</key>
    <string>"#@ + home + "/Library/Logs/cmd-engine.log</string>"@,
        ),
{
    let p0 = r#"<?xml version="1.0" encoding="UTF-8"?>
<!DOCTYPE plist PUBLIC "-//Apple//DTD PLIST 1.0//EN" "http://www.apple.com/DTDs/PropertyList-1.0.dtd">
<plist version="1.0">
<dict>
    <key>Label</key>
    <string>com.cmdplz.cmd-engine</string>
    <key>ProgramArguments</key>
    <array>
        <string>"#@;
    let p1 = r#"</string>
    </array>
    <key>RunAtLoad</key>
    <true/>
    <key>KeepAlive</key>
    <true/>
    <key>StandardOutPath</key>
    <string>"#@;
    let p2 = r#"/Library/Logs/cmd-engine.log</string>
    <key>StandardErrorPath</key>
    <string>"#@;
    let p3 = r#"/Library/Logs/cmd-engine.log</string>
</dict>
</plist>"#@;
    reveal_strlit(r#"<?xml version="1.0" encoding="UTF-8"?>
<!DOCTYPE plist PUBLIC "-//Apple//DTD PLIST 1.0//EN" "http://www.apple.com/DTDs/PropertyList-1.0.dtd">
<plist version="1.0">
<dict>
    <key>Label</key>
    <string>com.cmdplz.cmd-engine</string>
    <key>ProgramArguments</key>
    <array>
        <string>"#);
    reveal_strlit(r#"</string>
    </array>
    <key>RunAtLoad</key>
    <true/>
    <key>KeepAlive</key>
    <true/>
    <key>StandardOutPath</key>
    <string>"#);
    reveal_strlit(r#"/Library/Logs/cmd-engine.log</string>
    <key>StandardErrorPath</key>
    <string>"#);
    reveal_strlit(r#"/Library/Logs/cmd-engine.log</string>
</dict>
</plist>"#);
    reveal_strlit(r#"<key>RunAtLoad</key>
    <true/>"#);
    reveal_strlit(r#"<key>KeepAlive</key>
    <true/>"#);
    reveal_strlit(r#"<key>Label</key>
    <string>com.cmdplz.cmd-engine</string>"#);
    reveal_strlit(r#"<key>ProgramArguments</key>
    <array>
        <string>"#);
    reveal_strlit(r#"<key>StandardOutPath</key>
    <string>"#);
    reveal_strlit(r#"<key>StandardErrorPath</key>
    <string>"#);
    reveal_strlit("</string>");
    reveal_strlit("/Library/Logs/cmd-engine.log</string>");
    let text = launchd_plist_text(daemon_bin, home);
    // the fixed keys
    assert(p1.subrange(27, 59) =~= r#"<key>RunAtLoad</key>
    <true/>"#@);
    assert(occurs_at(p1, r#"<key>RunAtLoad</key>
    <true/>"#@, 27));
    assert(p1.subrange(64, 96) =~= r#"<key>KeepAlive</key>
    <true/>"#@);
    assert(occurs_at(p1, r#"<key>KeepAlive</key>
    <true/>"#@, 64));
    let rest = home + p2 + home + p3;
    assert(text =~= (p0 + daemon_bin) + p1 + rest);
    lemma_occurs_inside(p0 + daemon_bin, p1, rest, r#"<key>RunAtLoad</key>
    <true/>"#@, 27);
    lemma_occurs_inside(p0 + daemon_bin, p1, rest, r#"<key>KeepAlive</key>
    <true/>"#@, 64);
    assert(p0.subrange(175, 234) =~= r#"<key>Label</key>
    <string>com.cmdplz.cmd-engine</string>"#@);
    assert(occurs_at(p0, r#"<key>Label</key>
    <string>com.cmdplz.cmd-engine</string>"#@, 175));
    assert(text =~= Seq::<char>::empty() + p0 + (daemon_bin + p1 + rest));
    lemma_occurs_inside(Seq::<char>::empty(), p0, daemon_bin + p1 + rest, r#"<key>Label</key>
    <string>com.cmdplz.cmd-engine</string>"#@, 175);
    // the daemon's path
    assert(p0.skip(p0.len() - 56) =~= r#"<key>ProgramArguments</key>
    <array>
        <string>"#@);
    assert(p1.take(9) =~= "</string>"@);
    assert(text =~= p0 + daemon_bin + (p1 + rest));
    lemma_prefix_of_concat(p1, rest, "</string>"@);
    lemma_occurs_across(p0, r#"<key>ProgramArguments</key>
    <array>
        <string>"#@, daemon_bin, "</string>"@, p1 + rest);
    // the log paths
    let logq = "/Library/Logs/cmd-engine.log</string>"@;
    assert(p1.skip(p1.len() - 39) =~= r#"<key>StandardOutPath</key>
    <string>"#@);
    assert(p2.take(37) =~= logq);
    let front = p0 + daemon_bin + p1;
    assert(text =~= front + home + (p2 + home + p3));
    lemma_suffix_of_concat(p0 + daemon_bin, p1, r#"<key>StandardOutPath</key>
    <string>"#@);
    lemma_prefix_of_concat(p2, home + p3, logq);
    assert(p2 + home + p3 =~= p2 + (home + p3));
    lemma_occurs_across(front, r#"<key>StandardOutPath</key>
    <string>"#@, home, logq, p2 + home + p3);
    assert(p2.skip(p2.len() - 41) =~= r#"<key>StandardErrorPath</key>
    <string>"#@);
    assert(p3.take(37) =~= logq);
    let front2 = front + home + p2;
    assert(text =~= front2 + home + p3);
    lemma_suffix_of_concat(front + home, p2, r#"<key>StandardErrorPath</key>
    <string>"#@);
    lemma_occurs_across(front2, r#"<key>StandardErrorPath</key>
    <string>"#@, home, logq, p3);
}

} // verus!
