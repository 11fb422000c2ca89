//! The shell side of the daemon: which shell setup installs the hook for,
//! the startup file that holds it, the hook's text for each shell bound to
//! the chosen hotkey, and whether a startup file already has it.

use vstd::prelude::*;
use vstd::string::*;
use crate::text::{
    chars_of, contains, contains_text, occurs_at, push_char, same_text, window, window_has_prefix,
};

verus! {

/// The bash hook's function, which sends the line to the daemon and puts
/// the command it answers in its place.
pub const BASH_HOOK_BODY: &'static str = r#"# cmd-engine — AI terminal command translator
__cmd_engine_translate() {
  local input="$READLINE_LINE"
  [ -z "$input" ] && return

  printf '\n⏳ translating...\n'

  local resp=$(curl -s --max-time 20 -X POST http://127.0.0.1:11435/translate \
    -H "Content-Type: application/json" \
    -d "$(jq -n \
      --arg input "$input" \
      --arg shell "bash" \
      --arg cwd "$PWD" \
      --arg os "$(uname -s)" \
      '{input: $input, shell: $shell, cwd: $cwd, os: $os, history: []}')")

  local cmd=$(echo "$resp" | jq -r '.command // empty')
  local err=$(echo "$resp" | jq -r '.error // empty')

  if [ -n "$cmd" ]; then
    READLINE_LINE="$cmd"
    READLINE_POINT="${#cmd}"
  elif [ -n "$err" ]; then
    printf '[ERR] %s\n' "$err"
  fi
}"#;

/// The zsh hook's widget function, which does the same with the zle buffer.
pub const ZSH_HOOK_BODY: &'static str = r#"# cmd-engine — AI terminal command translator
__cmd_engine_translate() {
  local input="$BUFFER"
  [ -z "$input" ] && return

  zle -M '⏳ translating...'

  local resp=$(curl -s --max-time 20 -X POST http://127.0.0.1:11435/translate \
    -H "Content-Type: application/json" \
    -d "$(jq -n \
      --arg input "$input" \
      --arg shell "zsh" \
      --arg cwd "$PWD" \
      --arg os "$(uname -s)" \
      '{input: $input, shell: $shell, cwd: $cwd, os: $os, history: []}')")

  local cmd=$(echo "$resp" | jq -r '.command // empty')
  local err=$(echo "$resp" | jq -r '.error // empty')

  if [ -n "$cmd" ]; then
    BUFFER="$cmd"
    CURSOR=${#BUFFER}
  elif [ -n "$err" ]; then
    zle -M "[ERR] $err"
  fi
}"#;

/// The fish hook's function.
pub const FISH_HOOK_BODY: &'static str = r#"function __cmd_engine_translate
  set -l input (commandline)
  test -z "$input"; and return

  echo ""
  echo "⏳ translating..."

  set -l resp (curl -s --max-time 20 -X POST http://127.0.0.1:11435/translate \
    -H "Content-Type: application/json" \
    -d (jq -n --arg input "$input" --arg shell "fish" --arg cwd "$PWD" \
      --arg os (uname -s) '{input: $input, shell: $shell, cwd: $cwd, os: $os, history: []}'))

  set -l cmd (echo "$resp" | jq -r '.command // empty')
  set -l err (echo "$resp" | jq -r '.error // empty')

  if test -n "$cmd"
    commandline "$cmd"
  else if test -n "$err"
    echo "[ERR] $err"
  end
end"#;

/// The PowerShell key handler's script block, after its key.
pub const PWSH_HOOK_TAIL: &'static str = r#" -ScriptBlock {
  $input = $null
  [Microsoft.PowerShell.PSConsoleReadLine]::GetBufferState([ref]$input, [ref]$null)
  if (-not $input) { return }
  Write-Host "`n⏳ translating..."
  $body = @{
    input   = $input
    shell   = "pwsh"
    cwd     = (Get-Location).Path
    os      = if ($IsWindows) { "windows" } else { "linux" }
    history = @()
  } | ConvertTo-Json
  try {
    $resp = Invoke-RestMethod -Uri "http://127.0.0.1:11435/translate" `
      -Method Post -Body $body -ContentType "application/json" -TimeoutSec 20
    if ($resp.command) {
      [Microsoft.PowerShell.PSConsoleReadLine]::Replace(0, $input.Length, $resp.command)
    } elseif ($resp.error) {
      Write-Host "[ERR] $($resp.error)"
    }
  } catch {
    Write-Host "[ERR] Failed to reach daemon at http://127.0.0.1:11435"
  }
}"#;

/// The shell that setup installs the hook for: the shell whose version
/// variable is set (zsh, bash, fish, in that order), else the first of zsh,
/// bash, fish and pwsh that the login shell's path names, else bash.
pub open spec fn detected_shell(zsh_set: bool, bash_set: bool, fish_set: bool, shell_path: Seq<char>) -> Seq<char> {
    if zsh_set {
        "zsh"@
    } else if bash_set {
        "bash"@
    } else if fish_set {
        "fish"@
    } else if contains(shell_path, "zsh"@) {
        "zsh"@
    } else if contains(shell_path, "bash"@) {
        "bash"@
    } else if contains(shell_path, "fish"@) {
        "fish"@
    } else if contains(shell_path, "pwsh"@) {
        "pwsh"@
    } else {
        "bash"@
    }
}

/// Picks the shell to install the hook for, from whether `ZSH_VERSION`,
/// `BASH_VERSION` and `FISH_VERSION` are set and from `SHELL`.
pub fn detect_shell(zsh_set: bool, bash_set: bool, fish_set: bool, shell_path: &str) -> (s: &'static str)
    ensures
        s@ == detected_shell(zsh_set, bash_set, fish_set, shell_path@),
{
    proof {
        reveal_strlit("zsh");
        reveal_strlit("bash");
        reveal_strlit("fish");
        reveal_strlit("pwsh");
    }
    if zsh_set {
        "zsh"
    } else if bash_set {
        "bash"
    } else if fish_set {
        "fish"
    } else if contains_text(shell_path, "zsh") {
        "zsh"
    } else if contains_text(shell_path, "bash") {
        "bash"
    } else if contains_text(shell_path, "fish") {
        "fish"
    } else if contains_text(shell_path, "pwsh") {
        "pwsh"
    } else {
        "bash"
    }
}

/// The startup file of a shell, under the home directory `home`; on
/// Windows the PowerShell profile is named relative to the working directory.
pub open spec fn rc_path(shell: Seq<char>, home: Seq<char>, windows: bool) -> Seq<char> {
    if shell == "zsh"@ {
        home + "/.zshrc"@
    } else if shell == "fish"@ {
        home + "/.config/fish/config.fish"@
    } else if shell == "pwsh"@ {
        if windows {
            "Documents\\PowerShell\\Microsoft.PowerShell_profile.ps1"@
        } else {
            home + "/.config/powershell/Microsoft.PowerShell_profile.ps1"@
        }
    } else {
        home + "/.bashrc"@
    }
}

/// The startup file that the hook for `shell` goes into.
pub fn rc_path_for(shell: &str, home: &str, windows: bool) -> (p: String)
    ensures
        p@ == rc_path(shell@, home@, windows),
{
    if same_text(shell, "zsh") {
        String::from_str(home).concat("/.zshrc")
    } else if same_text(shell, "fish") {
        String::from_str(home).concat("/.config/fish/config.fish")
    } else if same_text(shell, "pwsh") {
        if windows {
            String::from_str("Documents\\PowerShell\\Microsoft.PowerShell_profile.ps1")
        } else {
            String::from_str(home).concat("/.config/powershell/Microsoft.PowerShell_profile.ps1")
        }
    } else {
        String::from_str(home).concat("/.bashrc")
    }
}

/// The keys a hotkey may name after `Ctrl+`: an ASCII letter or `/`.
pub open spec fn bindable_key(c: char) -> bool {
    ('a' <= c && c <= 'z') || ('A' <= c && c <= 'Z') || c == '/'
}

/// The key of a hotkey written `Ctrl+` and one bindable key.
pub open spec fn hotkey_key(hotkey: Seq<char>) -> Option<char> {
    if hotkey.len() == 6 && hotkey.take(5) == "Ctrl+"@ && bindable_key(hotkey[5]) {
        Some(hotkey[5])
    } else {
        None
    }
}

/// The key that the hooks bind with Ctrl: the hotkey's key, or `T` (the
/// default hotkey, Ctrl+T) for a hotkey that cannot be bound.
pub open spec fn bound_key(hotkey: Seq<char>) -> char {
    match hotkey_key(hotkey) {
        Some(c) => c,
        None => 'T',
    }
}

/// The character that, with Ctrl, gives the same control code as Ctrl and
/// the key, in lower case: Ctrl+/ sends the code of Ctrl+_.
pub open spec fn control_lower(c: char) -> char {
    if c == '/' {
        '_'
    } else if 'A' <= c && c <= 'Z' {
        ((c as u32) + 32) as char
    } else {
        c
    }
}

/// The same, in upper case.
pub open spec fn control_upper(c: char) -> char {
    if c == '/' {
        '_'
    } else if 'a' <= c && c <= 'z' {
        ((c as u32) - 32) as char
    } else {
        c
    }
}

/// The Ctrl chord of a hotkey as Readline writes it (`\C-t`).
pub open spec fn readline_chord(hotkey: Seq<char>) -> Seq<char> {
    seq!['\\', 'C', '-', control_lower(bound_key(hotkey))]
}

/// The Ctrl chord of a hotkey as zsh's `bindkey` writes it (`^T`).
pub open spec fn zsh_chord(hotkey: Seq<char>) -> Seq<char> {
    seq!['^', control_upper(bound_key(hotkey))]
}

/// The Ctrl chord of a hotkey as fish's `bind` writes it (`\ct`).
pub open spec fn fish_chord(hotkey: Seq<char>) -> Seq<char> {
    seq!['\\', 'c', control_lower(bound_key(hotkey))]
}

/// The Ctrl chord of a hotkey as PSReadLine writes it (`Ctrl+T`).
pub open spec fn pwsh_chord(hotkey: Seq<char>) -> Seq<char> {
    if hotkey_key(hotkey) is Some {
        hotkey
    } else {
        "Ctrl+T"@
    }
}

/// The line that binds the hook to the hotkey in a shell.
pub open spec fn binding_line(shell: Seq<char>, hotkey: Seq<char>) -> Seq<char> {
    if shell == "bash"@ {
        "bind -x '\""@ + readline_chord(hotkey) + "\": __cmd_engine_translate'"@
    } else if shell == "zsh"@ {
        "bindkey '"@ + zsh_chord(hotkey) + "' __cmd_engine_translate"@
    } else if shell == "fish"@ {
        "bind "@ + fish_chord(hotkey) + " __cmd_engine_translate"@
    } else if shell == "pwsh"@ {
        "Set-PSReadLineKeyHandler -Key "@ + pwsh_chord(hotkey)
    } else {
        Seq::empty()
    }
}

/// The line that names the PowerShell hook, so that installation can tell
/// it is there.
pub open spec fn pwsh_marker_line() -> Seq<char> {
    "# __cmd_engine_translate: cmd-engine — AI terminal command translator\n"@
}

/// The hook text for a shell, bound to `hotkey`: the shell's function
/// followed by its key binding (bash: Readline `bind -x`; zsh: a `zle`
/// widget and `bindkey`; fish: `bind`; PowerShell: a PSReadLine key handler).
/// Empty for a shell without one.
pub open spec fn hook_text(shell: Seq<char>, hotkey: Seq<char>) -> Seq<char> {
    if shell == "bash"@ {
        BASH_HOOK_BODY@ + "\n"@ + binding_line(shell, hotkey)
    } else if shell == "zsh"@ {
        ZSH_HOOK_BODY@ + "\nzle -N __cmd_engine_translate\n"@ + binding_line(shell, hotkey)
    } else if shell == "fish"@ {
        FISH_HOOK_BODY@ + "\n"@ + binding_line(shell, hotkey)
    } else if shell == "pwsh"@ {
        pwsh_marker_line() + binding_line(shell, hotkey) + PWSH_HOOK_TAIL@
    } else {
        Seq::empty()
    }
}

/// Whether setup can bind a hotkey: `Ctrl+` and an ASCII letter or `/`.
pub fn hotkey_is_bindable(hotkey: &str) -> (b: bool)
    ensures
        b == hotkey_key(hotkey@) is Some,
{
    let v = chars_of(hotkey);
    let prefix: Vec<char> = vec!['C', 't', 'r', 'l', '+'];
    proof {
        reveal_strlit("Ctrl+");
    }
    assert(prefix@ =~= "Ctrl+"@);
    assert(window(v@, 0, v.len() as int) =~= v@);
    if v.len() != 6 || !window_has_prefix(&v, 0, v.len(), &prefix) {
        return false;
    }
    let c = v[5];
    ('a' <= c && c <= 'z') || ('A' <= c && c <= 'Z') || c == '/'
}

/// The key that the hooks bind with Ctrl for a hotkey.
fn hotkey_bound_key(hotkey: &str) -> (c: char)
    ensures
        c == bound_key(hotkey@),
{
    if hotkey_is_bindable(hotkey) {
        let v = chars_of(hotkey);
        v[5]
    } else {
        'T'
    }
}

/// `control_lower` of a key.
fn lower_control(c: char) -> (r: char)
    ensures
        r == control_lower(c),
{
    if c == '/' {
        '_'
    } else if 'A' <= c && c <= 'Z' {
        ((c as u8) + 32) as char
    } else {
        c
    }
}

/// `control_upper` of a key.
fn upper_control(c: char) -> (r: char)
    ensures
        r == control_upper(c),
{
    if c == '/' {
        '_'
    } else if 'a' <= c && c <= 'z' {
        ((c as u8) - 32) as char
    } else {
        c
    }
}

/// Writes the line that binds the hook to the hotkey in a shell.
pub fn binding_for(shell: &str, hotkey: &str) -> (line: String)
    ensures
        line@ == binding_line(shell@, hotkey@),
{
    let key = hotkey_bound_key(hotkey);
    if same_text(shell, "bash") {
        let mut line = String::from_str("bind -x '\"\\C-");
        push_char(&mut line, lower_control(key));
        proof {
            reveal_strlit("bind -x '\"");
            reveal_strlit("bind -x '\"\\C-");
        }
        line.concat("\": __cmd_engine_translate'")
    } else if same_text(shell, "zsh") {
        let mut line = String::from_str("bindkey '^");
        push_char(&mut line, upper_control(key));
        proof {
            reveal_strlit("bindkey '");
            reveal_strlit("bindkey '^");
        }
        line.concat("' __cmd_engine_translate")
    } else if same_text(shell, "fish") {
        let mut line = String::from_str("bind \\c");
        push_char(&mut line, lower_control(key));
        proof {
            reveal_strlit("bind ");
            reveal_strlit("bind \\c");
        }
        line.concat(" __cmd_engine_translate")
    } else if same_text(shell, "pwsh") {
        let line = String::from_str("Set-PSReadLineKeyHandler -Key ");
        if hotkey_is_bindable(hotkey) {
            line.concat(hotkey)
        } else {
            line.concat("Ctrl+T")
        }
    } else {
        proof {
            reveal_strlit("");
        }
        String::from_str("")
    }
}

/// The hook to install for a shell, bound to `hotkey`.
pub fn hook_snippet(shell: &str, hotkey: &str) -> (h: String)
    ensures
        h@ == hook_text(shell@, hotkey@),
{
    let binding = binding_for(shell, hotkey);
    if same_text(shell, "bash") {
        String::from_str(BASH_HOOK_BODY).concat("\n").concat(binding.as_str())
    } else if same_text(shell, "zsh") {
        String::from_str(ZSH_HOOK_BODY).concat("\nzle -N __cmd_engine_translate\n").concat(binding.as_str())
    } else if same_text(shell, "fish") {
        String::from_str(FISH_HOOK_BODY).concat("\n").concat(binding.as_str())
    } else if same_text(shell, "pwsh") {
        String::from_str("# __cmd_engine_translate: cmd-engine — AI terminal command translator\n")
            .concat(binding.as_str()).concat(PWSH_HOOK_TAIL)
    } else {
        binding
    }
}

/// The name that marks a startup file as already holding the hook.
pub open spec fn hook_marker() -> Seq<char> {
    "__cmd_engine_translate"@
}

/// What installing `hook` adds to a startup file with the text `existing`
/// (`None` where the file could not be read): nothing where the file
/// already names the hook, else the hook on lines of its own.
pub open spec fn hook_addition_text(existing: Option<Seq<char>>, hook: Seq<char>) -> Option<Seq<char>> {
    match existing {
        Some(t) => if contains(t, hook_marker()) {
            None
        } else {
            Some("\n"@ + hook + "\n"@)
        },
        None => Some("\n"@ + hook + "\n"@),
    }
}

/// Decides what installing `hook` appends to a startup file, given the
/// file's text where it could be read.
pub fn hook_addition(existing: Option<&str>, hook: &str) -> (a: Option<String>)
    ensures
        match a {
            Some(t) => hook_addition_text(
                match existing {
                    Some(e) => Some(e@),
                    None => None,
                },
                hook@,
            ) == Some(t@),
            None => hook_addition_text(
                match existing {
                    Some(e) => Some(e@),
                    None => None,
                },
                hook@,
            ) is None,
        },
{
    proof {
        reveal_strlit("__cmd_engine_translate");
    }
    let installed = match existing {
        Some(e) => contains_text(e, "__cmd_engine_translate"),
        None => false,
    };
    if installed {
        None
    } else {
        Some(String::from_str("\n").concat(hook).concat("\n"))
    }
}



/// An occurrence stays an occurrence when text is put before or after it.
proof fn lemma_occurs_in_concat(x: Seq<char>, y: Seq<char>, p: Seq<char>, k: int)
    requires
        occurs_at(y, p, k),
    ensures
        occurs_at(x + y, p, x.len() + k),
        occurs_at(y + x, p, k),
{
    assert((x + y).subrange(x.len() + k, x.len() + k + p.len()) =~= y.subrange(k, k + p.len()));
    assert((y + x).subrange(k, k + p.len()) =~= y.subrange(k, k + p.len()));
}

/// Where a text occurs at its own start.
proof fn lemma_occurs_itself(p: Seq<char>)
    ensures
        occurs_at(p, p, 0),
{
    assert(p.subrange(0, p.len() as int) =~= p);
}

/// The binding line of each hooked shell names the hook's function, and
/// the hook text holds it.
proof fn lemma_binding_named(shell: Seq<char>, hotkey: Seq<char>)
    requires
        shell == "bash"@ || shell == "zsh"@ || shell == "fish"@ || shell == "pwsh"@,
    ensures
        contains(hook_text(shell, hotkey), binding_line(shell, hotkey)),
        contains(hook_text(shell, hotkey), hook_marker()),
{
    reveal_strlit("bash");
    reveal_strlit("zsh");
    reveal_strlit("fish");
    reveal_strlit("pwsh");
    assert("bash"@[0] != "fish"@[0] && "bash"@[0] != "pwsh"@[0] && "fish"@[0] != "pwsh"@[0]);
    assert("zsh"@.len() != "bash"@.len());
    reveal_strlit("__cmd_engine_translate");
    let m = hook_marker();
    let line = binding_line(shell, hotkey);
    let h = hook_text(shell, hotkey);
    lemma_occurs_itself(line);
    lemma_occurs_itself(m);
    if shell == "bash"@ {
        reveal_strlit("\": __cmd_engine_translate'");
        let tail = "\": __cmd_engine_translate'"@;
        assert(tail.subrange(3, 25) =~= m);
        let head = "bind -x '\""@ + readline_chord(hotkey);
        assert(line == head + tail);
        lemma_occurs_in_concat(head, tail, m, 3);
        lemma_occurs_in_concat(BASH_HOOK_BODY@ + "\n"@, line, line, 0);
        lemma_occurs_in_concat(BASH_HOOK_BODY@ + "\n"@, line, m, head.len() + 3int);
        assert(h == (BASH_HOOK_BODY@ + "\n"@) + line);
    } else if shell == "zsh"@ {
        reveal_strlit("' __cmd_engine_translate");
        let tail = "' __cmd_engine_translate"@;
        assert(tail.subrange(2, 24) =~= m);
        let head = "bindkey '"@ + zsh_chord(hotkey);
        assert(line == head + tail);
        lemma_occurs_in_concat(head, tail, m, 2);
        let front = ZSH_HOOK_BODY@ + "\nzle -N __cmd_engine_translate\n"@;
        lemma_occurs_in_concat(front, line, line, 0);
        lemma_occurs_in_concat(front, line, m, head.len() + 2int);
        assert(h == front + line);
    } else if shell == "fish"@ {
        reveal_strlit(" __cmd_engine_translate");
        let tail = " __cmd_engine_translate"@;
        assert(tail.subrange(1, 23) =~= m);
        let head = "bind "@ + fish_chord(hotkey);
        assert(line == head + tail);
        lemma_occurs_in_concat(head, tail, m, 1);
        lemma_occurs_in_concat(FISH_HOOK_BODY@ + "\n"@, line, line, 0);
        lemma_occurs_in_concat(FISH_HOOK_BODY@ + "\n"@, line, m, head.len() + 1int);
        assert(h == (FISH_HOOK_BODY@ + "\n"@) + line);
    } else {
        reveal_strlit("# __cmd_engine_translate: cmd-engine — AI terminal command translator\n");
        let first = pwsh_marker_line();
        assert(first.subrange(2, 24) =~= m);
        assert(occurs_at(first, m, 2));
        lemma_occurs_in_concat(line + PWSH_HOOK_TAIL@, first, m, 2);
        lemma_occurs_in_concat(first, line, line, 0);
        lemma_occurs_in_concat(PWSH_HOOK_TAIL@, first + line, line, first.len() as int);
        assert(h == first + (line + PWSH_HOOK_TAIL@));
        assert(h == (first + line) + PWSH_HOOK_TAIL@);
    }
}

/// The bash hook holds a Readline `bind -x`.
proof fn lemma_bash_binds(hotkey: Seq<char>)
    ensures
        contains(hook_text("bash"@, hotkey), "bind -x"@),
{
    reveal_strlit("bind -x");
    reveal_strlit("bind -x '\"");
    let start = "bind -x '\""@;
    let rest = readline_chord(hotkey) + "\": __cmd_engine_translate'"@;
    let line = start + rest;
    assert(binding_line("bash"@, hotkey) =~= line);
    assert(start.subrange(0, 7) =~= "bind -x"@);
    assert(occurs_at(start, "bind -x"@, 0));
    lemma_occurs_in_concat(rest, start, "bind -x"@, 0);
    let front = BASH_HOOK_BODY@ + "\n"@;
    lemma_occurs_in_concat(front, line, "bind -x"@, 0);
    assert(hook_text("bash"@, hotkey) == front + line);
}

/// The zsh hook holds a `zle -N` widget and a `bindkey`.
proof fn lemma_zsh_binds(hotkey: Seq<char>)
    ensures
        contains(hook_text("zsh"@, hotkey), "zle -N"@),
        contains(hook_text("zsh"@, hotkey), "bindkey"@),
{
    reveal_strlit("bash");
    reveal_strlit("zsh");
    assert("zsh"@ != "bash"@) by {
        assert("zsh"@.len() != "bash"@.len());
    }
    reveal_strlit("bindkey");
    reveal_strlit("bindkey '");
    let start = "bindkey '"@;
    let rest = zsh_chord(hotkey) + "' __cmd_engine_translate"@;
    let line = start + rest;
    assert(binding_line("zsh"@, hotkey) =~= line);
    assert(start.subrange(0, 7) =~= "bindkey"@);
    assert(occurs_at(start, "bindkey"@, 0));
    lemma_occurs_in_concat(rest, start, "bindkey"@, 0);
    reveal_strlit("zle -N");
    reveal_strlit("\nzle -N __cmd_engine_translate\n");
    let piece = "\nzle -N __cmd_engine_translate\n"@;
    assert(piece.subrange(1, 7) =~= "zle -N"@);
    assert(occurs_at(piece, "zle -N"@, 1));
    lemma_occurs_in_concat(ZSH_HOOK_BODY@, piece, "zle -N"@, 1);
    let front = ZSH_HOOK_BODY@ + piece;
    lemma_occurs_in_concat(line, front, "zle -N"@, ZSH_HOOK_BODY@.len() + 1int);
    lemma_occurs_in_concat(front, line, "bindkey"@, 0);
    assert(hook_text("zsh"@, hotkey) == front + line);
}

/// The hook of each shell carries its key binding, which binds the
/// hotkey's own key when setup can bind the hotkey: a Readline `bind -x`
/// for bash, a `zle -N` widget bound with `bindkey` for zsh.
pub proof fn hook_is_bound_to_hotkey(shell: Seq<char>, hotkey: Seq<char>)
    requires
        shell == "bash"@ || shell == "zsh"@ || shell == "fish"@ || shell == "pwsh"@,
    ensures
        contains(hook_text(shell, hotkey), binding_line(shell, hotkey)),
        hotkey_key(hotkey) matches Some(c) ==> bound_key(hotkey) == c,
        shell == "bash"@ ==> contains(hook_text(shell, hotkey), "bind -x"@),
        shell == "zsh"@ ==> contains(hook_text(shell, hotkey), "zle -N"@)
            && contains(hook_text(shell, hotkey), "bindkey"@),
{
    lemma_binding_named(shell, hotkey);
    lemma_bash_binds(hotkey);
    lemma_zsh_binds(hotkey);
}

/// Installing a hook a second time adds nothing: once the hook is
/// appended, the file names the marker.
pub proof fn hook_is_installed_once(existing: Option<Seq<char>>, shell: Seq<char>, hotkey: Seq<char>)
    requires
        shell == "bash"@ || shell == "zsh"@ || shell == "fish"@ || shell == "pwsh"@,
    ensures
        match hook_addition_text(existing, hook_text(shell, hotkey)) {
            Some(added) => hook_addition_text(
                Some(
                    match existing {
                        Some(t) => t,
                        None => Seq::empty(),
                    } + added,
                ),
                hook_text(shell, hotkey),
            ) is None,
            None => true,
        },
{
    let h = hook_text(shell, hotkey);
    lemma_binding_named(shell, hotkey);
    let k = choose|k: int| occurs_at(h, hook_marker(), k);
    let before = match existing {
        Some(t) => t,
        None => Seq::<char>::empty(),
    };
    let after = before + ("\n"@ + h + "\n"@);
    reveal_strlit("\n");
    let at = before.len() + 1 + k;
    assert(after.subrange(at, at + hook_marker().len()) =~= h.subrange(k, k + hook_marker().len()));
    assert(occurs_at(after, hook_marker(), at));
}

} // verus!
