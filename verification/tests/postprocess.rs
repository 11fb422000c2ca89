use cmd_engine::postprocess::postprocess;

#[test]
fn strips_backtick_fences() {
    assert_eq!(postprocess("```\nls -la\n```"), "ls -la");
}

#[test]
fn strips_single_backticks() {
    assert_eq!(postprocess("`ls -la`"), "ls -la");
}

#[test]
fn strips_dollar_prefix() {
    assert_eq!(postprocess("$ ls -la"), "ls -la");
}

#[test]
fn trims_whitespace() {
    assert_eq!(postprocess("  ls -la  "), "ls -la");
}

#[test]
fn handles_clean_input() {
    assert_eq!(postprocess("ls -la"), "ls -la");
}

#[test]
fn keeps_language_tag_of_fenced_block() {
    assert_eq!(postprocess("```bash\nls -la\n```"), "bash\nls -la");
}

#[test]
fn fenced_block_stops_at_first_closing_fence() {
    assert_eq!(postprocess("```\nls\n```\ntrailing words"), "ls");
}

#[test]
fn unclosed_fence_keeps_rest() {
    assert_eq!(postprocess("```\n  pwd  "), "pwd");
}

#[test]
fn repeated_closing_fences_are_removed() {
    assert_eq!(postprocess("echo hi``````"), "echo hi");
}

#[test]
fn single_backtick_is_kept() {
    assert_eq!(postprocess("`"), "`");
}

#[test]
fn empty_backtick_pair_becomes_empty() {
    assert_eq!(postprocess("``"), "");
}

#[test]
fn dollar_without_space_is_kept() {
    assert_eq!(postprocess("$HOME"), "$HOME");
}

#[test]
fn lone_dollar_marker_becomes_dollar() {
    assert_eq!(postprocess("$ "), "$");
}

#[test]
fn quoted_command_with_prompt_marker() {
    assert_eq!(postprocess("`$ git status`"), "git status");
}

#[test]
fn unicode_whitespace_is_trimmed() {
    assert_eq!(postprocess("\u{a0}\u{3000}ls\u{2003}\n"), "ls");
}

#[test]
fn empty_and_blank_replies() {
    assert_eq!(postprocess(""), "");
    assert_eq!(postprocess(" \t\n "), "");
}

#[test]
fn empty_fenced_block() {
    assert_eq!(postprocess("```\n\n```"), "");
}

#[test]
fn non_ascii_command_is_kept() {
    assert_eq!(postprocess("  echo 'héllo — wörld'  "), "echo 'héllo — wörld'");
}

#[test]
fn output_is_part_of_reply_and_trimmed() {
    let replies = ["  ```sh\n x \n```  ", "`a`", "$  b ", "```", "````", " ` ` "];
    for r in replies {
        let out = postprocess(r);
        assert!(r.contains(out.as_str()));
        assert_eq!(out.trim(), out);
    }
}

#[test]
fn strips_root_prompt_marker() {
    assert_eq!(postprocess("# apt update"), "apt update");
    assert_eq!(postprocess("#apt"), "#apt");
}
