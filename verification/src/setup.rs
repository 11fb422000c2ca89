//! The decisions of the interactive setup: what each choice selects, how a
//! typed number and an API key are read and shown, the configuration file
//! it writes, and how a trial translation is judged.

use vstd::prelude::*;
use vstd::string::*;
use vstd::utf8::{decode_utf8, encode_utf8_decode_utf8, is_char_boundary};
use crate::json::{json_member, json_parsed, json_string_text, member, parse_json, string_text};
use crate::numbers::{decimal, decimal_text, parse_u64, parsed_u64};
use crate::text::{
    contains, has_prefix, has_suffix, lemma_occurs_across, lemma_occurs_inside, lemma_prefix_of_concat,
    lemma_suffix_of_concat, occurs_at, same_text, trim, trimmed,
};

verus! {

/// The provider type that the first setup step selects: the first entry is
/// `openai`, any other `anthropic`.
pub fn provider_type_for_choice(index: usize) -> (t: String)
    ensures
        t@ == if index == 0 { "openai"@ } else { "anthropic"@ },
{
    if index == 0 {
        String::from_str("openai")
    } else {
        String::from_str("anthropic")
    }
}

/// The official URL of a provider type.
pub open spec fn official_url(provider_type: Seq<char>) -> Seq<char> {
    if provider_type == "openai"@ {
        "https://api.openai.com/v1"@
    } else {
        "https://api.anthropic.com"@
    }
}

/// The official URL offered for a provider type.
pub fn official_provider_url(provider_type: &str) -> (u: &'static str)
    ensures
        u@ == official_url(provider_type@),
{
    if same_text(provider_type, "openai") {
        "https://api.openai.com/v1"
    } else {
        "https://api.anthropic.com"
    }
}

/// The entries of the URL step: the official URL, then a custom one.
pub fn provider_url_items(provider_type: &str) -> (items: Vec<String>)
    ensures
        items@.len() == 2,
        items@[0]@ == official_url(provider_type@),
        items@[1]@ == "Custom URL"@,
{
    let mut items: Vec<String> = Vec::new();
    items.push(String::from_str(official_provider_url(provider_type)));
    items.push(String::from_str("Custom URL"));
    items
}

/// Whether the entry chosen in the URL step asks for a custom URL.
pub fn is_custom_url_choice(index: usize) -> (b: bool)
    ensures
        b == (index == 1),
{
    index == 1
}

/// Whether the key step lets the key stay empty: only for OpenAI-compatible
/// providers, which may be local and need none.
pub fn api_key_may_be_empty(provider_type: &str) -> (b: bool)
    ensures
        b == (provider_type@ == "openai"@),
{
    same_text(provider_type, "openai")
}

/// The entries of the hotkey step.
pub open spec fn hotkey_entries() -> Seq<Seq<char>> {
    seq!["Ctrl+T"@, "Ctrl+G"@, "Ctrl+/"@, "Custom"@]
}

/// The entries of the hotkey step, the last one asking for a custom hotkey.
pub fn hotkey_items() -> (items: Vec<String>)
    ensures
        items@.len() == 4,
        forall|i: int| 0 <= i < 4 ==> #[trigger] items@[i]@ == hotkey_entries()[i],
{
    let mut items: Vec<String> = Vec::new();
    items.push(String::from_str("Ctrl+T"));
    items.push(String::from_str("Ctrl+G"));
    items.push(String::from_str("Ctrl+/"));
    items.push(String::from_str("Custom"));
    items
}

/// The hotkey that an entry of the hotkey step selects, or `None` for the
/// last entry, which asks for one.
pub fn hotkey_for_choice(index: usize) -> (k: Option<String>)
    requires
        index < 4,
    ensures
        match k {
            Some(s) => index < 3 && s@ == hotkey_entries()[index as int],
            None => index == 3,
        },
{
    let items = hotkey_items();
    if index == 3 {
        None
    } else {
        Some(items[index].clone())
    }
}

/// The number that a setup step reads: what was typed, where it reads as a
/// number, else the step's default (also where nothing could be read).
pub fn number_or_default(input: Option<&str>, default: u64) -> (n: u64)
    ensures
        n == match input {
            Some(s) => match parsed_u64(s@) {
                Some(v) => v,
                None => default,
            },
            None => default,
        },
{
    match input {
        Some(s) => match parse_u64(s) {
            Some(v) => v,
            None => default,
        },
        None => default,
    }
}

/// The history setting kept from a number: its low eight bits, as a cast
/// to `u8` keeps them.
pub fn history_lines_setting(n: u64) -> (lines: u8)
    ensures
        lines == n % 256,
{
    (n % 256) as u8
}

/// How an API key is shown: `(none)` for no key, four dots for a key of
/// up to eight bytes, else its first four and last four bytes around four
/// dots.
pub open spec fn masked_key(key: &str) -> Seq<char> {
    let b = key.spec_bytes();
    if key@.len() == 0 {
        "(none)"@
    } else if b.len() <= 8 {
        "••••"@
    } else {
        decode_utf8(b.take(4)) + "••••"@ + decode_utf8(b.skip(b.len() - 4))
    }
}

/// Shows an API key without revealing it. Where the key is longer than
/// eight bytes, its fourth and fourth-last bytes must end and begin
/// characters.
pub fn mask_key(key: &str) -> (m: String)
    requires
        key.spec_bytes().len() > 8 ==> is_char_boundary(key.spec_bytes(), 4)
            && is_char_boundary(key.spec_bytes(), key.spec_bytes().len() - 4),
    ensures
        m@ == masked_key(key),
{
    if key.is_empty() {
        return String::from_str("(none)");
    }
    let len = key.as_bytes().len();
    if len <= 8 {
        return String::from_str("••••");
    }
    let (head, _) = key.split_at(4);
    let (_, tail) = key.split_at(len - 4);
    proof {
        encode_utf8_decode_utf8(head@);
        encode_utf8_decode_utf8(tail@);
        assert(key.spec_bytes().subrange(0, 4) =~= key.spec_bytes().take(4));
        assert(key.spec_bytes().subrange(len - 4, len as int) =~= key.spec_bytes().skip(len - 4));
    }
    String::from_str(head).concat("••••").concat(tail)
}

/// The configuration file that setup writes. Texts go in as they are,
/// between quotes.
pub open spec fn config_file(
    provider_type: Seq<char>,
    provider_url: Seq<char>,
    api_key: Seq<char>,
    model: Seq<char>,
    daemon_port: u16,
    hotkey: Seq<char>,
    session_history_lines: u8,
    timeout_ms: u64,
) -> Seq<char> {
    "{\n  \"provider_type\": \""@ + provider_type + "\",\n  \"provider_url\": \""@ + provider_url
        + "\",\n  \"api_key\": \""@ + api_key + "\",\n  \"model\": \""@ + model
        + "\",\n  \"daemon_port\": "@ + decimal_text(daemon_port as nat) + ",\n  \"hotkey\": \""@
        + hotkey + "\",\n  \"session_history_lines\": "@ + decimal_text(
        session_history_lines as nat,
    ) + ",\n  \"include_env_vars\": true,\n  \"timeout_ms\": "@ + decimal_text(timeout_ms as nat)
        + "\n}"@
}

/// Writes the configuration file's text.
pub fn config_json(
    provider_type: &str,
    provider_url: &str,
    api_key: &str,
    model: &str,
    daemon_port: u16,
    hotkey: &str,
    session_history_lines: u8,
    timeout_ms: u64,
) -> (text: String)
    ensures
        text@ == config_file(
            provider_type@,
            provider_url@,
            api_key@,
            model@,
            daemon_port,
            hotkey@,
            session_history_lines,
            timeout_ms,
        ),
{
    let mut t = String::from_str("{\n  \"provider_type\": \"");
    t.append(provider_type);
    t.append("\",\n  \"provider_url\": \"");
    t.append(provider_url);
    t.append("\",\n  \"api_key\": \"");
    t.append(api_key);
    t.append("\",\n  \"model\": \"");
    t.append(model);
    t.append("\",\n  \"daemon_port\": ");
    t.append(decimal(daemon_port as u64).as_str());
    t.append(",\n  \"hotkey\": \"");
    t.append(hotkey);
    t.append("\",\n  \"session_history_lines\": ");
    t.append(decimal(session_history_lines as u64).as_str());
    t.append(",\n  \"include_env_vars\": true,\n  \"timeout_ms\": ");
    t.append(decimal(timeout_ms).as_str());
    t.append("\n}");
    t
}

/// The configuration that a trial translation runs with: the chosen
/// provider, with the standard port, hotkey and history length.
pub fn trial_config_json(
    provider_type: &str,
    provider_url: &str,
    api_key: &str,
    model: &str,
    timeout_ms: u64,
) -> (text: String)
    ensures
        text@ == config_file(
            provider_type@,
            provider_url@,
            api_key@,
            model@,
            11435,
            "Ctrl+T"@,
            10,
            timeout_ms,
        ),
{
    config_json(provider_type, provider_url, api_key, model, 11435, "Ctrl+T", 10, timeout_ms)
}

/// How a trial translation went.
#[derive(Debug, Clone)]
pub enum ConnectionOutcome {
    /// The daemon answered with a command.
    Working(String),
    /// The daemon answered with an error.
    Failed(String),
    /// The daemon gave no answer that reads as one.
    NoResponse,
}

/// The string at `key` in the answer `output` (trimmed), where the answer
/// is JSON and that member is a string.
pub open spec fn answer_field(output: Seq<char>, key: Seq<char>) -> Option<Seq<char>> {
    match json_parsed(trim(output)) {
        Some(v) => json_string_text(json_member(v, key)),
        None => None,
    }
}

/// Judges a trial run by the daemon's answer: a command where the
/// answer has a string `command`, else an error where it has a string
/// `error`, else no answer.
pub fn connection_outcome(output: &str) -> (r: ConnectionOutcome)
    ensures
        match r {
            ConnectionOutcome::Working(c) => answer_field(output@, "command"@) == Some(c@),
            ConnectionOutcome::Failed(e) => {
                &&& answer_field(output@, "command"@) is None
                &&& answer_field(output@, "error"@) == Some(e@)
            },
            ConnectionOutcome::NoResponse => {
                &&& answer_field(output@, "command"@) is None
                &&& answer_field(output@, "error"@) is None
            },
        },
{
    let text = trimmed(output);
    match parse_json(text.as_str()) {
        Some(v) => {
            match string_text(member(&v, "command")) {
                Some(c) => ConnectionOutcome::Working(String::from_str(c)),
                None => match string_text(member(&v, "error")) {
                    Some(e) => ConnectionOutcome::Failed(String::from_str(e)),
                    None => ConnectionOutcome::NoResponse,
                },
            }
        },
        None => ConnectionOutcome::NoResponse,
    }
}

/// A text put between the part of a text that ends with `k` and the part
/// that begins with `q` occurs with them.
proof fn lemma_field_occurs(
    front: Seq<char>,
    before: Seq<char>,
    v: Seq<char>,
    after: Seq<char>,
    rest: Seq<char>,
    k: Seq<char>,
    q: Seq<char>,
)
    requires
        has_suffix(before, k),
        has_prefix(after, q),
    ensures
        contains(front + before + v + after + rest, k + v + q),
{
    lemma_suffix_of_concat(front, before, k);
    lemma_prefix_of_concat(after, rest, q);
    lemma_occurs_across(front + before, k, v, q, after + rest);
    assert(front + before + v + after + rest =~= (front + before) + v + (after + rest));
}

/// The provider_type setting is in the configuration file with its value.
proof fn lemma_config_provider_type(
    provider_type: Seq<char>,
    provider_url: Seq<char>,
    api_key: Seq<char>,
    model: Seq<char>,
    daemon_port: u16,
    hotkey: Seq<char>,
    session_history_lines: u8,
    timeout_ms: u64,
)
    ensures
        contains(config_file(provider_type, provider_url, api_key, model, daemon_port, hotkey, session_history_lines, timeout_ms), "\"provider_type\": \""@ + provider_type + "\","@),
{
    reveal_strlit("{\n  \"provider_type\": \"");
    reveal_strlit("\",\n  \"provider_url\": \"");
    reveal_strlit("\"provider_type\": \"");
    reveal_strlit("\",");
    let q0 = "{\n  \"provider_type\": \""@;
    let q1 = "\",\n  \"provider_url\": \""@;
    let q2 = "\",\n  \"api_key\": \""@;
    let q3 = "\",\n  \"model\": \""@;
    let q4 = "\",\n  \"daemon_port\": "@;
    let q5 = ",\n  \"hotkey\": \""@;
    let q6 = "\",\n  \"session_history_lines\": "@;
    let q7 = ",\n  \"include_env_vars\": true,\n  \"timeout_ms\": "@;
    let q8 = "\n}"@;
    let v0 = provider_type;
    let v1 = provider_url;
    let v2 = api_key;
    let v3 = model;
    let v4 = decimal_text(daemon_port as nat);
    let v5 = hotkey;
    let v6 = decimal_text(session_history_lines as nat);
    let v7 = decimal_text(timeout_ms as nat);
    let front = Seq::<char>::empty();
    let rest = v1 + q2 + v2 + q3 + v3 + q4 + v4 + q5 + v5 + q6 + v6 + q7 + v7 + q8;
    assert(config_file(provider_type, provider_url, api_key, model, daemon_port, hotkey, session_history_lines, timeout_ms) =~= front + q0 + v0 + q1 + rest);
    assert(q0.skip(q0.len() - 18) =~= "\"provider_type\": \""@);
    assert(q1.take(2) =~= "\","@);
    lemma_field_occurs(front, q0, v0, q1, rest, "\"provider_type\": \""@, "\","@);
}

/// The provider_url setting is in the configuration file with its value.
proof fn lemma_config_provider_url(
    provider_type: Seq<char>,
    provider_url: Seq<char>,
    api_key: Seq<char>,
    model: Seq<char>,
    daemon_port: u16,
    hotkey: Seq<char>,
    session_history_lines: u8,
    timeout_ms: u64,
)
    ensures
        contains(config_file(provider_type, provider_url, api_key, model, daemon_port, hotkey, session_history_lines, timeout_ms), "\"provider_url\": \""@ + provider_url + "\","@),
{
    reveal_strlit("\",\n  \"provider_url\": \"");
    reveal_strlit("\",\n  \"api_key\": \"");
    reveal_strlit("\"provider_url\": \"");
    reveal_strlit("\",");
    let q0 = "{\n  \"provider_type\": \""@;
    let q1 = "\",\n  \"provider_url\": \""@;
    let q2 = "\",\n  \"api_key\": \""@;
    let q3 = "\",\n  \"model\": \""@;
    let q4 = "\",\n  \"daemon_port\": "@;
    let q5 = ",\n  \"hotkey\": \""@;
    let q6 = "\",\n  \"session_history_lines\": "@;
    let q7 = ",\n  \"include_env_vars\": true,\n  \"timeout_ms\": "@;
    let q8 = "\n}"@;
    let v0 = provider_type;
    let v1 = provider_url;
    let v2 = api_key;
    let v3 = model;
    let v4 = decimal_text(daemon_port as nat);
    let v5 = hotkey;
    let v6 = decimal_text(session_history_lines as nat);
    let v7 = decimal_text(timeout_ms as nat);
    let front = q0 + v0;
    let rest = v2 + q3 + v3 + q4 + v4 + q5 + v5 + q6 + v6 + q7 + v7 + q8;
    assert(config_file(provider_type, provider_url, api_key, model, daemon_port, hotkey, session_history_lines, timeout_ms) =~= front + q1 + v1 + q2 + rest);
    assert(q1.skip(q1.len() - 17) =~= "\"provider_url\": \""@);
    assert(q2.take(2) =~= "\","@);
    lemma_field_occurs(front, q1, v1, q2, rest, "\"provider_url\": \""@, "\","@);
}

/// The api_key setting is in the configuration file with its value.
proof fn lemma_config_api_key(
    provider_type: Seq<char>,
    provider_url: Seq<char>,
    api_key: Seq<char>,
    model: Seq<char>,
    daemon_port: u16,
    hotkey: Seq<char>,
    session_history_lines: u8,
    timeout_ms: u64,
)
    ensures
        contains(config_file(provider_type, provider_url, api_key, model, daemon_port, hotkey, session_history_lines, timeout_ms), "\"api_key\": \""@ + api_key + "\","@),
{
    reveal_strlit("\",\n  \"api_key\": \"");
    reveal_strlit("\",\n  \"model\": \"");
    reveal_strlit("\"api_key\": \"");
    reveal_strlit("\",");
    let q0 = "{\n  \"provider_type\": \""@;
    let q1 = "\",\n  \"provider_url\": \""@;
    let q2 = "\",\n  \"api_key\": \""@;
    let q3 = "\",\n  \"model\": \""@;
    let q4 = "\",\n  \"daemon_port\": "@;
    let q5 = ",\n  \"hotkey\": \""@;
    let q6 = "\",\n  \"session_history_lines\": "@;
    let q7 = ",\n  \"include_env_vars\": true,\n  \"timeout_ms\": "@;
    let q8 = "\n}"@;
    let v0 = provider_type;
    let v1 = provider_url;
    let v2 = api_key;
    let v3 = model;
    let v4 = decimal_text(daemon_port as nat);
    let v5 = hotkey;
    let v6 = decimal_text(session_history_lines as nat);
    let v7 = decimal_text(timeout_ms as nat);
    let front = q0 + v0 + q1 + v1;
    let rest = v3 + q4 + v4 + q5 + v5 + q6 + v6 + q7 + v7 + q8;
    assert(config_file(provider_type, provider_url, api_key, model, daemon_port, hotkey, session_history_lines, timeout_ms) =~= front + q2 + v2 + q3 + rest);
    assert(q2.skip(q2.len() - 12) =~= "\"api_key\": \""@);
    assert(q3.take(2) =~= "\","@);
    lemma_field_occurs(front, q2, v2, q3, rest, "\"api_key\": \""@, "\","@);
}

/// The model setting is in the configuration file with its value.
proof fn lemma_config_model(
    provider_type: Seq<char>,
    provider_url: Seq<char>,
    api_key: Seq<char>,
    model: Seq<char>,
    daemon_port: u16,
    hotkey: Seq<char>,
    session_history_lines: u8,
    timeout_ms: u64,
)
    ensures
        contains(config_file(provider_type, provider_url, api_key, model, daemon_port, hotkey, session_history_lines, timeout_ms), "\"model\": \""@ + model + "\","@),
{
    reveal_strlit("\",\n  \"model\": \"");
    reveal_strlit("\",\n  \"daemon_port\": ");
    reveal_strlit("\"model\": \"");
    reveal_strlit("\",");
    let q0 = "{\n  \"provider_type\": \""@;
    let q1 = "\",\n  \"provider_url\": \""@;
    let q2 = "\",\n  \"api_key\": \""@;
    let q3 = "\",\n  \"model\": \""@;
    let q4 = "\",\n  \"daemon_port\": "@;
    let q5 = ",\n  \"hotkey\": \""@;
    let q6 = "\",\n  \"session_history_lines\": "@;
    let q7 = ",\n  \"include_env_vars\": true,\n  \"timeout_ms\": "@;
    let q8 = "\n}"@;
    let v0 = provider_type;
    let v1 = provider_url;
    let v2 = api_key;
    let v3 = model;
    let v4 = decimal_text(daemon_port as nat);
    let v5 = hotkey;
    let v6 = decimal_text(session_history_lines as nat);
    let v7 = decimal_text(timeout_ms as nat);
    let front = q0 + v0 + q1 + v1 + q2 + v2;
    let rest = v4 + q5 + v5 + q6 + v6 + q7 + v7 + q8;
    assert(config_file(provider_type, provider_url, api_key, model, daemon_port, hotkey, session_history_lines, timeout_ms) =~= front + q3 + v3 + q4 + rest);
    assert(q3.skip(q3.len() - 10) =~= "\"model\": \""@);
    assert(q4.take(2) =~= "\","@);
    lemma_field_occurs(front, q3, v3, q4, rest, "\"model\": \""@, "\","@);
}

/// The daemon_port setting is in the configuration file with its value.
proof fn lemma_config_daemon_port(
    provider_type: Seq<char>,
    provider_url: Seq<char>,
    api_key: Seq<char>,
    model: Seq<char>,
    daemon_port: u16,
    hotkey: Seq<char>,
    session_history_lines: u8,
    timeout_ms: u64,
)
    ensures
        contains(config_file(provider_type, provider_url, api_key, model, daemon_port, hotkey, session_history_lines, timeout_ms), "\"daemon_port\": "@ + decimal_text(daemon_port as nat) + ","@),
{
    reveal_strlit("\",\n  \"daemon_port\": ");
    reveal_strlit(",\n  \"hotkey\": \"");
    reveal_strlit("\"daemon_port\": ");
    reveal_strlit(",");
    let q0 = "{\n  \"provider_type\": \""@;
    let q1 = "\",\n  \"provider_url\": \""@;
    let q2 = "\",\n  \"api_key\": \""@;
    let q3 = "\",\n  \"model\": \""@;
    let q4 = "\",\n  \"daemon_port\": "@;
    let q5 = ",\n  \"hotkey\": \""@;
    let q6 = "\",\n  \"session_history_lines\": "@;
    let q7 = ",\n  \"include_env_vars\": true,\n  \"timeout_ms\": "@;
    let q8 = "\n}"@;
    let v0 = provider_type;
    let v1 = provider_url;
    let v2 = api_key;
    let v3 = model;
    let v4 = decimal_text(daemon_port as nat);
    let v5 = hotkey;
    let v6 = decimal_text(session_history_lines as nat);
    let v7 = decimal_text(timeout_ms as nat);
    let front = q0 + v0 + q1 + v1 + q2 + v2 + q3 + v3;
    let rest = v5 + q6 + v6 + q7 + v7 + q8;
    assert(config_file(provider_type, provider_url, api_key, model, daemon_port, hotkey, session_history_lines, timeout_ms) =~= front + q4 + v4 + q5 + rest);
    assert(q4.skip(q4.len() - 15) =~= "\"daemon_port\": "@);
    assert(q5.take(1) =~= ","@);
    lemma_field_occurs(front, q4, v4, q5, rest, "\"daemon_port\": "@, ","@);
}

/// The hotkey setting is in the configuration file with its value.
proof fn lemma_config_hotkey(
    provider_type: Seq<char>,
    provider_url: Seq<char>,
    api_key: Seq<char>,
    model: Seq<char>,
    daemon_port: u16,
    hotkey: Seq<char>,
    session_history_lines: u8,
    timeout_ms: u64,
)
    ensures
        contains(config_file(provider_type, provider_url, api_key, model, daemon_port, hotkey, session_history_lines, timeout_ms), "\"hotkey\": \""@ + hotkey + "\","@),
{
    reveal_strlit(",\n  \"hotkey\": \"");
    reveal_strlit("\",\n  \"session_history_lines\": ");
    reveal_strlit("\"hotkey\": \"");
    reveal_strlit("\",");
    let q0 = "{\n  \"provider_type\": \""@;
    let q1 = "\",\n  \"provider_url\": \""@;
    let q2 = "\",\n  \"api_key\": \""@;
    let q3 = "\",\n  \"model\": \""@;
    let q4 = "\",\n  \"daemon_port\": "@;
    let q5 = ",\n  \"hotkey\": \""@;
    let q6 = "\",\n  \"session_history_lines\": "@;
    let q7 = ",\n  \"include_env_vars\": true,\n  \"timeout_ms\": "@;
    let q8 = "\n}"@;
    let v0 = provider_type;
    let v1 = provider_url;
    let v2 = api_key;
    let v3 = model;
    let v4 = decimal_text(daemon_port as nat);
    let v5 = hotkey;
    let v6 = decimal_text(session_history_lines as nat);
    let v7 = decimal_text(timeout_ms as nat);
    let front = q0 + v0 + q1 + v1 + q2 + v2 + q3 + v3 + q4 + v4;
    let rest = v6 + q7 + v7 + q8;
    assert(config_file(provider_type, provider_url, api_key, model, daemon_port, hotkey, session_history_lines, timeout_ms) =~= front + q5 + v5 + q6 + rest);
    assert(q5.skip(q5.len() - 11) =~= "\"hotkey\": \""@);
    assert(q6.take(2) =~= "\","@);
    lemma_field_occurs(front, q5, v5, q6, rest, "\"hotkey\": \""@, "\","@);
}

/// The session_history_lines setting is in the configuration file with its value.
proof fn lemma_config_session_history_lines(
    provider_type: Seq<char>,
    provider_url: Seq<char>,
    api_key: Seq<char>,
    model: Seq<char>,
    daemon_port: u16,
    hotkey: Seq<char>,
    session_history_lines: u8,
    timeout_ms: u64,
)
    ensures
        contains(config_file(provider_type, provider_url, api_key, model, daemon_port, hotkey, session_history_lines, timeout_ms), "\"session_history_lines\": "@ + decimal_text(session_history_lines as nat) + ","@),
{
    reveal_strlit("\",\n  \"session_history_lines\": ");
    reveal_strlit(",\n  \"include_env_vars\": true,\n  \"timeout_ms\": ");
    reveal_strlit("\"session_history_lines\": ");
    reveal_strlit(",");
    let q0 = "{\n  \"provider_type\": \""@;
    let q1 = "\",\n  \"provider_url\": \""@;
    let q2 = "\",\n  \"api_key\": \""@;
    let q3 = "\",\n  \"model\": \""@;
    let q4 = "\",\n  \"daemon_port\": "@;
    let q5 = ",\n  \"hotkey\": \""@;
    let q6 = "\",\n  \"session_history_lines\": "@;
    let q7 = ",\n  \"include_env_vars\": true,\n  \"timeout_ms\": "@;
    let q8 = "\n}"@;
    let v0 = provider_type;
    let v1 = provider_url;
    let v2 = api_key;
    let v3 = model;
    let v4 = decimal_text(daemon_port as nat);
    let v5 = hotkey;
    let v6 = decimal_text(session_history_lines as nat);
    let v7 = decimal_text(timeout_ms as nat);
    let front = q0 + v0 + q1 + v1 + q2 + v2 + q3 + v3 + q4 + v4 + q5 + v5;
    let rest = v7 + q8;
    assert(config_file(provider_type, provider_url, api_key, model, daemon_port, hotkey, session_history_lines, timeout_ms) =~= front + q6 + v6 + q7 + rest);
    assert(q6.skip(q6.len() - 25) =~= "\"session_history_lines\": "@);
    assert(q7.take(1) =~= ","@);
    lemma_field_occurs(front, q6, v6, q7, rest, "\"session_history_lines\": "@, ","@);
}

/// The timeout_ms setting is in the configuration file with its value.
proof fn lemma_config_timeout_ms(
    provider_type: Seq<char>,
    provider_url: Seq<char>,
    api_key: Seq<char>,
    model: Seq<char>,
    daemon_port: u16,
    hotkey: Seq<char>,
    session_history_lines: u8,
    timeout_ms: u64,
)
    ensures
        contains(config_file(provider_type, provider_url, api_key, model, daemon_port, hotkey, session_history_lines, timeout_ms), "\"timeout_ms\": "@ + decimal_text(timeout_ms as nat) + "\n}"@),
{
    reveal_strlit(",\n  \"include_env_vars\": true,\n  \"timeout_ms\": ");
    reveal_strlit("\n}");
    reveal_strlit("\"timeout_ms\": ");
    reveal_strlit("\n}");
    let q0 = "{\n  \"provider_type\": \""@;
    let q1 = "\",\n  \"provider_url\": \""@;
    let q2 = "\",\n  \"api_key\": \""@;
    let q3 = "\",\n  \"model\": \""@;
    let q4 = "\",\n  \"daemon_port\": "@;
    let q5 = ",\n  \"hotkey\": \""@;
    let q6 = "\",\n  \"session_history_lines\": "@;
    let q7 = ",\n  \"include_env_vars\": true,\n  \"timeout_ms\": "@;
    let q8 = "\n}"@;
    let v0 = provider_type;
    let v1 = provider_url;
    let v2 = api_key;
    let v3 = model;
    let v4 = decimal_text(daemon_port as nat);
    let v5 = hotkey;
    let v6 = decimal_text(session_history_lines as nat);
    let v7 = decimal_text(timeout_ms as nat);
    let front = q0 + v0 + q1 + v1 + q2 + v2 + q3 + v3 + q4 + v4 + q5 + v5 + q6 + v6;
    let rest = Seq::<char>::empty();
    assert(config_file(provider_type, provider_url, api_key, model, daemon_port, hotkey, session_history_lines, timeout_ms) =~= front + q7 + v7 + q8 + rest);
    assert(q7.skip(q7.len() - 14) =~= "\"timeout_ms\": "@);
    assert(q8.take(2) =~= "\n}"@);
    lemma_field_occurs(front, q7, v7, q8, rest, "\"timeout_ms\": "@, "\n}"@);
}

/// The configuration file is one object, always includes environment
/// variables, and ends with the timeout.
proof fn lemma_config_frame(
    provider_type: Seq<char>,
    provider_url: Seq<char>,
    api_key: Seq<char>,
    model: Seq<char>,
    daemon_port: u16,
    hotkey: Seq<char>,
    session_history_lines: u8,
    timeout_ms: u64,
)
    ensures
        contains(config_file(provider_type, provider_url, api_key, model, daemon_port, hotkey, session_history_lines, timeout_ms), "\"include_env_vars\": true,"@),
        has_prefix(config_file(provider_type, provider_url, api_key, model, daemon_port, hotkey, session_history_lines, timeout_ms), "{\n"@),
        has_suffix(config_file(provider_type, provider_url, api_key, model, daemon_port, hotkey, session_history_lines, timeout_ms), "\"timeout_ms\": "@ + decimal_text(timeout_ms as nat) + "\n}"@),
{
    reveal_strlit("{\n  \"provider_type\": \"");
    reveal_strlit(",\n  \"include_env_vars\": true,\n  \"timeout_ms\": ");
    reveal_strlit("\n}");
    reveal_strlit("\"include_env_vars\": true,");
    reveal_strlit("{\n");
    reveal_strlit("\"timeout_ms\": ");
    let q0 = "{\n  \"provider_type\": \""@;
    let q1 = "\",\n  \"provider_url\": \""@;
    let q2 = "\",\n  \"api_key\": \""@;
    let q3 = "\",\n  \"model\": \""@;
    let q4 = "\",\n  \"daemon_port\": "@;
    let q5 = ",\n  \"hotkey\": \""@;
    let q6 = "\",\n  \"session_history_lines\": "@;
    let q7 = ",\n  \"include_env_vars\": true,\n  \"timeout_ms\": "@;
    let q8 = "\n}"@;
    let v0 = provider_type;
    let v1 = provider_url;
    let v2 = api_key;
    let v3 = model;
    let v4 = decimal_text(daemon_port as nat);
    let v5 = hotkey;
    let v6 = decimal_text(session_history_lines as nat);
    let v7 = decimal_text(timeout_ms as nat);
    let t = config_file(provider_type, provider_url, api_key, model, daemon_port, hotkey, session_history_lines, timeout_ms);
    assert(t =~= (q0 + v0 + q1 + v1 + q2 + v2 + q3 + v3 + q4 + v4 + q5 + v5 + q6 + v6) + q7 + (v7 + q8));
    assert(q7.subrange(4, 29) =~= "\"include_env_vars\": true,"@);
    assert(occurs_at(q7, "\"include_env_vars\": true,"@, 4));
    lemma_occurs_inside(q0 + v0 + q1 + v1 + q2 + v2 + q3 + v3 + q4 + v4 + q5 + v5 + q6 + v6, q7, v7 + q8, "\"include_env_vars\": true,"@, 4);
    assert(t.take(2) =~= "{\n"@);
    let w = "\"timeout_ms\": "@ + v7 + q8;
    assert(t.skip(t.len() - w.len()) =~= w);
}

/// The configuration file names each setting with the value given for it:
/// the four texts and the hotkey between quotes, the port, the history length
/// and the timeout in decimal, each followed by the comma or the closing brace
/// that ends it; environment variables are always included, and the file is
/// one object that ends with the timeout.
pub proof fn config_file_holds_each_setting(
    provider_type: Seq<char>,
    provider_url: Seq<char>,
    api_key: Seq<char>,
    model: Seq<char>,
    daemon_port: u16,
    hotkey: Seq<char>,
    session_history_lines: u8,
    timeout_ms: u64,
)
    ensures
        contains(config_file(provider_type, provider_url, api_key, model, daemon_port, hotkey, session_history_lines, timeout_ms), "\"provider_type\": \""@ + provider_type + "\","@),
        contains(config_file(provider_type, provider_url, api_key, model, daemon_port, hotkey, session_history_lines, timeout_ms), "\"provider_url\": \""@ + provider_url + "\","@),
        contains(config_file(provider_type, provider_url, api_key, model, daemon_port, hotkey, session_history_lines, timeout_ms), "\"api_key\": \""@ + api_key + "\","@),
        contains(config_file(provider_type, provider_url, api_key, model, daemon_port, hotkey, session_history_lines, timeout_ms), "\"model\": \""@ + model + "\","@),
        contains(config_file(provider_type, provider_url, api_key, model, daemon_port, hotkey, session_history_lines, timeout_ms), "\"daemon_port\": "@ + decimal_text(daemon_port as nat) + ","@),
        contains(config_file(provider_type, provider_url, api_key, model, daemon_port, hotkey, session_history_lines, timeout_ms), "\"hotkey\": \""@ + hotkey + "\","@),
        contains(config_file(provider_type, provider_url, api_key, model, daemon_port, hotkey, session_history_lines, timeout_ms), "\"session_history_lines\": "@ + decimal_text(session_history_lines as nat) + ","@),
        contains(config_file(provider_type, provider_url, api_key, model, daemon_port, hotkey, session_history_lines, timeout_ms), "\"timeout_ms\": "@ + decimal_text(timeout_ms as nat) + "\n}"@),
        contains(config_file(provider_type, provider_url, api_key, model, daemon_port, hotkey, session_history_lines, timeout_ms), "\"include_env_vars\": true,"@),
        has_prefix(config_file(provider_type, provider_url, api_key, model, daemon_port, hotkey, session_history_lines, timeout_ms), "{\n"@),
        has_suffix(config_file(provider_type, provider_url, api_key, model, daemon_port, hotkey, session_history_lines, timeout_ms), "\"timeout_ms\": "@ + decimal_text(timeout_ms as nat) + "\n}"@),
{
    lemma_config_provider_type(provider_type, provider_url, api_key, model, daemon_port, hotkey, session_history_lines, timeout_ms);
    lemma_config_provider_url(provider_type, provider_url, api_key, model, daemon_port, hotkey, session_history_lines, timeout_ms);
    lemma_config_api_key(provider_type, provider_url, api_key, model, daemon_port, hotkey, session_history_lines, timeout_ms);
    lemma_config_model(provider_type, provider_url, api_key, model, daemon_port, hotkey, session_history_lines, timeout_ms);
    lemma_config_daemon_port(provider_type, provider_url, api_key, model, daemon_port, hotkey, session_history_lines, timeout_ms);
    lemma_config_hotkey(provider_type, provider_url, api_key, model, daemon_port, hotkey, session_history_lines, timeout_ms);
    lemma_config_session_history_lines(provider_type, provider_url, api_key, model, daemon_port, hotkey, session_history_lines, timeout_ms);
    lemma_config_timeout_ms(provider_type, provider_url, api_key, model, daemon_port, hotkey, session_history_lines, timeout_ms);
    lemma_config_frame(provider_type, provider_url, api_key, model, daemon_port, hotkey, session_history_lines, timeout_ms);
}

} // verus!
