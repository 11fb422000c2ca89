//! The daemon's configuration: its fields, the values that a missing field
//! takes, and the check that a loaded configuration is usable.

use vstd::prelude::*;
use vstd::string::*;
use crate::text::{is_blank, is_blank_text};

verus! {

/// The daemon's configuration, as `config.json` holds it.
#[derive(Debug, Clone)]
pub struct Config {
    pub provider_type: String,
    pub provider_url: String,
    pub api_key: String,
    pub model: String,
    pub daemon_port: u16,
    pub hotkey: String,
    pub session_history_lines: u8,
    pub include_env_vars: bool,
    pub timeout_ms: u64,
}

/// The port the daemon listens on when the configuration names none.
pub fn default_daemon_port() -> (port: u16)
    ensures
        port == 11435,
{
    11435
}

/// The hotkey when the configuration names none.
pub fn default_hotkey() -> (hotkey: String)
    ensures
        hotkey@ == "Ctrl+T"@,
{
    String::from_str("Ctrl+T")
}

/// How many recent commands go with a request when the configuration names no number.
pub fn default_session_history_lines() -> (lines: u8)
    ensures
        lines == 10,
{
    10
}

/// Whether environment variables go with a request when the configuration does not say.
pub fn default_include_env_vars() -> (wanted: bool)
    ensures
        wanted,
{
    true
}

/// The time allowed for the model's reply when the configuration names none.
pub fn default_timeout_ms() -> (ms: u64)
    ensures
        ms == 5000,
{
    5000
}

/// The provider types that the daemon can talk to.
pub open spec fn is_known_provider_type(t: Seq<char>) -> bool {
    t == "openai"@ || t == "anthropic"@
}

/// The message for an unknown provider type.
pub open spec fn bad_provider_type_message(t: Seq<char>) -> Seq<char> {
    "Config invalid: provider_type must be 'openai' or 'anthropic', got '"@ + t + "'"@
}

/// What checking a configuration gives: the first problem found, in the
/// order URL, provider type, model.
pub open spec fn validation(c: Config) -> Result<(), Seq<char>> {
    if is_blank(c.provider_url@) {
        Err("Config incomplete: missing provider_url"@)
    } else if !is_known_provider_type(c.provider_type@) {
        Err(bad_provider_type_message(c.provider_type@))
    } else if is_blank(c.model@) {
        Err("Config incomplete: missing model"@)
    } else {
        Ok(())
    }
}

impl Config {
    /// Checks that the configuration names a provider URL, a known provider
    /// type and a model.
    pub fn validate(&self) -> (r: Result<(), String>)
        ensures
            match r {
                Ok(()) => validation(*self) is Ok,
                Err(e) => validation(*self) == Err::<(), Seq<char>>(e@),
            },
    {
        if is_blank_text(self.provider_url.as_str()) {
            return Err(String::from_str("Config incomplete: missing provider_url"));
        }
        let openai = String::from_str("openai");
        let anthropic = String::from_str("anthropic");
        if self.provider_type != openai && self.provider_type != anthropic {
            let msg = String::from_str(
                "Config invalid: provider_type must be 'openai' or 'anthropic', got '",
            );
            let msg = msg.concat(self.provider_type.as_str());
            return Err(msg.concat("'"));
        }
        if is_blank_text(self.model.as_str()) {
            return Err(String::from_str("Config incomplete: missing model"));
        }
        Ok(())
    }

    /// Whether the configuration earns the warning that an OpenAI-compatible
    /// provider has no key (and is taken to be a local one): the check comes
    /// after the URL and type checks, so only a configuration that passes
    /// those is warned about.
    pub fn warns_of_empty_key(&self) -> (b: bool)
        ensures
            b == (!is_blank(self.provider_url@) && self.provider_type@ == "openai"@ && is_blank(
                self.api_key@,
            )),
    {
        !is_blank_text(self.provider_url.as_str()) && self.provider_type == String::from_str("openai")
            && is_blank_text(self.api_key.as_str())
    }
}

/// A configuration passes the check exactly when its URL and its model are
/// not blank and its provider type is `openai` or `anthropic`, whatever the
/// type; each failing configuration gets the message of its first problem.
pub proof fn validation_requires_url_type_and_model(c: Config)
    ensures
        validation(c) is Ok <==> (!is_blank(c.provider_url@) && (c.provider_type@ == "openai"@
            || c.provider_type@ == "anthropic"@) && !is_blank(c.model@)),
        is_blank(c.provider_url@) ==> validation(c) == Err::<(), Seq<char>>(
            "Config incomplete: missing provider_url"@,
        ),
        !is_blank(c.provider_url@) && c.provider_type@ != "openai"@ && c.provider_type@
            != "anthropic"@ ==> validation(c) == Err::<(), Seq<char>>(
            "Config invalid: provider_type must be 'openai' or 'anthropic', got '"@
                + c.provider_type@ + "'"@,
        ),
        !is_blank(c.provider_url@) && (c.provider_type@ == "openai"@ || c.provider_type@
            == "anthropic"@) && is_blank(c.model@) ==> validation(c) == Err::<(), Seq<char>>(
            "Config incomplete: missing model"@,
        ),
{
}

} // verus!
