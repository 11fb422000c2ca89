//! What the daemon answers: the response to a translation request, and the
//! address it listens on.

use vstd::prelude::*;
use vstd::string::*;
use crate::numbers::{decimal, decimal_text};
use crate::postprocess::{cleaned_command, postprocess};

verus! {

/// The answer to a translation request: a command, or an error.
#[derive(Debug, Clone)]
pub struct TranslateResponse {
    pub command: Option<String>,
    pub error: Option<String>,
}

/// Answers a request from the model's outcome: its reply cleaned into a
/// command, or its error as it is.
pub fn translation_response(outcome: Result<String, String>) -> (r: TranslateResponse)
    ensures
        match outcome {
            Ok(raw) => {
                &&& r.error is None
                &&& r.command matches Some(c) && c@ == cleaned_command(raw@)
            },
            Err(e) => r.command is None && r.error == Some(e),
        },
{
    match outcome {
        Ok(raw) => TranslateResponse { command: Some(postprocess(raw.as_str())), error: None },
        Err(e) => TranslateResponse { command: None, error: Some(e) },
    }
}

/// The local address the daemon listens on, for a port.
pub fn listen_address(port: u16) -> (a: String)
    ensures
        a@ == "127.0.0.1:"@ + decimal_text(port as nat),
{
    String::from_str("127.0.0.1:").concat(decimal(port as u64).as_str())
}


/// Whether the command line asks for the setup wizard: its first argument
/// after the program's name is `setup`.
pub fn wants_setup(args: &Vec<String>) -> (b: bool)
    ensures
        b == (args@.len() > 1 && args@[1]@ == "setup"@),
{
    args.len() > 1 && args[1] == String::from_str("setup")
}

} // verus!
