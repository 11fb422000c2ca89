//! The prompts sent to the model: a fixed system prompt, and a user prompt
//! that lays out the request and its context.

use vstd::prelude::*;
use vstd::string::*;

verus! {

/// A request to translate natural language into a shell command, with the
/// context the shell hook collected.
#[derive(Debug, Clone)]
pub struct TranslateRequest {
    pub input: String,
    pub shell: String,
    pub cwd: String,
    pub os: String,
    pub history: Vec<String>,
}

/// The system prompt.
pub open spec fn system_prompt() -> Seq<char> {
    "You are a shell command translator. Given a natural language request and context below, output ONLY the shell command — no explanations, no markdown, no backticks, no commentary. Respond with the raw command text and nothing else."@
}

/// Tells the model to answer with a bare shell command.
pub fn build_system_prompt() -> (p: &'static str)
    ensures
        p@ == system_prompt(),
{
    "You are a shell command translator. Given a natural language request and context below, output ONLY the shell command — no explanations, no markdown, no backticks, no commentary. Respond with the raw command text and nothing else."
}

/// The recent commands, each on a line of its own indented by two spaces.
pub open spec fn history_lines(history: Seq<Seq<char>>) -> Seq<char>
    decreases history.len(),
{
    if history.len() == 0 {
        Seq::empty()
    } else {
        history_lines(history.drop_last()) + "  "@ + history.last() + "\n"@
    }
}

/// The context block: shell, OS, working directory and, where there are
/// any, the recent commands.
pub open spec fn context_block(shell: Seq<char>, os: Seq<char>, cwd: Seq<char>, history: Seq<Seq<char>>) -> Seq<char> {
    "Shell: "@ + shell + "\n"@ + "OS: "@ + os + "\n"@ + "Current directory: "@ + cwd + "\n"@ + if history.len() > 0 {
        "Recent commands:\n"@ + history_lines(history)
    } else {
        Seq::empty()
    }
}

/// The user prompt for a request with the given fields.
pub open spec fn user_prompt(
    input: Seq<char>,
    shell: Seq<char>,
    cwd: Seq<char>,
    os: Seq<char>,
    history: Seq<Seq<char>>,
) -> Seq<char> {
    context_block(shell, os, cwd, history) + "\n"@ + "Request: "@ + input + "\n"@ + "\nCommand:"@
}

/// The texts of a list of strings.
pub open spec fn texts(v: Seq<String>) -> Seq<Seq<char>> {
    v.map_values(|s: String| s@)
}

/// The user prompt of a request.
pub open spec fn request_prompt(req: TranslateRequest) -> Seq<char> {
    user_prompt(req.input@, req.shell@, req.cwd@, req.os@, texts(req.history@))
}

/// Lays out the request and its context for the model.
pub fn build_user_prompt(req: &TranslateRequest) -> (prompt: String)
    ensures
        prompt@ == request_prompt(*req),
{
    let ghost history = texts(req.history@);
    let mut prompt = String::new();
    prompt.append("Shell: ");
    prompt.append(req.shell.as_str());
    prompt.append("\n");
    prompt.append("OS: ");
    prompt.append(req.os.as_str());
    prompt.append("\n");
    prompt.append("Current directory: ");
    prompt.append(req.cwd.as_str());
    prompt.append("\n");
    let ghost head = prompt@;
    assert(head == "Shell: "@ + req.shell@ + "\n"@ + "OS: "@ + req.os@ + "\n"@ + "Current directory: "@ + req.cwd@ + "\n"@);
    if req.history.len() > 0 {
        prompt.append("Recent commands:\n");
        let ghost start = prompt@;
        let mut i: usize = 0;
        while i < req.history.len()
            invariant
                i <= req.history.len(),
                history == texts(req.history@),
                prompt@ == start + history_lines(history.take(i as int)),
            decreases req.history.len() - i,
        {
            assert(history.take(i + 1).drop_last() =~= history.take(i as int));
            prompt.append("  ");
            prompt.append(req.history[i].as_str());
            prompt.append("\n");
            i = i + 1;
        }
        assert(history.take(req.history.len() as int) =~= history);
    }
    assert(prompt@ =~= context_block(req.shell@, req.os@, req.cwd@, history));
    prompt.append("\n");
    prompt.append("Request: ");
    prompt.append(req.input.as_str());
    prompt.append("\n");
    prompt.append("\nCommand:");
    prompt
}

/// Each command of a list on a line of its own, indented by two spaces,
/// first command first.
pub open spec fn indented_lines(commands: Seq<Seq<char>>) -> Seq<char>
    decreases commands.len(),
{
    if commands.len() == 0 {
        Seq::empty()
    } else {
        "  "@ + commands[0] + "\n"@ + indented_lines(commands.drop_first())
    }
}

/// Listing commands first to last is listing all but the last, then the last.
proof fn lemma_indented_lines_last(h: Seq<Seq<char>>)
    requires
        h.len() > 0,
    ensures
        indented_lines(h) == indented_lines(h.drop_last()) + "  "@ + h.last() + "\n"@,
    decreases h.len(),
{
    if h.len() == 1 {
        assert(h.drop_first() =~= Seq::<Seq<char>>::empty());
        assert(h.drop_last() =~= Seq::<Seq<char>>::empty());
        assert(indented_lines(h) =~= "  "@ + h[0] + "\n"@);
        assert(indented_lines(h.drop_last()) + "  "@ + h.last() + "\n"@ =~= "  "@ + h[0] + "\n"@);
    } else {
        lemma_indented_lines_last(h.drop_first());
        assert(h.drop_first().drop_last() =~= h.drop_last().drop_first());
        assert(h.drop_first().last() == h.last());
        assert(h.drop_last()[0] == h[0]);
        assert(indented_lines(h) =~= indented_lines(h.drop_last()) + "  "@ + h.last() + "\n"@);
    }
}

/// The history listing is the indented listing of the commands in order.
proof fn lemma_history_lines_in_order(h: Seq<Seq<char>>)
    ensures
        history_lines(h) == indented_lines(h),
    decreases h.len(),
{
    if h.len() > 0 {
        lemma_history_lines_in_order(h.drop_last());
        lemma_indented_lines_last(h);
    }
}

/// The user prompt names the shell, the OS and the working directory on
/// lines of their own; where the request has any history, a `Recent
/// commands:` line follows with every recent command, first to last, on an
/// indented line of its own; then a blank line, the request and the
/// `Command:` cue.
pub proof fn prompt_lists_every_recent_command(req: TranslateRequest)
    ensures
        texts(req.history@).len() > 0 ==> request_prompt(req) == "Shell: "@ + req.shell@
            + "\nOS: "@ + req.os@ + "\nCurrent directory: "@ + req.cwd@
            + "\nRecent commands:\n"@ + indented_lines(texts(req.history@)) + "\nRequest: "@
            + req.input@ + "\n\nCommand:"@,
        texts(req.history@).len() == 0 ==> request_prompt(req) == "Shell: "@ + req.shell@
            + "\nOS: "@ + req.os@ + "\nCurrent directory: "@ + req.cwd@ + "\n\nRequest: "@
            + req.input@ + "\n\nCommand:"@,
        forall|i: int|
            0 <= i < req.history@.len() ==> #[trigger] texts(req.history@)[i] == req.history@[i]@,
{
    let h = texts(req.history@);
    lemma_history_lines_in_order(h);
    reveal_strlit("\n");
    reveal_strlit("OS: ");
    reveal_strlit("\nOS: ");
    reveal_strlit("Current directory: ");
    reveal_strlit("\nCurrent directory: ");
    reveal_strlit("Recent commands:\n");
    reveal_strlit("\nRecent commands:\n");
    reveal_strlit("Request: ");
    reveal_strlit("\nRequest: ");
    reveal_strlit("\nCommand:");
    reveal_strlit("\n\nCommand:");
    reveal_strlit("\n\nRequest: ");
    let sh = "Shell: "@ + req.shell@;
    if h.len() > 0 {
        assert(request_prompt(req) =~= sh + "\nOS: "@ + req.os@ + "\nCurrent directory: "@ + req.cwd@
            + "\nRecent commands:\n"@ + indented_lines(h) + "\nRequest: "@ + req.input@
            + "\n\nCommand:"@);
    } else {
        assert(request_prompt(req) =~= sh + "\nOS: "@ + req.os@ + "\nCurrent directory: "@ + req.cwd@
            + "\n\nRequest: "@ + req.input@ + "\n\nCommand:"@);
    }
}

} // verus!
