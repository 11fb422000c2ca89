//! Cleaning a model's reply into a bare shell command: surrounding
//! whitespace, Markdown code fences, inline backticks and a leading `$ `
//! prompt marker are removed.

use vstd::prelude::*;
use vstd::string::*;
use crate::text::{
    chars_of, first_occurrence, has_prefix, has_suffix, is_trimmed, is_whitespace,
    lemma_first_occurrence_occurs, lemma_trim_end_matches, lemma_trim_range, lemma_trim_trimmed,
    occurs_at, trim, trim_end_matches, trim_window, window, window_find, window_has_prefix,
    window_trim_end_matches,
};

verus! {

/// A Markdown code fence: three backticks.
pub open spec fn fence() -> Seq<char> {
    seq!['`', '`', '`']
}

/// The prompt marker that a reply may put before a command.
pub open spec fn prompt_marker() -> Seq<char> {
    seq!['$', ' ']
}

/// The prompt marker of a root shell.
pub open spec fn root_prompt_marker() -> Seq<char> {
    seq!['#', ' ']
}

/// The text begins with a prompt marker.
pub open spec fn has_prompt_marker(s: Seq<char>) -> bool {
    has_prefix(s, prompt_marker()) || has_prefix(s, root_prompt_marker())
}

/// A text that opens with a fence is cut to what follows the opening
/// fence, trimmed, up to the next fence; other texts stay as they are.
pub open spec fn open_fenced_block(s: Seq<char>) -> Seq<char> {
    if has_prefix(s, fence()) {
        let after = trim(s.skip(3));
        match first_occurrence(after, fence()) {
            Some(i) => after.take(i),
            None => after,
        }
    } else {
        s
    }
}

/// A text that both begins and ends with a backtick (two distinct ones)
/// loses them.
pub open spec fn strip_inline_backticks(s: Seq<char>) -> Seq<char> {
    if s.len() >= 2 && s[0] == '`' && s.last() == '`' {
        s.subrange(1, s.len() - 1)
    } else {
        s
    }
}

/// A text that begins with `$ ` or `# ` loses it.
pub open spec fn strip_prompt_marker(s: Seq<char>) -> Seq<char> {
    if has_prompt_marker(s) {
        s.skip(2)
    } else {
        s
    }
}

/// The command that `postprocess` makes of a reply.
pub open spec fn cleaned_command(raw: Seq<char>) -> Seq<char> {
    trim(
        strip_prompt_marker(
            strip_inline_backticks(trim_end_matches(open_fenced_block(trim(raw)), fence())),
        ),
    )
}

/// Narrows a window of `v` as `open_fenced_block` does its text.
fn fenced_block_window(v: &Vec<char>, lo: usize, hi: usize, fence_chars: &Vec<char>) -> (r: (usize, usize))
    requires
        lo <= hi <= v.len(),
        fence_chars@ == fence(),
    ensures
        lo <= r.0 <= r.1 <= hi,
        window(v@, r.0 as int, r.1 as int) == open_fenced_block(window(v@, lo as int, hi as int)),
{
    let ghost s = window(v@, lo as int, hi as int);
    if window_has_prefix(v, lo, hi, fence_chars) {
        assert(window(v@, lo + 3, hi as int) =~= s.skip(3));
        let (a, b) = trim_window(v, lo + 3, hi);
        let ghost after = window(v@, a as int, b as int);
        assert(after == trim(s.skip(3)));
        match window_find(v, a, b, fence_chars) {
            Some(i) => {
                assert(window(v@, a as int, a + i) =~= after.take(i as int));
                assert(open_fenced_block(s) == after.take(i as int));
                (a, a + i)
            },
            None => {
                assert(open_fenced_block(s) == after);
                (a, b)
            },
        }
    } else {
        (lo, hi)
    }
}

/// Narrows a window of `v` as `strip_inline_backticks` does its text.
fn inline_backticks_window(v: &Vec<char>, lo: usize, hi: usize) -> (r: (usize, usize))
    requires
        lo <= hi <= v.len(),
    ensures
        lo <= r.0 <= r.1 <= hi,
        window(v@, r.0 as int, r.1 as int) == strip_inline_backticks(window(v@, lo as int, hi as int)),
{
    let ghost s = window(v@, lo as int, hi as int);
    if hi - lo >= 2 && v[lo] == '`' && v[hi - 1] == '`' {
        assert(window(v@, lo + 1, hi - 1) =~= s.subrange(1, s.len() - 1));
        (lo + 1, hi - 1)
    } else {
        (lo, hi)
    }
}

/// Narrows a window of `v` as `strip_prompt_marker` does its text.
fn prompt_marker_window(v: &Vec<char>, lo: usize, hi: usize) -> (r: usize)
    requires
        lo <= hi <= v.len(),
    ensures
        lo <= r <= hi,
        window(v@, r as int, hi as int) == strip_prompt_marker(window(v@, lo as int, hi as int)),
{
    let marker_chars: Vec<char> = vec!['$', ' '];
    let root_marker_chars: Vec<char> = vec!['#', ' '];
    assert(marker_chars@ =~= prompt_marker());
    assert(root_marker_chars@ =~= root_prompt_marker());
    if window_has_prefix(v, lo, hi, &marker_chars) || window_has_prefix(v, lo, hi, &root_marker_chars) {
        assert(window(v@, lo + 2, hi as int) =~= window(v@, lo as int, hi as int).skip(2));
        lo + 2
    } else {
        lo
    }
}

/// Turns a model's reply into the command it holds.
pub fn postprocess(raw: &str) -> (cmd: String)
    ensures
        cmd@ == cleaned_command(raw@),
{
    let v = chars_of(raw);
    let fence_chars: Vec<char> = vec!['`', '`', '`'];
    assert(fence_chars@ =~= fence());
    assert(window(v@, 0, v.len() as int) =~= v@);
    let (lo, hi) = trim_window(&v, 0, v.len());
    let (lo, hi) = fenced_block_window(&v, lo, hi, &fence_chars);
    let hi = window_trim_end_matches(&v, lo, hi, &fence_chars);
    let (lo, hi) = inline_backticks_window(&v, lo, hi);
    let lo = prompt_marker_window(&v, lo, hi);
    let (a, b) = trim_window(&v, lo, hi);
    String::from_str(raw.substring_char(a, b))
}


/// The text holds no backtick.
pub open spec fn has_no_backtick(s: Seq<char>) -> bool {
    forall|i: int| 0 <= i < s.len() ==> s[i] != '`'
}

/// Each cleaning step keeps a contiguous part of its input.
proof fn lemma_steps_keep_ranges(s: Seq<char>)
    ensures
        exists|a: int, b: int| 0 <= a <= b <= s.len() && open_fenced_block(s) == s.subrange(a, b),
        exists|a: int, b: int|
            0 <= a <= b <= s.len() && trim_end_matches(s, fence()) == s.subrange(a, b),
        exists|a: int, b: int| 0 <= a <= b <= s.len() && strip_inline_backticks(s) == s.subrange(a, b),
        exists|a: int, b: int| 0 <= a <= b <= s.len() && strip_prompt_marker(s) == s.subrange(a, b),
        exists|a: int, b: int| 0 <= a <= b <= s.len() && trim(s) == s.subrange(a, b),
{
    let (ta, tb) = lemma_trim_range(s);
    assert(0 <= ta <= tb <= s.len() && trim(s) == s.subrange(ta, tb));
    // the fenced block
    if has_prefix(s, fence()) {
        let rest = s.skip(3);
        let (a, b) = lemma_trim_range(rest);
        let after = trim(rest);
        lemma_first_occurrence_occurs(after, fence());
        match first_occurrence(after, fence()) {
            Some(i) => {
                assert(after.take(i) =~= s.subrange(3 + a, 3 + a + i));
                assert(open_fenced_block(s) == s.subrange(3 + a, 3 + a + i));
            },
            None => {
                assert(after =~= s.subrange(3 + a, 3 + b));
            },
        }
    } else {
        assert(s.subrange(0, s.len() as int) =~= s);
    }
    // closing fences
    let k = lemma_trim_end_matches(s, fence());
    assert(s.take(k) =~= s.subrange(0, k));
    // inline backticks and the prompt marker
    assert(s.subrange(0, s.len() as int) =~= s);
    if has_prompt_marker(s) {
        assert(s.skip(2) =~= s.subrange(2, s.len() as int));
    }
}

/// A part of a part of a text is a part of the text.
proof fn lemma_range_of_range(s: Seq<char>, t: Seq<char>, u: Seq<char>)
    requires
        exists|a: int, b: int| 0 <= a <= b <= s.len() && t == s.subrange(a, b),
        exists|a: int, b: int| 0 <= a <= b <= t.len() && u == t.subrange(a, b),
    ensures
        exists|a: int, b: int| 0 <= a <= b <= s.len() && u == s.subrange(a, b),
{
    let (a1, b1) = choose|a: int, b: int| 0 <= a <= b <= s.len() && t == s.subrange(a, b);
    let (a2, b2) = choose|a: int, b: int| 0 <= a <= b <= t.len() && u == t.subrange(a, b);
    assert(u =~= s.subrange(a1 + a2, a1 + b2));
}

/// The command is a contiguous part of the reply: cleaning only removes
/// characters from the two ends.
pub proof fn cleaned_command_is_part_of_reply(raw: Seq<char>)
    ensures
        exists|i: int, j: int| 0 <= i <= j <= raw.len() && cleaned_command(raw) == raw.subrange(i, j),
{
    let s0 = trim(raw);
    let s1 = open_fenced_block(s0);
    let s2 = trim_end_matches(s1, fence());
    let s3 = strip_inline_backticks(s2);
    let s4 = strip_prompt_marker(s3);
    lemma_steps_keep_ranges(raw);
    lemma_steps_keep_ranges(s0);
    lemma_steps_keep_ranges(s1);
    lemma_steps_keep_ranges(s2);
    lemma_steps_keep_ranges(s3);
    lemma_steps_keep_ranges(s4);
    lemma_range_of_range(raw, s0, s1);
    lemma_range_of_range(raw, s1, s2);
    lemma_range_of_range(raw, s2, s3);
    lemma_range_of_range(raw, s3, s4);
    lemma_range_of_range(raw, s4, trim(s4));
}

/// The command has no whitespace at either end.
pub proof fn cleaned_command_is_trimmed(raw: Seq<char>)
    ensures
        is_trimmed(cleaned_command(raw)),
{
    let s4 = strip_prompt_marker(
        strip_inline_backticks(trim_end_matches(open_fenced_block(trim(raw)), fence())),
    );
    lemma_trim_range(s4);
}

/// A reply that is already a bare command (no whitespace at its ends, no
/// backtick, no leading `$ ` or `# `) is returned as it is.
pub proof fn bare_command_is_kept(s: Seq<char>)
    requires
        is_trimmed(s),
        has_no_backtick(s),
        !has_prompt_marker(s),
    ensures
        cleaned_command(s) == s,
{
    lemma_trim_trimmed(s);
    if s.len() >= 3 {
        assert(s.take(3)[0] == s[0]);
    }
    assert(!has_prefix(s, fence()));
    if s.len() >= 3 {
        assert(s.skip(s.len() - 3)[2] == s.last());
    }
    assert(!has_suffix(s, fence()));
    assert(trim_end_matches(s, fence()) == s);
}

/// The text of a fenced block: the block's lines between the fences.
pub open spec fn fenced(c: Seq<char>) -> Seq<char> {
    fence() + seq!['\n'] + c + seq!['\n'] + fence()
}

/// The fences and the line breaks of a fenced bare command are trimmed off
/// except the last line break.
proof fn lemma_open_fenced_nonempty(c: Seq<char>)
    requires
        c.len() > 0,
        is_trimmed(c),
        has_no_backtick(c),
    ensures
        open_fenced_block(trim(fenced(c))) == c + seq!['\n'],
{
    let raw = fenced(c);
    let n = c.len() as int;
    assert(raw[0] == '`' && raw[raw.len() - 1] == '`');
    lemma_trim_trimmed(raw);
    assert(raw.take(3) =~= fence());
    let rest = raw.skip(3);
    assert(rest =~= seq!['\n'] + c + seq!['\n'] + fence());
    let body = c + seq!['\n'] + fence();
    let (a, b) = lemma_trim_range(rest);
    assert(trim(rest) == body) by {
        assert(rest[0] == '\n');
        assert(rest[1] == c[0]);
        assert(is_whitespace(rest[0]));
        assert(!is_whitespace(rest[1]));
        assert(a == 1);
        assert(rest[rest.len() - 1] == '`');
        assert(!is_whitespace(rest[rest.len() - 1]));
        assert(b == rest.len());
        assert(rest.subrange(a, b) =~= body);
    }
    lemma_first_occurrence_occurs(body, fence());
    assert(occurs_at(body, fence(), n + 1)) by {
        assert(body.subrange(n + 1, n + 4) =~= fence());
    }
    assert forall|j: int| 0 <= j < n + 1 implies !occurs_at(body, fence(), j) by {
        if occurs_at(body, fence(), j) {
            assert(body.subrange(j, j + 3)[0] == '`');
            if j < n {
                assert(body[j] == c[j]);
            } else {
                assert(body[j] == '\n');
            }
        }
    }
    assert(first_occurrence(body, fence()) == Some(n + 1)) by {
        match first_occurrence(body, fence()) {
            Some(i) => {
                if i < n + 1 {
                } else if i > n + 1 {
                }
            },
            None => {},
        }
    }
    assert(body.take(n + 1) =~= c + seq!['\n']);
}

/// The last steps leave a bare command followed by a line break as the
/// bare command.
proof fn lemma_finish_line(c: Seq<char>)
    requires
        c.len() > 0,
        is_trimmed(c),
        has_no_backtick(c),
        !has_prompt_marker(c),
    ensures
        trim(strip_prompt_marker(strip_inline_backticks(trim_end_matches(c + seq!['\n'], fence()))))
            == c,
{
    let n = c.len() as int;
    let s1 = c + seq!['\n'];
    assert(s1[n] == '\n');
    assert(!has_suffix(s1, fence())) by {
        if has_suffix(s1, fence()) {
            assert(s1.skip(s1.len() - 3)[2] == s1[n]);
        }
    }
    assert(trim_end_matches(s1, fence()) == s1);
    assert(strip_inline_backticks(s1) == s1);
    assert(!has_prompt_marker(s1)) by {
        if has_prompt_marker(s1) {
            if n >= 2 {
                assert(s1.take(2) =~= c.take(2));
            } else {
                assert(s1.take(2)[1] == s1[1]);
            }
        }
    }
    assert(strip_prompt_marker(s1) == s1);
    let (a1, b1) = lemma_trim_range(s1);
    assert(s1[0] == c[0]);
    assert(!is_whitespace(s1[0]));
    assert(s1[n - 1] == c[n - 1]);
    assert(!is_whitespace(s1[n - 1]));
    assert(is_whitespace(s1[n]));
    assert(a1 == 0);
    assert(b1 == n);
    assert(s1.subrange(a1, b1) =~= c);
}

/// A fence occurs first at its own start.
proof fn lemma_fence_finds_itself()
    ensures
        first_occurrence(fence(), fence()) == Some(0int),
{
    lemma_first_occurrence_occurs(fence(), fence());
    assert(fence().subrange(0, 3) =~= fence());
    assert(occurs_at(fence(), fence(), 0));
}

/// The text after the opening fence of an empty block trims to the closing fence.
proof fn lemma_empty_fenced_rest()
    ensures
        trim(fenced(Seq::empty()).skip(3)) == fence(),
{
    let c = Seq::<char>::empty();
    let rest = fenced(c).skip(3);
    assert(rest =~= seq!['\n'] + c + seq!['\n'] + fence());
    assert(rest.len() == 5);
    assert(rest[0] == '\n' && rest[1] == '\n' && rest[2] == '`' && rest[4] == '`');
    let (a, b) = lemma_trim_range(rest);
    assert(is_whitespace(rest[0]) && is_whitespace(rest[1]) && !is_whitespace(rest[2]));
    assert(!is_whitespace(rest[4]));
    assert(a == 2 && b == 5);
    assert(rest.subrange(2, 5) =~= fence());
}

/// An empty fenced block opens onto nothing.
proof fn lemma_empty_fenced_open()
    ensures
        open_fenced_block(trim(fenced(Seq::empty()))) == Seq::<char>::empty(),
{
    let raw = fenced(Seq::empty());
    assert(raw[0] == '`' && raw[raw.len() - 1] == '`');
    lemma_trim_trimmed(raw);
    assert(raw.take(3) =~= fence());
    lemma_empty_fenced_rest();
    lemma_fence_finds_itself();
    assert(fence().take(0) =~= Seq::<char>::empty());
}

/// An empty fenced block gives an empty command.
proof fn lemma_empty_fenced()
    ensures
        cleaned_command(fenced(Seq::empty())) == Seq::<char>::empty(),
{
    let c = Seq::<char>::empty();
    lemma_empty_fenced_open();
    assert(trim_end_matches(c, fence()) == c);
    assert(strip_inline_backticks(c) == c);
    assert(strip_prompt_marker(c) == c);
    lemma_trim_trimmed(c);
}

/// Cleaning a command again changes nothing, unless the command still
/// holds a backtick or begins with a prompt marker.
pub proof fn cleaning_is_stable(raw: Seq<char>)
    requires
        has_no_backtick(cleaned_command(raw)),
        !has_prompt_marker(cleaned_command(raw)),
    ensures
        cleaned_command(cleaned_command(raw)) == cleaned_command(raw),
{
    cleaned_command_is_trimmed(raw);
    bare_command_is_kept(cleaned_command(raw));
}

/// A bare command inside a fenced block, on a line of its own, comes out
/// as the bare command.
pub proof fn fenced_command_is_unwrapped(c: Seq<char>)
    requires
        is_trimmed(c),
        has_no_backtick(c),
        !has_prompt_marker(c),
    ensures
        cleaned_command(fenced(c)) == c,
{
    if c.len() == 0 {
        lemma_empty_fenced();
        assert(c =~= Seq::<char>::empty());
    } else {
        lemma_open_fenced_nonempty(c);
        lemma_finish_line(c);
    }
}

/// A bare command after a `$ ` or `# ` prompt marker comes out without
/// the marker.
pub proof fn prompt_marker_is_dropped(marker: Seq<char>, c: Seq<char>)
    requires
        marker == prompt_marker() || marker == root_prompt_marker(),
        c.len() > 0,
        is_trimmed(c),
        has_no_backtick(c),
    ensures
        cleaned_command(marker + c) == c,
{
    let raw = marker + c;
    assert(raw[0] == marker[0]);
    assert(raw.last() == c.last());
    lemma_trim_trimmed(raw);
    assert(!has_prefix(raw, fence())) by {
        if has_prefix(raw, fence()) {
            assert(raw.take(3)[0] == raw[0]);
        }
    }
    assert(!has_suffix(raw, fence())) by {
        if has_suffix(raw, fence()) {
            assert(raw.skip(raw.len() - 3)[2] == raw.last());
        }
    }
    assert(trim_end_matches(raw, fence()) == raw);
    assert(strip_inline_backticks(raw) == raw);
    assert(raw.take(2) =~= marker);
    assert(has_prompt_marker(raw));
    assert(raw.skip(2) =~= c);
    lemma_trim_trimmed(c);
}

/// A bare command between two single backticks comes out without them.
pub proof fn quoted_command_is_unquoted(c: Seq<char>)
    requires
        c.len() > 0,
        is_trimmed(c),
        has_no_backtick(c),
        !has_prompt_marker(c),
    ensures
        cleaned_command(seq!['`'] + c + seq!['`']) == c,
{
    let raw = seq!['`'] + c + seq!['`'];
    let n = c.len() as int;
    assert(raw[0] == '`' && raw[n + 1] == '`' && raw[1] == c[0] && raw[n] == c[n - 1]);
    lemma_trim_trimmed(raw);
    assert(!has_prefix(raw, fence())) by {
        if has_prefix(raw, fence()) {
            assert(raw.take(3)[1] == raw[1]);
        }
    }
    assert(!has_suffix(raw, fence())) by {
        if has_suffix(raw, fence()) {
            assert(raw.skip(raw.len() - 3)[1] == raw[n]);
        }
    }
    assert(trim_end_matches(raw, fence()) == raw);
    assert(raw.subrange(1, n + 1) =~= c);
    assert(strip_inline_backticks(raw) == c);
    lemma_trim_trimmed(c);
}

/// The marker on a marked command's line is removed after the fences:
/// a bare command after `$ ` or `# ` inside a fenced block comes out as the
/// bare command, as it does unfenced.
pub proof fn fenced_marked_command_is_unwrapped(marker: Seq<char>, c: Seq<char>)
    requires
        marker == prompt_marker() || marker == root_prompt_marker(),
        c.len() > 0,
        is_trimmed(c),
        has_no_backtick(c),
    ensures
        cleaned_command(fence() + seq!['\n'] + marker + c + seq!['\n'] + fence()) == c,
        cleaned_command(marker + c) == c,
{
    prompt_marker_is_dropped(marker, c);
    let m = marker + c;
    let n = c.len() as int;
    assert(m[0] == marker[0]);
    assert(m[n + 1] == c[n - 1]);
    assert(m.last() == c.last());
    assert(is_trimmed(m));
    assert(has_no_backtick(m)) by {
        assert forall|i: int| 0 <= i < m.len() implies m[i] != '`' by {
            if i >= 2 {
                assert(m[i] == c[i - 2]);
            }
        }
    }
    assert(fence() + seq!['\n'] + marker + c + seq!['\n'] + fence() =~= fenced(m));
    lemma_open_fenced_nonempty(m);
    let s1 = m + seq!['\n'];
    assert(s1[n + 2] == '\n');
    assert(!has_suffix(s1, fence())) by {
        if has_suffix(s1, fence()) {
            assert(s1.skip(s1.len() - 3)[2] == s1[n + 2]);
        }
    }
    assert(trim_end_matches(s1, fence()) == s1);
    assert(s1[0] == marker[0]);
    assert(strip_inline_backticks(s1) == s1);
    assert(s1.take(2) =~= marker);
    assert(has_prompt_marker(s1));
    let s2 = c + seq!['\n'];
    assert(s1.skip(2) =~= s2);
    assert(strip_prompt_marker(s1) == s2);
    let (a1, b1) = lemma_trim_range(s2);
    assert(s2[0] == c[0]);
    assert(!is_whitespace(s2[0]));
    assert(s2[n - 1] == c[n - 1]);
    assert(!is_whitespace(s2[n - 1]));
    assert(is_whitespace(s2[n]));
    assert(a1 == 0);
    assert(b1 == n);
    assert(s2.subrange(a1, b1) =~= c);
}

} // verus!
