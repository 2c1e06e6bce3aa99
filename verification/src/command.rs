//! Routing of incoming chat messages.
//!
//! A message is trimmed of leading and trailing whitespace; if it then
//! starts with `!flag`, the rest (again trimmed) is the submitted token;
//! if it starts with `!help`, it asks for the usage text; anything else is
//! ignored, so that unrelated chatter never triggers a reply.

use vstd::prelude::*;

verus! {

/// Whitespace stripped from the edges of a message.
pub open spec fn is_space(c: char) -> bool {
    c == ' ' || c == '\t' || c == '\n' || c == '\r'
}

/// `s` without its leading whitespace.
pub open spec fn drop_leading(s: Seq<char>) -> Seq<char>
    decreases s.len(),
{
    if s.len() > 0 && is_space(s[0]) {
        drop_leading(s.drop_first())
    } else {
        s
    }
}

/// `s` without its trailing whitespace.
pub open spec fn drop_trailing(s: Seq<char>) -> Seq<char>
    decreases s.len(),
{
    if s.len() > 0 && is_space(s[s.len() - 1]) {
        drop_trailing(s.drop_last())
    } else {
        s
    }
}

/// `s` without leading and trailing whitespace.
pub open spec fn trimmed(s: Seq<char>) -> Seq<char> {
    drop_trailing(drop_leading(s))
}

/// `p` is an initial segment of `s`.
pub open spec fn has_prefix(s: Seq<char>, p: Seq<char>) -> bool {
    p.len() <= s.len() && s.subrange(0, p.len() as int) == p
}

/// The command prefix that submits a flag.
pub open spec fn flag_prefix() -> Seq<char> {
    seq!['!', 'f', 'l', 'a', 'g']
}

/// The command prefix that asks for help.
pub open spec fn help_prefix() -> Seq<char> {
    seq!['!', 'h', 'e', 'l', 'p']
}

/// A parsed user request.
#[derive(Clone, Debug, PartialEq, Eq)]
pub enum Command {
    /// `!flag <token>`: the token as submitted, not yet validated.
    Flag(String),
    /// `!help`.
    Help,
    /// Anything else: ignored without a reply.
    Unrecognized,
}

/// Spec-level image of a `Command`.
pub ghost enum CommandView {
    Flag(Seq<char>),
    Help,
    Unrecognized,
}

impl View for Command {
    type V = CommandView;

    open spec fn view(&self) -> CommandView {
        match self {
            Command::Flag(t) => CommandView::Flag(t@),
            Command::Help => CommandView::Help,
            Command::Unrecognized => CommandView::Unrecognized,
        }
    }
}

/// What `route` returns for a given message text.
pub open spec fn route_spec(msg: Seq<char>) -> CommandView {
    let t = trimmed(msg);
    if has_prefix(t, flag_prefix()) {
        CommandView::Flag(trimmed(t.skip(5)))
    } else if has_prefix(t, help_prefix()) {
        CommandView::Help
    } else {
        CommandView::Unrecognized
    }
}

proof fn lemma_drop_leading_subrange(s: Seq<char>, i: int)
    requires
        0 <= i <= s.len(),
        forall|j: int| 0 <= j < i ==> is_space(#[trigger] s[j]),
        i == s.len() || !is_space(s[i]),
    ensures
        drop_leading(s) == s.subrange(i, s.len() as int),
    decreases i,
{
    if i == 0 {
        assert(s.subrange(0, s.len() as int) =~= s);
    } else {
        lemma_drop_leading_subrange(s.drop_first(), i - 1);
        assert(s.drop_first().subrange(i - 1, s.drop_first().len() as int) =~= s.subrange(
            i,
            s.len() as int,
        ));
    }
}

proof fn lemma_drop_trailing_subrange(s: Seq<char>, k: int)
    requires
        0 <= k <= s.len(),
        forall|j: int| k <= j < s.len() ==> is_space(#[trigger] s[j]),
        k == 0 || !is_space(s[k - 1]),
    ensures
        drop_trailing(s) == s.subrange(0, k),
    decreases s.len() - k,
{
    if k == s.len() {
        assert(s.subrange(0, s.len() as int) =~= s);
    } else {
        lemma_drop_trailing_subrange(s.drop_last(), k);
        assert(s.drop_last().subrange(0, k) =~= s.subrange(0, k));
    }
}

/// Decides `is_space` on a concrete character.
pub fn space_char(c: char) -> (r: bool)
    ensures
        r == is_space(c),
{
    c == ' ' || c == '\t' || c == '\n' || c == '\r'
}

/// Returns the slice of `s` with leading and trailing whitespace removed.
pub fn trim(s: &str) -> (r: &str)
    ensures
        r@ == trimmed(s@),
{
    let n = s.unicode_len();
    let mut start: usize = 0;
    while start < n && space_char(s.get_char(start))
        invariant
            0 <= start <= n,
            n == s@.len(),
            forall|j: int| 0 <= j < start ==> is_space(#[trigger] s@[j]),
        decreases n - start,
    {
        start = start + 1;
    }
    let mut end: usize = n;
    while end > start && space_char(s.get_char(end - 1))
        invariant
            start <= end <= n,
            n == s@.len(),
            forall|j: int| end <= j < n ==> is_space(#[trigger] s@[j]),
        decreases end,
    {
        end = end - 1;
    }
    let r = s.substring_char(start, end);
    proof {
        lemma_drop_leading_subrange(s@, start as int);
        let t = s@.subrange(start as int, s@.len() as int);
        if end == start {
            lemma_drop_trailing_subrange(t, 0);
        } else {
            lemma_drop_trailing_subrange(t, end - start);
        }
        assert(t.subrange(0, end - start) =~= s@.subrange(start as int, end as int));
    }
    r
}

/// Whether `s` starts with `!flag`.
fn starts_with_flag(s: &str) -> (r: bool)
    ensures
        r == has_prefix(s@, flag_prefix()),
{
    let n = s.unicode_len();
    if n < 5 {
        return false;
    }
    let r = s.get_char(0) == '!' && s.get_char(1) == 'f' && s.get_char(2) == 'l' && s.get_char(3)
        == 'a' && s.get_char(4) == 'g';
    proof {
        if r {
            assert(s@.subrange(0, 5) =~= flag_prefix());
        } else {
            assert(s@.subrange(0, 5) != flag_prefix());
        }
    }
    r
}

/// Whether `s` starts with `!help`.
fn starts_with_help(s: &str) -> (r: bool)
    ensures
        r == has_prefix(s@, help_prefix()),
{
    let n = s.unicode_len();
    if n < 5 {
        return false;
    }
    let r = s.get_char(0) == '!' && s.get_char(1) == 'h' && s.get_char(2) == 'e' && s.get_char(3)
        == 'l' && s.get_char(4) == 'p';
    proof {
        if r {
            assert(s@.subrange(0, 5) =~= help_prefix());
        } else {
            assert(s@.subrange(0, 5) != help_prefix());
        }
    }
    r
}

/// Parses a raw message into a command. Validation of the token is left to
/// the flag check; even an empty or malformed token routes to `Flag`.
pub fn route(message_text: &str) -> (c: Command)
    ensures
        c@ == route_spec(message_text@),
{
    let t = trim(message_text);
    if starts_with_flag(t) {
        let n = t.unicode_len();
        let rest = t.substring_char(5, n);
        proof {
            assert(rest@ =~= t@.skip(5));
        }
        let token = trim(rest);
        Command::Flag(token.to_owned())
    } else if starts_with_help(t) {
        Command::Help
    } else {
        Command::Unrecognized
    }
}

} // verus!
