//! Formatting of outcomes into user-visible replies.
//!
//! Successes and user errors are echoed back with a symbolic marker; an
//! internal error produces no reply at all. That silence is deliberate
//! policy: internal failures (a misconfigured role, a platform outage)
//! must not leak detail to end users, who see the command go unanswered
//! while the operator's log records the cause.

use vstd::prelude::*;

use crate::grant::Outcome;
use crate::grant::OutcomeView;

verus! {

/// Marker put in front of an affirmative reply.
pub open spec fn success_marker() -> Seq<char> {
    ":white_check_mark: "@
}

/// Marker put in front of a rejection reply.
pub open spec fn failure_marker() -> Seq<char> {
    ":x: "@
}

/// The reply, if any, an outcome produces. The messages of user errors are
/// echoed verbatim: they are fixed, developer-authored strings, never
/// derived from user input.
pub open spec fn format_spec(o: OutcomeView) -> Option<Seq<char>> {
    match o {
        OutcomeView::Success(m) => Some(success_marker() + m),
        OutcomeView::UserError(m) => Some(failure_marker() + m),
        OutcomeView::InternalError(m) => None,
    }
}

/// Renders an outcome as the text to send back, or `None` when nothing at
/// all is to be sent (internal errors are only logged).
pub fn format(outcome: &Outcome) -> (r: Option<String>)
    ensures
        match r {
            Some(s) => format_spec(outcome@) == Some(s@),
            None => format_spec(outcome@) is None,
        },
{
    match outcome {
        Outcome::Success(m) => {
            let mut s = ":white_check_mark: ".to_owned();
            s.append(m.as_str());
            Some(s)
        },
        Outcome::UserError(m) => {
            let mut s = ":x: ".to_owned();
            s.append(m.as_str());
            Some(s)
        },
        Outcome::InternalError(_) => None,
    }
}

/// The static usage reply for `!help`.
pub open spec fn help_text() -> Seq<char> {
    ":bulb: Tu peux rentrer ton flag comme ceci: `!flag <flag>`. Le flag est de la forme `CA{c0dE_4n0n}`. Bonne chance ! :pirate_flag:"@
}

/// Builds the usage reply for `!help`.
pub fn help_message() -> (s: String)
    ensures
        s@ == help_text(),
{
    ":bulb: Tu peux rentrer ton flag comme ceci: `!flag <flag>`. Le flag est de la forme `CA{c0dE_4n0n}`. Bonne chance ! :pirate_flag:".to_owned()
}

} // verus!
