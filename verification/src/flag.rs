//! Syntactic validation of flag tokens.
//!
//! A flag token has the fixed shape `CA{` followed by one or more word
//! characters (ASCII letters, digits, underscore) and a closing `}`. The
//! check is purely syntactic: it says nothing about whether the token is
//! actually in the flag table.

use vstd::prelude::*;

verus! {

/// A character allowed between the braces of a flag token.
pub open spec fn is_flag_char(c: char) -> bool {
    ||| 'a' as u32 <= c as u32 && c as u32 <= 'z' as u32
    ||| 'A' as u32 <= c as u32 && c as u32 <= 'Z' as u32
    ||| '0' as u32 <= c as u32 && c as u32 <= '9' as u32
    ||| c == '_'
}

/// The whole string has the shape `CA{` + one or more flag characters + `}`.
pub open spec fn is_flag_token(s: Seq<char>) -> bool {
    &&& s.len() >= 5
    &&& s[0] == 'C'
    &&& s[1] == 'A'
    &&& s[2] == '{'
    &&& s[s.len() - 1] == '}'
    &&& forall|i: int| 3 <= i < s.len() - 1 ==> is_flag_char(#[trigger] s[i])
}

/// Decides `is_flag_char` on a concrete character.
pub fn flag_char(c: char) -> (r: bool)
    ensures
        r == is_flag_char(c),
{
    let u = c as u32;
    ('a' as u32 <= u && u <= 'z' as u32) || ('A' as u32 <= u && u <= 'Z' as u32) || ('0' as u32
        <= u && u <= '9' as u32) || c == '_'
}

/// Decides whether a candidate token has the flag shape.
pub fn flag_matches(candidate: &str) -> (r: bool)
    ensures
        r == is_flag_token(candidate@),
{
    let n = candidate.unicode_len();
    if n < 5 {
        return false;
    }
    if candidate.get_char(0) != 'C' || candidate.get_char(1) != 'A' || candidate.get_char(2) != '{'
        || candidate.get_char(n - 1) != '}' {
        return false;
    }
    let mut i: usize = 3;
    while i < n - 1
        invariant
            3 <= i <= n - 1,
            5 <= n,
            n == candidate@.len(),
            forall|j: int| 3 <= j < i ==> is_flag_char(#[trigger] candidate@[j]),
        decreases n - 1 - i,
    {
        if !flag_char(candidate.get_char(i)) {
            return false;
        }
        i = i + 1;
    }
    true
}

} // verus!
