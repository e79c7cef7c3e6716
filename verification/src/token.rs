//! The two predicates that gate what may be interpolated into a shell word.

use vstd::prelude::*;
use crate::text::chars_of;

verus! {

/// A character of the class `[a-z0-9_-]`.
pub open spec fn is_safe_char(c: char) -> bool {
    ('a' <= c && c <= 'z') || ('0' <= c && c <= '9') || c == '_' || c == '-'
}

/// An ASCII decimal digit.
pub open spec fn is_digit_char(c: char) -> bool {
    '0' <= c && c <= '9'
}

/// A safe token: non-empty, every character of the class `[a-z0-9_-]`.
pub open spec fn safe_token(s: Seq<char>) -> bool {
    s.len() > 0 && forall|i: int| 0 <= i < s.len() ==> is_safe_char(#[trigger] s[i])
}

/// A port token: non-empty, every character an ASCII decimal digit.
pub open spec fn port_token(s: Seq<char>) -> bool {
    s.len() > 0 && forall|i: int| 0 <= i < s.len() ==> is_digit_char(#[trigger] s[i])
}

/// A character that ends a double-quoted shell word or starts an expansion
/// inside one.
pub open spec fn is_shell_special(c: char) -> bool {
    c == '"' || c == '\\' || c == '$' || c == '`' || c == '!' || c == '\n'
}

/// A token of either class holds no character that could end the
/// double-quoted shell word it is written into, nor start an expansion there.
pub proof fn lemma_token_is_inert(t: Seq<char>)
    requires
        safe_token(t) || port_token(t),
    ensures
        forall|i: int| 0 <= i < t.len() ==> !is_shell_special(#[trigger] t[i]),
{
}

/// Whether `c` belongs to `[a-z0-9_-]`.
pub fn safe_char(c: char) -> (b: bool)
    ensures
        b == is_safe_char(c),
{
    ('a' <= c && c <= 'z') || ('0' <= c && c <= '9') || c == '_' || c == '-'
}

/// Whether `c` is an ASCII decimal digit.
pub fn digit_char(c: char) -> (b: bool)
    ensures
        b == is_digit_char(c),
{
    '0' <= c && c <= '9'
}

/// Whether every character of `v` is of the class `[a-z0-9_-]` and there is
/// at least one.
pub fn safe_chars(v: &Vec<char>) -> (b: bool)
    ensures
        b == safe_token(v@),
{
    if v.len() == 0 {
        return false;
    }
    let mut i: usize = 0;
    while i < v.len()
        invariant
            i <= v.len(),
            forall|j: int| 0 <= j < i ==> is_safe_char(#[trigger] v@[j]),
        decreases v.len() - i,
    {
        if !safe_char(v[i]) {
            return false;
        }
        i += 1;
    }
    true
}

/// Whether every character of `v` is a decimal digit and there is at least
/// one.
pub fn digit_chars(v: &Vec<char>) -> (b: bool)
    ensures
        b == port_token(v@),
{
    if v.len() == 0 {
        return false;
    }
    let mut i: usize = 0;
    while i < v.len()
        invariant
            i <= v.len(),
            forall|j: int| 0 <= j < i ==> is_digit_char(#[trigger] v@[j]),
        decreases v.len() - i,
    {
        if !digit_char(v[i]) {
            return false;
        }
        i += 1;
    }
    true
}

/// Decides whether `s` may stand as a project or verb token.
pub fn is_safe_token(s: &str) -> (b: bool)
    ensures
        b == safe_token(s@),
{
    let v = chars_of(s);
    safe_chars(&v)
}

/// Decides whether `s` may stand as a port token.
pub fn is_port_token(s: &str) -> (b: bool)
    ensures
        b == port_token(s@),
{
    let v = chars_of(s);
    digit_chars(&v)
}

} // verus!
