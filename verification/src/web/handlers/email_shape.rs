//! The shape that a registration asks of an address:
//! `[A-Za-z0-9._%+-]+ @ [A-Za-z0-9.-]+ . [A-Za-z]{2,}`.
use crate::text::chars_of;
use vstd::prelude::*;

verus! {

/// An ASCII letter.
pub open spec fn is_letter(c: char) -> bool {
    ('a' <= c && c <= 'z') || ('A' <= c && c <= 'Z')
}

/// A character of the part before the `@`.
pub open spec fn is_local_char(c: char) -> bool {
    is_letter(c) || ('0' <= c && c <= '9') || c == '.' || c == '_' || c == '%' || c == '+' || c
        == '-'
}

/// A character of the host name.
pub open spec fn is_domain_char(c: char) -> bool {
    is_letter(c) || ('0' <= c && c <= '9') || c == '.' || c == '-'
}

/// `s` is a local part of one character or more, the `@` at index `at`, a
/// host name of one character or more, the dot at index `dot`, and letters,
/// two or more, to the end.
pub open spec fn splits_as_email(s: Seq<char>, at: int, dot: int) -> bool {
    &&& 1 <= at && at + 2 <= dot && dot + 3 <= s.len()
    &&& s[at] == '@' && s[dot] == '.'
    &&& forall|i: int| 0 <= i < at ==> is_local_char(#[trigger] s[i])
    &&& forall|i: int| at < i < dot ==> is_domain_char(#[trigger] s[i])
    &&& forall|i: int| dot < i < s.len() ==> is_letter(#[trigger] s[i])
}

/// `s` has the shape of an address.
pub open spec fn email_shape(s: Seq<char>) -> bool {
    exists|at: int, dot: int| splits_as_email(s, at, dot)
}

fn letter(c: char) -> (r: bool)
    ensures
        r == is_letter(c),
{
    (c >= 'a' && c <= 'z') || (c >= 'A' && c <= 'Z')
}

fn local_char(c: char) -> (r: bool)
    ensures
        r == is_local_char(c),
{
    letter(c) || (c >= '0' && c <= '9') || c == '.' || c == '_' || c == '%' || c == '+' || c == '-'
}

fn domain_char(c: char) -> (r: bool)
    ensures
        r == is_domain_char(c),
{
    letter(c) || (c >= '0' && c <= '9') || c == '.' || c == '-'
}

/// Wherever an address splits, its `@` is the first character that cannot
/// stand in a local part, and its dot is the last character that is no
/// letter.
proof fn lemma_split_is_unique(s: Seq<char>, at: int, k: int, other_at: int, other_dot: int)
    requires
        splits_as_email(s, other_at, other_dot),
        0 <= at <= s.len(),
        forall|i: int| 0 <= i < at ==> is_local_char(#[trigger] s[i]),
        at < s.len() ==> !is_local_char(s[at]),
        at < k <= s.len(),
        forall|i: int| k <= i < s.len() ==> is_letter(#[trigger] s[i]),
        k > at + 1 ==> !is_letter(s[k - 1]),
    ensures
        other_at == at,
        other_dot == k - 1,
{
    if other_at < at {
        assert(is_local_char(s[other_at]));
    }
    if other_at > at {
        assert(is_local_char(s[at]));
    }
    if other_dot >= k {
        assert(is_letter(s[other_dot]));
    }
    if other_dot < k - 1 {
        assert(is_letter(s[k - 1]));
    }
}

/// Whether `s` has the shape of an address.
pub fn is_email_shape(s: &str) -> (r: bool)
    ensures
        r == email_shape(s@),
{
    let v = chars_of(s);
    let mut at: usize = 0;
    while at < v.len() && local_char(v[at])
        invariant
            at <= v.len(),
            forall|i: int| 0 <= i < at ==> is_local_char(#[trigger] v@[i]),
        decreases v.len() - at,
    {
        at += 1;
    }
    if at == v.len() {
        assert forall|a: int, d: int| !splits_as_email(s@, a, d) by {
            if splits_as_email(s@, a, d) {
                assert(is_local_char(s@[a]));
            }
        }
        return false;
    }
    let mut k: usize = v.len();
    while k > at + 1 && letter(v[k - 1])
        invariant
            at < k <= v.len(),
            forall|i: int| k <= i < v.len() ==> is_letter(#[trigger] v@[i]),
        decreases k,
    {
        k -= 1;
    }
    if at == 0 || v[at] != '@' || k - at < 3 || v[k - 1] != '.' || v.len() - k < 2 {
        assert forall|a: int, d: int| !splits_as_email(s@, a, d) by {
            if splits_as_email(s@, a, d) {
                lemma_split_is_unique(s@, at as int, k as int, a, d);
            }
        }
        return false;
    }
    let dot: usize = k - 1;
    let mut i: usize = at + 1;
    while i < dot
        invariant
            at < i <= dot,
            dot == k - 1,
            at < k <= v.len(),
            v@ == s@,
            forall|j: int| 0 <= j < at ==> is_local_char(#[trigger] v@[j]),
            !is_local_char(v@[at as int]),
            forall|j: int| k <= j < v.len() ==> is_letter(#[trigger] v@[j]),
            !is_letter(v@[k - 1]),
            forall|j: int| at < j < i ==> is_domain_char(#[trigger] v@[j]),
        decreases dot - i,
    {
        if !domain_char(v[i]) {
            assert forall|a: int, d: int| !splits_as_email(s@, a, d) by {
                if splits_as_email(s@, a, d) {
                    lemma_split_is_unique(s@, at as int, k as int, a, d);
                    assert(is_domain_char(s@[i as int]));
                }
            }
            return false;
        }
        i += 1;
    }
    assert(splits_as_email(s@, at as int, dot as int));
    true
}

} // verus!
