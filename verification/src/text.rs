//! Text helpers on sequences of characters, each proved against a short
//! mathematical statement of what it computes.
use vstd::prelude::*;

verus! {

/// `pat` occurs in `s` starting at index `i`.
pub open spec fn occurs_at(s: Seq<char>, pat: Seq<char>, i: int) -> bool {
    0 <= i && i + pat.len() <= s.len() && s.subrange(i, i + pat.len()) == pat
}

/// `s` begins with `p`.
pub open spec fn has_prefix(s: Seq<char>, p: Seq<char>) -> bool {
    occurs_at(s, p, 0)
}

/// `pat` occurs somewhere in `s`.
pub open spec fn contains_text(s: Seq<char>, pat: Seq<char>) -> bool {
    exists|i: int| occurs_at(s, pat, i)
}

/// `s` with every leading copy of the non-empty `p` removed.
pub open spec fn without_leading(s: Seq<char>, p: Seq<char>) -> Seq<char>
    decreases s.len(),
{
    if p.len() > 0 && has_prefix(s, p) {
        without_leading(s.skip(p.len() as int), p)
    } else {
        s
    }
}

/// `s` with every leading `c` removed.
pub open spec fn without_leading_char(s: Seq<char>, c: char) -> Seq<char>
    decreases s.len(),
{
    if s.len() > 0 && s[0] == c {
        without_leading_char(s.skip(1), c)
    } else {
        s
    }
}

/// `s` with every trailing `c` removed.
pub open spec fn without_trailing_char(s: Seq<char>, c: char) -> Seq<char>
    decreases s.len(),
{
    if s.len() > 0 && s.last() == c {
        without_trailing_char(s.drop_last(), c)
    } else {
        s
    }
}

/// `s` with each occurrence of `pat`, found from the left and never
/// overlapping, replaced by `to`. An empty `pat` matches before every
/// character and at the end.
pub open spec fn replaced(s: Seq<char>, pat: Seq<char>, to: Seq<char>) -> Seq<char>
    decreases s.len(),
{
    if pat.len() == 0 {
        if s.len() == 0 {
            to
        } else {
            to + seq![s[0]] + replaced(s.skip(1), pat, to)
        }
    } else if s.len() == 0 {
        s
    } else if has_prefix(s, pat) {
        to + replaced(s.skip(pat.len() as int), pat, to)
    } else {
        seq![s[0]] + replaced(s.skip(1), pat, to)
    }
}

/// Appends one character, as `String::push` of std does.
#[verifier::external_body]
pub(crate) fn push_char(s: &mut String, c: char)
    ensures
        final(s)@ == old(s)@.push(c),
{
    s.push(c)
}

/// The characters of `s`, in order.
pub fn chars_of(s: &str) -> (v: Vec<char>)
    ensures
        v@ == s@,
{
    let mut v: Vec<char> = Vec::new();
    for c in it: s.chars()
        invariant
            v@ == it.seq().take(it.index() as int),
            it.seq() == s@,
    {
        v.push(c);
    }
    v
}

/// The string made of `v[from..to]`.
pub fn text_of_range(v: &Vec<char>, from: usize, to: usize) -> (s: String)
    requires
        from <= to <= v.len(),
    ensures
        s@ == v@.subrange(from as int, to as int),
{
    let mut s = String::new();
    let mut i: usize = from;
    while i < to
        invariant
            from <= i <= to <= v.len(),
            s@ == v@.subrange(from as int, i as int),
        decreases to - i,
    {
        push_char(&mut s, v[i]);
        i += 1;
    }
    s
}

/// Whether two strings hold the same characters.
pub fn same_text(a: &str, b: &str) -> (r: bool)
    ensures
        r == (a@ == b@),
{
    let x = a.to_owned();
    let y = b.to_owned();
    x == y
}

/// `a` followed by `b`.
pub fn joined(a: &str, b: &str) -> (r: String)
    ensures
        r@ == a@ + b@,
{
    let mut r = a.to_owned();
    r.append(b);
    r
}

/// Whether `pat` occurs in `s` at index `i`.
pub fn matches_at(s: &Vec<char>, pat: &Vec<char>, i: usize) -> (r: bool)
    ensures
        r == occurs_at(s@, pat@, i as int),
{
    if i > s.len() || pat.len() > s.len() - i {
        return false;
    }
    let mut j: usize = 0;
    while j < pat.len()
        invariant
            j <= pat.len(),
            i + pat.len() <= s.len(),
            forall|k: int| 0 <= k < j ==> s@[i + k] == pat@[k],
        decreases pat.len() - j,
    {
        if s[i + j] != pat[j] {
            assert(s@.subrange(i as int, i + pat.len())[j as int] != pat@[j as int]);
            return false;
        }
        j += 1;
    }
    assert(s@.subrange(i as int, i + pat.len()) =~= pat@);
    true
}

/// Whether `s` begins with `prefix`.
pub fn starts_with(s: &str, prefix: &str) -> (r: bool)
    ensures
        r == has_prefix(s@, prefix@),
{
    let sv = chars_of(s);
    let pv = chars_of(prefix);
    matches_at(&sv, &pv, 0)
}

/// Whether `pat` occurs anywhere in `s`.
pub fn contains(s: &str, pat: &str) -> (r: bool)
    ensures
        r == contains_text(s@, pat@),
{
    let sv = chars_of(s);
    let pv = chars_of(pat);
    if pv.len() > sv.len() {
        return false;
    }
    let last: usize = sv.len() - pv.len();
    let mut i: usize = 0;
    loop
        invariant
            last == sv.len() - pv.len(),
            i <= last,
            sv@ == s@,
            pv@ == pat@,
            forall|k: int| 0 <= k < i ==> !occurs_at(s@, pat@, k),
        decreases last - i,
    {
        if matches_at(&sv, &pv, i) {
            return true;
        }
        if i == last {
            return false;
        }
        i += 1;
    }
}

/// `s` with every leading copy of `prefix` removed.
pub fn strip_leading(s: &str, prefix: &str) -> (r: String)
    ensures
        r@ == without_leading(s@, prefix@),
{
    let sv = chars_of(s);
    let pv = chars_of(prefix);
    let mut i: usize = 0;
    assert(s@.skip(0) =~= s@);
    let mut more = pv.len() > 0 && matches_at(&sv, &pv, 0);
    while more
        invariant
            i <= sv.len(),
            sv@ == s@,
            pv@ == prefix@,
            more == (pv.len() > 0 && occurs_at(s@, prefix@, i as int)),
            without_leading(s@, prefix@) == without_leading(s@.skip(i as int), prefix@),
        decreases sv.len() - i,
    {
        assert(s@.skip(i as int).subrange(0, pv.len() as int) =~= s@.subrange(
            i as int,
            i + pv.len(),
        ));
        assert(s@.skip(i as int).skip(pv.len() as int) =~= s@.skip(i + pv.len()));
        i += pv.len();
        more = matches_at(&sv, &pv, i);
    }
    assert(!(pv.len() > 0 && has_prefix(s@.skip(i as int), prefix@))) by {
        if pv.len() > 0 && has_prefix(s@.skip(i as int), prefix@) {
            assert(s@.skip(i as int).subrange(0, pv.len() as int) =~= s@.subrange(
                i as int,
                i + pv.len(),
            ));
        }
    }
    let r = text_of_range(&sv, i, sv.len());
    assert(s@.skip(i as int) =~= sv@.subrange(i as int, sv.len() as int));
    r
}

/// `s` with every leading `c` removed.
pub fn strip_leading_char(s: &str, c: char) -> (r: String)
    ensures
        r@ == without_leading_char(s@, c),
{
    let sv = chars_of(s);
    let mut i: usize = 0;
    assert(s@.skip(0) =~= s@);
    while i < sv.len() && sv[i] == c
        invariant
            i <= sv.len(),
            sv@ == s@,
            without_leading_char(s@, c) == without_leading_char(s@.skip(i as int), c),
        decreases sv.len() - i,
    {
        assert(s@.skip(i as int).skip(1) =~= s@.skip(i + 1));
        i += 1;
    }
    let r = text_of_range(&sv, i, sv.len());
    assert(s@.skip(i as int) =~= sv@.subrange(i as int, sv.len() as int));
    r
}

/// `s` with every trailing `c` removed.
pub fn strip_trailing_char(s: &str, c: char) -> (r: String)
    ensures
        r@ == without_trailing_char(s@, c),
{
    let sv = chars_of(s);
    let mut n: usize = sv.len();
    assert(s@.take(n as int) =~= s@);
    while n > 0 && sv[n - 1] == c
        invariant
            n <= sv.len(),
            sv@ == s@,
            without_trailing_char(s@, c) == without_trailing_char(s@.take(n as int), c),
        decreases n,
    {
        assert(s@.take(n as int).drop_last() =~= s@.take(n - 1));
        n -= 1;
    }
    let r = text_of_range(&sv, 0, n);
    assert(s@.take(n as int) =~= sv@.subrange(0, n as int));
    r
}

/// `s` with each occurrence of `pat` replaced by `to`, as `str::replace` of
/// std does.
pub fn replace_all(s: &str, pat: &str, to: &str) -> (r: String)
    ensures
        r@ == replaced(s@, pat@, to@),
{
    let sv = chars_of(s);
    let pv = chars_of(pat);
    let mut out = String::new();
    let mut i: usize = 0;
    assert(s@.skip(0) =~= s@);
    while i < sv.len()
        invariant
            i <= sv.len(),
            sv@ == s@,
            pv@ == pat@,
            replaced(s@, pat@, to@) == out@ + replaced(s@.skip(i as int), pat@, to@),
        decreases sv.len() - i,
    {
        let ghost rest = s@.skip(i as int);
        let ghost before = out@;
        assert(rest.len() > 0);
        assert(rest[0] == sv@[i as int]);
        if pv.len() == 0 {
            out.append(to);
            push_char(&mut out, sv[i]);
            assert(rest.skip(1) =~= s@.skip(i + 1));
            assert(out@ + replaced(s@.skip(i + 1), pat@, to@) =~= before + (to@ + seq![rest[0]]
                + replaced(rest.skip(1), pat@, to@)));
            i += 1;
        } else if matches_at(&sv, &pv, i) {
            assert(rest.subrange(0, pv.len() as int) =~= s@.subrange(i as int, i + pv.len()));
            out.append(to);
            assert(rest.skip(pv.len() as int) =~= s@.skip(i + pv.len()));
            assert(out@ + replaced(s@.skip(i + pv.len()), pat@, to@) =~= before + (to@
                + replaced(rest.skip(pv.len() as int), pat@, to@)));
            i += pv.len();
        } else {
            assert(!has_prefix(rest, pat@)) by {
                if has_prefix(rest, pat@) {
                    assert(rest.subrange(0, pv.len() as int) =~= s@.subrange(
                        i as int,
                        i + pv.len(),
                    ));
                }
            }
            push_char(&mut out, sv[i]);
            assert(rest.skip(1) =~= s@.skip(i + 1));
            assert(out@ + replaced(s@.skip(i + 1), pat@, to@) =~= before + (seq![rest[0]]
                + replaced(rest.skip(1), pat@, to@)));
            i += 1;
        }
    }
    assert(s@.skip(i as int).len() == 0);
    if pv.len() == 0 {
        out.append(to);
        assert(replaced(s@.skip(i as int), pat@, to@) == to@);
    } else {
        assert(replaced(s@.skip(i as int), pat@, to@) =~= Seq::<char>::empty());
        assert(out@ + Seq::<char>::empty() =~= out@);
    }
    out
}

/// Whether `c` has the Unicode property White_Space, as `char::is_whitespace`
/// of std tells. The property is named, not spelt out: which characters
/// have it is the Unicode Character Database's to say.
pub uninterp spec fn is_white_space(c: char) -> bool;

/// No character of `s` is anything but white space.
pub open spec fn is_blank_text(s: Seq<char>) -> bool {
    forall|i: int| 0 <= i < s.len() ==> is_white_space(#[trigger] s[i])
}

/// `char::is_whitespace` of std.
#[verifier::external_body]
pub(crate) fn char_is_whitespace(c: char) -> (r: bool)
    ensures
        r == is_white_space(c),
{
    c.is_whitespace()
}

/// Whether `s` is empty once leading and trailing white space is taken
/// away, that is, whether it holds nothing but white space.
pub fn is_blank(s: &str) -> (r: bool)
    ensures
        r == is_blank_text(s@),
{
    let sv = chars_of(s);
    let mut i: usize = 0;
    while i < sv.len()
        invariant
            i <= sv.len(),
            sv@ == s@,
            forall|k: int| 0 <= k < i ==> is_white_space(#[trigger] s@[k]),
        decreases sv.len() - i,
    {
        if !char_is_whitespace(sv[i]) {
            return false;
        }
        i += 1;
    }
    true
}

} // verus!
