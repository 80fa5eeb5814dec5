//! What the rules of a payload's fields have in common.
use crate::text::joined;
use vstd::prelude::*;

verus! {

/// The length of a text as `serde_valid` counts it: in extended grapheme
/// clusters, what a reader takes for characters.
pub uninterp spec fn length_in_graphemes(s: Seq<char>) -> nat;

/// `serde_valid::ValidateMinLength::validate_min_length` on a string:
/// whether the text is at least `min` grapheme clusters long.
#[verifier::external_body]
pub(crate) fn has_min_length(s: &str, min: usize) -> (r: bool)
    ensures
        r == (min <= length_in_graphemes(s@)),
{
    serde_valid::ValidateMinLength::validate_min_length(s, min).is_ok()
}

/// The messages of the rules that a payload broke, as texts.
pub open spec fn messages_view(messages: Seq<&'static str>) -> Seq<Seq<char>> {
    Seq::new(messages.len(), |i: int| messages[i]@)
}

/// The messages in one line, with `; ` between one and the next.
pub open spec fn in_one_line(messages: Seq<Seq<char>>) -> Seq<char>
    decreases messages.len(),
{
    if messages.len() == 0 {
        Seq::empty()
    } else if messages.len() == 1 {
        messages[0]
    } else {
        in_one_line(messages.drop_last()) + "; "@ + messages.last()
    }
}

/// Puts the messages of broken rules in one line.
pub fn one_line(messages: &Vec<&'static str>) -> (line: String)
    ensures
        line@ == in_one_line(messages_view(messages@)),
{
    let ghost all = messages_view(messages@);
    let mut line = String::new();
    let mut i: usize = 0;
    assert(all.take(0) =~= Seq::<Seq<char>>::empty());
    while i < messages.len()
        invariant
            i <= messages.len(),
            all == messages_view(messages@),
            line@ == in_one_line(all.take(i as int)),
        decreases messages.len() - i,
    {
        let ghost before = all.take(i as int);
        let ghost after = all.take(i + 1);
        assert(after.drop_last() =~= before);
        assert(after.last() == messages@[i as int]@);
        if i > 0 {
            line.append("; ");
        } else {
            assert(after[0] == messages@[0]@);
            assert(Seq::<char>::empty() + messages@[0]@ =~= messages@[0]@);
        }
        line.append(messages[i]);
        i += 1;
    }
    assert(all.take(messages.len() as int) =~= all);
    line
}

} // verus!
