//! Joining pieces of text, in the model and in executable code.

use vstd::prelude::*;
use vstd::string::StringExecFns;

verus! {

/// The parts written one after another, with `separator` between neighbours.
///
/// No part is looked into: a part that itself holds the separator stays one part.
pub open spec fn joined(parts: Seq<Seq<char>>, separator: Seq<char>) -> Seq<char>
    decreases parts.len(),
{
    if parts.len() == 0 {
        Seq::empty()
    } else if parts.len() == 1 {
        parts[0]
    } else {
        joined(parts.drop_last(), separator) + separator + parts.last()
    }
}

/// Joining one more part onto a non-empty list appends the separator and the part.
pub proof fn lemma_joined_push(parts: Seq<Seq<char>>, part: Seq<char>, separator: Seq<char>)
    ensures
        joined(parts.push(part), separator) == if parts.len() == 0 {
            part
        } else {
            joined(parts, separator) + separator + part
        },
{
    let longer = parts.push(part);
    assert(longer.drop_last() =~= parts);
    assert(longer.last() == part);
}

/// Joining two non-empty lists one after the other joins each and puts the
/// separator between the two.
pub proof fn lemma_joined_concat(
    front: Seq<Seq<char>>,
    back: Seq<Seq<char>>,
    separator: Seq<char>,
)
    requires
        front.len() >= 1,
        back.len() >= 1,
    ensures
        joined(front + back, separator) == joined(front, separator) + separator + joined(
            back,
            separator,
        ),
    decreases back.len(),
{
    if back.len() == 1 {
        assert(front + back =~= front.push(back[0]));
        lemma_joined_push(front, back[0], separator);
    } else {
        lemma_joined_concat(front, back.drop_last(), separator);
        assert((front + back).drop_last() =~= front + back.drop_last());
        assert((front + back).last() == back.last());
        assert(joined(front + back, separator) =~= joined(front, separator) + separator + joined(
            back,
            separator,
        ));
    }
}

/// Writes `parts` one after another with `separator` between neighbours.
pub fn join_segments(parts: &Vec<String>, separator: &str) -> (out: String)
    ensures
        out@ == joined(parts.deep_view(), separator@),
{
    let mut out = String::new();
    let mut i: usize = 0;
    while i < parts.len()
        invariant
            i <= parts.len(),
            out@ == joined(parts.deep_view().take(i as int), separator@),
        decreases parts.len() - i,
    {
        proof {
            let done = parts.deep_view().take(i as int);
            lemma_joined_push(done, parts.deep_view()[i as int], separator@);
            assert(parts.deep_view().take(i + 1) =~= done.push(parts.deep_view()[i as int]));
        }
        if i > 0 {
            out.append(separator);
        }
        out.append(parts[i].as_str());
        i += 1;
    }
    proof {
        assert(parts.deep_view().take(parts.len() as int) =~= parts.deep_view());
    }
    out
}

} // verus!
