//! The worst-case length calculator: the longest token of a list, the
//! larger of two lengths, and the facts about them that the per-size
//! maxima rest on.

use vstd::prelude::*;
use vstd::utf8::is_ascii_chars;
use vstd::utf8::is_ascii_chars_encode_utf8;
use crate::words::wf_list;
use crate::words::wf_token;

verus! {

/// The larger of two lengths; a tie returns the left operand.
pub open spec fn max_nat(a: nat, b: nat) -> nat {
    if a < b {
        b
    } else {
        a
    }
}

pub fn max(a: usize, b: usize) -> (r: usize)
    ensures
        r == max_nat(a as nat, b as nat),
        r == a || r == b,
{
    if a < b {
        b
    } else {
        a
    }
}

/// The views of a list of tokens.
pub open spec fn views_of(items: Seq<&'static str>) -> Seq<Seq<char>> {
    items.map_values(|s: &'static str| s@)
}

/// Length of the longest token in a list, 0 for an empty list.  For
/// the ASCII tokens of this crate a token's byte length equals its
/// number of characters, so this is also the longest byte length.
pub open spec fn max_len_of(ss: Seq<Seq<char>>) -> nat
    decreases ss.len(),
{
    if ss.len() == 0 {
        0
    } else {
        max_nat(ss.last().len(), max_len_of(ss.drop_last()))
    }
}

/// No member of a list is longer than the list's maximum.
pub proof fn lemma_member_le_max(ss: Seq<Seq<char>>, i: int)
    requires
        0 <= i < ss.len(),
    ensures
        ss[i].len() <= max_len_of(ss),
    decreases ss.len(),
{
    if i < ss.len() - 1 {
        lemma_member_le_max(ss.drop_last(), i);
    }
}

/// `lemma_member_le_max`, stated over membership instead of an index.
pub proof fn lemma_contains_le_max(ss: Seq<Seq<char>>, t: Seq<char>)
    requires
        ss.contains(t),
    ensures
        t.len() <= max_len_of(ss),
{
    let i = choose|i: int| 0 <= i < ss.len() && ss[i] == t;
    lemma_member_le_max(ss, i);
}

/// The noun lists are long enough that the longest token of the
/// family a call did not choose covers all the hyphens and joining
/// words any template inserts.
pub proof fn lemma_noun_maxima()
    ensures
        max_len_of(crate::words::animals_spec()) >= 12,
        max_len_of(crate::words::jobs_spec()) >= 13,
{
    reveal_strlit("hippopotamus");
    reveal_strlit("mathematician");
    assert(crate::words::animals_spec()[6] == "hippopotamus"@);
    lemma_member_le_max(crate::words::animals_spec(), 6);
    assert(crate::words::jobs_spec()[6] == "mathematician"@);
    lemma_member_le_max(crate::words::jobs_spec(), 6);
}

/// A bound on every member's length bounds the list's maximum.
pub proof fn lemma_max_le_bound(ss: Seq<Seq<char>>, b: nat)
    requires
        forall|i: int| 0 <= i < ss.len() ==> (#[trigger] ss[i]).len() <= b,
    ensures
        max_len_of(ss) <= b,
    decreases ss.len(),
{
    if ss.len() > 0 {
        assert(ss.last() == ss[ss.len() - 1]);
        lemma_max_le_bound(ss.drop_last(), b);
    }
}

/// The longest token of a well-formed list fits the per-token cap.
pub proof fn lemma_wf_max_bounds(ss: Seq<Seq<char>>)
    requires
        wf_list(ss),
    ensures
        1 <= max_len_of(ss) <= 32,
{
    assert forall|i: int| 0 <= i < ss.len() implies (#[trigger] ss[i]).len() <= 32 by {
        assert(wf_token(ss[i]));
    }
    lemma_max_le_bound(ss, 32);
    lemma_member_le_max(ss, 0);
    assert(wf_token(ss[0]));
}

/// Scans a word list and returns the byte length of its longest entry.
pub fn get_max_len(items: &Vec<&'static str>) -> (r: usize)
    requires
        forall|i: int| 0 <= i < items@.len() ==> wf_token((#[trigger] items@[i])@),
    ensures
        r as nat == max_len_of(views_of(items@)),
{
    let ghost vs = views_of(items@);
    let mut i: usize = 0;
    let mut largest: usize = 0;
    while i < items.len()
        invariant
            i <= items@.len(),
            vs == views_of(items@),
            forall|k: int| 0 <= k < items@.len() ==> wf_token((#[trigger] items@[k])@),
            largest as nat == max_len_of(vs.take(i as int)),
        decreases items@.len() - i,
    {
        let len = items[i].len();
        proof {
            assert(wf_token(items@[i as int]@));
            assert(is_ascii_chars(items@[i as int]@));
            is_ascii_chars_encode_utf8(items@[i as int]@);
            assert(vs[i as int] == items@[i as int]@);
            assert(len as nat == vs[i as int].len());
            assert(vs.take(i + 1).drop_last() =~= vs.take(i as int));
            assert(vs.take(i + 1).last() == vs[i as int]);
        }
        if len > largest {
            largest = len;
        }
        i += 1;
    }
    proof {
        assert(vs.take(items@.len() as int) =~= vs);
    }
    largest
}

} // verus!
