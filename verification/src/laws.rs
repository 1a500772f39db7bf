//! Properties every identifier of a size shares, stated and proved
//! once over the model: exact hyphen counts and the placement of the
//! template's joining words.

use vstd::prelude::*;
use crate::Size;
use crate::and_sep;
use crate::hyphen;
use crate::is_subject;
use crate::is_valid_id;
use crate::the_sep;
use crate::words;

verus! {

/// Number of occurrences of a character in a sequence.
pub open spec fn count_char(s: Seq<char>, c: char) -> nat
    decreases s.len(),
{
    if s.len() == 0 {
        0
    } else {
        count_char(s.drop_last(), c) + if s.last() == c {
            1nat
        } else {
            0nat
        }
    }
}

/// Counting distributes over concatenation.
pub proof fn lemma_count_concat(a: Seq<char>, b: Seq<char>, c: char)
    ensures
        count_char(a + b, c) == count_char(a, c) + count_char(b, c),
    decreases b.len(),
{
    if b.len() == 0 {
        assert(a + b =~= a);
    } else {
        assert((a + b).drop_last() =~= a + b.drop_last());
        assert((a + b).last() == b.last());
        lemma_count_concat(a, b.drop_last(), c);
    }
}

/// A sequence without a given character counts zero of it.
pub proof fn lemma_absent_count_zero(s: Seq<char>, c: char)
    requires
        forall|i: int| 0 <= i < s.len() ==> s[i] != c,
    ensures
        count_char(s, c) == 0,
    decreases s.len(),
{
    if s.len() > 0 {
        assert(forall|i: int| 0 <= i < s.drop_last().len() ==> s.drop_last()[i] != c);
        lemma_absent_count_zero(s.drop_last(), c);
    }
}

/// The templates' joining pieces hold one or two hyphens each.
proof fn lemma_sep_counts()
    ensures
        count_char(hyphen(), '-') == 1,
        count_char(the_sep(), '-') == 2,
        count_char(and_sep(), '-') == 2,
{
    reveal_strlit("-");
    reveal_strlit("-the-");
    reveal_strlit("-and-");
    reveal_with_fuel(count_char, 8);
}

/// A token of a well-formed list contributes no hyphen of its own.
proof fn lemma_member_count_zero(ss: Seq<Seq<char>>, t: Seq<char>)
    requires
        words::wf_list(ss),
        ss.contains(t),
    ensures
        count_char(t, '-') == 0,
{
    words::lemma_member_wf(ss, t);
    lemma_absent_count_zero(t, '-');
}

/// The subject fragment holds exactly the one hyphen that joins its
/// prefix to its noun.
pub proof fn lemma_subject_hyphens(subj: Seq<char>)
    requires
        is_subject(subj),
    ensures
        count_char(subj, '-') == 1,
{
    words::lemma_animal_prefixes_wf();
    words::lemma_animals_wf();
    words::lemma_job_prefixes_wf();
    words::lemma_jobs_wf();
    lemma_sep_counts();
    if exists|p: Seq<char>, n: Seq<char>|
        #![auto]
        words::animal_prefixes_spec().contains(p) && words::animals_spec().contains(n) && subj == p
            + hyphen() + n {
        let (p, n) = choose|p: Seq<char>, n: Seq<char>|
            #![auto]
            words::animal_prefixes_spec().contains(p) && words::animals_spec().contains(n) && subj
                == p + hyphen() + n;
        lemma_member_count_zero(words::animal_prefixes_spec(), p);
        lemma_member_count_zero(words::animals_spec(), n);
        lemma_count_concat(p, hyphen(), '-');
        lemma_count_concat(p + hyphen(), n, '-');
    } else {
        let (p, n) = choose|p: Seq<char>, n: Seq<char>|
            #![auto]
            words::job_prefixes_spec().contains(p) && words::jobs_spec().contains(n) && subj == p
                + hyphen() + n;
        lemma_member_count_zero(words::job_prefixes_spec(), p);
        lemma_member_count_zero(words::jobs_spec(), n);
        lemma_count_concat(p, hyphen(), '-');
        lemma_count_concat(p + hyphen(), n, '-');
    }
}

/// A Short identifier splits on hyphens into exactly three pieces:
/// the adjective glued to the prefix, the noun, and the name.
pub proof fn lemma_short_id_hyphens(s: Seq<char>)
    requires
        is_valid_id(Size::Short, s),
    ensures
        count_char(s, '-') == 2,
{
    words::lemma_adjectives_wf();
    words::lemma_names_wf();
    lemma_sep_counts();
    let (adj, subj, name) = choose|adj: Seq<char>, subj: Seq<char>, name: Seq<char>|
        #![auto]
        words::adjectives_spec().contains(adj) && is_subject(subj) && words::names_spec().contains(
            name,
        ) && s == adj + subj + hyphen() + name;
    lemma_member_count_zero(words::adjectives_spec(), adj);
    lemma_member_count_zero(words::names_spec(), name);
    lemma_subject_hyphens(subj);
    lemma_count_concat(adj, subj, '-');
    lemma_count_concat(adj + subj, hyphen(), '-');
    lemma_count_concat(adj + subj + hyphen(), name, '-');
}

/// A Long identifier holds exactly five hyphens: two around "the",
/// two around "and", and the subject's own join.
pub proof fn lemma_long_id_hyphens(s: Seq<char>)
    requires
        is_valid_id(Size::Long, s),
    ensures
        count_char(s, '-') == 5,
{
    words::lemma_adjectives_wf();
    words::lemma_names_wf();
    lemma_sep_counts();
    let (name, a1, a2, subj) = choose|name: Seq<char>, a1: Seq<char>, a2: Seq<char>, subj: Seq<char>|
        #![auto]
        words::names_spec().contains(name) && words::adjectives_spec().contains(a1)
            && words::adjectives_spec().contains(a2) && is_subject(subj) && s == name + the_sep()
            + a1 + and_sep() + a2 + subj;
    lemma_member_count_zero(words::names_spec(), name);
    lemma_member_count_zero(words::adjectives_spec(), a1);
    lemma_member_count_zero(words::adjectives_spec(), a2);
    lemma_subject_hyphens(subj);
    lemma_count_concat(name, the_sep(), '-');
    lemma_count_concat(name + the_sep(), a1, '-');
    lemma_count_concat(name + the_sep() + a1, and_sep(), '-');
    lemma_count_concat(name + the_sep() + a1 + and_sep(), a2, '-');
    lemma_count_concat(name + the_sep() + a1 + and_sep() + a2, subj, '-');
}

/// A VeryLong identifier holds exactly six hyphens: one between its
/// two names, two around "the", two around "and", and the subject's
/// own join.
pub proof fn lemma_very_long_id_hyphens(s: Seq<char>)
    requires
        is_valid_id(Size::VeryLong, s),
    ensures
        count_char(s, '-') == 6,
{
    words::lemma_adjectives_wf();
    words::lemma_names_wf();
    lemma_sep_counts();
    let (n1, n2, a1, a2, subj) = choose|
        n1: Seq<char>,
        n2: Seq<char>,
        a1: Seq<char>,
        a2: Seq<char>,
        subj: Seq<char>,
    |
        #![auto]
        words::names_spec().contains(n1) && words::names_spec().contains(n2)
            && words::adjectives_spec().contains(a1) && words::adjectives_spec().contains(a2)
            && is_subject(subj) && s == n1 + hyphen() + n2 + the_sep() + a1 + and_sep() + a2 + subj;
    lemma_member_count_zero(words::names_spec(), n1);
    lemma_member_count_zero(words::names_spec(), n2);
    lemma_member_count_zero(words::adjectives_spec(), a1);
    lemma_member_count_zero(words::adjectives_spec(), a2);
    lemma_subject_hyphens(subj);
    lemma_count_concat(n1, hyphen(), '-');
    lemma_count_concat(n1 + hyphen(), n2, '-');
    lemma_count_concat(n1 + hyphen() + n2, the_sep(), '-');
    lemma_count_concat(n1 + hyphen() + n2 + the_sep(), a1, '-');
    lemma_count_concat(n1 + hyphen() + n2 + the_sep() + a1, and_sep(), '-');
    lemma_count_concat(n1 + hyphen() + n2 + the_sep() + a1 + and_sep(), a2, '-');
    lemma_count_concat(n1 + hyphen() + n2 + the_sep() + a1 + and_sep() + a2, subj, '-');
}

/// A Long identifier contains the literal joining words `-the-` and
/// `-and-`, in that order.
pub proof fn lemma_long_id_markers(s: Seq<char>)
    requires
        is_valid_id(Size::Long, s),
    ensures
        exists|i: int| 0 <= i && i + 5 <= s.len() && #[trigger] s.subrange(i, i + 5) == the_sep(),
        exists|i: int| 0 <= i && i + 5 <= s.len() && #[trigger] s.subrange(i, i + 5) == and_sep(),
{
    reveal_strlit("-the-");
    reveal_strlit("-and-");
    let (name, a1, a2, subj) = choose|name: Seq<char>, a1: Seq<char>, a2: Seq<char>, subj: Seq<char>|
        #![auto]
        words::names_spec().contains(name) && words::adjectives_spec().contains(a1)
            && words::adjectives_spec().contains(a2) && is_subject(subj) && s == name + the_sep()
            + a1 + and_sep() + a2 + subj;
    let i = name.len() as int;
    assert forall|k: int| 0 <= k < 5 implies s[i + k] == the_sep()[k] by {
        assert((name + the_sep())[i + k] == the_sep()[k]);
        assert((name + the_sep() + a1)[i + k] == (name + the_sep())[i + k]);
        assert((name + the_sep() + a1 + and_sep())[i + k] == (name + the_sep() + a1)[i + k]);
        assert((name + the_sep() + a1 + and_sep() + a2)[i + k] == (name + the_sep() + a1
            + and_sep())[i + k]);
        assert(s[i + k] == (name + the_sep() + a1 + and_sep() + a2)[i + k]);
    }
    assert(s.subrange(i, i + 5) =~= the_sep());
    let j = i + 5 + a1.len() as int;
    assert forall|k: int| 0 <= k < 5 implies s[j + k] == and_sep()[k] by {
        assert((name + the_sep() + a1 + and_sep())[j + k] == and_sep()[k]);
        assert((name + the_sep() + a1 + and_sep() + a2)[j + k] == (name + the_sep() + a1
            + and_sep())[j + k]);
        assert(s[j + k] == (name + the_sep() + a1 + and_sep() + a2)[j + k]);
    }
    assert(s.subrange(j, j + 5) =~= and_sep());
}

/// A VeryLong identifier opens with exactly two hyphen-joined name
/// tokens, and the literal `-the-` follows them at once.
pub proof fn lemma_very_long_id_leading_names(s: Seq<char>)
    requires
        is_valid_id(Size::VeryLong, s),
    ensures
        exists|n1: Seq<char>, n2: Seq<char>|
            #![auto]
            words::names_spec().contains(n1) && words::names_spec().contains(n2) && n1.len() + 1
                + n2.len() + 5 <= s.len() && s.subrange(0, n1.len() + 1 + n2.len() as int) == n1
                + hyphen() + n2 && s.subrange(
                n1.len() + 1 + n2.len() as int,
                n1.len() + 1 + n2.len() + 5 as int,
            ) == the_sep(),
{
    reveal_strlit("-");
    reveal_strlit("-the-");
    let (n1, n2, a1, a2, subj) = choose|
        n1: Seq<char>,
        n2: Seq<char>,
        a1: Seq<char>,
        a2: Seq<char>,
        subj: Seq<char>,
    |
        #![auto]
        words::names_spec().contains(n1) && words::names_spec().contains(n2)
            && words::adjectives_spec().contains(a1) && words::adjectives_spec().contains(a2)
            && is_subject(subj) && s == n1 + hyphen() + n2 + the_sep() + a1 + and_sep() + a2 + subj;
    let m = n1.len() + 1 + n2.len() as int;
    assert forall|k: int| 0 <= k < m implies s[k] == (n1 + hyphen() + n2)[k] by {
        assert((n1 + hyphen() + n2 + the_sep())[k] == (n1 + hyphen() + n2)[k]);
        assert((n1 + hyphen() + n2 + the_sep() + a1)[k] == (n1 + hyphen() + n2 + the_sep())[k]);
        assert((n1 + hyphen() + n2 + the_sep() + a1 + and_sep())[k] == (n1 + hyphen() + n2
            + the_sep() + a1)[k]);
        assert((n1 + hyphen() + n2 + the_sep() + a1 + and_sep() + a2)[k] == (n1 + hyphen() + n2
            + the_sep() + a1 + and_sep())[k]);
        assert(s[k] == (n1 + hyphen() + n2 + the_sep() + a1 + and_sep() + a2)[k]);
    }
    assert(s.subrange(0, m) =~= n1 + hyphen() + n2);
    assert forall|k: int| 0 <= k < 5 implies s[m + k] == the_sep()[k] by {
        assert((n1 + hyphen() + n2 + the_sep())[m + k] == the_sep()[k]);
        assert((n1 + hyphen() + n2 + the_sep() + a1)[m + k] == (n1 + hyphen() + n2 + the_sep())[m
            + k]);
        assert((n1 + hyphen() + n2 + the_sep() + a1 + and_sep())[m + k] == (n1 + hyphen() + n2
            + the_sep() + a1)[m + k]);
        assert((n1 + hyphen() + n2 + the_sep() + a1 + and_sep() + a2)[m + k] == (n1 + hyphen() + n2
            + the_sep() + a1 + and_sep())[m + k]);
        assert(s[m + k] == (n1 + hyphen() + n2 + the_sep() + a1 + and_sep() + a2)[m + k]);
    }
    assert(s.subrange(m, m + 5) =~= the_sep());
}

} // verus!
