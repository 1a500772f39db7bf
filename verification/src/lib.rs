//! Memorable random identifiers built from fixed word lists.
//!
//! An identifier is a hyphen-joined composition of an adjective, a
//! prefix + animal (or prefix + job) pair, and one or two names,
//! arranged by a [`Size`] variant.  Alongside the generator, the crate
//! exposes the worst-case byte length of each size so callers can
//! allocate fixed-size buffers up front.

pub mod laws;
pub mod lengths;
mod rng;
pub mod words;

use vstd::prelude::*;
use vstd::string::StringExecFns;

verus! {

/// Selects the shape of a generated identifier: how many name and
/// adjective slots its template has, and therefore how long the
/// result can get.
#[derive(Clone, Copy, PartialEq, Eq, Structural, Debug)]
pub enum Size {
    /// `{adjective}{prefix}-{animal|job}-{name}` (the adjective is glued
    /// directly onto the prefix token).
    Short,
    /// `{name}-the-{adjective}-and-{adjective}{prefix}-{animal|job}`.
    Long,
    /// `{name}-{name}-the-{adjective}-and-{adjective}{prefix}-{animal|job}`.
    VeryLong,
}

/// Worst case of the single prefix slot: exactly one of the two prefix
/// families is used per identifier, so the larger family maximum covers
/// both branches.
pub open spec fn prefix_slot_max() -> nat {
    lengths::max_nat(
        lengths::max_len_of(words::animal_prefixes_spec()),
        lengths::max_len_of(words::job_prefixes_spec()),
    )
}

/// Worst-case byte length of a `Size::Short` identifier.  Every
/// category a template can draw from contributes its longest token
/// once; the slack of the unchosen noun family covers the hyphens the
/// template inserts.
pub open spec fn short_max_len_spec() -> nat {
    prefix_slot_max() + lengths::max_len_of(words::names_spec()) + lengths::max_len_of(
        words::adjectives_spec(),
    ) + lengths::max_len_of(words::animals_spec()) + lengths::max_len_of(words::jobs_spec())
}

/// Worst-case byte length of a `Size::Long` identifier: as Short, with
/// a second adjective slot.
pub open spec fn long_max_len_spec() -> nat {
    short_max_len_spec() + lengths::max_len_of(words::adjectives_spec())
}

/// Worst-case byte length of a `Size::VeryLong` identifier: as Long,
/// with a second name slot.
pub open spec fn very_long_max_len_spec() -> nat {
    long_max_len_spec() + lengths::max_len_of(words::names_spec())
}

/// The worst-case byte length that belongs to a size variant.
pub open spec fn size_max_spec(size: Size) -> nat {
    match size {
        Size::Short => short_max_len_spec(),
        Size::Long => long_max_len_spec(),
        Size::VeryLong => very_long_max_len_spec(),
    }
}

/// Longest byte length of a list handed over with its model: the glue
/// between a concrete word list and its spec-level maximum.
fn checked_list_max(items: &Vec<&'static str>, Ghost(ss): Ghost<Seq<Seq<char>>>) -> (r: usize)
    requires
        words::wf_list(ss),
        items@.len() == ss.len(),
        forall|i: int| 0 <= i < items@.len() ==> (#[trigger] items@[i])@ == ss[i],
    ensures
        r as nat == lengths::max_len_of(ss),
        1 <= r <= 32,
{
    proof {
        assert forall|i: int| 0 <= i < items@.len() implies words::wf_token(
            (#[trigger] items@[i])@,
        ) by {
            assert(words::wf_token(ss[i]));
        }
        assert(lengths::views_of(items@) =~= ss);
        lengths::lemma_wf_max_bounds(ss);
    }
    lengths::get_max_len(items)
}

/// All per-size maxima fit comfortably in a `usize`: each of the seven
/// contributing list maxima is at most the per-token cap.
pub proof fn lemma_size_maxima_bounded()
    ensures
        short_max_len_spec() <= 160,
        long_max_len_spec() <= 192,
        very_long_max_len_spec() <= 224,
{
    words::lemma_animal_prefixes_wf();
    words::lemma_job_prefixes_wf();
    words::lemma_names_wf();
    words::lemma_adjectives_wf();
    words::lemma_animals_wf();
    words::lemma_jobs_wf();
    lengths::lemma_wf_max_bounds(words::animal_prefixes_spec());
    lengths::lemma_wf_max_bounds(words::job_prefixes_spec());
    lengths::lemma_wf_max_bounds(words::names_spec());
    lengths::lemma_wf_max_bounds(words::adjectives_spec());
    lengths::lemma_wf_max_bounds(words::animals_spec());
    lengths::lemma_wf_max_bounds(words::jobs_spec());
}

/// Returns the theoretical maximum byte length of the string returned
/// by `get_id` for `Size::Short`.
pub fn get_id_max_len() -> (r: usize)
    ensures
        r as nat == short_max_len_spec(),
{
    proof {
        words::lemma_animal_prefixes_wf();
        words::lemma_job_prefixes_wf();
        words::lemma_names_wf();
        words::lemma_adjectives_wf();
        words::lemma_animals_wf();
        words::lemma_jobs_wf();
    }
    let ap = words::animal_prefixes();
    let jp = words::job_prefixes();
    let names = words::names();
    let adjectives = words::adjectives();
    let animals = words::animals();
    let jobs = words::jobs();
    let p = lengths::max(
        checked_list_max(&ap, Ghost(words::animal_prefixes_spec())),
        checked_list_max(&jp, Ghost(words::job_prefixes_spec())),
    );
    p + checked_list_max(&names, Ghost(words::names_spec())) + checked_list_max(
        &adjectives,
        Ghost(words::adjectives_spec()),
    ) + checked_list_max(&animals, Ghost(words::animals_spec())) + checked_list_max(
        &jobs,
        Ghost(words::jobs_spec()),
    )
}

/// Returns the theoretical maximum byte length of the string returned
/// by `get_id` for `Size::Long`.
pub fn get_long_id_max_len() -> (r: usize)
    ensures
        r as nat == long_max_len_spec(),
{
    proof {
        lemma_size_maxima_bounded();
        words::lemma_adjectives_wf();
    }
    let adjectives = words::adjectives();
    get_id_max_len() + checked_list_max(&adjectives, Ghost(words::adjectives_spec()))
}

/// Returns the theoretical maximum byte length of the string returned
/// by `get_id` for `Size::VeryLong`.
pub fn get_very_long_id_max_len() -> (r: usize)
    ensures
        r as nat == very_long_max_len_spec(),
{
    proof {
        lemma_size_maxima_bounded();
        words::lemma_names_wf();
    }
    let names = words::names();
    get_long_id_max_len() + checked_list_max(&names, Ghost(words::names_spec()))
}

/// The single hyphen the templates join tokens with.
pub open spec fn hyphen() -> Seq<char> {
    "-"@
}

/// The joining word between the name slots and the adjective slots.
pub open spec fn the_sep() -> Seq<char> {
    "-the-"@
}

/// The joining word between the two adjective slots.
pub open spec fn and_sep() -> Seq<char> {
    "-and-"@
}

/// The subject fragment: a prefix and a noun of the same family,
/// hyphen-joined — (animal-prefix, animal) or (job-prefix, job), never
/// a cross pair.
pub open spec fn is_subject(s: Seq<char>) -> bool {
    (exists|p: Seq<char>, n: Seq<char>|
        #![auto]
        words::animal_prefixes_spec().contains(p) && words::animals_spec().contains(n) && s == p
            + hyphen() + n) || (exists|p: Seq<char>, n: Seq<char>|
        #![auto]
        words::job_prefixes_spec().contains(p) && words::jobs_spec().contains(n) && s == p
            + hyphen() + n)
}

/// What `get_id` may return for a size: the size's template filled
/// with tokens drawn from the expected lists.  In the Short template
/// the adjective is glued directly onto the subject's prefix token;
/// Long and VeryLong glue their second adjective onto it instead.
pub open spec fn is_valid_id(size: Size, s: Seq<char>) -> bool {
    match size {
        Size::Short => exists|adj: Seq<char>, subj: Seq<char>, name: Seq<char>|
            #![auto]
            words::adjectives_spec().contains(adj) && is_subject(subj)
                && words::names_spec().contains(name) && s == adj + subj + hyphen() + name,
        Size::Long => exists|name: Seq<char>, a1: Seq<char>, a2: Seq<char>, subj: Seq<char>|
            #![auto]
            words::names_spec().contains(name) && words::adjectives_spec().contains(a1)
                && words::adjectives_spec().contains(a2) && is_subject(subj) && s == name
                + the_sep() + a1 + and_sep() + a2 + subj,
        Size::VeryLong => exists|
            n1: Seq<char>,
            n2: Seq<char>,
            a1: Seq<char>,
            a2: Seq<char>,
            subj: Seq<char>,
        |
            #![auto]
            words::names_spec().contains(n1) && words::names_spec().contains(n2)
                && words::adjectives_spec().contains(a1) && words::adjectives_spec().contains(a2)
                && is_subject(subj) && s == n1 + hyphen() + n2 + the_sep() + a1 + and_sep() + a2
                + subj,
    }
}

/// Joins a prefix and a noun with a hyphen.
fn join_pair(p: &'static str, n: &'static str) -> (r: String)
    ensures
        r@ == p@ + hyphen() + n@,
{
    let mut s = String::from_str(p);
    s.append("-");
    s.append(n);
    s
}

/// Draws the subject fragment of the animal family.
fn make_animal_subject() -> (s: String)
    ensures
        is_subject(s@),
        vstd::utf8::is_ascii_chars(s@),
        s@.len() + 11 <= prefix_slot_max() + lengths::max_len_of(words::animals_spec())
            + lengths::max_len_of(words::jobs_spec()),
{
    proof {
        words::lemma_animal_prefixes_wf();
        words::lemma_animals_wf();
        lengths::lemma_noun_maxima();
        reveal_strlit("-");
    }
    let prefixes = words::animal_prefixes();
    let nouns = words::animals();
    let p = rng::pick_token(&prefixes).unwrap();
    let n = rng::pick_token(&nouns).unwrap();
    proof {
        words::lemma_member_view(prefixes@, words::animal_prefixes_spec(), p);
        words::lemma_member_view(nouns@, words::animals_spec(), n);
        words::lemma_member_wf(words::animal_prefixes_spec(), p@);
        words::lemma_member_wf(words::animals_spec(), n@);
        lengths::lemma_contains_le_max(words::animal_prefixes_spec(), p@);
        lengths::lemma_contains_le_max(words::animals_spec(), n@);
        assert(vstd::utf8::is_ascii_chars(hyphen()));
        words::lemma_ascii_concat(p@, hyphen());
        words::lemma_ascii_concat(p@ + hyphen(), n@);
    }
    join_pair(p, n)
}

/// Draws the subject fragment of the job family.
fn make_job_subject() -> (s: String)
    ensures
        is_subject(s@),
        vstd::utf8::is_ascii_chars(s@),
        s@.len() + 11 <= prefix_slot_max() + lengths::max_len_of(words::animals_spec())
            + lengths::max_len_of(words::jobs_spec()),
{
    proof {
        words::lemma_job_prefixes_wf();
        words::lemma_jobs_wf();
        lengths::lemma_noun_maxima();
        reveal_strlit("-");
    }
    let prefixes = words::job_prefixes();
    let nouns = words::jobs();
    let p = rng::pick_token(&prefixes).unwrap();
    let n = rng::pick_token(&nouns).unwrap();
    proof {
        words::lemma_member_view(prefixes@, words::job_prefixes_spec(), p);
        words::lemma_member_view(nouns@, words::jobs_spec(), n);
        words::lemma_member_wf(words::job_prefixes_spec(), p@);
        words::lemma_member_wf(words::jobs_spec(), n@);
        lengths::lemma_contains_le_max(words::job_prefixes_spec(), p@);
        lengths::lemma_contains_le_max(words::jobs_spec(), n@);
        assert(vstd::utf8::is_ascii_chars(hyphen()));
        words::lemma_ascii_concat(p@, hyphen());
        words::lemma_ascii_concat(p@ + hyphen(), n@);
    }
    join_pair(p, n)
}

/// Generates a fresh identifier of the requested size: a uniformly
/// drawn subject fragment of one of the two noun families, decorated
/// with adjective and name tokens by the size's template.  The result
/// always decomposes into tokens of the expected lists and never
/// exceeds the size's advertised maximum byte length.
pub fn get_id(size: Size) -> (r: String)
    ensures
        is_valid_id(size, r@),
        vstd::utf8::is_ascii_chars(r@),
        r@.len() <= size_max_spec(size),
        vstd::utf8::encode_utf8(r@).len() <= size_max_spec(size),
{
    let subject = if rng::random_flag() {
        make_animal_subject()
    } else {
        make_job_subject()
    };
    let names = words::names();
    let adjectives = words::adjectives();
    proof {
        words::lemma_names_wf();
        words::lemma_adjectives_wf();
        reveal_strlit("-");
        reveal_strlit("-the-");
        reveal_strlit("-and-");
        assert(vstd::utf8::is_ascii_chars(hyphen()));
        assert(vstd::utf8::is_ascii_chars(the_sep()));
        assert(vstd::utf8::is_ascii_chars(and_sep()));
    }
    let r = match size {
        Size::Short => {
            let adj = rng::pick_token(&adjectives).unwrap();
            let name = rng::pick_token(&names).unwrap();
            let mut s = String::from_str(adj);
            s.append(subject.as_str());
            s.append("-");
            s.append(name);
            proof {
                words::lemma_member_view(adjectives@, words::adjectives_spec(), adj);
                words::lemma_member_view(names@, words::names_spec(), name);
                words::lemma_member_wf(words::adjectives_spec(), adj@);
                words::lemma_member_wf(words::names_spec(), name@);
                lengths::lemma_contains_le_max(words::adjectives_spec(), adj@);
                lengths::lemma_contains_le_max(words::names_spec(), name@);
                assert(s@ == adj@ + subject@ + hyphen() + name@);
                assert(is_valid_id(Size::Short, s@));
                words::lemma_ascii_concat(adj@, subject@);
                words::lemma_ascii_concat(adj@ + subject@, hyphen());
                words::lemma_ascii_concat(adj@ + subject@ + hyphen(), name@);
            }
            s
        },
        Size::Long => {
            let name = rng::pick_token(&names).unwrap();
            let a1 = rng::pick_token(&adjectives).unwrap();
            let a2 = rng::pick_token(&adjectives).unwrap();
            let mut s = String::from_str(name);
            s.append("-the-");
            s.append(a1);
            s.append("-and-");
            s.append(a2);
            s.append(subject.as_str());
            proof {
                words::lemma_member_view(names@, words::names_spec(), name);
                words::lemma_member_view(adjectives@, words::adjectives_spec(), a1);
                words::lemma_member_view(adjectives@, words::adjectives_spec(), a2);
                words::lemma_member_wf(words::names_spec(), name@);
                words::lemma_member_wf(words::adjectives_spec(), a1@);
                words::lemma_member_wf(words::adjectives_spec(), a2@);
                lengths::lemma_contains_le_max(words::names_spec(), name@);
                lengths::lemma_contains_le_max(words::adjectives_spec(), a1@);
                lengths::lemma_contains_le_max(words::adjectives_spec(), a2@);
                assert(s@ == name@ + the_sep() + a1@ + and_sep() + a2@ + subject@);
                assert(is_valid_id(Size::Long, s@));
                words::lemma_ascii_concat(name@, the_sep());
                words::lemma_ascii_concat(name@ + the_sep(), a1@);
                words::lemma_ascii_concat(name@ + the_sep() + a1@, and_sep());
                words::lemma_ascii_concat(name@ + the_sep() + a1@ + and_sep(), a2@);
                words::lemma_ascii_concat(name@ + the_sep() + a1@ + and_sep() + a2@, subject@);
            }
            s
        },
        Size::VeryLong => {
            let n1 = rng::pick_token(&names).unwrap();
            let n2 = rng::pick_token(&names).unwrap();
            let a1 = rng::pick_token(&adjectives).unwrap();
            let a2 = rng::pick_token(&adjectives).unwrap();
            let mut s = String::from_str(n1);
            s.append("-");
            s.append(n2);
            s.append("-the-");
            s.append(a1);
            s.append("-and-");
            s.append(a2);
            s.append(subject.as_str());
            proof {
                words::lemma_member_view(names@, words::names_spec(), n1);
                words::lemma_member_view(names@, words::names_spec(), n2);
                words::lemma_member_view(adjectives@, words::adjectives_spec(), a1);
                words::lemma_member_view(adjectives@, words::adjectives_spec(), a2);
                words::lemma_member_wf(words::names_spec(), n1@);
                words::lemma_member_wf(words::names_spec(), n2@);
                words::lemma_member_wf(words::adjectives_spec(), a1@);
                words::lemma_member_wf(words::adjectives_spec(), a2@);
                lengths::lemma_contains_le_max(words::names_spec(), n1@);
                lengths::lemma_contains_le_max(words::names_spec(), n2@);
                lengths::lemma_contains_le_max(words::adjectives_spec(), a1@);
                lengths::lemma_contains_le_max(words::adjectives_spec(), a2@);
                assert(s@ == n1@ + hyphen() + n2@ + the_sep() + a1@ + and_sep() + a2@
                    + subject@);
                assert(is_valid_id(Size::VeryLong, s@));
                words::lemma_ascii_concat(n1@, hyphen());
                words::lemma_ascii_concat(n1@ + hyphen(), n2@);
                words::lemma_ascii_concat(n1@ + hyphen() + n2@, the_sep());
                words::lemma_ascii_concat(n1@ + hyphen() + n2@ + the_sep(), a1@);
                words::lemma_ascii_concat(n1@ + hyphen() + n2@ + the_sep() + a1@, and_sep());
                words::lemma_ascii_concat(
                    n1@ + hyphen() + n2@ + the_sep() + a1@ + and_sep(),
                    a2@,
                );
                words::lemma_ascii_concat(
                    n1@ + hyphen() + n2@ + the_sep() + a1@ + and_sep() + a2@,
                    subject@,
                );
            }
            s
        },
    };
    proof {
        vstd::utf8::is_ascii_chars_encode_utf8(r@);
    }
    r
}

impl Size {
    /// The worst-case byte length of any identifier of this size, the
    /// capacity a caller needs for a fixed-size buffer.
    pub fn max_len(self) -> (r: usize)
        ensures
            r as nat == size_max_spec(self),
    {
        match self {
            Size::Short => get_id_max_len(),
            Size::Long => get_long_id_max_len(),
            Size::VeryLong => get_very_long_id_max_len(),
        }
    }
}

} // verus!
