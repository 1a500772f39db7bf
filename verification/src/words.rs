//! The fixed word lists an identifier is composed from, with their
//! mathematical models and well-formedness facts.

use vstd::prelude::*;
use vstd::utf8::is_ascii_chars;

verus! {

/// Every token is a non-empty, reasonably short, ASCII word with no
/// hyphen in it, so hyphens in a generated identifier are exactly the
/// separators the templates insert.
pub open spec fn wf_token(t: Seq<char>) -> bool {
    &&& 1 <= t.len() <= 32
    &&& is_ascii_chars(t)
    &&& forall|i: int| 0 <= i < t.len() ==> t[i] != '-'
}

/// A word list is non-empty and holds well-formed tokens only.
pub open spec fn wf_list(ss: Seq<Seq<char>>) -> bool {
    &&& ss.len() > 0
    &&& forall|i: int| 0 <= i < ss.len() ==> wf_token(#[trigger] ss[i])
}

/// A token of a well-formed list is itself well-formed.
pub proof fn lemma_member_wf(ss: Seq<Seq<char>>, t: Seq<char>)
    requires
        wf_list(ss),
        ss.contains(t),
    ensures
        wf_token(t),
{
    let i = choose|i: int| 0 <= i < ss.len() && ss[i] == t;
    assert(wf_token(ss[i]));
}

/// A token drawn from a concrete word list is, seen through its view,
/// a member of the list's model.
pub proof fn lemma_member_view(items: Seq<&'static str>, ss: Seq<Seq<char>>, t: &'static str)
    requires
        items.len() == ss.len(),
        forall|i: int| 0 <= i < items.len() ==> (#[trigger] items[i])@ == ss[i],
        items.contains(t),
    ensures
        ss.contains(t@),
{
    let i = choose|i: int| 0 <= i < items.len() && items[i] == t;
    assert(ss[i] == t@);
}

/// Concatenation keeps sequences of ASCII characters ASCII.
pub proof fn lemma_ascii_concat(a: Seq<char>, b: Seq<char>)
    requires
        is_ascii_chars(a),
        is_ascii_chars(b),
    ensures
        is_ascii_chars(a + b),
{
    assert forall|i: int| 0 <= i < (a + b).len() implies '\0' <= #[trigger] (a + b)[i]
        <= '\u{7f}' by {
        if i < a.len() {
            assert((a + b)[i] == a[i]);
        } else {
            assert((a + b)[i] == b[i - a.len()]);
        }
    }
}

/// The names drawn for the trailing (Short) or leading (Long,
/// VeryLong) name slots.
pub open spec fn names_spec() -> Seq<Seq<char>> {
    seq![
        "gregory"@,
        "kenneth"@,
        "shane"@,
        "gerald"@,
        "matilda"@,
        "oliver"@,
        "penelope"@,
        "ursula"@,
    ]
}

pub fn names() -> (r: Vec<&'static str>)
    ensures
        r@.len() == names_spec().len(),
        forall|i: int| 0 <= i < r@.len() ==> (#[trigger] r@[i])@ == names_spec()[i],
{
    let mut v: Vec<&'static str> = Vec::new();
    v.push("gregory");
    v.push("kenneth");
    v.push("shane");
    v.push("gerald");
    v.push("matilda");
    v.push("oliver");
    v.push("penelope");
    v.push("ursula");
    v
}

pub proof fn lemma_names_wf()
    ensures
        wf_list(names_spec()),
{
    reveal_strlit("gregory");
    reveal_strlit("kenneth");
    reveal_strlit("shane");
    reveal_strlit("gerald");
    reveal_strlit("matilda");
    reveal_strlit("oliver");
    reveal_strlit("penelope");
    reveal_strlit("ursula");
    assert(wf_token("gregory"@));
    assert(wf_token("kenneth"@));
    assert(wf_token("shane"@));
    assert(wf_token("gerald"@));
    assert(wf_token("matilda"@));
    assert(wf_token("oliver"@));
    assert(wf_token("penelope"@));
    assert(wf_token("ursula"@));
}

/// The adjectives drawn for the decoration slots.
pub open spec fn adjectives_spec() -> Seq<Seq<char>> {
    seq![
        "honest"@,
        "romantic"@,
        "happy"@,
        "unpleasant"@,
        "brave"@,
        "curious"@,
        "gentle"@,
        "mysterious"@,
    ]
}

pub fn adjectives() -> (r: Vec<&'static str>)
    ensures
        r@.len() == adjectives_spec().len(),
        forall|i: int| 0 <= i < r@.len() ==> (#[trigger] r@[i])@ == adjectives_spec()[i],
{
    let mut v: Vec<&'static str> = Vec::new();
    v.push("honest");
    v.push("romantic");
    v.push("happy");
    v.push("unpleasant");
    v.push("brave");
    v.push("curious");
    v.push("gentle");
    v.push("mysterious");
    v
}

pub proof fn lemma_adjectives_wf()
    ensures
        wf_list(adjectives_spec()),
{
    reveal_strlit("honest");
    reveal_strlit("romantic");
    reveal_strlit("happy");
    reveal_strlit("unpleasant");
    reveal_strlit("brave");
    reveal_strlit("curious");
    reveal_strlit("gentle");
    reveal_strlit("mysterious");
    assert(wf_token("honest"@));
    assert(wf_token("romantic"@));
    assert(wf_token("happy"@));
    assert(wf_token("unpleasant"@));
    assert(wf_token("brave"@));
    assert(wf_token("curious"@));
    assert(wf_token("gentle"@));
    assert(wf_token("mysterious"@));
}

/// The animal nouns of the animal branch.
pub open spec fn animals_spec() -> Seq<Seq<char>> {
    seq![
        "chicken"@,
        "walrus"@,
        "badger"@,
        "octopus"@,
        "pangolin"@,
        "wombat"@,
        "hippopotamus"@,
        "armadillo"@,
    ]
}

pub fn animals() -> (r: Vec<&'static str>)
    ensures
        r@.len() == animals_spec().len(),
        forall|i: int| 0 <= i < r@.len() ==> (#[trigger] r@[i])@ == animals_spec()[i],
{
    let mut v: Vec<&'static str> = Vec::new();
    v.push("chicken");
    v.push("walrus");
    v.push("badger");
    v.push("octopus");
    v.push("pangolin");
    v.push("wombat");
    v.push("hippopotamus");
    v.push("armadillo");
    v
}

pub proof fn lemma_animals_wf()
    ensures
        wf_list(animals_spec()),
{
    reveal_strlit("chicken");
    reveal_strlit("walrus");
    reveal_strlit("badger");
    reveal_strlit("octopus");
    reveal_strlit("pangolin");
    reveal_strlit("wombat");
    reveal_strlit("hippopotamus");
    reveal_strlit("armadillo");
    assert(wf_token("chicken"@));
    assert(wf_token("walrus"@));
    assert(wf_token("badger"@));
    assert(wf_token("octopus"@));
    assert(wf_token("pangolin"@));
    assert(wf_token("wombat"@));
    assert(wf_token("hippopotamus"@));
    assert(wf_token("armadillo"@));
}

/// The job nouns of the job branch.
pub open spec fn jobs_spec() -> Seq<Seq<char>> {
    seq![
        "tailor"@,
        "barista"@,
        "poet"@,
        "plumber"@,
        "astronomer"@,
        "carpenter"@,
        "mathematician"@,
        "librarian"@,
    ]
}

pub fn jobs() -> (r: Vec<&'static str>)
    ensures
        r@.len() == jobs_spec().len(),
        forall|i: int| 0 <= i < r@.len() ==> (#[trigger] r@[i])@ == jobs_spec()[i],
{
    let mut v: Vec<&'static str> = Vec::new();
    v.push("tailor");
    v.push("barista");
    v.push("poet");
    v.push("plumber");
    v.push("astronomer");
    v.push("carpenter");
    v.push("mathematician");
    v.push("librarian");
    v
}

pub proof fn lemma_jobs_wf()
    ensures
        wf_list(jobs_spec()),
{
    reveal_strlit("tailor");
    reveal_strlit("barista");
    reveal_strlit("poet");
    reveal_strlit("plumber");
    reveal_strlit("astronomer");
    reveal_strlit("carpenter");
    reveal_strlit("mathematician");
    reveal_strlit("librarian");
    assert(wf_token("tailor"@));
    assert(wf_token("barista"@));
    assert(wf_token("poet"@));
    assert(wf_token("plumber"@));
    assert(wf_token("astronomer"@));
    assert(wf_token("carpenter"@));
    assert(wf_token("mathematician"@));
    assert(wf_token("librarian"@));
}

/// The prefixes that pair with an animal noun.
pub open spec fn animal_prefixes_spec() -> Seq<Seq<char>> {
    seq!["robot"@, "ninja"@, "disco"@, "pirate"@, "cosmic"@, "turbo"@]
}

pub fn animal_prefixes() -> (r: Vec<&'static str>)
    ensures
        r@.len() == animal_prefixes_spec().len(),
        forall|i: int| 0 <= i < r@.len() ==> (#[trigger] r@[i])@ == animal_prefixes_spec()[i],
{
    let mut v: Vec<&'static str> = Vec::new();
    v.push("robot");
    v.push("ninja");
    v.push("disco");
    v.push("pirate");
    v.push("cosmic");
    v.push("turbo");
    v
}

pub proof fn lemma_animal_prefixes_wf()
    ensures
        wf_list(animal_prefixes_spec()),
{
    reveal_strlit("robot");
    reveal_strlit("ninja");
    reveal_strlit("disco");
    reveal_strlit("pirate");
    reveal_strlit("cosmic");
    reveal_strlit("turbo");
    assert(wf_token("robot"@));
    assert(wf_token("ninja"@));
    assert(wf_token("disco"@));
    assert(wf_token("pirate"@));
    assert(wf_token("cosmic"@));
    assert(wf_token("turbo"@));
}

/// The prefixes that pair with a job noun.
pub open spec fn job_prefixes_spec() -> Seq<Seq<char>> {
    seq!["ultra"@, "steampunk"@, "mega"@, "retro"@, "quantum"@, "hyper"@]
}

pub fn job_prefixes() -> (r: Vec<&'static str>)
    ensures
        r@.len() == job_prefixes_spec().len(),
        forall|i: int| 0 <= i < r@.len() ==> (#[trigger] r@[i])@ == job_prefixes_spec()[i],
{
    let mut v: Vec<&'static str> = Vec::new();
    v.push("ultra");
    v.push("steampunk");
    v.push("mega");
    v.push("retro");
    v.push("quantum");
    v.push("hyper");
    v
}

pub proof fn lemma_job_prefixes_wf()
    ensures
        wf_list(job_prefixes_spec()),
{
    reveal_strlit("ultra");
    reveal_strlit("steampunk");
    reveal_strlit("mega");
    reveal_strlit("retro");
    reveal_strlit("quantum");
    reveal_strlit("hyper");
    assert(wf_token("ultra"@));
    assert(wf_token("steampunk"@));
    assert(wf_token("mega"@));
    assert(wf_token("retro"@));
    assert(wf_token("quantum"@));
    assert(wf_token("hyper"@));
}

} // verus!
