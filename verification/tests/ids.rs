use cool_id_generator::get_id;
use cool_id_generator::get_id_max_len;
use cool_id_generator::get_long_id_max_len;
use cool_id_generator::get_very_long_id_max_len;
use cool_id_generator::Size;
use cool_id_generator::words::adjectives;
use cool_id_generator::words::animal_prefixes;
use cool_id_generator::words::animals;
use cool_id_generator::words::job_prefixes;
use cool_id_generator::words::jobs;
use cool_id_generator::words::names;

fn in_list(list: &[&str], t: &str) -> bool {
    list.iter().any(|w| *w == t)
}

/// Checks that `head` is an adjective glued directly onto a prefix of
/// the given family, with no separator between them.
fn is_adjective_glued_to_prefix(head: &str, prefixes: &[&str]) -> bool {
    adjectives()
        .iter()
        .any(|a| head.starts_with(a) && in_list(prefixes, &head[a.len()..]))
}

#[test]
fn it_works() {}

#[test]
fn max_len_exact_values() {
    // max over prefixes is "steampunk" (9); names max "penelope" (8);
    // adjectives max "unpleasant"/"mysterious" (10); animals max
    // "hippopotamus" (12); jobs max "mathematician" (13).
    assert_eq!(get_id_max_len(), 9 + 8 + 10 + 12 + 13);
    assert_eq!(get_long_id_max_len(), 9 + 8 + 10 + 10 + 12 + 13);
    assert_eq!(get_very_long_id_max_len(), 9 + 8 + 8 + 10 + 10 + 12 + 13);
}

#[test]
fn size_max_len_matches_free_functions() {
    assert_eq!(Size::Short.max_len(), get_id_max_len());
    assert_eq!(Size::Long.max_len(), get_long_id_max_len());
    assert_eq!(Size::VeryLong.max_len(), get_very_long_id_max_len());
}

#[test]
fn short_ids_match_template() {
    let animals = animals();
    let jobs = jobs();
    let names = names();
    let max = get_id_max_len();
    for _ in 0..500 {
        let id = get_id(Size::Short);
        assert!(id.len() <= max);
        let parts: Vec<&str> = id.split('-').collect();
        assert_eq!(parts.len(), 3);
        let noun = parts[1];
        assert!(in_list(&names, parts[2]));
        if in_list(&animals, noun) {
            assert!(is_adjective_glued_to_prefix(parts[0], &animal_prefixes()));
        } else {
            assert!(in_list(&jobs, noun));
            assert!(is_adjective_glued_to_prefix(parts[0], &job_prefixes()));
        }
    }
}

#[test]
fn long_ids_match_template() {
    let animals = animals();
    let jobs = jobs();
    let names = names();
    let adjective_list = adjectives();
    let max = get_long_id_max_len();
    for _ in 0..500 {
        let id = get_id(Size::Long);
        assert!(id.len() <= max);
        assert_eq!(id.matches('-').count(), 5);
        let i = id.find("-the-").expect("missing -the- marker");
        assert!(in_list(&names, &id[..i]));
        let rest = &id[i + 5..];
        let j = rest.find("-and-").expect("missing -and- marker");
        assert!(in_list(&adjective_list, &rest[..j]));
        let tail = &rest[j + 5..];
        let k = tail.rfind('-').expect("missing subject join");
        let noun = &tail[k + 1..];
        if in_list(&animals, noun) {
            assert!(is_adjective_glued_to_prefix(&tail[..k], &animal_prefixes()));
        } else {
            assert!(in_list(&jobs, noun));
            assert!(is_adjective_glued_to_prefix(&tail[..k], &job_prefixes()));
        }
    }
}

#[test]
fn very_long_ids_have_two_leading_names() {
    let names = names();
    let max = get_very_long_id_max_len();
    for _ in 0..500 {
        let id = get_id(Size::VeryLong);
        assert!(id.len() <= max);
        assert_eq!(id.matches('-').count(), 6);
        let i = id.find("-the-").expect("missing -the- marker");
        let head: Vec<&str> = id[..i].split('-').collect();
        assert_eq!(head.len(), 2);
        assert!(in_list(&names, head[0]));
        assert!(in_list(&names, head[1]));
    }
}

#[test]
fn branch_choice_is_close_to_even() {
    let animals = animals();
    let jobs = jobs();
    let rounds: u32 = 100_000;
    let mut animal_count = 0u32;
    for _ in 0..rounds {
        let id = get_id(Size::Short);
        let parts: Vec<&str> = id.split('-').collect();
        let noun = parts[1];
        if in_list(&animals, noun) {
            animal_count += 1;
        } else {
            assert!(in_list(&jobs, noun));
        }
    }
    let fraction = animal_count as f64 / rounds as f64;
    assert!(fraction > 0.47 && fraction < 0.53);
}

#[test]
fn token_choice_is_roughly_uniform() {
    let names = names();
    let rounds: u32 = 40_000;
    let mut counts = vec![0u32; names.len()];
    let mut previous = String::new();
    for _ in 0..rounds {
        let id = get_id(Size::Short);
        // Consecutive ids may collide; nothing is asserted of `previous`
        // beyond being comparable.
        let _ = id == previous;
        previous = id.clone();
        let parts: Vec<&str> = id.split('-').collect();
        let name = parts[2];
        let pos = names.iter().position(|w| *w == name).expect("unknown name");
        counts[pos] += 1;
    }
    let expected = rounds / names.len() as u32;
    for count in counts {
        assert!(count > expected / 2);
        assert!(count < expected * 2);
    }
}
