//! Power mode names, across asusd, power-profiles-daemon and sysfs.

use crate::profile::ProfileRole;
use crate::{seqs, text};
use vstd::prelude::*;
use vstd::string::*;

verus! {

/// A power mode name as it is compared: in small letters, with dashes for
/// underscores and spaces.
pub open spec fn folded(name: Seq<char>) -> Seq<char> {
    text::swapped(text::lower(name), '_', ' ', '-')
}

/// The kind of a power mode name.
pub open spec fn kind_of(name: Seq<char>) -> Option<ProfileRole> {
    let n = folded(name);
    if n == "quiet"@ || n == "silent"@ || n == "power-saver"@ || n == "low-power"@ || n == "cool"@ {
        Some(ProfileRole::Quiet)
    } else if n == "balanced"@ || n == "balanced-performance"@ {
        Some(ProfileRole::Balanced)
    } else if n == "performance"@ || n == "turbo"@ || n == "max-power"@ {
        Some(ProfileRole::Performance)
    } else {
        None
    }
}

/// The kind of a power mode name, across asusd, power-profiles-daemon and sysfs names.
pub fn power_kind(name: &str) -> (r: Option<ProfileRole>)
    ensures
        r == kind_of(name@),
{
    let small = text::to_lower(name);
    let n = text::swap_chars(small.as_str(), '_', ' ', '-');
    let n = n.as_str();
    if text::same(n, "quiet") || text::same(n, "silent") || text::same(n, "power-saver")
        || text::same(n, "low-power") || text::same(n, "cool") {
        Some(ProfileRole::Quiet)
    } else if text::same(n, "balanced") || text::same(n, "balanced-performance") {
        Some(ProfileRole::Balanced)
    } else if text::same(n, "performance") || text::same(n, "turbo") || text::same(
        n,
        "max-power",
    ) {
        Some(ProfileRole::Performance)
    } else {
        None
    }
}

/// Whether a name is `wanted` but for case.
pub open spec fn same_name(wanted: Seq<char>) -> spec_fn(Seq<char>) -> bool {
    |c: Seq<char>| text::lower(c) == text::lower(wanted)
}

/// Whether a name is of a kind.
pub open spec fn of_kind(kind: ProfileRole) -> spec_fn(Seq<char>) -> bool {
    |c: Seq<char>| kind_of(c) == Some(kind)
}

/// Which of a machine's power modes best matches `wanted`: the first of the
/// same name, else the first of the same kind.
pub open spec fn best_match(wanted: Seq<char>, choices: Seq<Seq<char>>) -> Option<int> {
    if seqs::first_where(choices, same_name(wanted)) is Some {
        seqs::first_where(choices, same_name(wanted))
    } else {
        match kind_of(wanted) {
            Some(kind) => seqs::first_where(choices, of_kind(kind)),
            None => None,
        }
    }
}

/// The machine's power mode that best matches `wanted`: the same name, else
/// the same kind, so a profile made under power-profiles-daemon still means
/// something where asusd owns power modes.
pub fn match_power_mode<'a>(wanted: &str, choices: &'a [String]) -> (r: Option<&'a str>)
    ensures
        match best_match(wanted@, text::texts(choices@)) {
            Some(i) => r is Some && r->0@ == choices@[i]@,
            None => r is None,
        },
{
    let ghost names = text::texts(choices@);
    let mut i: usize = 0;
    while i < choices.len()
        invariant
            i <= choices@.len(),
            names == text::texts(choices@),
            forall|k: int| 0 <= k < i ==> !same_name(wanted@)(#[trigger] names[k]),
        decreases choices@.len() - i,
    {
        if text::same_ignoring_case(choices[i].as_str(), wanted) {
            proof {
                assert(names[i as int] == choices@[i as int]@);
                seqs::first_where_is(names, same_name(wanted@), i as int);
            }
            return Some(choices[i].as_str());
        }
        assert(names[i as int] == choices@[i as int]@);
        i += 1;
    }
    proof {
        seqs::first_where_none(names, same_name(wanted@));
    }
    match power_kind(wanted) {
        None => None,
        Some(kind) => {
            let mut i: usize = 0;
            while i < choices.len()
                invariant
                    i <= choices@.len(),
                    names == text::texts(choices@),
                    kind_of(wanted@) == Some(kind),
                    seqs::first_where(names, same_name(wanted@)) is None,
                    forall|k: int| 0 <= k < i ==> !of_kind(kind)(#[trigger] names[k]),
                decreases choices@.len() - i,
            {
                assert(names[i as int] == choices@[i as int]@);
                if power_kind(choices[i].as_str()) == Some(kind) {
                    proof {
                        seqs::first_where_is(names, of_kind(kind), i as int);
                    }
                    return Some(choices[i].as_str());
                }
                i += 1;
            }
            proof {
                seqs::first_where_none(names, of_kind(kind));
            }
            None
        },
    }
}

/// What is matched is one of the machine's modes; a mode of the same name wins,
/// and what is matched otherwise is of the same kind.
pub proof fn match_is_offered(wanted: Seq<char>, choices: Seq<Seq<char>>)
    ensures
        match best_match(wanted, choices) {
            Some(i) => {
                &&& 0 <= i < choices.len()
                &&& text::lower(choices[i]) == text::lower(wanted) || (kind_of(wanted) is Some
                    && kind_of(choices[i]) == kind_of(wanted))
                &&& (exists|k: int|
                    0 <= k < choices.len() && text::lower(#[trigger] choices[k]) == text::lower(
                        wanted,
                    )) ==> text::lower(choices[i]) == text::lower(wanted)
            },
            None => forall|k: int|
                0 <= k < choices.len() ==> text::lower(#[trigger] choices[k]) != text::lower(wanted)
                    && (kind_of(wanted) is Some ==> kind_of(choices[k]) != kind_of(wanted)),
        },
{
    seqs::first_where_found(choices, same_name(wanted));
    if kind_of(wanted) is Some {
        seqs::first_where_found(choices, of_kind(kind_of(wanted)->0));
    }
    if seqs::first_where(choices, same_name(wanted)) is None {
        assert forall|k: int| 0 <= k < choices.len() implies text::lower(#[trigger] choices[k])
            != text::lower(wanted) by {
            assert(!same_name(wanted)(choices[k]));
        }
        if kind_of(wanted) is Some && best_match(wanted, choices) is None {
            assert forall|k: int| 0 <= k < choices.len() implies kind_of(#[trigger] choices[k])
                != kind_of(wanted) by {
                assert(!of_kind(kind_of(wanted)->0)(choices[k]));
            }
        }
    }
}

/// A name matches the same mode in any case, and is of the same kind with any
/// of dash, underscore and space between its words.
pub proof fn kind_ignores_writing(a: Seq<char>, b: Seq<char>, choices: Seq<Seq<char>>)
    ensures
        folded(a) == folded(b) ==> kind_of(a) == kind_of(b),
        text::lower(a) == text::lower(b) ==> best_match(a, choices) == best_match(b, choices),
{
    if text::lower(a) == text::lower(b) {
        assert(same_name(a) =~= same_name(b));
    }
}

/// A mode as shown: `power-saver` as `Power saver`.
pub open spec fn shown(mode: Seq<char>) -> Seq<char> {
    let spaced = text::swapped(mode, '-', '_', ' ');
    if spaced.len() == 0 {
        seq![]
    } else {
        text::uppercase(spaced[0]) + spaced.skip(1)
    }
}

/// A text with its first character replaced.
pub fn with_first(first: &Vec<char>, s: &str) -> (r: String)
    requires
        s@.len() > 0,
    ensures
        r@ == first@ + s@.skip(1),
{
    let v = text::chars_of(s);
    let mut r = text::text_of(first, 0, first.len());
    let rest = text::text_of(&v, 1, v.len());
    r.append(rest.as_str());
    assert(first@.subrange(0, first@.len() as int) =~= first@);
    assert(v@.subrange(1, v@.len() as int) =~= s@.skip(1));
    r
}

/// "power-saver" → "Power saver", "quiet" → "Quiet".
pub fn display_name(mode: &str) -> (r: String)
    ensures
        r@ == shown(mode@),
{
    let spaced = text::swap_chars(mode, '-', '_', ' ');
    let v = text::chars_of(spaced.as_str());
    if v.len() == 0 {
        assert(Seq::<char>::empty() =~= seq![]);
        return String::new();
    }
    with_first(&text::to_uppercase(v[0]), spaced.as_str())
}

} // verus!
