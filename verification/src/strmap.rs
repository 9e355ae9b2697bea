//! Maps keyed by text, walked in the order of their keys.

use crate::text;
use vstd::prelude::*;
use vstd::string::*;

verus! {

/// The order of texts: by their first different character, and a text before
/// those it begins.
pub open spec fn before(a: Seq<char>, b: Seq<char>) -> bool
    decreases a.len(),
{
    if b.len() == 0 {
        false
    } else if a.len() == 0 {
        true
    } else if a[0] != b[0] {
        a[0] < b[0]
    } else {
        before(a.skip(1), b.skip(1))
    }
}

pub proof fn before_irreflexive(a: Seq<char>)
    ensures
        !before(a, a),
    decreases a.len(),
{
    if a.len() > 0 {
        before_irreflexive(a.skip(1));
    }
}

pub proof fn before_transitive(a: Seq<char>, b: Seq<char>, c: Seq<char>)
    requires
        before(a, b),
        before(b, c),
    ensures
        before(a, c),
    decreases a.len(),
{
    if a.len() > 0 && a[0] == b[0] && b[0] == c[0] {
        before_transitive(a.skip(1), b.skip(1), c.skip(1));
    }
}

pub proof fn before_total(a: Seq<char>, b: Seq<char>)
    ensures
        a == b || before(a, b) || before(b, a),
    decreases a.len(),
{
    if a.len() == 0 || b.len() == 0 {
        if a.len() == b.len() {
            assert(a =~= b);
        }
    } else if a[0] == b[0] {
        before_total(a.skip(1), b.skip(1));
        if a.skip(1) == b.skip(1) {
            assert(a =~= seq![a[0]] + a.skip(1));
            assert(b =~= seq![b[0]] + b.skip(1));
        }
    }
}

fn is_before(a: &str, b: &str) -> (r: bool)
    ensures
        r == before(a@, b@),
{
    let x = text::chars_of(a);
    let y = text::chars_of(b);
    let mut i: usize = 0;
    assert(a@.skip(0) =~= a@);
    assert(b@.skip(0) =~= b@);
    loop
        invariant
            i <= x@.len(),
            i <= y@.len(),
            x@ == a@,
            y@ == b@,
            before(a@, b@) == before(a@.skip(i as int), b@.skip(i as int)),
        decreases x@.len() - i,
    {
        if i == y.len() {
            return false;
        }
        if i == x.len() {
            return true;
        }
        if x[i] != y[i] {
            return x[i] < y[i];
        }
        assert(a@.skip(i as int).skip(1) =~= a@.skip(i + 1));
        assert(b@.skip(i as int).skip(1) =~= b@.skip(i + 1));
        i += 1;
    }
}

/// A map from texts, in the order of its keys.
#[derive(Debug, PartialEq)]
pub struct StrMap<V> {
    entries: Vec<(String, V)>,
}

/// Whether keys strictly ascend.
pub open spec fn keys_ascend<V>(s: Seq<(Seq<char>, V)>) -> bool {
    forall|i: int, j: int| 0 <= i < j < s.len() ==> before(#[trigger] s[i].0, #[trigger] s[j].0)
}

/// The map that a list of entries writes, later ones over earlier ones.
pub open spec fn map_of<V>(s: Seq<(Seq<char>, V)>) -> Map<Seq<char>, V>
    decreases s.len(),
{
    if s.len() == 0 {
        Map::empty()
    } else {
        map_of(s.drop_last()).insert(s.last().0, s.last().1)
    }
}

/// With ascending keys, the map holds each entry and nothing else.
pub proof fn map_of_ascending<V>(s: Seq<(Seq<char>, V)>)
    requires
        keys_ascend(s),
    ensures
        forall|i: int|
            0 <= i < s.len() ==> map_of(s).contains_key(#[trigger] s[i].0) && map_of(s)[s[i].0]
                == s[i].1,
        forall|k: Seq<char>| #[trigger]
            map_of(s).contains_key(k) ==> exists|i: int| 0 <= i < s.len() && s[i].0 == k,
    decreases s.len(),
{
    if s.len() > 0 {
        let rest = s.drop_last();
        map_of_ascending(rest);
        assert forall|i: int| 0 <= i < s.len() implies map_of(s).contains_key(#[trigger] s[i].0)
            && map_of(s)[s[i].0] == s[i].1 by {
            if i < s.len() - 1 {
                assert(rest[i] == s[i]);
                assert(before(s[i].0, s[s.len() - 1].0));
                before_irreflexive(s[i].0);
            }
        }
        assert forall|k: Seq<char>| #[trigger] map_of(s).contains_key(k) implies exists|i: int|
            0 <= i < s.len() && s[i].0 == k by {
            if k != s.last().0 {
                assert(map_of(rest).contains_key(k));
                let i = choose|i: int| 0 <= i < rest.len() && rest[i].0 == k;
                assert(s[i].0 == k);
            } else {
                assert(s[s.len() - 1].0 == k);
            }
        }
    }
}

impl<V> StrMap<V> {
    /// The entries, in the order of their keys.
    pub closed spec fn items(&self) -> Seq<(Seq<char>, V)> {
        self.entries@.map_values(|e: (String, V)| (e.0@, e.1))
    }

    #[verifier::type_invariant]
    spec fn in_order(&self) -> bool {
        keys_ascend(self.items())
    }

    pub fn new() -> (r: Self)
        ensures
            r.items() == Seq::<(Seq<char>, V)>::empty(),
    {
        let entries: Vec<(String, V)> = Vec::new();
        assert(entries@.map_values(|e: (String, V)| (e.0@, e.1)) =~= Seq::<
            (Seq<char>, V),
        >::empty());
        StrMap { entries }
    }

    pub fn len(&self) -> (n: usize)
        ensures
            n == self.items().len(),
    {
        self.entries.len()
    }

    pub fn is_empty(&self) -> (r: bool)
        ensures
            r == (self.items().len() == 0),
    {
        self.entries.len() == 0
    }

    pub fn key(&self, i: usize) -> (r: &str)
        requires
            i < self.items().len(),
        ensures
            r@ == self.items()[i as int].0,
    {
        self.entries[i].0.as_str()
    }

    pub fn value(&self, i: usize) -> (r: &V)
        requires
            i < self.items().len(),
        ensures
            *r == self.items()[i as int].1,
    {
        &self.entries[i].1
    }

    /// The value of a key.
    pub fn get(&self, key: &str) -> (r: Option<&V>)
        ensures
            keys_ascend(self.items()),
            match r {
                Some(v) => map_of(self.items()).contains_key(key@) && map_of(self.items())[key@] == *v,
                None => !map_of(self.items()).contains_key(key@),
            },
    {
        proof {
            use_type_invariant(self);
            map_of_ascending(self.items());
        }
        let mut i: usize = 0;
        while i < self.entries.len()
            invariant
                i <= self.entries@.len(),
                forall|k: int| 0 <= k < i ==> (#[trigger] self.items()[k]).0 != key@,
            decreases self.entries@.len() - i,
        {
            if text::same(self.entries[i].0.as_str(), key) {
                proof {
                    use_type_invariant(self);
                    map_of_ascending(self.items());
                    assert(self.items()[i as int].0 == key@);
                }
                return Some(&self.entries[i].1);
            }
            i += 1;
        }
        proof {
            use_type_invariant(self);
            map_of_ascending(self.items());
        }
        None
    }

    /// The map with a key set to a value.
    pub fn insert(self, key: String, value: V) -> (r: Self)
        ensures
            keys_ascend(r.items()),
            map_of(r.items()) == map_of(self.items()).insert(key@, value),
    {
        proof {
            use_type_invariant(&self);
        }
        let ghost was = self.items();
        let ghost k = key@;
        let mut entries = self.entries;
        let mut i: usize = 0;
        while i < entries.len() && is_before(entries[i].0.as_str(), key.as_str())
            invariant
                i <= entries@.len(),
                k == key@,
                was == entries@.map_values(|e: (String, V)| (e.0@, e.1)),
                keys_ascend(was),
                forall|j: int| 0 <= j < i ==> before((#[trigger] was[j]).0, k),
            decreases entries@.len() - i,
        {
            i += 1;
        }
        if i < entries.len() && text::same(entries[i].0.as_str(), key.as_str()) {
            entries.remove(i);
            entries.insert(i, (key, value));
            proof {
                let now = entries@.map_values(|e: (String, V)| (e.0@, e.1));
                assert(now =~= was.update(i as int, (k, value)));
                assert(keys_ascend(now)) by {
                    assert forall|a: int, b: int| 0 <= a < b < now.len() implies before(
                        #[trigger] now[a].0,
                        #[trigger] now[b].0,
                    ) by {
                        assert(before(was[a].0, was[b].0));
                    }
                }
                assert forall|j: int| i < j < was.len() implies (#[trigger] was[j]).0
                    != was[i as int].0 by {
                    before_irreflexive(was[j].0);
                    assert(before(was[i as int].0, was[j].0));
                }
                map_of_updated(was, i as int, value);
            }
            return StrMap { entries };
        }
        entries.insert(i, (key, value));
        proof {
            let now = entries@.map_values(|e: (String, V)| (e.0@, e.1));
            assert(now =~= was.insert(i as int, (k, value)));
            assert forall|b: int| i <= b < was.len() implies before(k, #[trigger] was[b].0) by {
                before_total(k, was[i as int].0);
                if b > i {
                    assert(before(was[i as int].0, was[b].0));
                    before_transitive(k, was[i as int].0, was[b].0);
                }
            }
            assert(keys_ascend(now)) by {
                assert forall|a: int, b: int| 0 <= a < b < now.len() implies before(
                    #[trigger] now[a].0,
                    #[trigger] now[b].0,
                ) by {
                    if a < i && b < i {
                        assert(before(was[a].0, was[b].0));
                    } else if a < i && b == i {
                        assert(before(was[a].0, k));
                    } else if a < i {
                        assert(before(was[a].0, was[b - 1].0));
                    } else if a == i {
                        assert(before(k, was[b - 1].0));
                    } else {
                        assert(before(was[a - 1].0, was[b - 1].0));
                    }
                }
            }
            assert forall|j: int| i <= j < was.len() implies (#[trigger] was[j]).0 != k by {
                before_irreflexive(k);
            }
            map_of_inserted(was, i as int, k, value);
        }
        StrMap { entries }
    }

    /// The entries, in the order of their keys.
    pub fn into_entries(self) -> (r: Vec<(String, V)>)
        ensures
            r@.map_values(|e: (String, V)| (e.0@, e.1)) == self.items(),
            keys_ascend(self.items()),
    {
        proof {
            use_type_invariant(&self);
        }
        self.entries
    }
}

/// An entry put before entries of other keys is written over none of them.
proof fn map_of_inserted<V>(s: Seq<(Seq<char>, V)>, i: int, k: Seq<char>, v: V)
    requires
        0 <= i <= s.len(),
        forall|j: int| i <= j < s.len() ==> (#[trigger] s[j]).0 != k,
    ensures
        map_of(s.insert(i, (k, v))) == map_of(s).insert(k, v),
    decreases s.len(),
{
    let now = s.insert(i, (k, v));
    if i == s.len() {
        assert(now.drop_last() =~= s);
    } else {
        assert(now.drop_last() =~= s.drop_last().insert(i, (k, v)));
        assert forall|j: int| i <= j < s.drop_last().len() implies (#[trigger] s.drop_last()[j]).0
            != k by {
            assert(s.drop_last()[j] == s[j]);
        }
        map_of_inserted(s.drop_last(), i, k, v);
        assert(s[s.len() - 1].0 != k);
        assert(map_of(now) =~= map_of(s).insert(k, v));
    }
}

/// An entry replaced before entries of other keys is replaced in the map.
proof fn map_of_updated<V>(s: Seq<(Seq<char>, V)>, i: int, v: V)
    requires
        0 <= i < s.len(),
        forall|j: int| i < j < s.len() ==> (#[trigger] s[j]).0 != s[i].0,
    ensures
        map_of(s.update(i, (s[i].0, v))) == map_of(s).insert(s[i].0, v),
    decreases s.len(),
{
    let now = s.update(i, (s[i].0, v));
    if i == s.len() - 1 {
        assert(now.drop_last() =~= s.drop_last());
        assert(map_of(now) =~= map_of(s).insert(s[i].0, v));
    } else {
        let rest = s.drop_last();
        assert(now.drop_last() =~= rest.update(i, (rest[i].0, v)));
        assert forall|j: int| i < j < rest.len() implies (#[trigger] rest[j]).0 != rest[i].0 by {
            assert(rest[j] == s[j]);
        }
        map_of_updated(rest, i, v);
        assert(s[s.len() - 1].0 != s[i].0);
        assert(map_of(now) =~= map_of(s).insert(s[i].0, v));
    }
}

impl<V: Clone> Clone for StrMap<V> {
    fn clone(&self) -> (r: Self)
        ensures
            r.items().len() == self.items().len(),
            forall|i: int|
                0 <= i < r.items().len() ==> (#[trigger] r.items()[i]).0 == self.items()[i].0
                    && cloned(self.items()[i].1, r.items()[i].1),
    {
        proof {
            use_type_invariant(self);
        }
        let mut entries: Vec<(String, V)> = Vec::new();
        let mut i: usize = 0;
        while i < self.entries.len()
            invariant
                i <= self.entries@.len(),
                entries@.len() == i,
                forall|k: int|
                    0 <= k < i ==> (#[trigger] entries@[k]).0 == self.entries@[k].0 && cloned(
                        self.entries@[k].1,
                        entries@[k].1,
                    ),
            decreases self.entries@.len() - i,
        {
            entries.push((self.entries[i].0.clone(), self.entries[i].1.clone()));
            i += 1;
        }
        proof {
            let now = entries@.map_values(|e: (String, V)| (e.0@, e.1));
            assert forall|a: int, b: int| 0 <= a < b < now.len() implies before(
                #[trigger] now[a].0,
                #[trigger] now[b].0,
            ) by {
                assert(before(self.items()[a].0, self.items()[b].0));
            }
        }
        StrMap { entries }
    }
}

} // verus!
