//! Text as sequences of characters: the folding, joining, splitting and
//! trimming that names and readings go through.

use vstd::prelude::*;
use vstd::string::*;

verus! {

/// `String::push` appends one character.
pub assume_specification[ String::push ](s: &mut String, c: char)
    ensures
        final(s)@ == old(s)@.push(c),
;

/// The characters of a text.
pub fn chars_of(s: &str) -> (r: Vec<char>)
    ensures
        r@ == s@,
{
    let mut r: Vec<char> = Vec::new();
    for c in it: s.chars()
        invariant
            it.seq() == s@,
            r@ == s@.take(it.index() as int),
    {
        r.push(c);
    }
    r
}

/// The text of characters `from..to`.
pub fn text_of(v: &Vec<char>, from: usize, to: usize) -> (r: String)
    requires
        from <= to <= v@.len(),
    ensures
        r@ == v@.subrange(from as int, to as int),
{
    let mut r = String::new();
    let mut i = from;
    while i < to
        invariant
            from <= i <= to <= v@.len(),
            r@ == v@.subrange(from as int, i as int),
        decreases to - i,
    {
        r.push(v[i]);
        i += 1;
    }
    r
}

/// Whether two texts are the same.
pub fn same(a: &str, b: &str) -> (r: bool)
    ensures
        r == (a@ == b@),
{
    let x = chars_of(a);
    let y = chars_of(b);
    if x.len() != y.len() {
        return false;
    }
    let mut i: usize = 0;
    while i < x.len()
        invariant
            i <= x@.len(),
            x@ == a@,
            y@ == b@,
            x@.len() == y@.len(),
            forall|k: int| 0 <= k < i ==> x@[k] == y@[k],
        decreases x@.len() - i,
    {
        if x[i] != y[i] {
            return false;
        }
        i += 1;
    }
    assert(a@ =~= b@);
    true
}

/// The texts a list of strings holds.
pub open spec fn texts(v: Seq<String>) -> Seq<Seq<char>> {
    v.map_values(|s: String| s@)
}

/// Adding a string adds its text.
pub proof fn texts_push(v: Seq<String>, s: String)
    ensures
        texts(v.push(s)) == texts(v).push(s@),
{
    assert(texts(v.push(s)) =~= texts(v).push(s@));
}

/// Whether a list holds a text.
pub fn holds(list: &[String], wanted: &str) -> (r: bool)
    ensures
        r == texts(list@).contains(wanted@),
{
    let mut i: usize = 0;
    while i < list.len()
        invariant
            i <= list@.len(),
            forall|k: int| 0 <= k < i ==> texts(list@)[k] != wanted@,
        decreases list@.len() - i,
    {
        if same(list[i].as_str(), wanted) {
            assert(texts(list@)[i as int] == wanted@);
            return true;
        }
        i += 1;
    }
    false
}

/// A copy of a list of strings.
pub fn copy_list(list: &[String]) -> (r: Vec<String>)
    ensures
        r@ == list@,
{
    let mut r: Vec<String> = Vec::new();
    let mut i: usize = 0;
    while i < list.len()
        invariant
            i <= list@.len(),
            r@ == list@.take(i as int),
        decreases list@.len() - i,
    {
        r.push(list[i].clone());
        i += 1;
    }
    assert(list@.take(list@.len() as int) =~= list@);
    r
}

/// Two texts, one after the other.
pub fn cat2(a: &str, b: &str) -> (r: String)
    ensures
        r@ == a@ + b@,
{
    a.to_string().concat(b)
}

pub fn cat3(a: &str, b: &str, c: &str) -> (r: String)
    ensures
        r@ == a@ + b@ + c@,
{
    a.to_string().concat(b).concat(c)
}

pub fn cat4(a: &str, b: &str, c: &str, d: &str) -> (r: String)
    ensures
        r@ == a@ + b@ + c@ + d@,
{
    a.to_string().concat(b).concat(c).concat(d)
}

pub fn cat5(a: &str, b: &str, c: &str, d: &str, e: &str) -> (r: String)
    ensures
        r@ == a@ + b@ + c@ + d@ + e@,
{
    a.to_string().concat(b).concat(c).concat(d).concat(e)
}

pub fn cat6(a: &str, b: &str, c: &str, d: &str, e: &str, f: &str) -> (r: String)
    ensures
        r@ == a@ + b@ + c@ + d@ + e@ + f@,
{
    a.to_string().concat(b).concat(c).concat(d).concat(e).concat(f)
}

/// Texts joined with a separator between neighbours.
pub open spec fn joined(parts: Seq<Seq<char>>, sep: Seq<char>) -> Seq<char>
    decreases parts.len(),
{
    if parts.len() == 0 {
        seq![]
    } else if parts.len() == 1 {
        parts[0]
    } else {
        joined(parts.drop_last(), sep) + sep + parts.last()
    }
}

pub fn join(parts: &[String], sep: &str) -> (r: String)
    ensures
        r@ == joined(texts(parts@), sep@),
{
    let mut r = String::new();
    let ghost all = texts(parts@);
    let mut i: usize = 0;
    while i < parts.len()
        invariant
            i <= parts@.len(),
            all == texts(parts@),
            r@ == joined(all.take(i as int), sep@),
        decreases parts@.len() - i,
    {
        proof {
            assert(all.take(i + 1).drop_last() =~= all.take(i as int));
            assert(all.take(i + 1).last() == parts@[i as int]@);
        }
        if i > 0 {
            r.append(sep);
            r.append(parts[i].as_str());
        } else {
            r = parts[i].clone();
        }
        i += 1;
    }
    assert(all.take(parts@.len() as int) =~= all);
    r
}

/// A character with ASCII capitals made small.
pub open spec fn lower_char(c: char) -> char {
    if 'A' <= c && c <= 'Z' {
        ((c as u8) + 32) as u8 as char
    } else {
        c
    }
}

fn to_lower_char(c: char) -> (r: char)
    ensures
        r == lower_char(c),
{
    if 'A' <= c && c <= 'Z' {
        ((c as u8) + 32) as char
    } else {
        c
    }
}

/// The uppercase of a character by Unicode's tables, which can be several.
pub uninterp spec fn uppercase(c: char) -> Seq<char>;

/// `char::to_uppercase` gives the uppercase of a character, one or more
/// characters, by Unicode's tables: small ASCII letters become capitals and
/// other ASCII characters stay. What it gives for the rest has no statement
/// here beyond its name.
#[verifier::external_body]
pub(crate) fn to_uppercase(c: char) -> (r: Vec<char>)
    ensures
        r@ == uppercase(c),
        r@.len() > 0,
        'a' <= c && c <= 'z' ==> r@ == seq![((c as u8) - 32) as u8 as char],
        c as u32 <= 127 && !('a' <= c && c <= 'z') ==> r@ == seq![c],
{
    c.to_uppercase().collect()
}

/// A text with ASCII capitals made small.
pub open spec fn lower(s: Seq<char>) -> Seq<char> {
    s.map_values(|c: char| lower_char(c))
}

pub fn to_lower(s: &str) -> (r: String)
    ensures
        r@ == lower(s@),
{
    let v = chars_of(s);
    let mut r = String::new();
    let mut i: usize = 0;
    while i < v.len()
        invariant
            i <= v@.len(),
            v@ == s@,
            r@ == lower(s@.take(i as int)),
        decreases v@.len() - i,
    {
        r.push(to_lower_char(v[i]));
        i += 1;
        assert(lower(s@.take(i as int)) =~= lower(s@.take(i - 1)).push(lower_char(s@[i - 1])));
    }
    assert(s@.take(v@.len() as int) =~= s@);
    r
}

/// Whether two texts are the same but for the case of ASCII letters.
pub fn same_ignoring_case(a: &str, b: &str) -> (r: bool)
    ensures
        r == (lower(a@) == lower(b@)),
{
    let x = to_lower(a);
    let y = to_lower(b);
    same(x.as_str(), y.as_str())
}

/// A text with every `a` and `b` turned into `to`.
pub open spec fn swapped(s: Seq<char>, a: char, b: char, to: char) -> Seq<char> {
    s.map_values(|c: char| if c == a || c == b { to } else { c })
}

pub fn swap_chars(s: &str, a: char, b: char, to: char) -> (r: String)
    ensures
        r@ == swapped(s@, a, b, to),
{
    let v = chars_of(s);
    let mut r = String::new();
    let mut i: usize = 0;
    while i < v.len()
        invariant
            i <= v@.len(),
            v@ == s@,
            r@ == swapped(s@.take(i as int), a, b, to),
        decreases v@.len() - i,
    {
        let c = v[i];
        r.push(if c == a || c == b { to } else { c });
        i += 1;
        assert(swapped(s@.take(i as int), a, b, to) =~= swapped(s@.take(i - 1), a, b, to).push(
            if c == a || c == b { to } else { c }));
    }
    assert(s@.take(v@.len() as int) =~= s@);
    r
}

/// Whether a character occurs in a text.
pub fn has_char(s: &str, c: char) -> (r: bool)
    ensures
        r == s@.contains(c),
{
    let v = chars_of(s);
    let mut i: usize = 0;
    while i < v.len()
        invariant
            i <= v@.len(),
            v@ == s@,
            forall|k: int| 0 <= k < i ==> s@[k] != c,
        decreases v@.len() - i,
    {
        if v[i] == c {
            return true;
        }
        i += 1;
    }
    false
}

/// Whether `part` stands in `s` at position `at`.
pub open spec fn stands_at(s: Seq<char>, part: Seq<char>, at: int) -> bool {
    &&& 0 <= at
    &&& at + part.len() <= s.len()
    &&& s.subrange(at, at + part.len()) == part
}

fn matches_at(s: &Vec<char>, part: &Vec<char>, at: usize) -> (r: bool)
    requires
        at <= s@.len(),
    ensures
        r == stands_at(s@, part@, at as int),
{
    if part.len() > s.len() - at {
        return false;
    }
    let mut i: usize = 0;
    while i < part.len()
        invariant
            i <= part@.len(),
            at + part.len() <= s.len(),
            forall|k: int| 0 <= k < i ==> s@[at + k] == part@[k],
        decreases part@.len() - i,
    {
        if s[at + i] != part[i] {
            assert(s@.subrange(at as int, at + part@.len())[i as int] == s@[at + i]);
            return false;
        }
        i += 1;
    }
    assert(s@.subrange(at as int, at + part@.len()) =~= part@);
    true
}

/// Whether `part` stands anywhere in `s`.
pub open spec fn includes(s: Seq<char>, part: Seq<char>) -> bool {
    exists|at: int| stands_at(s, part, at)
}

pub fn has_text(s: &str, part: &str) -> (r: bool)
    ensures
        r == includes(s@, part@),
{
    let v = chars_of(s);
    let w = chars_of(part);
    let mut i: usize = 0;
    loop
        invariant
            i <= v@.len(),
            v@ == s@,
            w@ == part@,
            forall|k: int| 0 <= k < i ==> !stands_at(s@, part@, k),
        decreases v@.len() - i,
    {
        if matches_at(&v, &w, i) {
            return true;
        }
        if i == v.len() {
            return false;
        }
        i += 1;
    }
}

pub open spec fn begins(s: Seq<char>, start: Seq<char>) -> bool {
    stands_at(s, start, 0)
}

pub open spec fn ends(s: Seq<char>, end: Seq<char>) -> bool {
    stands_at(s, end, s.len() - end.len())
}

/// Whether a text begins with another.
pub fn has_start(s: &str, start: &str) -> (r: bool)
    ensures
        r == begins(s@, start@),
{
    matches_at(&chars_of(s), &chars_of(start), 0)
}

/// Whether a text ends with another.
pub fn has_end(s: &str, end: &str) -> (r: bool)
    ensures
        r == ends(s@, end@),
{
    let v = chars_of(s);
    let w = chars_of(end);
    if w.len() > v.len() {
        return false;
    }
    matches_at(&v, &w, v.len() - w.len())
}

/// What follows a prefix, for a text that begins with it.
pub open spec fn without_start(s: Seq<char>, start: Seq<char>) -> Option<Seq<char>> {
    if begins(s, start) {
        Some(s.skip(start.len() as int))
    } else {
        None
    }
}

pub fn strip_start(s: &str, start: &str) -> (r: Option<String>)
    ensures
        r is Some == without_start(s@, start@) is Some,
        r is Some ==> r->0@ == without_start(s@, start@)->0,
{
    let v = chars_of(s);
    let w = chars_of(start);
    if matches_at(&v, &w, 0) {
        let r = text_of(&v, w.len(), v.len());
        assert(v@.subrange(w@.len() as int, v@.len() as int) =~= s@.skip(start@.len() as int));
        Some(r)
    } else {
        None
    }
}

/// Unicode's White_Space characters.
pub open spec fn is_space(c: char) -> bool {
    ||| 9 <= c as u32 <= 13
    ||| c as u32 == 0x20
    ||| c as u32 == 0x85
    ||| c as u32 == 0xA0
    ||| c as u32 == 0x1680
    ||| 0x2000 <= c as u32 <= 0x200A
    ||| c as u32 == 0x2028
    ||| c as u32 == 0x2029
    ||| c as u32 == 0x202F
    ||| c as u32 == 0x205F
    ||| c as u32 == 0x3000
}

fn check_space(c: char) -> (r: bool)
    ensures
        r == is_space(c),
{
    let u = c as u32;
    (9 <= u && u <= 13) || u == 0x20 || u == 0x85 || u == 0xA0 || u == 0x1680 || (0x2000 <= u && u
        <= 0x200A) || u == 0x2028 || u == 0x2029 || u == 0x202F || u == 0x205F || u == 0x3000
}

/// A text without the white space it begins with.
pub open spec fn trimmed_start(s: Seq<char>) -> Seq<char>
    decreases s.len(),
{
    if s.len() > 0 && is_space(s[0]) {
        trimmed_start(s.skip(1))
    } else {
        s
    }
}

/// A text without the white space it ends with.
pub open spec fn trimmed_end(s: Seq<char>) -> Seq<char>
    decreases s.len(),
{
    if s.len() > 0 && is_space(s.last()) {
        trimmed_end(s.drop_last())
    } else {
        s
    }
}

/// A text without the white space around it.
pub open spec fn trimmed(s: Seq<char>) -> Seq<char> {
    trimmed_end(trimmed_start(s))
}

pub fn trim(s: &str) -> (r: String)
    ensures
        r@ == trimmed(s@),
{
    let v = chars_of(s);
    let mut from: usize = 0;
    assert(s@.skip(0) =~= s@);
    while from < v.len() && check_space(v[from])
        invariant
            from <= v@.len(),
            v@ == s@,
            trimmed_start(s@) == trimmed_start(s@.skip(from as int)),
        decreases v@.len() - from,
    {
        assert(s@.skip(from as int).skip(1) =~= s@.skip(from + 1));
        from += 1;
    }
    let mut to: usize = v.len();
    assert(s@.skip(from as int) =~= s@.subrange(from as int, to as int));
    while to > from && check_space(v[to - 1])
        invariant
            from <= to <= v@.len(),
            v@ == s@,
            trimmed(s@) == trimmed_end(s@.subrange(from as int, to as int)),
        decreases to,
    {
        assert(s@.subrange(from as int, to as int).drop_last() =~= s@.subrange(
            from as int,
            to - 1,
        ));
        to -= 1;
    }
    text_of(&v, from, to)
}

/// A text without the `c`s it begins with.
pub open spec fn without_leading(s: Seq<char>, c: char) -> Seq<char>
    decreases s.len(),
{
    if s.len() > 0 && s[0] == c {
        without_leading(s.skip(1), c)
    } else {
        s
    }
}

pub fn strip_leading(s: &str, c: char) -> (r: String)
    ensures
        r@ == without_leading(s@, c),
{
    let v = chars_of(s);
    let mut from: usize = 0;
    assert(s@.skip(0) =~= s@);
    while from < v.len() && v[from] == c
        invariant
            from <= v@.len(),
            v@ == s@,
            without_leading(s@, c) == without_leading(s@.skip(from as int), c),
        decreases v@.len() - from,
    {
        assert(s@.skip(from as int).skip(1) =~= s@.skip(from + 1));
        from += 1;
    }
    assert(v@.subrange(from as int, v@.len() as int) =~= s@.skip(from as int));
    text_of(&v, from, v.len())
}

/// The pieces of a text between the occurrences of `sep`: one more than there
/// are of them.
pub open spec fn pieces(s: Seq<char>, sep: char) -> Seq<Seq<char>>
    decreases s.len(),
{
    if s.len() == 0 {
        seq![seq![]]
    } else {
        let before = pieces(s.drop_last(), sep);
        if s.last() == sep {
            before.push(seq![])
        } else {
            before.drop_last().push(before.last().push(s.last()))
        }
    }
}

pub proof fn pieces_some(s: Seq<char>, sep: char)
    ensures
        pieces(s, sep).len() > 0,
    decreases s.len(),
{
    if s.len() > 0 {
        pieces_some(s.drop_last(), sep);
    }
}

pub fn split(s: &str, sep: char) -> (r: Vec<String>)
    ensures
        texts(r@) == pieces(s@, sep),
{
    let v = chars_of(s);
    let mut done: Vec<String> = Vec::new();
    let mut piece = String::new();
    let mut i: usize = 0;
    assert(texts(done@).push(piece@) =~= pieces(s@.take(0), sep));
    while i < v.len()
        invariant
            i <= v@.len(),
            v@ == s@,
            texts(done@).push(piece@) == pieces(s@.take(i as int), sep),
        decreases v@.len() - i,
    {
        let ghost before = pieces(s@.take(i as int), sep);
        assert(before.drop_last() =~= texts(done@));
        assert(s@.take(i + 1).drop_last() =~= s@.take(i as int));
        if v[i] == sep {
            proof {
                texts_push(done@, piece);
            }
            done.push(piece);
            piece = String::new();
            assert(texts(done@).push(piece@) =~= before.push(seq![]));
        } else {
            piece.push(v[i]);
        }
        i += 1;
    }
    assert(s@.take(v@.len() as int) =~= s@);
    proof {
        texts_push(done@, piece);
    }
    done.push(piece);
    done
}

/// The words of a text: its longest runs without white space.
pub open spec fn words(s: Seq<char>) -> Seq<Seq<char>>
    decreases s.len(),
{
    if s.len() == 0 {
        seq![]
    } else if is_space(s.last()) {
        words(s.drop_last())
    } else if s.len() > 1 && !is_space(s[s.len() - 2]) {
        let before = words(s.drop_last());
        before.drop_last().push(before.last().push(s.last()))
    } else {
        words(s.drop_last()).push(seq![s.last()])
    }
}

pub fn split_words(s: &str) -> (r: Vec<String>)
    ensures
        texts(r@) == words(s@),
{
    let v = chars_of(s);
    let mut done: Vec<String> = Vec::new();
    let mut word = String::new();
    let mut open = false;
    let mut i: usize = 0;
    assert(texts(done@) =~= words(s@.take(0)));
    while i < v.len()
        invariant
            i <= v@.len(),
            v@ == s@,
            open == (i > 0 && !is_space(s@[i - 1])),
            !open ==> texts(done@) == words(s@.take(i as int)),
            open ==> texts(done@).push(word@) == words(s@.take(i as int)),
        decreases v@.len() - i,
    {
        let ghost now = s@.take(i + 1);
        let ghost before = words(s@.take(i as int));
        assert(now.drop_last() =~= s@.take(i as int));
        assert(now.last() == s@[i as int]);
        if check_space(v[i]) {
            if open {
                proof {
                    texts_push(done@, word);
                }
                done.push(word);
                word = String::new();
                open = false;
            }
        } else if open {
            assert(now[now.len() - 2] == s@[i - 1]);
            assert(before.drop_last() =~= texts(done@));
            word.push(v[i]);
            assert(texts(done@).push(word@) =~= words(now));
        } else {
            word = String::new();
            word.push(v[i]);
            open = true;
            assert(word@ =~= seq![now.last()]);
            assert(i > 0 ==> now[now.len() - 2] == s@[i - 1]);
        }
        i += 1;
    }
    assert(s@.take(v@.len() as int) =~= s@);
    if open {
        proof {
            texts_push(done@, word);
        }
        done.push(word);
    }
    done
}

/// What follows the last `sep` in a text: all of it when there is none.
pub open spec fn after_last(s: Seq<char>, sep: char) -> Seq<char> {
    pieces(s, sep).last()
}

pub fn tail_after(s: &str, sep: char) -> (r: String)
    ensures
        r@ == after_last(s@, sep),
{
    let mut parts = split(s, sep);
    proof {
        pieces_some(s@, sep);
    }
    let n = parts.len();
    assert(texts(parts@).len() == n);
    let r = parts[n - 1].clone();
    assert(texts(parts@).last() == r@);
    r
}

/// A word if a condition holds.
pub open spec fn word_if(there: bool, word: Seq<char>) -> Seq<Seq<char>> {
    if there {
        seq![word]
    } else {
        seq![]
    }
}

/// Puts a word at the end of a list if a condition holds.
pub fn push_if(list: &mut Vec<String>, there: bool, word: &str)
    ensures
        texts(final(list)@) == texts(old(list)@) + word_if(there, word@),
{
    if there {
        let w = word.to_string();
        proof {
            texts_push(list@, w);
            assert(texts(list@).push(w@) =~= texts(list@) + word_if(there, word@));
        }
        list.push(w);
    } else {
        assert(texts(list@) =~= texts(list@) + word_if(there, word@));
    }
}

} // verus!
