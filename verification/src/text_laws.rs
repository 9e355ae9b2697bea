//! What holds of every text: how cases, separators, spaces and numbers are
//! read and written.

use crate::{number, strmap, text};
use vstd::prelude::*;
use vstd::string::*;

verus! {

/// Lower case changes the ASCII capitals alone, each to its small letter, and
/// keeps every character in its place.
pub proof fn lower_changes_capitals_alone(s: Seq<char>)
    ensures
        text::lower(s).len() == s.len(),
        forall|i: int|
            0 <= i < s.len() ==> if 'A' <= #[trigger] s[i] && s[i] <= 'Z' {
                text::lower(s)[i] as u32 == s[i] as u32 + 32
            } else {
                text::lower(s)[i] == s[i]
            },
        text::lower(text::lower(s)) == text::lower(s),
{
    assert(text::lower(text::lower(s)) =~= text::lower(s));
}

/// Swapping replaces two characters and keeps all others.
pub proof fn swapping_keeps_other_characters(s: Seq<char>, a: char, b: char, to: char, i: int)
    requires
        0 <= i < s.len(),
    ensures
        text::swapped(s, a, b, to).len() == s.len(),
        s[i] == a || s[i] == b ==> text::swapped(s, a, b, to)[i] == to,
        s[i] != a && s[i] != b ==> text::swapped(s, a, b, to)[i] == s[i],
{
}

/// Lists joined one after the other are the joined lists with the separator
/// between them; one text alone is itself, and no text is empty.
pub proof fn joining_goes_on(a: Seq<Seq<char>>, b: Seq<Seq<char>>, one: Seq<char>, sep: Seq<char>)
    requires
        a.len() > 0,
        b.len() > 0,
    ensures
        text::joined(a + b, sep) == text::joined(a, sep) + sep + text::joined(b, sep),
        text::joined(seq![one], sep) == one,
        text::joined(seq![], sep).len() == 0,
    decreases b.len(),
{
    assert((a + b).drop_last() =~= a + b.drop_last());
    if b.len() > 1 {
        joining_goes_on(a, b.drop_last(), one, sep);
        assert(text::joined(a + b, sep) =~= text::joined(a, sep) + sep + text::joined(b, sep));
    } else {
        assert(a + b.drop_last() =~= a);
        assert(text::joined(a + b, sep) =~= text::joined(a, sep) + sep + text::joined(b, sep));
    }
}

/// A text stands in another where that is made of something, the text and
/// something more; at its start or its end where nothing comes before or
/// after it.
pub proof fn parts_make_the_whole(before: Seq<char>, part: Seq<char>, after: Seq<char>)
    ensures
        text::includes(before + part + after, part),
        text::begins(part + after, part),
        text::ends(before + part, part),
        text::without_start(part + after, part) == Some(after),
{
    let whole = before + part + after;
    assert(whole.subrange(before.len() as int, (before.len() + part.len()) as int) =~= part);
    assert(text::stands_at(whole, part, before.len() as int));
    assert((part + after).subrange(0, part.len() as int) =~= part);
    assert((before + part).subrange(
        before.len() as int,
        (before.len() + part.len()) as int,
    ) =~= part);
    assert((part + after).skip(part.len() as int) =~= after);
}

/// And only there.
pub proof fn parts_are_found_where_they_are(s: Seq<char>, part: Seq<char>)
    ensures
        text::begins(s, part) ==> s == part + s.skip(part.len() as int),
        text::ends(s, part) ==> s.len() >= part.len() && s == s.take(s.len() - part.len()) + part,
        text::includes(s, part) ==> exists|before: Seq<char>, after: Seq<char>|
            s == #[trigger] (before + part + after),
        text::without_start(s, part) matches Some(rest) ==> s == part + rest,
{
    if text::begins(s, part) {
        assert(s =~= s.subrange(0, part.len() as int) + s.skip(part.len() as int));
    }
    if text::ends(s, part) {
        assert(s =~= s.take(s.len() - part.len()) + s.subrange(
            s.len() - part.len(),
            s.len() as int,
        ));
    }
    if text::includes(s, part) {
        let at = choose|at: int| text::stands_at(s, part, at);
        assert(s =~= s.take(at) + s.subrange(at, at + part.len()) + s.skip(at + part.len()));
        assert(s == s.take(at) + part + s.skip(at + part.len()));
    }
}

/// Spaces, tabs and line ends are white space; what is printed is not.
pub proof fn white_space_is_not_printed(c: char)
    ensures
        c == ' ' || c == '\t' || c == '\n' || c == '\r' ==> text::is_space(c),
        33 <= c as u32 <= 126 ==> !text::is_space(c),
{
}

proof fn trimmed_start_parts(s: Seq<char>) -> (n: int)
    ensures
        0 <= n <= s.len(),
        text::trimmed_start(s) == s.skip(n),
        forall|i: int| 0 <= i < n ==> text::is_space(#[trigger] s[i]),
        n < s.len() ==> !text::is_space(s[n]),
    decreases s.len(),
{
    if s.len() > 0 && text::is_space(s[0]) {
        let m = trimmed_start_parts(s.skip(1));
        assert(s.skip(1).skip(m) =~= s.skip(m + 1));
        assert forall|i: int| 0 <= i < m + 1 implies text::is_space(#[trigger] s[i]) by {
            if i > 0 {
                assert(s.skip(1)[i - 1] == s[i]);
            }
        }
        m + 1
    } else {
        assert(s.skip(0) =~= s);
        0
    }
}

proof fn trimmed_end_parts(s: Seq<char>) -> (n: int)
    ensures
        0 <= n <= s.len(),
        text::trimmed_end(s) == s.take(n),
        forall|i: int| n <= i < s.len() ==> text::is_space(#[trigger] s[i]),
        n > 0 ==> !text::is_space(s[n - 1]),
    decreases s.len(),
{
    if s.len() > 0 && text::is_space(s.last()) {
        let m = trimmed_end_parts(s.drop_last());
        assert(s.drop_last().take(m) =~= s.take(m));
        assert forall|i: int| m <= i < s.len() implies text::is_space(#[trigger] s[i]) by {
            if i < s.len() - 1 {
                assert(s.drop_last()[i] == s[i]);
            }
        }
        m
    } else {
        assert(s.take(s.len() as int) =~= s);
        s.len() as int
    }
}

/// Trimming takes white space off both ends, all of it and nothing else.
pub proof fn trimming_takes_white_space(s: Seq<char>)
    ensures
        exists|from: int, to: int|
            0 <= from <= to <= s.len() && text::trimmed(s) == #[trigger] s.subrange(from, to) && (
            forall|i: int|
                0 <= i < from || to <= i < s.len() ==> text::is_space(#[trigger] s[i])),
        text::trimmed(s).len() > 0 ==> !text::is_space(text::trimmed(s)[0]) && !text::is_space(
            text::trimmed(s).last(),
        ),
{
    let from = trimmed_start_parts(s);
    let rest = s.skip(from);
    let n = trimmed_end_parts(rest);
    assert(rest.take(n) =~= s.subrange(from, from + n));
    assert forall|i: int| 0 <= i < from || from + n <= i < s.len() implies text::is_space(
        #[trigger] s[i],
    ) by {
        if i >= from + n {
            assert(rest[i - from] == s[i]);
        }
    }
    assert(text::trimmed(s) == s.subrange(from, from + n));
}

/// What a text begins with of a character is taken off, and nothing else.
pub proof fn leading_characters_are_taken(s: Seq<char>, c: char) -> (n: int)
    ensures
        0 <= n <= s.len(),
        text::without_leading(s, c) == s.skip(n),
        forall|i: int| 0 <= i < n ==> #[trigger] s[i] == c,
        n < s.len() ==> s[n] != c,
    decreases s.len(),
{
    if s.len() > 0 && s[0] == c {
        let m = leading_characters_are_taken(s.skip(1), c);
        assert(s.skip(1).skip(m) =~= s.skip(m + 1));
        assert forall|i: int| 0 <= i < m + 1 implies #[trigger] s[i] == c by {
            if i > 0 {
                assert(s.skip(1)[i - 1] == s[i]);
            }
        }
        m + 1
    } else {
        assert(s.skip(0) =~= s);
        0
    }
}

proof fn joined_longer_last(parts: Seq<Seq<char>>, sep: Seq<char>, c: char)
    requires
        parts.len() > 0,
    ensures
        text::joined(parts.drop_last().push(parts.last().push(c)), sep) == text::joined(
            parts,
            sep,
        ).push(c),
{
    let longer = parts.drop_last().push(parts.last().push(c));
    assert(longer.drop_last() =~= parts.drop_last());
    assert(text::joined(longer, sep) =~= text::joined(parts, sep).push(c));
}

/// The pieces of a text hold no separator, and joined by it they are the text
/// again.
pub proof fn pieces_make_the_text(s: Seq<char>, sep: char)
    ensures
        text::pieces(s, sep).len() > 0,
        text::joined(text::pieces(s, sep), seq![sep]) == s,
        forall|i: int|
            0 <= i < text::pieces(s, sep).len() ==> !(#[trigger] text::pieces(s, sep)[i]).contains(
                sep,
            ),
    decreases s.len(),
{
    let all = text::pieces(s, sep);
    if s.len() == 0 {
        assert(text::joined(all, seq![sep]) =~= s);
    } else {
        let before = text::pieces(s.drop_last(), sep);
        pieces_make_the_text(s.drop_last(), sep);
        if s.last() == sep {
            assert(all.drop_last() =~= before);
            assert(text::joined(all, seq![sep]) =~= s);
        } else {
            joined_longer_last(before, seq![sep], s.last());
            assert(text::joined(all, seq![sep]) =~= s);
            assert forall|i: int| 0 <= i < all.len() implies !(#[trigger] all[i]).contains(
                sep,
            ) by {
                if i == all.len() - 1 {
                    let was = before[before.len() - 1];
                    assert(all[i] == was.push(s.last()));
                    if all[i].contains(sep) {
                        let k = choose|k: int| 0 <= k < all[i].len() && all[i][k] == sep;
                        assert(was[k] == sep);
                        assert(was.contains(sep));
                    }
                } else {
                    assert(all[i] == before[i]);
                }
            }
        }
    }
}

/// What follows the last separator: all of a text without one, else what
/// stands behind one and holds none.
pub proof fn tail_follows_the_last_separator(s: Seq<char>, sep: char)
    ensures
        !text::after_last(s, sep).contains(sep),
        !s.contains(sep) ==> text::after_last(s, sep) == s,
        s.contains(sep) ==> exists|i: int|
            0 <= i < s.len() && #[trigger] s[i] == sep && text::after_last(s, sep) == s.skip(i + 1),
    decreases s.len(),
{
    pieces_make_the_text(s, sep);
    if s.len() > 0 {
        let rest = s.drop_last();
        tail_follows_the_last_separator(rest, sep);
        pieces_make_the_text(rest, sep);
        if s.last() == sep {
            assert(s[s.len() - 1] == sep);
            assert(text::after_last(s, sep) =~= s.skip(s.len() as int));
        } else if rest.contains(sep) {
            let i = choose|i: int|
                0 <= i < rest.len() && #[trigger] rest[i] == sep && text::after_last(rest, sep)
                    == rest.skip(i + 1);
            assert(s[i] == sep);
            assert(text::after_last(s, sep) =~= s.skip(i + 1));
        } else {
            assert(!s.contains(sep)) by {
                if s.contains(sep) {
                    let i = choose|i: int| 0 <= i < s.len() && s[i] == sep;
                    assert(rest[i] == sep);
                }
            }
            assert(text::after_last(s, sep) =~= s);
        }
    } else {
        assert(text::after_last(s, sep) =~= s);
    }
}

proof fn words_of_one(w: Seq<char>)
    requires
        w.len() > 0,
        forall|i: int| 0 <= i < w.len() ==> !text::is_space(#[trigger] w[i]),
    ensures
        text::words(w) == seq![w],
    decreases w.len(),
{
    assert(!text::is_space(w[w.len() - 1]));
    if w.len() > 1 {
        assert(!text::is_space(w[w.len() - 2]));
        let rest = w.drop_last();
        assert forall|i: int| 0 <= i < rest.len() implies !text::is_space(#[trigger] rest[i]) by {
            assert(rest[i] == w[i]);
        }
        words_of_one(rest);
        assert(rest.push(w.last()) =~= w);
        assert(text::words(w) =~= seq![w]);
    } else {
        assert(text::words(w.drop_last()) =~= seq![]);
        assert(seq![w.last()] =~= w);
        assert(text::words(w) =~= seq![w]);
    }
}

proof fn words_some(s: Seq<char>)
    requires
        s.len() > 0,
        !text::is_space(s.last()),
    ensures
        text::words(s).len() > 0,
    decreases s.len(),
{
    if s.len() > 1 && !text::is_space(s[s.len() - 2]) {
        words_some(s.drop_last());
    }
}

/// White space parts words: what stands before it and what stands behind it
/// have their words, and a text without any is one word.
pub proof fn white_space_parts_words(a: Seq<char>, space: char, b: Seq<char>)
    requires
        text::is_space(space),
    ensures
        text::words(a + seq![space] + b) == text::words(a) + text::words(b),
        b.len() > 0 && (forall|i: int| 0 <= i < b.len() ==> !text::is_space(#[trigger] b[i]))
            ==> text::words(b) == seq![b],
        b.len() == 0 ==> text::words(b).len() == 0,
    decreases b.len(),
{
    let all = a + seq![space] + b;
    if b.len() == 0 {
        assert(all.drop_last() =~= a);
        assert(text::words(all) =~= text::words(a) + text::words(b));
    } else {
        let rest = b.drop_last();
        white_space_parts_words(a, space, rest);
        assert(all.drop_last() =~= a + seq![space] + rest);
        assert(all.last() == b.last());
        if !text::is_space(b.last()) {
            if b.len() > 1 {
                assert(all[all.len() - 2] == b[b.len() - 2]);
                if !text::is_space(b[b.len() - 2]) {
                    words_some(rest);
                    assert((text::words(a) + text::words(rest)).last() == text::words(
                        rest,
                    ).last());
                }
            } else {
                assert(all[all.len() - 2] == space);
            }
        }
        assert(text::words(all) =~= text::words(a) + text::words(b));
        if forall|i: int| 0 <= i < b.len() ==> !text::is_space(#[trigger] b[i]) {
            words_of_one(b);
        }
    }
}

/// A number's digits are worth the number, with no zero before them.
pub proof fn digits_are_worth_the_number(n: nat)
    ensures
        number::value(number::decimal(n)) == n,
        number::decimal(n).len() > 0,
        forall|i: int|
            0 <= i < number::decimal(n).len() ==> '0' <= #[trigger] number::decimal(n)[i]
                && number::decimal(n)[i] <= '9',
        n > 0 ==> number::decimal(n)[0] != '0',
    decreases n,
{
    let d = number::decimal(n);
    if n < 10 {
        assert(d.drop_last() =~= seq![]);
        assert(number::value(d.drop_last()) == 0);
    } else {
        digits_are_worth_the_number(n / 10);
        assert(d.drop_last() =~= number::decimal(n / 10));
    }
}

/// One more digit makes what came before ten times as much, and counts its
/// own.
pub proof fn digits_count_by_tens(s: Seq<char>, c: char)
    requires
        '0' <= c && c <= '9',
    ensures
        number::value(s.push(c)) == 10 * number::value(s) + (c as u32 - '0' as u32),
        number::value(seq![]) == 0,
{
    assert(s.push(c).drop_last() =~= s);
}

/// Whole numbers read as what their digits are worth, within what the type
/// holds; a minus makes them negative where that is taken.
pub proof fn numbers_read_as_their_digits(d: Seq<char>)
    requires
        d.len() > 0,
        forall|i: int| 0 <= i < d.len() ==> '0' <= #[trigger] d[i] && d[i] <= '9',
    ensures
        number::i64_in(d) == if number::value(d) <= 0x7fff_ffff_ffff_ffff {
            Some(number::value(d) as i64)
        } else {
            None
        },
        number::i64_in(seq!['+'] + d) == number::i64_in(d),
        number::value(d) <= 0x8000_0000_0000_0000 ==> number::i64_in(seq!['-'] + d) == Some(
            (-number::value(d)) as i64,
        ),
        number::value(d) > 0x8000_0000_0000_0000 ==> number::i64_in(seq!['-'] + d) is None,
        number::u8_in(d) == if number::value(d) <= 255 {
            Some(number::value(d) as u8)
        } else {
            None
        },
        number::u8_in(seq!['+'] + d) == number::u8_in(d),
        number::u8_in(seq!['-'] + d) is None,
{
    assert('0' <= d[0] && d[0] <= '9');
    assert((seq!['+'] + d).skip(1) =~= d);
    assert((seq!['-'] + d).skip(1) =~= d);
    assert(number::all_digits(d));
    assert(!number::is_digit((seq!['-'] + d)[0]));
}

/// What holds anything but digits behind a sign is no number.
pub proof fn only_digits_are_numbers(s: Seq<char>, i: int)
    requires
        0 <= i < s.len(),
        !('0' <= s[i] && s[i] <= '9'),
        i == 0 ==> s[0] != '+' && s[0] != '-',
    ensures
        number::i64_in(s) is None,
        number::u8_in(s) is None,
        number::i64_in(seq![]) is None,
        number::u8_in(seq![]) is None,
{
    assert(!number::is_digit(s[i]));
    if i > 0 {
        assert(s.skip(1)[i - 1] == s[i]);
    }
}

/// A number that is printed reads back as itself.
pub proof fn numbers_read_back(n: i64, b: u8)
    ensures
        number::i64_in(number::signed(n as int)) == Some(n),
        number::u8_in(number::decimal(b as nat)) == Some(b),
{
    digits_are_worth_the_number(b as nat);
    numbers_read_as_their_digits(number::decimal(b as nat));
    let size: nat = if n < 0 {
        (-n) as nat
    } else {
        n as nat
    };
    digits_are_worth_the_number(size);
    numbers_read_as_their_digits(number::decimal(size));
}

/// What a hexadecimal digit is worth.
pub open spec fn hex_value(c: char) -> int {
    if '0' <= c && c <= '9' {
        c as int - '0' as int
    } else {
        c as int - 'A' as int + 10
    }
}

/// A byte's two hexadecimal digits, in capitals, are worth the byte.
pub proof fn hex_digits_are_worth_the_byte(b: u8)
    ensures
        number::hex_byte(b).len() == 2,
        16 * hex_value(number::hex_byte(b)[0]) + hex_value(number::hex_byte(b)[1]) == b,
        forall|i: int|
            0 <= i < 2 ==> {
                ||| '0' <= #[trigger] number::hex_byte(b)[i] && number::hex_byte(b)[i] <= '9'
                ||| 'A' <= number::hex_byte(b)[i] && number::hex_byte(b)[i] <= 'F'
            },
{
}

/// Keys stand in the order of a dictionary: behind what they have in common,
/// the shorter first, else the one with the smaller character.
pub proof fn keys_stand_as_in_a_dictionary(
    common: Seq<char>,
    a: Seq<char>,
    b: Seq<char>,
)
    ensures
        b.len() > 0 ==> strmap::before(common, common + b),
        a.len() > 0 && b.len() > 0 && a[0] < b[0] ==> strmap::before(common + a, common + b),
    decreases common.len(),
{
    if common.len() > 0 {
        keys_stand_as_in_a_dictionary(common.skip(1), a, b);
        assert((common + a).skip(1) =~= common.skip(1) + a);
        assert((common + b).skip(1) =~= common.skip(1) + b);
    } else {
        assert(common + a =~= a);
        assert(common + b =~= b);
    }
}

} // verus!
