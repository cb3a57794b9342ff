//! Laws of texts: how they are cut, joined, ordered and counted.

use vstd::prelude::*;

use crate::text::{
    ascii_lower, ascii_lowered, before, begins, blank, debugged, decimal, decimal_int, digit,
    duration_text, ends, has_text, hex_digit, hexadecimal, index_or_end, joined,
    lemma_index_or_end, split_all, split_first, stands_at, thousandths, trimmed, trimmed_end,
    trimmed_start, whitespace, words_of,
};

verus! {

// ---------------------------------------------------------------------------
// Cutting
// ---------------------------------------------------------------------------
/// A text is cut at the first place where the character stands, and lost is only that
/// character; it is not cut exactly if the character does not stand in it.
pub proof fn law_cut_at_the_first(s: Seq<char>, c: char)
    ensures
        split_first(s, c) is None <==> !s.contains(c),
        split_first(s, c) matches Some((a, b)) ==> s == a + seq![c] + b && !a.contains(c),
{
    lemma_index_or_end(s, c);
    let k = index_or_end(s, c);
    if k < s.len() {
        assert(s[k] == c);
        assert(s =~= s.take(k) + seq![c] + s.skip(k + 1));
    }
}

/// A text without the character, the character, and any text are cut apart again.
pub proof fn law_cut_apart_again(a: Seq<char>, c: char, b: Seq<char>)
    requires
        !a.contains(c),
    ensures
        split_first(a + seq![c] + b, c) == Some((a, b)),
{
    let s = a + seq![c] + b;
    lemma_index_or_end(s, c);
    let k = index_or_end(s, c);
    assert(s[a.len() as int] == c);
    if k < a.len() {
        assert(s[k] == a[k]);
        assert(a.contains(c));
    }
    assert(s.take(k) =~= a);
    assert(s.skip(k + 1) =~= b);
}

proof fn lemma_joined_first(first: Seq<char>, rest: Seq<Seq<char>>, sep: Seq<char>)
    requires
        rest.len() > 0,
    ensures
        joined(seq![first] + rest, sep) == first + sep + joined(rest, sep),
    decreases rest.len(),
{
    let all = seq![first] + rest;
    if rest.len() == 1 {
        assert(all.drop_last() =~= seq![first]);
        assert(joined(all.drop_last(), sep) == first);
    } else {
        lemma_joined_first(first, rest.drop_last(), sep);
        assert(all.drop_last() =~= seq![first] + rest.drop_last());
        assert(all.last() == rest.last());
    }
    assert(joined(all, sep) =~= first + sep + joined(rest, sep));
}

/// A text that is cut everywhere is joined together again, and the character stands in
/// none of its parts.
pub proof fn law_cut_everywhere(s: Seq<char>, c: char)
    ensures
        joined(split_all(s, c), seq![c]) == s,
        split_all(s, c).len() > 0,
        forall|i: int| 0 <= i < split_all(s, c).len() ==> !(#[trigger] split_all(s, c)[i]).contains(
            c,
        ),
    decreases s.len(),
{
    lemma_index_or_end(s, c);
    let k = index_or_end(s, c);
    if k < s.len() {
        let rest = split_all(s.skip(k + 1), c);
        law_cut_everywhere(s.skip(k + 1), c);
        lemma_joined_first(s.take(k), rest, seq![c]);
        assert(s =~= s.take(k) + seq![c] + s.skip(k + 1));
        assert forall|i: int| 0 <= i < split_all(s, c).len() implies !(#[trigger] split_all(
            s,
            c,
        )[i]).contains(c) by {
            if i > 0 {
                assert(split_all(s, c)[i] == rest[i - 1]);
            }
        }
    }
}

/// What is cut at a character is the parts before it and then the parts after it.
pub proof fn law_cutting_keeps_the_order(a: Seq<char>, c: char, b: Seq<char>)
    ensures
        split_all(a + seq![c] + b, c) == split_all(a, c) + split_all(b, c),
    decreases a.len(),
{
    let all = a + seq![c] + b;
    lemma_index_or_end(all, c);
    lemma_index_or_end(a, c);
    let k = index_or_end(all, c);
    let j = index_or_end(a, c);
    assert(all[a.len() as int] == c);
    if j < a.len() {
        assert(all[j] == a[j]);
        assert(k == j) by {
            if k < j {
                assert(all[k] == a[k]);
            }
        }
        law_cutting_keeps_the_order(a.skip(j + 1), c, b);
        assert(all.skip(k + 1) =~= a.skip(j + 1) + seq![c] + b);
        assert(all.take(k) =~= a.take(j));
        assert(split_all(all, c) =~= split_all(a, c) + split_all(b, c));
    } else {
        assert(k == a.len()) by {
            if k < a.len() {
                assert(all[k] == a[k]);
            }
        }
        assert(all.take(k) =~= a);
        assert(all.skip(k + 1) =~= b);
        assert(split_all(all, c) =~= split_all(a, c) + split_all(b, c));
    }
}

proof fn lemma_trimmed_start(s: Seq<char>)
    ensures
        exists|i: int|
            0 <= i <= s.len() && trimmed_start(s) == #[trigger] s.skip(i) && (forall|j: int|
                0 <= j < i ==> whitespace(s[j])),
        trimmed_start(s).len() > 0 ==> !whitespace(trimmed_start(s)[0]),
    decreases s.len(),
{
    if s.len() > 0 && whitespace(s[0]) {
        let t = s.skip(1);
        lemma_trimmed_start(t);
        let i = choose|i: int|
            0 <= i <= t.len() && trimmed_start(t) == #[trigger] t.skip(i) && (forall|j: int|
                0 <= j < i ==> whitespace(t[j]));
        assert(s.skip(i + 1) =~= t.skip(i));
        assert forall|j: int| 0 <= j < i + 1 implies whitespace(s[j]) by {
            if j > 0 {
                assert(s[j] == t[j - 1]);
            }
        }
    } else {
        assert(s.skip(0) =~= s);
    }
}

proof fn lemma_trimmed_end(s: Seq<char>)
    ensures
        exists|i: int|
            0 <= i <= s.len() && trimmed_end(s) == #[trigger] s.take(i) && (forall|j: int|
                i <= j < s.len() ==> whitespace(s[j])),
        trimmed_end(s).len() > 0 ==> !whitespace(trimmed_end(s).last()),
    decreases s.len(),
{
    if s.len() > 0 && whitespace(s.last()) {
        let t = s.drop_last();
        lemma_trimmed_end(t);
        let i = choose|i: int|
            0 <= i <= t.len() && trimmed_end(t) == #[trigger] t.take(i) && (forall|j: int|
                i <= j < t.len() ==> whitespace(t[j]));
        assert(s.take(i) =~= t.take(i));
        assert forall|j: int| i <= j < s.len() implies whitespace(s[j]) by {
            if j < t.len() {
                assert(s[j] == t[j]);
            }
        }
    } else {
        assert(s.take(s.len() as int) =~= s);
    }
}

/// A trimmed text is the text without whitespace at its two ends; only whitespace was
/// taken away.
pub proof fn law_trimming_takes_whitespace(s: Seq<char>)
    ensures
        exists|a: Seq<char>, b: Seq<char>|
            s == #[trigger] (a + trimmed(s) + b) && (forall|i: int|
                0 <= i < a.len() ==> whitespace(a[i])) && (forall|i: int|
                0 <= i < b.len() ==> whitespace(b[i])),
        trimmed(s).len() > 0 ==> !whitespace(trimmed(s)[0]) && !whitespace(trimmed(s).last()),
{
    lemma_trimmed_start(s);
    let t = trimmed_start(s);
    lemma_trimmed_end(t);
    let i = choose|i: int|
        0 <= i <= s.len() && t == #[trigger] s.skip(i) && (forall|j: int|
            0 <= j < i ==> whitespace(s[j]));
    let k = choose|k: int|
        0 <= k <= t.len() && trimmed_end(t) == #[trigger] t.take(k) && (forall|j: int|
            k <= j < t.len() ==> whitespace(t[j]));
    let a = s.take(i);
    let b = t.skip(k);
    assert(s =~= a + trimmed(s) + b);
    assert forall|j: int| 0 <= j < b.len() implies whitespace(b[j]) by {
        assert(b[j] == t[k + j]);
    }
    if trimmed(s).len() > 0 {
        assert(trimmed(s)[0] == t[0]);
    }
}

/// A text is blank exactly if it is all whitespace.
pub proof fn law_blank_is_all_whitespace(s: Seq<char>)
    ensures
        blank(s) <==> forall|i: int| 0 <= i < s.len() ==> whitespace(#[trigger] s[i]),
{
    law_trimming_takes_whitespace(s);
    let (a, b) = choose|a: Seq<char>, b: Seq<char>|
        s == #[trigger] (a + trimmed(s) + b) && (forall|i: int|
            0 <= i < a.len() ==> whitespace(a[i])) && (forall|i: int|
            0 <= i < b.len() ==> whitespace(b[i]));
    let mid = trimmed(s);
    let whole = a + mid + b;
    if blank(s) {
        assert forall|i: int| 0 <= i < s.len() implies whitespace(#[trigger] s[i]) by {
            if i < a.len() {
                assert(whole[i] == a[i]);
            } else {
                assert(whole[i] == b[i - a.len()]);
            }
        }
    } else {
        assert(whole[a.len() as int] == mid[0]);
        assert(!whitespace(s[a.len() as int]));
    }
}

// ---------------------------------------------------------------------------
// Words
// ---------------------------------------------------------------------------
/// A text without whitespace is one word.
pub proof fn law_one_word(w: Seq<char>)
    requires
        w.len() > 0,
        forall|i: int| 0 <= i < w.len() ==> !whitespace(#[trigger] w[i]),
    ensures
        words_of(w) == seq![w],
    decreases w.len(),
{
    let p = w.drop_last();
    if p.len() == 0 {
        assert(words_of(p).len() == 0);
        assert(w =~= seq![w.last()]);
        assert(words_of(w) =~= seq![w]);
    } else {
        assert forall|i: int| 0 <= i < p.len() implies !whitespace(#[trigger] p[i]) by {
            assert(p[i] == w[i]);
        }
        law_one_word(p);
        assert(p.push(w.last()) =~= w);
        assert(!whitespace(w[p.len() - 1]) && !whitespace(w[w.len() - 1]));
        assert(words_of(w) =~= seq![w]);
    }
}

/// The words before and after whitespace are the words of the whole, in order.
pub proof fn law_whitespace_parts_words(a: Seq<char>, c: char, b: Seq<char>)
    requires
        whitespace(c),
    ensures
        words_of(a + seq![c] + b) == words_of(a) + words_of(b),
        b.len() > 0 && !whitespace(b.last()) ==> words_of(b).len() > 0,
    decreases b.len(),
{
    let all = a + seq![c] + b;
    if b.len() == 0 {
        assert(all.drop_last() =~= a);
        assert(all.last() == c);
        assert(words_of(a) + words_of(b) =~= words_of(a));
    } else {
        let d = b.drop_last();
        law_whitespace_parts_words(a, c, d);
        let before_last = a + seq![c] + d;
        assert(all.drop_last() =~= before_last);
        assert(all.last() == b.last());
        if d.len() == 0 {
            assert(before_last.last() == c);
        } else {
            assert(before_last.last() == d.last());
        }
        if !whitespace(b.last()) && d.len() > 0 && !whitespace(d.last()) {
            let x = words_of(a);
            let y = words_of(d);
            assert((x + y).last() == y.last());
            assert((x + y).drop_last() =~= x + y.drop_last());
        }
        assert(words_of(all) =~= words_of(a) + words_of(b));
    }
}

// ---------------------------------------------------------------------------
// Joining
// ---------------------------------------------------------------------------
/// Parts are joined in order, with the separator between them and nowhere else.
pub proof fn law_joined_in_order(a: Seq<Seq<char>>, b: Seq<Seq<char>>, sep: Seq<char>)
    requires
        a.len() > 0,
        b.len() > 0,
    ensures
        joined(a + b, sep) == joined(a, sep) + sep + joined(b, sep),
    decreases b.len(),
{
    if b.len() == 1 {
        assert((a + b).drop_last() =~= a);
        assert((a + b).last() == b[0]);
    } else {
        law_joined_in_order(a, b.drop_last(), sep);
        assert((a + b).drop_last() =~= a + b.drop_last());
        assert((a + b).last() == b.last());
    }
    assert(joined(a + b, sep) =~= joined(a, sep) + sep + joined(b, sep));
}

/// One part is joined to itself, and no part to nothing.
pub proof fn law_joined_alone(part: Seq<char>, sep: Seq<char>)
    ensures
        joined(seq![part], sep) == part,
        joined(Seq::empty(), sep).len() == 0,
{
}

// ---------------------------------------------------------------------------
// Searching
// ---------------------------------------------------------------------------
/// A text begins with its beginning, ends with its end, and holds every part of it.
pub proof fn law_parts_are_found(a: Seq<char>, p: Seq<char>, b: Seq<char>)
    ensures
        begins(p + b, p),
        ends(a + p, p),
        has_text(a + p + b, p),
{
    assert((p + b).take(p.len() as int) =~= p);
    assert((a + p).skip(a.len() as int) =~= p);
    let s = a + p + b;
    assert(s.subrange(a.len() as int, (a.len() + p.len()) as int) =~= p);
    assert(stands_at(s, p, a.len() as int));
}

/// What a text begins with, ends with or holds is a part of it.
pub proof fn law_found_parts_are_there(s: Seq<char>, p: Seq<char>)
    ensures
        begins(s, p) ==> s == p + s.skip(p.len() as int),
        ends(s, p) ==> s == s.take(s.len() - p.len()) + p,
        has_text(s, p) ==> exists|a: Seq<char>, b: Seq<char>| s == #[trigger] (a + p + b),
{
    if begins(s, p) {
        assert(s =~= s.take(p.len() as int) + s.skip(p.len() as int));
    }
    if ends(s, p) {
        assert(s =~= s.take(s.len() - p.len()) + s.skip(s.len() - p.len()));
    }
    if has_text(s, p) {
        let i = choose|i: int| #[trigger] stands_at(s, p, i);
        let a = s.take(i);
        let b = s.skip(i + p.len());
        assert(s =~= a + s.subrange(i, i + p.len()) + b);
        assert(s == a + p + b);
    }
}

/// Lowering changes the capital letters of the alphabet and nothing else, and not the
/// length.
pub proof fn law_lowering(s: Seq<char>, i: int)
    requires
        0 <= i < s.len(),
    ensures
        ascii_lowered(s).len() == s.len(),
        'A' <= s[i] <= 'Z' ==> ascii_lowered(s)[i] as int - 'a' as int == s[i] as int - 'A' as int,
        !('A' <= s[i] <= 'Z') ==> ascii_lowered(s)[i] == s[i],
        ascii_lower(ascii_lower(s[i])) == ascii_lower(s[i]),
{
}

// ---------------------------------------------------------------------------
// Order
// ---------------------------------------------------------------------------
/// The first character in which two texts differ says which comes first.
pub proof fn law_first_difference_orders(
    p: Seq<char>,
    x: char,
    s: Seq<char>,
    y: char,
    t: Seq<char>,
)
    requires
        x < y,
    ensures
        before(p + seq![x] + s, p + seq![y] + t),
        !before(p + seq![y] + t, p + seq![x] + s),
    decreases p.len(),
{
    let a = p + seq![x] + s;
    let b = p + seq![y] + t;
    if p.len() > 0 {
        law_first_difference_orders(p.skip(1), x, s, y, t);
        assert(a.skip(1) =~= p.skip(1) + seq![x] + s);
        assert(b.skip(1) =~= p.skip(1) + seq![y] + t);
        assert(a[0] == p[0] && b[0] == p[0]);
    } else {
        assert(a[0] == x && b[0] == y);
    }
}

/// A text comes before everything that goes on from it.
pub proof fn law_beginnings_come_first(p: Seq<char>, s: Seq<char>)
    requires
        s.len() > 0,
    ensures
        before(p, p + s),
        !before(p + s, p),
    decreases p.len(),
{
    if p.len() > 0 {
        law_beginnings_come_first(p.skip(1), s);
        assert((p + s).skip(1) =~= p.skip(1) + s);
        assert((p + s)[0] == p[0]);
    }
}

// ---------------------------------------------------------------------------
// Numbers
// ---------------------------------------------------------------------------
/// What a digit is worth.
pub open spec fn worth(c: char) -> int {
    if '0' <= c <= '9' {
        c as int - '0' as int
    } else {
        c as int - 'a' as int + 10
    }
}

/// What a row of digits is worth.
pub open spec fn amount(digits: Seq<char>, base: int) -> int
    decreases digits.len(),
{
    if digits.len() == 0 {
        0
    } else {
        amount(digits.drop_last(), base) * base + worth(digits.last())
    }
}

/// A number in decimal is worth that number, is written with digits alone, and begins
/// with no needless zero.
pub proof fn law_decimal_is_worth_its_number(n: nat)
    ensures
        amount(decimal(n), 10) == n,
        decimal(n).len() > 0,
        forall|i: int| 0 <= i < decimal(n).len() ==> '0' <= #[trigger] decimal(n)[i] <= '9',
        n > 0 ==> decimal(n)[0] != '0',
    decreases n,
{
    if n < 10 {
        assert(decimal(n).drop_last() =~= Seq::empty());
        assert(amount(decimal(n).drop_last(), 10) == 0);
        assert(worth(digit(n)) == n);
    } else {
        law_decimal_is_worth_its_number(n / 10);
        assert(decimal(n).drop_last() =~= decimal(n / 10));
        assert(worth(digit(n % 10)) == n % 10);
        assert(decimal(n)[0] == decimal(n / 10)[0]);
    }
}

/// A negative number is a minus and its amount.
pub proof fn law_negative_numbers(n: int)
    ensures
        n < 0 ==> decimal_int(n) == seq!['-'] + decimal_int(-n),
        n >= 0 ==> amount(decimal_int(n), 10) == n,
{
    if n >= 0 {
        law_decimal_is_worth_its_number(n as nat);
    }
}

/// A number in hexadecimal is worth that number.
pub proof fn law_hexadecimal_is_worth_its_number(n: nat)
    ensures
        amount(hexadecimal(n), 16) == n,
        n > 0 ==> hexadecimal(n)[0] != '0',
        hexadecimal(n).len() > 0,
    decreases n,
{
    if n < 16 {
        assert(hexadecimal(n).drop_last() =~= Seq::empty());
        assert(amount(hexadecimal(n).drop_last(), 16) == 0);
        assert(worth(hex_digit(n)) == n);
    } else {
        law_hexadecimal_is_worth_its_number(n / 16);
        assert(hexadecimal(n).drop_last() =~= hexadecimal(n / 16));
        assert(worth(hex_digit(n % 16)) == n % 16);
        assert(hexadecimal(n)[0] == hexadecimal(n / 16)[0]);
    }
}

/// Blanks, tabs and ends of lines are whitespace; letters, digits, and what is printed of
/// the rest of ASCII are not.
pub proof fn law_what_is_whitespace(c: char)
    ensures
        c == ' ' || c == '\t' || c == '\n' || c == '\r' ==> whitespace(c),
        '!' <= c <= '~' ==> !whitespace(c),
        (c as u32) < 128 && whitespace(c) ==> c == ' ' || 9 <= c as u32 <= 13,
{
}

/// A plain text is shown for debugging between quotation marks, and nothing else changes.
pub proof fn law_plain_texts_are_quoted(s: Seq<char>)
    requires
        forall|i: int|
            0 <= i < s.len() ==> ' ' <= #[trigger] s[i] <= '~' && s[i] != '"' && s[i] != '\\',
    ensures
        debugged(s) == seq!['"'] + s + seq!['"'],
{
}

/// A time is told in milliseconds below a second, and in seconds from there on; a whole
/// number of seconds is told without a fraction.
pub proof fn law_times_are_told(ms: nat)
    ensures
        0 < ms < 1000 ==> duration_text(ms) == decimal(ms) + "ms"@,
        ms > 0 ==> duration_text(ms * 1000) == decimal(ms) + "s"@,
        ms >= 1000 ==> begins(duration_text(ms), decimal(ms / 1000)),
        ms >= 1000 ==> ends(duration_text(ms), "s"@),
{
    let t = duration_text(ms);
    let n = decimal(ms / 1000);
    if ms >= 1000 {
        assert(t.take(n.len() as int) =~= n);
        assert(t.skip(t.len() - "s"@.len()) =~= "s"@);
    }
    assert((ms * 1000) % 1000 == 0 && (ms * 1000) / 1000 == ms);
}

/// The fraction of a second is told in full, without zeros at its end.
pub proof fn law_fractions_are_told(n: nat)
    requires
        0 < n < 1000,
    ensures
        1 <= thousandths(n).len() <= 3,
        thousandths(n).last() != '0',
        thousandths(n).len() == 3 ==> amount(thousandths(n), 10) == n,
        thousandths(n).len() == 2 ==> amount(thousandths(n), 10) * 10 == n,
        thousandths(n).len() == 1 ==> amount(thousandths(n), 10) * 100 == n,
{
    let t = thousandths(n);
    assert(worth(digit(n / 100)) == n / 100);
    assert(worth(digit(n / 10 % 10)) == n / 10 % 10);
    assert(worth(digit(n % 10)) == n % 10);
    let one = seq![digit(n / 100)];
    let two = seq![digit(n / 100), digit(n / 10 % 10)];
    assert(one.drop_last() =~= Seq::empty());
    assert(amount(one.drop_last(), 10) == 0);
    assert(amount(one, 10) == n / 100);
    assert(two.drop_last() =~= one);
    assert(amount(two, 10) == n / 100 * 10 + n / 10 % 10);
    if t.len() == 3 {
        assert(t.drop_last() =~= two);
    }
}

} // verus!
