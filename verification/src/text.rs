//! Text as sequences of characters: comparison, search, trimming, splitting and
//! decimal rendering, each stated over `Seq<char>`.

use vstd::prelude::*;

verus! {

// ---------------------------------------------------------------------------
// What the standard library is trusted for
// ---------------------------------------------------------------------------
/// `str::eq`: two string slices are equal exactly when they hold the same
/// characters.
pub assume_specification[ <str as PartialEq>::eq ](a: &str, b: &str) -> (r: bool)
    ensures
        r == (a@ == b@),
;

/// `String::push` appends one character and leaves the rest as it was.
pub assume_specification[ String::push ](s: &mut String, c: char)
    ensures
        final(s)@ == old(s)@.push(c),
;

/// The Unicode property `White_Space`.
pub open spec fn whitespace(c: char) -> bool {
    ||| '\u{9}' <= c <= '\u{d}'
    ||| c == ' ' || c == '\u{85}' || c == '\u{a0}' || c == '\u{1680}'
    ||| '\u{2000}' <= c <= '\u{200a}'
    ||| c == '\u{2028}' || c == '\u{2029}' || c == '\u{202f}' || c == '\u{205f}' || c == '\u{3000}'
}

/// `char::is_whitespace` tells whether a character has the Unicode property
/// `White_Space`.
pub assume_specification[ char::is_whitespace ](c: char) -> (r: bool)
    ensures
        r == whitespace(c),
;

/// Whether a text is made of ASCII characters.
pub open spec fn all_ascii(s: Seq<char>) -> bool {
    forall|i: int| 0 <= i < s.len() ==> (#[trigger] s[i] as u32) < 128
}

/// The Unicode lowercase form of a text, as `str::to_lowercase` computes it.
pub uninterp spec fn lowercase(s: Seq<char>) -> Seq<char>;

/// `str::to_lowercase` depends on the characters of its argument alone. In ASCII text
/// it changes the letters `A` to `Z` and nothing else.
#[verifier::external_body]
pub(crate) fn to_lowercase(s: &str) -> (r: String)
    ensures
        r@ == lowercase(s@),
        all_ascii(s@) ==> r@ == ascii_lowered(s@),
{
    s.to_lowercase()
}

/// A text in lower case.
pub open spec fn lowered(s: Seq<char>) -> Seq<char> {
    if all_ascii(s) {
        ascii_lowered(s)
    } else {
        lowercase(s)
    }
}

/// The upper case of an ASCII letter; other characters as they are.
pub open spec fn ascii_upper(c: char) -> char {
    if 'a' <= c && c <= 'z' {
        ((c as u32 - 32) as u32) as char
    } else {
        c
    }
}

/// The Unicode uppercase form of one character, as `char::to_uppercase`
/// computes it; some characters become several.
pub uninterp spec fn uppercase(c: char) -> Seq<char>;

/// `char::to_uppercase` depends on the character alone. Of ASCII characters it changes
/// the letters `a` to `z` and nothing else, and a slash comes of a slash only: the
/// mappings of the Unicode Character Database lead to letters and marks.
#[verifier::external_body]
pub(crate) fn to_uppercase(c: char) -> (r: String)
    ensures
        r@ == uppercase(c),
        (c as u32) < 128 ==> r@ == seq![ascii_upper(c)],
        c != '/' ==> !r@.contains('/'),
{
    c.to_uppercase().collect()
}

/// A character in upper case.
pub open spec fn upper(c: char) -> Seq<char> {
    if (c as u32) < 128 {
        seq![ascii_upper(c)]
    } else {
        uppercase(c)
    }
}

/// Whether a text is printable ASCII without double quotes and backslashes.
pub open spec fn plain(s: Seq<char>) -> bool {
    forall|i: int|
        0 <= i < s.len() ==> ' ' <= #[trigger] s[i] && s[i] <= '~' && s[i] != '"' && s[i] != '\\'
}

/// A text as `{:?}` shows it: in double quotes, with escapes.
pub uninterp spec fn quoted(s: Seq<char>) -> Seq<char>;

/// The `Debug` form of `str`, as `format!` writes it for `{:?}`, depends on the
/// characters alone. Printable ASCII without quotes and backslashes stands in it as it
/// is.
#[verifier::external_body]
pub(crate) fn quote(s: &str) -> (r: String)
    ensures
        r@ == quoted(s@),
        plain(s@) ==> r@ == seq!['"'] + s@ + seq!['"'],
{
    format!("{s:?}")
}

/// A text as it is shown for debugging.
pub open spec fn debugged(s: Seq<char>) -> Seq<char> {
    if plain(s) {
        seq!['"'] + s + seq!['"']
    } else {
        quoted(s)
    }
}

/// The text that `String::from_utf8_lossy` makes of some bytes.
pub uninterp spec fn lossy(bytes: Seq<u8>) -> Seq<char>;

/// `String::from_utf8_lossy` depends on the bytes alone; bytes that are the
/// UTF-8 form of a text come back as that text.
#[verifier::external_body]
pub(crate) fn from_utf8_lossy(bytes: &[u8]) -> (r: String)
    ensures
        r@ == lossy(bytes@),
        forall|t: Seq<char>|
            bytes@ == #[trigger] vstd::utf8::encode_utf8(t) ==> r@ == t,
{
    String::from_utf8_lossy(bytes).into_owned()
}

/// `std::str::from_utf8`: bytes that are valid UTF-8 are the text that they encode,
/// and other bytes are none.
#[verifier::external_body]
pub(crate) fn from_utf8(bytes: &[u8]) -> (r: Option<String>)
    ensures
        match r {
            Some(t) => vstd::utf8::valid_utf8(bytes@) && t@ == vstd::utf8::decode_utf8(bytes@),
            None => !vstd::utf8::valid_utf8(bytes@),
        },
{
    std::str::from_utf8(bytes).ok().map(String::from)
}

// ---------------------------------------------------------------------------
// Equality, copying and concatenation
// ---------------------------------------------------------------------------
/// Whether two texts hold the same characters.
pub fn same(a: &str, b: &str) -> (r: bool)
    ensures
        r == (a@ == b@),
{
    *a == *b
}

/// The characters of an optional text.
pub open spec fn opt_text(s: Option<String>) -> Option<Seq<char>> {
    match s {
        Some(t) => Some(t@),
        None => None,
    }
}

/// Whether an optional text is exactly `b`.
pub fn opt_same(a: Option<&str>, b: &str) -> (r: bool)
    ensures
        r == (a is Some && a->0@ == b@),
{
    match a {
        Some(t) => same(t, b),
        None => false,
    }
}

/// A copy of an optional text.
pub fn opt_copy(s: &Option<String>) -> (r: Option<String>)
    ensures
        r == *s,
{
    match s {
        Some(t) => Some(t.clone()),
        None => None,
    }
}

/// An owned copy of a text.
pub fn owned(s: &str) -> (r: String)
    ensures
        r@ == s@,
{
    s.to_owned()
}

/// `a` followed by `b`.
pub fn join2(a: &str, b: &str) -> (r: String)
    ensures
        r@ == a@ + b@,
{
    let mut out = a.to_owned();
    out.append(b);
    out
}

/// `a`, `b` and `c` in a row.
pub fn join3(a: &str, b: &str, c: &str) -> (r: String)
    ensures
        r@ == a@ + b@ + c@,
{
    let mut out = a.to_owned();
    out.append(b);
    out.append(c);
    out
}

/// The views of a list of owned texts.
pub open spec fn texts(v: Seq<String>) -> Seq<Seq<char>> {
    v.map_values(|s: String| s@)
}

/// The views of a list of borrowed texts.
pub open spec fn strs(v: Seq<&'static str>) -> Seq<Seq<char>> {
    v.map_values(|s: &'static str| s@)
}

/// Length and first two characters of a text; texts with different tags differ.
pub open spec fn tag(s: Seq<char>) -> (nat, char, char) {
    (s.len(), s[0], s[1])
}

/// Whether a table of texts holds `x`.
pub open spec fn listed(v: Seq<&'static str>, x: Seq<char>) -> bool {
    exists|i: int| 0 <= i < v.len() && #[trigger] v[i]@ == x
}

/// Looks `x` up in a table of texts.
pub fn is_listed(v: &[&'static str], x: &str) -> (r: bool)
    ensures
        r == listed(v@, x@),
{
    let n: usize = v.len();
    let mut i: usize = 0;
    while i < n
        invariant
            i <= n,
            n == v@.len(),
            forall|j: int| 0 <= j < i ==> #[trigger] v@[j]@ != x@,
        decreases n - i,
    {
        if same(v[i], x) {
            assert(v@[i as int]@ == x@);
            return true;
        }
        i += 1;
    }
    false
}

// ---------------------------------------------------------------------------
// Characters of a text
// ---------------------------------------------------------------------------
/// The characters of a text, in order.
pub fn chars_of(s: &str) -> (r: Vec<char>)
    ensures
        r@ == s@,
{
    let mut out: Vec<char> = Vec::new();
    for c in it: s.chars()
        invariant
            out@ == it.seq().take(it.index() as int),
            it.seq() == s@,
    {
        out.push(c);
    }
    out
}

/// The text made of the characters `lo..hi` of `v`.
pub fn text_of(v: &[char], lo: usize, hi: usize) -> (r: String)
    requires
        lo <= hi <= v@.len(),
    ensures
        r@ == v@.subrange(lo as int, hi as int),
{
    let mut out = String::new();
    let mut i: usize = lo;
    while i < hi
        invariant
            lo <= i <= hi <= v@.len(),
            out@ == v@.subrange(lo as int, i as int),
        decreases hi - i,
    {
        out.push(v[i]);
        assert(v@.subrange(lo as int, i + 1) == v@.subrange(lo as int, i as int).push(v@[i as int]));
        i += 1;
    }
    out
}

/// The first `n` characters of a text, or all of them if there are fewer.
pub open spec fn first_chars(s: Seq<char>, n: nat) -> Seq<char> {
    if s.len() <= n {
        s
    } else {
        s.take(n as int)
    }
}

/// Keeps the first `n` characters.
pub fn take_chars(s: &str, n: usize) -> (r: String)
    ensures
        r@ == first_chars(s@, n as nat),
{
    let v = chars_of(s);
    let hi: usize = if v.len() <= n { v.len() } else { n };
    let out = text_of(v.as_slice(), 0, hi);
    assert(out@ == first_chars(s@, n as nat));
    out
}

// ---------------------------------------------------------------------------
// Search
// ---------------------------------------------------------------------------
/// `p` stands in `s` at position `i`.
pub open spec fn stands_at(s: Seq<char>, p: Seq<char>, i: int) -> bool {
    0 <= i && i + p.len() <= s.len() && s.subrange(i, i + p.len()) == p
}

/// `p` stands somewhere in `s`.
pub open spec fn has_text(s: Seq<char>, p: Seq<char>) -> bool {
    exists|i: int| #[trigger] stands_at(s, p, i)
}

/// `s` begins with `p`.
pub open spec fn begins(s: Seq<char>, p: Seq<char>) -> bool {
    p.len() <= s.len() && s.take(p.len() as int) == p
}

/// `s` ends with `p`.
pub open spec fn ends(s: Seq<char>, p: Seq<char>) -> bool {
    p.len() <= s.len() && s.skip(s.len() - p.len()) == p
}

/// Whether `p` stands in `s` at position `i`.
pub fn matches_at(s: &[char], p: &[char], i: usize) -> (r: bool)
    requires
        i <= s@.len(),
    ensures
        r == stands_at(s@, p@, i as int),
{
    let n: usize = s.len();
    if p.len() > n - i {
        return false;
    }
    let mut k: usize = 0;
    while k < p.len()
        invariant
            k <= p@.len(),
            n == s@.len(),
            i + p@.len() <= n,
            forall|j: int| 0 <= j < k ==> s@[i + j] == p@[j],
        decreases p@.len() - k,
    {
        if s[i + k] != p[k] {
            assert(s@.subrange(i as int, i + p@.len())[k as int] != p@[k as int]);
            return false;
        }
        k += 1;
    }
    assert(s@.subrange(i as int, i + p@.len()) =~= p@);
    true
}

/// The first position from `from` on at which `p` stands in `s`.
pub fn find_from(s: &[char], p: &[char], from: usize) -> (r: Option<usize>)
    requires
        from <= s@.len(),
    ensures
        match r {
            Some(i) => from <= i && stands_at(s@, p@, i as int) && forall|j: int|
                from <= j < i ==> !#[trigger] stands_at(s@, p@, j),
            None => forall|j: int| from <= j ==> !#[trigger] stands_at(s@, p@, j),
        },
{
    let mut i: usize = from;
    loop
        invariant
            from <= i <= s@.len(),
            forall|j: int| from <= j < i ==> !#[trigger] stands_at(s@, p@, j),
        decreases s@.len() - i,
    {
        if matches_at(s, p, i) {
            return Some(i);
        }
        if i == s.len() {
            return None;
        }
        i += 1;
    }
}

/// Whether `p` stands somewhere in `s`.
pub fn contains(s: &str, p: &str) -> (r: bool)
    ensures
        r == has_text(s@, p@),
{
    let sv = chars_of(s);
    let pv = chars_of(p);
    match find_from(sv.as_slice(), pv.as_slice(), 0) {
        Some(i) => {
            assert(stands_at(s@, p@, i as int));
            true
        },
        None => false,
    }
}

/// Whether `s` begins with `p`.
pub fn starts_with(s: &str, p: &str) -> (r: bool)
    ensures
        r == begins(s@, p@),
{
    let sv = chars_of(s);
    let pv = chars_of(p);
    assert(s@.len() >= p@.len() ==> s@.subrange(0, p@.len() as int) == s@.take(p@.len() as int));
    matches_at(sv.as_slice(), pv.as_slice(), 0)
}

/// Whether `s` ends with `p`.
pub fn ends_with(s: &str, p: &str) -> (r: bool)
    ensures
        r == ends(s@, p@),
{
    let sv = chars_of(s);
    let pv = chars_of(p);
    if pv.len() > sv.len() {
        return false;
    }
    assert(s@.subrange(s@.len() - p@.len(), s@.len() as int) == s@.skip(s@.len() - p@.len()));
    matches_at(sv.as_slice(), pv.as_slice(), sv.len() - pv.len())
}

/// What follows the prefix `p`, if `s` begins with it.
pub fn strip_prefix(s: &str, p: &str) -> (r: Option<String>)
    ensures
        r is Some <==> begins(s@, p@),
        r is Some ==> r->0@ == s@.skip(p@.len() as int),
{
    if !starts_with(s, p) {
        return None;
    }
    let sv = chars_of(s);
    let pv = chars_of(p);
    let rest = text_of(sv.as_slice(), pv.len(), sv.len());
    assert(rest@ == s@.skip(p@.len() as int));
    Some(rest)
}

/// What stands before the suffix `p`, if `s` ends with it.
pub fn strip_suffix(s: &str, p: &str) -> (r: Option<String>)
    ensures
        r is Some <==> ends(s@, p@),
        r is Some ==> r->0@ == s@.take(s@.len() - p@.len()),
{
    if !ends_with(s, p) {
        return None;
    }
    let sv = chars_of(s);
    let pv = chars_of(p);
    let rest = text_of(sv.as_slice(), 0, sv.len() - pv.len());
    assert(rest@ == s@.take(s@.len() - p@.len()));
    Some(rest)
}

/// The first position of `c` in `s`, or the length of `s` if it does not occur.
pub open spec fn index_or_end(s: Seq<char>, c: char) -> int
    decreases s.len(),
{
    if s.len() == 0 || s[0] == c {
        0
    } else {
        1 + index_or_end(s.skip(1), c)
    }
}

/// What `index_or_end` is: the first occurrence, or the end.
pub proof fn lemma_index_or_end(s: Seq<char>, c: char)
    ensures
        0 <= index_or_end(s, c) <= s.len(),
        forall|j: int| 0 <= j < index_or_end(s, c) ==> s[j] != c,
        index_or_end(s, c) < s.len() ==> s[index_or_end(s, c)] == c,
    decreases s.len(),
{
    if s.len() == 0 || s[0] == c {
    } else {
        lemma_index_or_end(s.skip(1), c);
        let k = index_or_end(s.skip(1), c);
        assert forall|j: int| 0 <= j < 1 + k implies s[j] != c by {
            if j > 0 {
                assert(s.skip(1)[j - 1] == s[j]);
            }
        }
        if 1 + k < s.len() {
            assert(s.skip(1)[k] == s[1 + k]);
        }
    }
}

/// The first position of `c` at or after `from`, or the length of `s`.
pub fn index_of(s: &[char], c: char, from: usize) -> (r: usize)
    requires
        from <= s@.len(),
    ensures
        r == from + index_or_end(s@.skip(from as int), c),
        from <= r <= s@.len(),
        forall|j: int| from <= j < r ==> s@[j] != c,
        r < s@.len() ==> s@[r as int] == c,
{
    let mut i: usize = from;
    while i < s.len() && s[i] != c
        invariant
            from <= i <= s@.len(),
            from + index_or_end(s@.skip(from as int), c) == i + index_or_end(s@.skip(i as int), c),
            forall|j: int| from <= j < i ==> s@[j] != c,
        decreases s@.len() - i,
    {
        assert(s@.skip(i as int).skip(1) == s@.skip(i + 1));
        i += 1;
    }
    i
}

/// Splits at the first `c`: what stands before it and what stands after it.
pub open spec fn split_first(s: Seq<char>, c: char) -> Option<(Seq<char>, Seq<char>)> {
    let k = index_or_end(s, c);
    if k < s.len() {
        Some((s.take(k), s.skip(k + 1)))
    } else {
        None
    }
}

/// Splits at the first `c`.
pub fn split_once(s: &str, c: char) -> (r: Option<(String, String)>)
    ensures
        r is Some <==> split_first(s@, c) is Some,
        r is Some ==> split_first(s@, c)->0 == ((r->0).0@, (r->0).1@),
{
    let v = chars_of(s);
    let k: usize = index_of(v.as_slice(), c, 0);
    assert(s@.skip(0) == s@);
    if k < v.len() {
        let a = text_of(v.as_slice(), 0, k);
        let b = text_of(v.as_slice(), k + 1, v.len());
        assert(a@ == s@.take(k as int));
        assert(b@ == s@.skip(k + 1));
        Some((a, b))
    } else {
        None
    }
}

// ---------------------------------------------------------------------------
// Trimming
// ---------------------------------------------------------------------------
/// `s` without its leading whitespace.
pub open spec fn trimmed_start(s: Seq<char>) -> Seq<char>
    decreases s.len(),
{
    if s.len() > 0 && whitespace(s[0]) {
        trimmed_start(s.skip(1))
    } else {
        s
    }
}

/// `s` without its trailing whitespace.
pub open spec fn trimmed_end(s: Seq<char>) -> Seq<char>
    decreases s.len(),
{
    if s.len() > 0 && whitespace(s.last()) {
        trimmed_end(s.drop_last())
    } else {
        s
    }
}

/// `s` without whitespace at either end.
pub open spec fn trimmed(s: Seq<char>) -> Seq<char> {
    trimmed_end(trimmed_start(s))
}

/// Removes whitespace at both ends.
pub fn trim(s: &str) -> (r: String)
    ensures
        r@ == trimmed(s@),
{
    let v = chars_of(s);
    let mut lo: usize = 0;
    let n: usize = v.len();
    assert(s@.skip(0) == s@);
    while lo < n && v[lo].is_whitespace()
        invariant
            lo <= n,
            n == v@.len(),
            v@ == s@,
            trimmed_start(s@) == trimmed_start(s@.skip(lo as int)),
        decreases n - lo,
    {
        assert(s@.skip(lo as int).skip(1) == s@.skip(lo + 1));
        lo += 1;
    }
    let ghost left = s@.skip(lo as int);
    assert(trimmed_start(s@) == left);
    let mut hi: usize = n;
    assert(left.take(hi - lo) == left);
    while hi > lo && v[hi - 1].is_whitespace()
        invariant
            lo <= hi <= n,
            n == v@.len(),
            v@ == s@,
            left == s@.skip(lo as int),
            trimmed_end(left) == trimmed_end(left.take(hi - lo)),
        decreases hi - lo,
    {
        assert(left.take(hi - lo).drop_last() == left.take(hi - lo - 1));
        assert(left.take(hi - lo).last() == s@[hi - 1]);
        hi -= 1;
    }
    let out = text_of(v.as_slice(), lo, hi);
    assert(out@ == left.take(hi - lo));
    assert(hi > lo ==> left.take(hi - lo).last() == s@[hi - 1]);
    out
}

/// A text is blank when nothing is left of it once it is trimmed.
pub open spec fn blank(s: Seq<char>) -> bool {
    trimmed(s).len() == 0
}

/// Whether nothing but whitespace is in `s`.
pub fn is_blank(s: &str) -> (r: bool)
    ensures
        r == blank(s@),
{
    trim(s).as_str().is_empty()
}

// ---------------------------------------------------------------------------
// ASCII case
// ---------------------------------------------------------------------------
/// The ASCII lowercase form of one character.
pub open spec fn ascii_lower(c: char) -> char {
    if 'A' <= c && c <= 'Z' {
        ((c as u32) + 32) as char
    } else {
        c
    }
}

/// The ASCII lowercase form of a text.
pub open spec fn ascii_lowered(s: Seq<char>) -> Seq<char> {
    s.map_values(|c: char| ascii_lower(c))
}

/// Lowers the ASCII letters of a text.
pub fn to_ascii_lowercase(s: &str) -> (r: String)
    ensures
        r@ == ascii_lowered(s@),
{
    let v = chars_of(s);
    let mut out = String::new();
    let n: usize = v.len();
    let mut i: usize = 0;
    while i < n
        invariant
            i <= n,
            n == v@.len(),
            v@ == s@,
            out@ == ascii_lowered(s@).take(i as int),
        decreases n - i,
    {
        let c = v[i];
        let low = if 'A' <= c && c <= 'Z' {
            (((c as u8) + 32u8) as char)
        } else {
            c
        };
        assert(low == ascii_lower(c));
        out.push(low);
        assert(ascii_lowered(s@).take(i + 1) == ascii_lowered(s@).take(i as int).push(low));
        i += 1;
    }
    assert(ascii_lowered(s@).take(n as int) == ascii_lowered(s@));
    out
}

/// Whether two texts agree up to the case of ASCII letters.
pub fn same_ignoring_ascii_case(a: &str, b: &str) -> (r: bool)
    ensures
        r == (ascii_lowered(a@) == ascii_lowered(b@)),
{
    same(to_ascii_lowercase(a).as_str(), to_ascii_lowercase(b).as_str())
}

// ---------------------------------------------------------------------------
// Lines
// ---------------------------------------------------------------------------
/// A line without the carriage return that precedes its line feed.
pub open spec fn without_cr(line: Seq<char>) -> Seq<char> {
    if line.len() > 0 && line.last() == '\r' {
        line.drop_last()
    } else {
        line
    }
}

/// Whether a text is part of one line.
pub open spec fn unbroken(s: Seq<char>) -> bool {
    forall|i: int| 0 <= i < s.len() ==> #[trigger] s[i] != '\n' && s[i] != '\r'
}

/// Whether a text is made of whole lines.
pub open spec fn ends_lines(s: Seq<char>) -> bool {
    s.len() == 0 || s.last() == '\n'
}

/// The lines of a text: ended by a line feed, with or without a carriage return
/// before it; what follows the last line feed is a line if it is not empty.
pub open spec fn lines_of(s: Seq<char>) -> Seq<Seq<char>>
    decreases s.len(),
{
    if s.len() == 0 {
        seq![]
    } else {
        let k = index_or_end(s, '\n');
        if 0 <= k < s.len() {
            seq![without_cr(s.take(k))] + lines_of(s.skip(k + 1))
        } else {
            seq![s]
        }
    }
}

/// A line that is written behind whole lines is read as the line after them.
pub proof fn lemma_line_added(s: Seq<char>, line: Seq<char>)
    requires
        ends_lines(s),
        unbroken(line),
    ensures
        lines_of(s + line + "\n"@) == lines_of(s).push(line),
        ends_lines(s + line + "\n"@),
    decreases s.len(),
{
    reveal_strlit("\n");
    let all = s + line + "\n"@;
    lemma_index_or_end(all, '\n');
    let k = index_or_end(all, '\n');
    assert(all.last() == '\n');
    if s.len() == 0 {
        assert(all[line.len() as int] == '\n');
        assert forall|i: int| 0 <= i < line.len() implies all[i] != '\n' by {
            assert(all[i] == line[i]);
        }
        assert(k == line.len());
        assert(all.take(k) =~= line);
        assert(all.skip(k + 1) =~= seq![]);
        assert(lines_of(all) =~= seq![line] + lines_of(seq![]));
        assert(lines_of(seq![]) =~= seq![]);
        assert(lines_of(s).push(line) =~= seq![line]);
    } else {
        lemma_index_or_end(s, '\n');
        let j = index_or_end(s, '\n');
        assert(s[s.len() - 1] == '\n');
        assert(all[j] == s[j]);
        if k < j {
            assert(all[k] == s[k]);
        }
        assert(k == j);
        assert(all.take(k) =~= s.take(k));
        let rest = s.skip(k + 1);
        assert(all.skip(k + 1) =~= rest + line + "\n"@);
        assert(ends_lines(rest)) by {
            if rest.len() > 0 {
                assert(rest.last() == s.last());
            }
        }
        lemma_line_added(rest, line);
        assert(lines_of(all) =~= lines_of(s).push(line));
    }
}

/// Splits a text into lines.
pub fn lines(s: &str) -> (r: Vec<String>)
    ensures
        texts(r@) == lines_of(s@),
{
    let v = chars_of(s);
    let n: usize = v.len();
    let mut out: Vec<String> = Vec::new();
    let mut i: usize = 0;
    assert(s@.skip(0) == s@);
    assert(texts(out@) + lines_of(s@) == lines_of(s@));
    while i < n
        invariant
            i <= n,
            n == v@.len(),
            v@ == s@,
            texts(out@) + lines_of(s@.skip(i as int)) == lines_of(s@),
        decreases n - i,
    {
        let k: usize = index_of(v.as_slice(), '\n', i);
        let ghost rest = s@.skip(i as int);
        let ghost before = out@;
        assert(index_or_end(rest, '\n') == k - i);
        if k < n {
            let hi: usize = if k > i && v[k - 1] == '\r' { k - 1 } else { k };
            let line = text_of(v.as_slice(), i, hi);
            assert(rest.take(k - i) == s@.subrange(i as int, k as int));
            assert(k > i ==> rest.take(k - i).last() == s@[k - 1]);
            assert(line@ == without_cr(rest.take(k - i)));
            out.push(line);
            assert(rest.skip(k - i + 1) == s@.skip(k + 1));
            assert(texts(out@) == texts(before).push(line@));
            assert(texts(out@) + lines_of(s@.skip(k + 1)) == texts(before) + (seq![line@]
                + lines_of(s@.skip(k + 1))));
            i = k + 1;
        } else {
            let line = text_of(v.as_slice(), i, n);
            assert(line@ == rest);
            out.push(line);
            assert(texts(out@) == texts(before).push(line@));
            assert(s@.skip(n as int).len() == 0);
            assert(lines_of(s@.skip(n as int)) =~= seq![]);
            assert(texts(out@) + lines_of(s@.skip(n as int)) == texts(before) + seq![line@]);
            i = n;
        }
    }
    assert(lines_of(s@.skip(n as int)) =~= seq![]);
    assert(texts(out@) + lines_of(s@.skip(n as int)) == texts(out@));
    out
}

/// The parts of a text between the occurrences of a character.
pub open spec fn split_all(s: Seq<char>, c: char) -> Seq<Seq<char>>
    decreases s.len(),
{
    let i = index_or_end(s, c);
    if 0 <= i < s.len() {
        seq![s.take(i)] + split_all(s.skip(i + 1), c)
    } else {
        seq![s]
    }
}

/// The parts of a text between the occurrences of a character.
pub fn split(s: &str, c: char) -> (r: Vec<String>)
    ensures
        texts(r@) == split_all(s@, c),
{
    let v = chars_of(s);
    let mut out: Vec<String> = Vec::new();
    let mut i: usize = 0;
    assert(s@.skip(0) =~= s@);
    assert(texts(out@) + split_all(s@, c) =~= split_all(s@, c));
    loop
        invariant_except_break
            i <= v@.len(),
            v@ == s@,
            texts(out@) + split_all(s@.skip(i as int), c) == split_all(s@, c),
        ensures
            texts(out@) == split_all(s@, c),
        decreases v@.len() - i,
    {
        let ghost rest = s@.skip(i as int);
        let ghost was = out@;
        let end: usize = index_of(v.as_slice(), c, i);
        proof {
            lemma_index_or_end(rest, c);
            assert(end == i + index_or_end(rest, c));
        }
        let part = text_of(v.as_slice(), i, end);
        let ghost g = part@;
        out.push(part);
        assert(texts(out@) =~= texts(was).push(g));
        if end < v.len() {
            assert(g =~= rest.take(end - i));
            assert(rest.skip(end - i + 1) =~= s@.skip(end + 1));
            assert(texts(out@) + split_all(s@.skip(end + 1), c) =~= texts(was) + split_all(rest, c));
            i = end + 1;
        } else {
            assert(g =~= rest);
            assert(texts(out@) =~= texts(was) + split_all(rest, c));
            break;
        }
    }
    out
}

/// The words of a text: the longest runs without white space.
pub open spec fn words_of(s: Seq<char>) -> Seq<Seq<char>>
    decreases s.len(),
{
    if s.len() == 0 {
        seq![]
    } else {
        let p = s.drop_last();
        let w = words_of(p);
        if whitespace(s.last()) {
            w
        } else if p.len() == 0 || whitespace(p.last()) {
            w.push(seq![s.last()])
        } else {
            w.drop_last().push(w.last().push(s.last()))
        }
    }
}

/// The words of a text.
pub fn words(s: &str) -> (r: Vec<String>)
    ensures
        texts(r@) == words_of(s@),
{
    let v = chars_of(s);
    let mut out: Vec<String> = Vec::new();
    let mut word = String::new();
    let mut inside = false;
    assert(word@ =~= seq![]);
    assert(texts(out@) =~= seq![]);
    let mut i: usize = 0;
    while i < v.len()
        invariant
            i <= v@.len(),
            v@ == s@,
            inside == (i > 0 && !whitespace(s@[i - 1])),
            !inside ==> word@ == Seq::<char>::empty(),
            words_of(s@.take(i as int)) == (if inside {
                texts(out@).push(word@)
            } else {
                texts(out@)
            }),
        decreases v@.len() - i,
    {
        let ghost t = s@.take(i + 1);
        assert(t.drop_last() =~= s@.take(i as int));
        assert(t.last() == v@[i as int]);
        if i > 0 {
            assert(s@.take(i as int).last() == s@[i - 1]);
        }
        let c = v[i];
        if c.is_whitespace() {
            if inside {
                let ghost was = out@;
                out.push(word);
                assert(texts(out@) =~= texts(was).push(word@));
                word = String::new();
                assert(word@ =~= seq![]);
            }
            inside = false;
        } else {
            let ghost before = word@;
            word.push(c);
            if inside {
                assert(texts(out@).push(before).drop_last() =~= texts(out@));
            } else {
                assert(word@ =~= seq![c]);
            }
            inside = true;
        }
        i += 1;
    }
    assert(s@.take(i as int) =~= s@);
    if inside {
        let ghost was = out@;
        out.push(word);
        assert(texts(out@) =~= texts(was).push(word@));
    }
    out
}

// ---------------------------------------------------------------------------
// Order
// ---------------------------------------------------------------------------
/// `a` comes strictly before `b` in the lexicographic order of characters.
pub open spec fn before(a: Seq<char>, b: Seq<char>) -> bool
    decreases a.len(),
{
    if b.len() == 0 {
        false
    } else if a.len() == 0 {
        true
    } else if a[0] != b[0] {
        a[0] < b[0]
    } else {
        before(a.skip(1), b.skip(1))
    }
}

/// The order is strict and total.
pub proof fn lemma_before_total(a: Seq<char>, b: Seq<char>)
    ensures
        a == b ==> !before(a, b),
        a != b ==> before(a, b) != before(b, a),
    decreases a.len(),
{
    if a.len() > 0 && b.len() > 0 && a[0] == b[0] {
        lemma_before_total(a.skip(1), b.skip(1));
        if a.skip(1) == b.skip(1) {
            assert(a =~= seq![a[0]] + a.skip(1));
            assert(b =~= seq![b[0]] + b.skip(1));
        }
    } else if a.len() == 0 && b.len() == 0 {
        assert(a =~= b);
    }
}

/// The order is transitive.
pub proof fn lemma_before_trans(a: Seq<char>, b: Seq<char>, c: Seq<char>)
    requires
        before(a, b),
        before(b, c),
    ensures
        before(a, c),
    decreases a.len(),
{
    if a.len() > 0 && a[0] == b[0] && b[0] == c[0] {
        lemma_before_trans(a.skip(1), b.skip(1), c.skip(1));
    }
}

/// Whether `a` comes strictly before `b`.
pub fn is_before(a: &str, b: &str) -> (r: bool)
    ensures
        r == before(a@, b@),
{
    let av = chars_of(a);
    let bv = chars_of(b);
    let mut i: usize = 0;
    assert(a@.skip(0) == a@);
    assert(b@.skip(0) == b@);
    while i < av.len() && i < bv.len() && av[i] == bv[i]
        invariant
            i <= av@.len(),
            i <= bv@.len(),
            av@ == a@,
            bv@ == b@,
            before(a@, b@) == before(a@.skip(i as int), b@.skip(i as int)),
        decreases av@.len() - i,
    {
        assert(a@.skip(i as int).skip(1) == a@.skip(i + 1));
        assert(b@.skip(i as int).skip(1) == b@.skip(i + 1));
        i += 1;
    }
    if i >= bv.len() {
        false
    } else if i >= av.len() {
        true
    } else {
        av[i] < bv[i]
    }
}

// ---------------------------------------------------------------------------
// Decimal numbers
// ---------------------------------------------------------------------------
/// The decimal digit for `d`.
pub open spec fn digit(d: nat) -> char {
    if d == 0 {
        '0'
    } else if d == 1 {
        '1'
    } else if d == 2 {
        '2'
    } else if d == 3 {
        '3'
    } else if d == 4 {
        '4'
    } else if d == 5 {
        '5'
    } else if d == 6 {
        '6'
    } else if d == 7 {
        '7'
    } else if d == 8 {
        '8'
    } else {
        '9'
    }
}

/// The decimal form of a natural number, without leading zeros.
pub open spec fn decimal(n: nat) -> Seq<char>
    decreases n,
{
    if n < 10 {
        seq![digit(n)]
    } else {
        decimal(n / 10).push(digit(n % 10))
    }
}

/// The decimal form of an integer.
pub open spec fn decimal_int(n: int) -> Seq<char> {
    if n < 0 {
        seq!['-'] + decimal((-n) as nat)
    } else {
        decimal(n as nat)
    }
}

fn digit_char(d: u64) -> (r: char)
    requires
        d < 10,
    ensures
        r == digit(d as nat),
{
    if d == 0 {
        '0'
    } else if d == 1 {
        '1'
    } else if d == 2 {
        '2'
    } else if d == 3 {
        '3'
    } else if d == 4 {
        '4'
    } else if d == 5 {
        '5'
    } else if d == 6 {
        '6'
    } else if d == 7 {
        '7'
    } else if d == 8 {
        '8'
    } else {
        '9'
    }
}

/// Renders a natural number in decimal.
pub fn decimal_u64(n: u64) -> (r: String)
    ensures
        r@ == decimal(n as nat),
    decreases n,
{
    if n < 10 {
        let mut out = String::new();
        out.push(digit_char(n));
        assert(out@ == decimal(n as nat));
        out
    } else {
        let mut out = decimal_u64(n / 10);
        out.push(digit_char(n % 10));
        out
    }
}

/// Renders an integer in decimal.
pub fn decimal_i64(n: i64) -> (r: String)
    ensures
        r@ == decimal_int(n as int),
{
    if n < 0 {
        let magnitude: u64 = if n == i64::MIN { 9223372036854775808u64 } else { (-n) as u64 };
        let digits = decimal_u64(magnitude);
        let mut out = String::new();
        out.push('-');
        out.append(digits.as_str());
        assert(out@ == decimal_int(n as int));
        out
    } else {
        decimal_u64(n as u64)
    }
}

/// Thousandths as the digits of a fraction, without trailing zeros.
pub open spec fn thousandths(n: nat) -> Seq<char> {
    if n % 10 != 0 {
        seq![digit(n / 100), digit(n / 10 % 10), digit(n % 10)]
    } else if n / 10 % 10 != 0 {
        seq![digit(n / 100), digit(n / 10 % 10)]
    } else {
        seq![digit(n / 100)]
    }
}

/// A time in milliseconds, for people: in the largest unit that it reaches.
pub open spec fn duration_text(ms: nat) -> Seq<char> {
    if ms == 0 {
        "0ns"@
    } else if ms < 1000 {
        decimal(ms) + "ms"@
    } else if ms % 1000 == 0 {
        decimal(ms / 1000) + "s"@
    } else {
        decimal(ms / 1000) + "."@ + (thousandths(ms % 1000) + "s"@)
    }
}

/// A time in milliseconds, for people.
pub fn show_duration(ms: u64) -> (r: String)
    ensures
        r@ == duration_text(ms as nat),
{
    if ms == 0 {
        return owned("0ns");
    }
    if ms < 1000 {
        return join2(decimal_u64(ms).as_str(), "ms");
    }
    let whole = decimal_u64(ms / 1000);
    let n: u64 = ms % 1000;
    if n == 0 {
        return join2(whole.as_str(), "s");
    }
    let mut fraction = String::new();
    fraction.push(digit_char(n / 100));
    if n % 100 != 0 {
        fraction.push(digit_char(n / 10 % 10));
        if n % 10 != 0 {
            fraction.push(digit_char(n % 10));
        }
    }
    assert(fraction@ =~= thousandths(n as nat));
    join3(whole.as_str(), ".", join2(fraction.as_str(), "s").as_str())
}

/// The lowercase hexadecimal digit for `d`.
pub open spec fn hex_digit(d: nat) -> char {
    if d < 10 {
        digit(d)
    } else if d == 10 {
        'a'
    } else if d == 11 {
        'b'
    } else if d == 12 {
        'c'
    } else if d == 13 {
        'd'
    } else if d == 14 {
        'e'
    } else {
        'f'
    }
}

/// The lowercase hexadecimal digit for `d`.
pub fn hex_char(d: u8) -> (r: char)
    requires
        d < 16,
    ensures
        r == hex_digit(d as nat),
{
    if d < 10 {
        digit_char(d as u64)
    } else if d == 10 {
        'a'
    } else if d == 11 {
        'b'
    } else if d == 12 {
        'c'
    } else if d == 13 {
        'd'
    } else if d == 14 {
        'e'
    } else {
        'f'
    }
}

/// A number in hexadecimal digits, without leading zeros.
pub open spec fn hexadecimal(n: nat) -> Seq<char>
    decreases n,
{
    if n < 16 {
        seq![hex_digit(n)]
    } else {
        hexadecimal(n / 16).push(hex_digit(n % 16))
    }
}

/// A number in hexadecimal digits, without leading zeros.
pub fn hexadecimal_u128(n: u128) -> (r: String)
    ensures
        r@ == hexadecimal(n as nat),
    decreases n,
{
    if n < 16 {
        let mut out = String::new();
        out.push(hex_char(n as u8));
        assert(out@ =~= hexadecimal(n as nat));
        out
    } else {
        let mut out = hexadecimal_u128(n / 16);
        out.push(hex_char((n % 16) as u8));
        out
    }
}


// ---------------------------------------------------------------------------
// Joining
// ---------------------------------------------------------------------------
/// The texts of `parts` with `sep` between neighbours.
pub open spec fn joined(parts: Seq<Seq<char>>, sep: Seq<char>) -> Seq<char>
    decreases parts.len(),
{
    if parts.len() == 0 {
        seq![]
    } else if parts.len() == 1 {
        parts[0]
    } else {
        joined(parts.drop_last(), sep) + sep + parts.last()
    }
}

/// Joins texts with a separator.
pub fn join(parts: &Vec<String>, sep: &str) -> (r: String)
    ensures
        r@ == joined(texts(parts@), sep@),
{
    let mut out = String::new();
    let n: usize = parts.len();
    let mut i: usize = 0;
    while i < n
        invariant
            i <= n,
            n == parts@.len(),
            out@ == joined(texts(parts@).take(i as int), sep@),
        decreases n - i,
    {
        let ghost now = texts(parts@).take(i + 1);
        assert(now.drop_last() == texts(parts@).take(i as int));
        if i > 0 {
            out.append(sep);
        }
        out.append(parts[i].as_str());
        assert(out@ == joined(now, sep@));
        i += 1;
    }
    assert(texts(parts@).take(n as int) == texts(parts@));
    out
}

} // verus!
