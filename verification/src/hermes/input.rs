//! User input, previews, capped output and ids of the Hermes bridge.

use vstd::prelude::*;
use vstd::utf8::{encode_scalar, encode_utf8};

use crate::codex::thread::{UserInput, UserInputV, inputs};
use crate::text::{
    chars_of, first_chars, hex_char, hex_digit, join, join2, joined, take_chars, text_of, texts,
    trim, trimmed,
};

verus! {

/// The text parts of an input.
pub open spec fn text_parts(s: Seq<UserInputV>) -> Seq<Seq<char>>
    decreases s.len(),
{
    if s.len() == 0 {
        seq![]
    } else {
        match s.last() {
            UserInputV::Text { text, .. } => text_parts(s.drop_last()).push(text),
            _ => text_parts(s.drop_last()),
        }
    }
}

/// The text of an input: its text parts, one per line.
pub fn user_text(input: &Vec<UserInput>) -> (r: String)
    ensures
        r@ == joined(text_parts(inputs(input@)), "\n"@),
{
    let ghost views = inputs(input@);
    let mut parts: Vec<String> = Vec::new();
    let mut i: usize = 0;
    assert(texts(parts@) =~= seq![]);
    while i < input.len()
        invariant
            i <= input@.len(),
            views == inputs(input@),
            texts(parts@) == text_parts(views.take(i as int)),
        decreases input@.len() - i,
    {
        assert(views.take(i + 1).drop_last() == views.take(i as int));
        assert(views.take(i + 1).last() == input@[i as int].view());
        match &input[i] {
            UserInput::Text { text, .. } => {
                let ghost before = parts@;
                parts.push(text.clone());
                assert(texts(parts@) =~= texts(before).push(text@));
            },
            _ => {},
        }
        i += 1;
    }
    assert(views.take(input@.len() as int) == views);
    join(&parts, "\n")
}

/// How much of a prompt a thread list shows, in characters.
pub const PREVIEW_CHARS: usize = 120;

/// The preview of a prompt; a blank prompt has none.
pub open spec fn preview_of(text: Seq<char>) -> Option<Seq<char>> {
    if trimmed(text).len() == 0 {
        None
    } else {
        Some(first_chars(trimmed(text), PREVIEW_CHARS as nat))
    }
}

/// The preview of a prompt.
pub fn preview_for(text: &str) -> (r: Option<String>)
    ensures
        crate::text::opt_text(r) == preview_of(text@),
{
    let t = trim(text);
    if t.as_str().is_empty() {
        None
    } else {
        Some(take_chars(t.as_str(), PREVIEW_CHARS))
    }
}

// ---------------------------------------------------------------------------
// Capped output
// ---------------------------------------------------------------------------
/// How many bytes a character takes in UTF-8.
pub open spec fn width(c: char) -> nat {
    if (c as u32) < 0x80 {
        1
    } else if (c as u32) < 0x800 {
        2
    } else if (c as u32) < 0x10000 {
        3
    } else {
        4
    }
}

/// How many bytes a text takes in UTF-8.
pub open spec fn byte_len(s: Seq<char>) -> nat
    decreases s.len(),
{
    if s.len() == 0 {
        0
    } else {
        width(s[0]) + byte_len(s.skip(1))
    }
}

/// How many leading characters of a text fit into `cap` bytes.
pub open spec fn fitting(s: Seq<char>, cap: int) -> int
    decreases s.len(),
{
    if s.len() == 0 || width(s[0]) > cap {
        0
    } else {
        1 + fitting(s.skip(1), cap - width(s[0]))
    }
}

/// A text capped at `cap` bytes: whole characters that fit, and a note if some do
/// not.
pub open spec fn truncated(s: Seq<char>, cap: nat) -> Seq<char> {
    if byte_len(s) <= cap {
        s
    } else {
        s.take(fitting(s, cap as int)) + "\n...[truncated]"@
    }
}

fn char_width(c: char) -> (r: usize)
    ensures
        r == width(c),
{
    let code: u32 = c as u32;
    if code < 0x80 {
        1
    } else if code < 0x800 {
        2
    } else if code < 0x10000 {
        3
    } else {
        4
    }
}

proof fn lemma_fitting(s: Seq<char>, cap: int)
    requires
        cap >= 0,
    ensures
        0 <= fitting(s, cap) <= s.len(),
        fitting(s, cap) == s.len() <==> byte_len(s) <= cap,
    decreases s.len(),
{
    if s.len() > 0 && width(s[0]) <= cap {
        lemma_fitting(s.skip(1), cap - width(s[0]));
    }
}

/// Caps a text at `cap` bytes.
pub fn truncate_string(value: &mut String, cap: usize)
    ensures
        final(value)@ == truncated(old(value)@, cap as nat),
{
    let v = chars_of(value.as_str());
    let ghost s = value@;
    let n: usize = v.len();
    let mut i: usize = 0;
    let mut left: usize = cap;
    assert(s.skip(0) == s);
    while i < n && char_width(v[i]) <= left
        invariant
            i <= n,
            n == v@.len(),
            v@ == s,
            left <= cap,
            fitting(s, cap as int) == i + fitting(s.skip(i as int), left as int),
        decreases n - i,
    {
        assert(s.skip(i as int)[0] == s[i as int]);
        assert(s.skip(i as int).skip(1) == s.skip(i + 1));
        left = left - char_width(v[i]);
        i += 1;
    }
    proof {
        lemma_fitting(s, cap as int);
        if i < n {
            assert(s.skip(i as int)[0] == s[i as int]);
        }
    }
    if i < n {
        let kept = text_of(v.as_slice(), 0, i);
        assert(kept@ == s.take(i as int));
        *value = join2(kept.as_str(), "\n...[truncated]");
    }
}

/// The byte length is that of the UTF-8 form.
pub proof fn law_byte_len_is_utf8(s: Seq<char>)
    ensures
        byte_len(s) == encode_utf8(s).len(),
    decreases s.len(),
{
    if s.len() > 0 {
        assert(s.drop_first() == s.skip(1));
        law_byte_len_is_utf8(s.skip(1));
        vstd::utf8::char_is_scalar(s[0]);
        assert(encode_scalar(s[0] as u32).len() == width(s[0]));
    }
}

/// Capped output keeps at most `cap` bytes of what there was, and no shorter
/// prefix is kept than fits.
pub proof fn law_truncation_keeps_what_fits(s: Seq<char>, cap: nat)
    ensures
        0 <= fitting(s, cap as int) <= s.len(),
        byte_len(s.take(fitting(s, cap as int))) <= cap,
        fitting(s, cap as int) < s.len() ==> byte_len(s.take(fitting(s, cap as int) + 1)) > cap,
    decreases s.len(),
{
    lemma_fitting(s, cap as int);
    if s.len() > 0 && width(s[0]) <= cap {
        let t = s.skip(1);
        let c = (cap - width(s[0])) as nat;
        law_truncation_keeps_what_fits(t, c);
        let k = fitting(t, c as int);
        assert(s.take(k + 1).skip(1) == t.take(k));
        assert(s.take(k + 1)[0] == s[0]);
        if k < t.len() {
            assert(s.take(k + 2).skip(1) == t.take(k + 1));
            assert(s.take(k + 2)[0] == s[0]);
        }
    } else if s.len() > 0 {
        assert(s.take(1)[0] == s[0]);
        assert(byte_len(s.take(1)) >= width(s[0]));
        assert(s.take(0).len() == 0);
    }
}

// ---------------------------------------------------------------------------
// Ids
// ---------------------------------------------------------------------------
/// The hexadecimal form of bytes.
pub open spec fn hex_of(bytes: Seq<u8>) -> Seq<char>
    decreases bytes.len(),
{
    if bytes.len() == 0 {
        seq![]
    } else {
        hex_of(bytes.drop_last()).push(hex_digit((bytes.last() / 16) as nat)).push(
            hex_digit((bytes.last() % 16) as nat),
        )
    }
}

/// Writes bytes in lowercase hexadecimal.
pub fn to_hex(bytes: &Vec<u8>) -> (r: String)
    ensures
        r@ == hex_of(bytes@),
{
    let mut out = String::new();
    let mut i: usize = 0;
    assert(out@ =~= seq![]);
    while i < bytes.len()
        invariant
            i <= bytes@.len(),
            out@ == hex_of(bytes@.take(i as int)),
        decreases bytes@.len() - i,
    {
        assert(bytes@.take(i + 1).drop_last() == bytes@.take(i as int));
        let b: u8 = bytes[i];
        out.push(hex_char(b / 16));
        out.push(hex_char(b % 16));
        i += 1;
    }
    assert(bytes@.take(bytes@.len() as int) == bytes@);
    out
}

/// `rand::RngCore::next_u32` on `rand::thread_rng`: any number may come.
#[verifier::external_body]
fn next_random() -> (r: u32) {
    rand::RngCore::next_u32(&mut rand::thread_rng())
}

/// `len` random bytes in lowercase hexadecimal.
pub fn random_hex(len: usize) -> (r: String)
    ensures
        exists|bytes: Seq<u8>| bytes.len() == len && r@ == #[trigger] hex_of(bytes),
{
    let mut bytes: Vec<u8> = Vec::new();
    while bytes.len() < len
        invariant
            bytes@.len() <= len,
        decreases len - bytes@.len(),
    {
        let n: u32 = next_random() % 256;
        bytes.push(n as u8);
    }
    let r = to_hex(&bytes);
    assert(r@ == hex_of(bytes@));
    r
}

/// Hexadecimal text has two characters per byte, and different bytes have
/// different texts.
pub proof fn law_hex_is_faithful(a: Seq<u8>, b: Seq<u8>)
    ensures
        hex_of(a).len() == 2 * a.len(),
        hex_of(a) == hex_of(b) ==> a == b,
    decreases a.len(),
{
    if a.len() > 0 {
        law_hex_is_faithful(a.drop_last(), if b.len() > 0 { b.drop_last() } else { b });
    }
    if b.len() > 0 {
        lemma_hex_len(b);
    }
    lemma_hex_len(a);
    if hex_of(a) == hex_of(b) {
        assert(a.len() == b.len());
        if a.len() > 0 {
            let n = hex_of(a).len() as int;
            let pa = hex_of(a.drop_last());
            let pb = hex_of(b.drop_last());
            lemma_hex_len(a.drop_last());
            lemma_hex_len(b.drop_last());
            assert(pa =~= hex_of(a).take(n - 2));
            assert(pb =~= hex_of(b).take(n - 2));
            assert(hex_of(a)[n - 2] == hex_digit((a.last() / 16) as nat));
            assert(hex_of(b)[n - 2] == hex_digit((b.last() / 16) as nat));
            assert(hex_of(a)[n - 1] == hex_digit((a.last() % 16) as nat));
            assert(hex_of(b)[n - 1] == hex_digit((b.last() % 16) as nat));
            assert(a.last() == b.last());
            assert(a =~= a.drop_last().push(a.last()));
            assert(b =~= b.drop_last().push(b.last()));
        } else {
            assert(a =~= b);
        }
    }
}

proof fn lemma_hex_len(a: Seq<u8>)
    ensures
        hex_of(a).len() == 2 * a.len(),
    decreases a.len(),
{
    if a.len() > 0 {
        lemma_hex_len(a.drop_last());
    }
}

} // verus!
