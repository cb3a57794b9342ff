//! Laws of the program's versions and places: how a version is read, where the program
//! is looked for, and how paths are put together.

use vstd::prelude::*;

use super::codex_resolver::{
    CodexCliVersion, HostKind, InstallDirs, Place, codex_dir, codex_name, component, executables,
    first_version, in_dir, in_dirs, leading_digits, number, older, place, set_dir, unwrapped_end,
    unwrapped_start, usual_places, version_told, with_suffixes, without_v, word_version,
};
use super::paths::{
    absolute, below, has_path, last_name, placed, prefix_len, prefix_of, rooted, starts_at_root,
};
use crate::text::{ascii_lowered, decimal, split_all, words_of};
use crate::text_laws::{amount, law_cutting_keeps_the_order, law_decimal_is_worth_its_number};

verus! {

// ---------------------------------------------------------------------------
// Versions
// ---------------------------------------------------------------------------
/// Whether a text is digits alone.
pub open spec fn all_digits(s: Seq<char>) -> bool {
    forall|i: int| 0 <= i < s.len() ==> '0' <= #[trigger] s[i] <= '9'
}

/// The digits at the start of a text are all of them, up to the first other character.
pub proof fn law_digits_at_the_start(digits: Seq<char>, rest: Seq<char>)
    requires
        all_digits(digits),
        rest.len() > 0 ==> !('0' <= rest[0] <= '9'),
    ensures
        leading_digits(digits + rest) == digits,
    decreases digits.len(),
{
    let s = digits + rest;
    if digits.len() > 0 {
        assert(s[0] == digits[0]);
        let d = digits.skip(1);
        assert(all_digits(d)) by {
            assert forall|i: int| 0 <= i < d.len() implies '0' <= #[trigger] d[i] <= '9' by {
                assert(d[i] == digits[i + 1]);
            }
        }
        law_digits_at_the_start(d, rest);
        assert(s.skip(1) =~= d + rest);
        assert(leading_digits(s) =~= digits);
    } else {
        assert(s =~= rest);
        assert(leading_digits(s) =~= digits);
    }
}

proof fn lemma_number(digits: Seq<char>)
    requires
        all_digits(digits),
    ensures
        number(digits) == amount(digits, 10),
    decreases digits.len(),
{
    if digits.len() > 0 {
        let d = digits.drop_last();
        assert(all_digits(d)) by {
            assert forall|i: int| 0 <= i < d.len() implies '0' <= #[trigger] d[i] <= '9' by {
                assert(d[i] == digits[i]);
            }
        }
        assert('0' <= digits[digits.len() - 1] <= '9');
        lemma_number(d);
    }
}

/// A number in decimal is read as that number, whatever follows it that is no digit.
pub proof fn law_numbers_are_read(n: u64, rest: Seq<char>)
    requires
        rest.len() > 0 ==> !('0' <= rest[0] <= '9'),
    ensures
        component(decimal(n as nat) + rest) == Some(n),
{
    law_decimal_is_worth_its_number(n as nat);
    law_digits_at_the_start(decimal(n as nat), rest);
    lemma_number(decimal(n as nat));
}

/// A text that does not begin with a digit is no number.
pub proof fn law_no_number(s: Seq<char>)
    requires
        s.len() == 0 || !('0' <= s[0] <= '9'),
    ensures
        component(s) is None,
{
}

proof fn lemma_uncut(s: Seq<char>, c: char)
    requires
        !s.contains(c),
    ensures
        split_all(s, c) == seq![s],
{
    crate::text::lemma_index_or_end(s, c);
    let k = crate::text::index_or_end(s, c);
    if k < s.len() {
        assert(s[k] == c);
    }
}

/// Three numbers with dots between them, and what may follow them.
pub open spec fn spelled(v: CodexCliVersion, rest: Seq<char>) -> Seq<char> {
    decimal(v.major as nat) + seq!['.'] + (decimal(v.minor as nat) + seq!['.'] + (decimal(
        v.patch as nat,
    ) + rest))
}

proof fn lemma_spelled_parts(v: CodexCliVersion, rest: Seq<char>)
    requires
        !rest.contains('.'),
    ensures
        split_all(spelled(v, rest), '.') == seq![
            decimal(v.major as nat),
            decimal(v.minor as nat),
            decimal(v.patch as nat) + rest,
        ],
{
    let a = decimal(v.major as nat);
    let b = decimal(v.minor as nat);
    let c = decimal(v.patch as nat);
    law_decimal_is_worth_its_number(v.major as nat);
    law_decimal_is_worth_its_number(v.minor as nat);
    law_decimal_is_worth_its_number(v.patch as nat);
    assert(!a.contains('.'));
    assert(!b.contains('.'));
    assert(!(c + rest).contains('.')) by {
        if (c + rest).contains('.') {
            let i = choose|i: int| 0 <= i < (c + rest).len() && (c + rest)[i] == '.';
            if i < c.len() {
                assert((c + rest)[i] == c[i]);
            } else {
                assert((c + rest)[i] == rest[i - c.len()]);
                assert(rest.contains('.'));
            }
        }
    }
    lemma_uncut(a, '.');
    lemma_uncut(b, '.');
    lemma_uncut(c + rest, '.');
    law_cutting_keeps_the_order(b, '.', c + rest);
    law_cutting_keeps_the_order(a, '.', b + seq!['.'] + (c + rest));
    assert(split_all(spelled(v, rest), '.') =~= seq![a, b, c + rest]);
}

/// Three numbers with dots between them are a version, whatever follows the last number:
/// nothing, or what does not begin with a digit and has neither a dot nor a bracket at
/// its end.
pub proof fn law_versions_are_read(v: CodexCliVersion, rest: Seq<char>)
    requires
        !rest.contains('.'),
        rest.len() > 0 ==> !('0' <= rest[0] <= '9') && rest.last() != '(' && rest.last() != ')'
            && rest.last() != ',' && rest.last() != ';',
    ensures
        word_version(spelled(v, rest)) == Some(v),
{
    let w = spelled(v, rest);
    let a = decimal(v.major as nat);
    let c = decimal(v.patch as nat);
    law_decimal_is_worth_its_number(v.major as nat);
    law_decimal_is_worth_its_number(v.patch as nat);
    assert(w[0] == a[0]);
    assert(w.last() == (if rest.len() > 0 {
        rest.last()
    } else {
        c.last()
    }));
    assert('0' <= c[c.len() - 1] <= '9');
    lemma_spelled_parts(v, rest);
    law_numbers_are_read(v.major, seq![]);
    law_numbers_are_read(v.minor, seq![]);
    law_numbers_are_read(v.patch, rest);
    assert(a + Seq::<char>::empty() =~= a);
    assert(decimal(v.minor as nat) + Seq::<char>::empty() =~= decimal(v.minor as nat));
}

/// A version may have a `v` before it, and brackets around it.
pub proof fn law_decorated_versions_are_read(v: CodexCliVersion)
    ensures
        word_version(seq!['v'] + spelled(v, seq![])) == Some(v),
        word_version(seq!['('] + spelled(v, seq![]) + seq![')']) == Some(v),
        word_version(spelled(v, seq![]) + seq![',']) == Some(v),
{
    let w = spelled(v, seq![]);
    let a = decimal(v.major as nat);
    let c = decimal(v.patch as nat);
    law_decimal_is_worth_its_number(v.major as nat);
    law_decimal_is_worth_its_number(v.patch as nat);
    assert(w[0] == a[0]);
    assert(w.last() == c.last());
    assert('0' <= c[c.len() - 1] <= '9');
    assert(without_v(w) == w && unwrapped_start(w) == w && unwrapped_end(w) == w);
    law_versions_are_read(v, seq![]);
    let led = seq!['v'] + w;
    assert(led.skip(1) =~= w);
    assert(without_v(led) == w);
    let wrapped = seq!['('] + w + seq![')'];
    let closed = w + seq![')'];
    assert(wrapped.skip(1) =~= closed);
    assert(closed[0] == w[0]);
    assert(unwrapped_start(closed) == closed);
    assert(unwrapped_start(wrapped) == closed);
    assert(closed.drop_last() =~= w);
    assert(unwrapped_end(closed) == w);
    let listed = w + seq![','];
    assert(listed[0] == w[0]);
    assert(unwrapped_start(listed) == listed && without_v(listed) == listed);
    assert(listed.drop_last() =~= w);
    assert(unwrapped_end(listed) == w);
}

/// Fewer than three numbers are no version.
pub proof fn law_two_numbers_are_no_version(a: u64, b: u64)
    ensures
        word_version(decimal(a as nat) + seq!['.'] + decimal(b as nat)) is None,
        word_version(decimal(a as nat)) is None,
{
    let x = decimal(a as nat);
    let y = decimal(b as nat);
    law_decimal_is_worth_its_number(a as nat);
    law_decimal_is_worth_its_number(b as nat);
    let w = x + seq!['.'] + y;
    assert(w[0] == x[0] && w.last() == y.last());
    assert('0' <= y[y.len() - 1] <= '9' && '0' <= x[x.len() - 1] <= '9');
    assert(!x.contains('.') && !y.contains('.'));
    lemma_uncut(x, '.');
    lemma_uncut(y, '.');
    law_cutting_keeps_the_order(x, '.', y);
    assert(without_v(w) == w && unwrapped_start(w) == w && unwrapped_end(w) == w);
    assert(without_v(x) == x && unwrapped_start(x) == x && unwrapped_end(x) == x);
}

/// The first word that is a version is the version that is told.
pub proof fn law_first_version_counts(a: Seq<Seq<char>>, w: Seq<char>, b: Seq<Seq<char>>)
    requires
        forall|i: int| 0 <= i < a.len() ==> word_version(#[trigger] a[i]) is None,
        word_version(w) is Some,
    ensures
        first_version(a + seq![w] + b) == word_version(w),
    decreases a.len(),
{
    let all = a + seq![w] + b;
    if a.len() == 0 {
        assert(all[0] == w);
    } else {
        let t = a.skip(1);
        assert(all[0] == a[0]);
        assert forall|i: int| 0 <= i < t.len() implies word_version(#[trigger] t[i]) is None by {
            assert(t[i] == a[i + 1]);
        }
        law_first_version_counts(t, w, b);
        assert(all.skip(1) =~= t + seq![w] + b);
    }
}

/// Where no word is a version, none is told.
pub proof fn law_no_version(words: Seq<Seq<char>>)
    requires
        forall|i: int| 0 <= i < words.len() ==> word_version(#[trigger] words[i]) is None,
    ensures
        first_version(words) is None,
    decreases words.len(),
{
    if words.len() > 0 {
        let t = words.skip(1);
        assert forall|i: int| 0 <= i < t.len() implies word_version(#[trigger] t[i]) is None by {
            assert(t[i] == words[i + 1]);
        }
        law_no_version(t);
    }
}

/// A program that tells its name and its version is of that version.
pub proof fn law_told_versions_are_read(name: Seq<char>, v: CodexCliVersion)
    requires
        words_of(name).len() == 0 || (words_of(name).len() == 1 && word_version(words_of(name)[0])
            is None),
    ensures
        version_told(name + seq![' '] + spelled(v, seq![])) == Some(v),
{
    let w = spelled(v, seq![]);
    law_decimal_is_worth_its_number(v.major as nat);
    law_decimal_is_worth_its_number(v.minor as nat);
    law_decimal_is_worth_its_number(v.patch as nat);
    let a = decimal(v.major as nat);
    let b = decimal(v.minor as nat);
    let c = decimal(v.patch as nat) + Seq::<char>::empty();
    assert forall|i: int| 0 <= i < w.len() implies !crate::text::whitespace(#[trigger] w[i]) by {
        if i < a.len() {
            assert(w[i] == a[i]);
        } else if i == a.len() {
            assert(w[i] == '.');
        } else if i < a.len() + 1 + b.len() {
            assert(w[i] == b[i - a.len() - 1]);
        } else if i == a.len() + 1 + b.len() {
            assert(w[i] == '.');
        } else {
            assert(w[i] == c[i - a.len() - b.len() - 2]);
            assert(c =~= decimal(v.patch as nat));
        }
    }
    crate::text_laws::law_one_word(w);
    crate::text_laws::law_whitespace_parts_words(name, ' ', w);
    law_versions_are_read(v, seq![]);
    law_first_version_counts(words_of(name), w, seq![]);
    assert(words_of(name) + seq![w] + Seq::<Seq<char>>::empty() =~= words_of(name) + seq![w]);
}

/// The first number that differs says which version is older.
pub proof fn law_first_number_decides(a: CodexCliVersion, b: CodexCliVersion)
    ensures
        a.major < b.major ==> older(a, b) && !older(b, a),
        a.major == b.major && a.minor < b.minor ==> older(a, b) && !older(b, a),
        a.major == b.major && a.minor == b.minor ==> (older(a, b) <==> a.patch < b.patch),
{
}

// ---------------------------------------------------------------------------
// Places
// ---------------------------------------------------------------------------
/// A program has the name of this one by the last part of its path, whatever the case of
/// its letters; on Windows an ending may follow.
pub proof fn law_program_goes_by_its_name(path: Seq<char>, windows: bool)
    ensures
        last_name(path, windows) is None ==> !codex_name(path, windows),
        last_name(path, windows) matches Some(n) ==> {
            &&& ascii_lowered(n) == "codex"@ ==> codex_name(path, windows)
            &&& ascii_lowered(n) == "codex.exe"@ ==> codex_name(path, windows)
            &&& ascii_lowered(n) == "codex.cmd"@ ==> codex_name(path, windows)
            &&& ascii_lowered(n).len() < 5 ==> !codex_name(path, windows)
        },
{
    reveal_strlit("codex");
    reveal_strlit("codex.exe");
    reveal_strlit("codex.cmd");
    reveal_strlit("codex.bat");
    reveal_strlit("codex.com");
}

/// Endings are tried in order, and an empty one is none.
pub proof fn law_endings_keep_their_order(
    name: Seq<char>,
    a: Seq<Seq<char>>,
    b: Seq<Seq<char>>,
    one: Seq<char>,
)
    ensures
        with_suffixes(name, a + b) == with_suffixes(name, a) + with_suffixes(name, b),
        one.len() > 0 ==> with_suffixes(name, seq![one]) == seq![name + one],
        one.len() == 0 ==> with_suffixes(name, seq![one]).len() == 0,
    decreases b.len(),
{
    let s = seq![one];
    assert(s.drop_last() =~= Seq::empty());
    assert(with_suffixes(name, s.drop_last()).len() == 0);
    if one.len() > 0 {
        assert(with_suffixes(name, s) =~= seq![name + one]);
    }
    if b.len() == 0 {
        assert(a + b =~= a);
        assert(with_suffixes(name, a) + with_suffixes(name, b) =~= with_suffixes(name, a));
    } else {
        law_endings_keep_their_order(name, a, b.drop_last(), one);
        assert((a + b).drop_last() =~= a + b.drop_last());
        assert((a + b).last() == b.last());
        assert(with_suffixes(name, a + b) =~= with_suffixes(name, a) + with_suffixes(name, b));
    }
}

/// Every directory is searched, in order, and in each every name, in order.
pub proof fn law_directories_are_searched_in_order(
    a: Seq<Seq<char>>,
    b: Seq<Seq<char>>,
    names: Seq<Seq<char>>,
    windows: bool,
    i: int,
)
    ensures
        in_dirs(a + b, names, windows) == in_dirs(a, names, windows) + in_dirs(b, names, windows),
        a.len() == 1 ==> in_dirs(a, names, windows).len() == names.len(),
        a.len() == 1 && 0 <= i < names.len() ==> in_dirs(a, names, windows)[i] == below(
            a[0],
            names[i],
            windows,
        ),
    decreases b.len(),
{
    if a.len() == 1 {
        assert(in_dirs(a.drop_last(), names, windows).len() == 0);
        assert(in_dirs(a, names, windows) =~= in_dir(a[0], names, windows));
    }
    if b.len() == 0 {
        assert(a + b =~= a);
        assert(in_dirs(a, names, windows) + in_dirs(b, names, windows) =~= in_dirs(
            a,
            names,
            windows,
        ));
    } else {
        law_directories_are_searched_in_order(a, b.drop_last(), names, windows, i);
        assert((a + b).drop_last() =~= a + b.drop_last());
        assert((a + b).last() == b.last());
        assert(in_dirs(a + b, names, windows) =~= in_dirs(a, names, windows) + in_dirs(
            b,
            names,
            windows,
        ));
    }
}

/// A directory that is set to nothing is not set; one that is set gives a place in it.
pub proof fn law_set_directories_give_places(dir: Option<String>, name: Seq<char>)
    ensures
        dir matches Some(d) ==> d@.len() > 0 ==> place(dir, name) == seq![below(d@, name, false)]
            && set_dir(dir) == Some(d@),
        dir matches Some(d) ==> d@.len() == 0 ==> place(dir, name).len() == 0 && set_dir(dir)
            is None,
        dir is None ==> place(dir, name).len() == 0 && set_dir(dir) is None,
{
}

/// The program's own directory is the one that is set, or lies in the home directory.
pub proof fn law_own_directory(dirs: InstallDirs, home: Seq<char>, windows: bool)
    ensures
        dirs.codex_home matches Some(d) ==> d@.len() > 0 ==> codex_dir(dirs, home, windows) == d@,
        dirs.codex_home is None ==> codex_dir(dirs, home, windows) == below(
            home,
            ".codex"@,
            windows,
        ),
{
}

/// The program's own directory is searched first, the system's directories last, and the
/// directories of the home directory between them.
pub proof fn law_usual_places(host: HostKind, dirs: InstallDirs, home: Seq<char>)
    requires
        host != HostKind::Windows,
        dirs.home matches Some(h) && h@ == home,
    ensures
        ({
            let s = usual_places(host, dirs);
            &&& s.len() >= 8
            &&& s[0] == below(
                codex_dir(dirs, home, false),
                "packages/standalone/current/codex"@,
                false,
            )
            &&& s[1] == below(home, ".bun/bin/codex"@, false)
            &&& s[2] == below(home, ".volta/bin/codex"@, false)
            &&& s[3] == below(home, ".local/bin/codex"@, false)
            &&& s[4] == below(home, ".cargo/bin/codex"@, false)
            &&& s[s.len() - 1] == "/usr/bin/codex"@
            &&& s[s.len() - 2] == "/usr/local/bin/codex"@
            &&& s[s.len() - 3] == "/opt/homebrew/bin/codex"@
            &&& host == HostKind::Macos ==> s[s.len() - 4]
                == "/Applications/Codex.app/Contents/Resources/codex"@
        }),
{
}

/// Directories that installers set are searched too, wherever they are set.
pub proof fn law_installers_are_searched(host: HostKind, dirs: InstallDirs, dir: Seq<char>)
    requires
        host != HostKind::Windows,
        dirs.home is Some,
        dir.len() > 0,
    ensures
        dirs.pnpm_home matches Some(d) ==> d@ == dir ==> usual_places(host, dirs).contains(
            below(dir, "codex"@, false),
        ),
        dirs.nvm_bin matches Some(d) ==> d@ == dir ==> usual_places(host, dirs).contains(
            below(dir, "codex"@, false),
        ),
        dirs.volta_home matches Some(d) ==> d@ == dir ==> usual_places(host, dirs).contains(
            below(dir, "bin/codex"@, false),
        ),
        dirs.cargo_home matches Some(d) ==> d@ == dir ==> usual_places(host, dirs).contains(
            below(dir, "bin/codex"@, false),
        ),
{
    let s = usual_places(host, dirs);
    let p = place(dirs.pnpm_home, "codex"@);
    let n = place(dirs.nvm_bin, "codex"@);
    let v = place(dirs.volta_home, "bin/codex"@);
    let c = place(dirs.cargo_home, "bin/codex"@);
    if p.len() > 0 {
        assert(s[5] == p[0]);
    }
    if n.len() > 0 {
        assert(s[(5 + p.len()) as int] == n[0]);
    }
    if v.len() > 0 {
        assert(s[(5 + p.len() + n.len()) as int] == v[0]);
    }
    if c.len() > 0 {
        assert(s[(5 + p.len() + n.len() + v.len()) as int] == c[0]);
    }
}

/// Without a home directory only the system's directories are searched, and on Windows
/// none.
pub proof fn law_places_without_a_home(host: HostKind, dirs: InstallDirs)
    requires
        dirs.home is None,
    ensures
        host == HostKind::Windows ==> usual_places(host, dirs).len() == 0,
        host != HostKind::Windows ==> usual_places(host, dirs) == seq![
            "/opt/homebrew/bin/codex"@,
            "/usr/local/bin/codex"@,
            "/usr/bin/codex"@,
        ],
{
}

/// Candidates are tried in the order in which they were found.
pub proof fn law_candidates_keep_their_order(s: Seq<Place>, p: Place, windows: bool)
    ensures
        executables(s, windows).is_prefix_of(executables(s.push(p), windows)),
        p.executable && !has_path(executables(s, windows), p.path@, windows) ==> executables(
            s.push(p),
            windows,
        ).last() == p.path@,
        !p.executable ==> executables(s.push(p), windows) == executables(s, windows),
{
    assert(s.push(p).drop_last() =~= s);
}

// ---------------------------------------------------------------------------
// Paths
// ---------------------------------------------------------------------------
/// A name lies below a directory behind exactly one separator; a whole path stays as it
/// is.
pub proof fn law_names_lie_below(dir: Seq<char>, name: Seq<char>)
    ensures
        name.len() > 0 && name[0] == '/' ==> below(dir, name, false) == name,
        (name.len() == 0 || name[0] != '/') && dir.len() > 0 && dir.last() != '/' ==> below(
            dir,
            name,
            false,
        ) == dir + seq!['/'] + name,
        (name.len() == 0 || name[0] != '/') && dir.len() > 0 && dir.last() == '/' ==> below(
            dir,
            name,
            false,
        ) == dir + name,
        (name.len() == 0 || name[0] != '/') && dir.len() == 0 ==> below(dir, name, false) == name,
{
    reveal(below);
    reveal_strlit("/");
    assert("/"@ =~= seq!['/']);
    assert(name.skip(0) =~= name);
    assert(prefix_of(name, false) is None && prefix_of(dir, false) is None);
    assert(prefix_len(name, false) == 0 && prefix_len(dir, false) == 0);
    law_whole_paths(name);
    assert(dir.take(0) + name =~= name);
    if dir.len() > 0 {
        assert(starts_at_root(seq![dir.last()], false) == (dir.last() == '/'));
    }
    if dir.len() == 0 {
        assert(dir + name =~= name);
    }
}

/// A path is whole exactly if it begins with a separator.
pub proof fn law_whole_paths(path: Seq<char>)
    ensures
        absolute(path, false) <==> path.len() > 0 && path[0] == '/',
        rooted(path, false) <==> starts_at_root(path, false),
{
    assert(path.skip(0) =~= path);
}

/// A program has a place of its own if its path is whole or names a directory.
pub proof fn law_programs_with_a_place(program: Seq<char>)
    ensures
        program.len() > 0 && program[0] == '/' ==> placed(program, false),
{
    law_whole_paths(program);
}

} // verus!
