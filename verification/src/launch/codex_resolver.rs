//! Which codex program to use, of all that may be installed.

use vstd::prelude::*;

use super::paths::{
    below, extended, file_name, has_extension, has_path, holds_path, is_placed, join_path, last_name,
    placed, same_path,
};
use crate::text::{
    ascii_lowered, chars_of, from_utf8_lossy, join2, join3, lossy, owned, same, split, split_all,
    text_of, texts, to_ascii_lowercase, words, words_of,
};

verus! {

/// Shell lines that name the usual places of codex, for the POSIX script.
pub const POSIX_SHELL_CANDIDATE_LINES: [&'static str; 14] = [
    "_litter_consider_path_candidates codex codex",
    r#"_litter_consider_candidate codex "${CODEX_HOME:-$HOME/.codex}/packages/standalone/current/codex""#,
    r#"_litter_consider_candidate codex "${BUN_INSTALL:-$HOME/.bun}/bin/codex""#,
    r#"_litter_consider_candidate codex "$HOME/.volta/bin/codex""#,
    r#"_litter_consider_candidate codex "$HOME/.local/bin/codex""#,
    r#"_litter_consider_from_dir codex codex "${PNPM_HOME:-}""#,
    r#"_litter_consider_from_dir codex codex "${NVM_BIN:-}""#,
    r#"_litter_consider_from_dir codex codex "${VOLTA_HOME:+$VOLTA_HOME/bin}""#,
    r#"_litter_consider_from_dir codex codex "${CARGO_HOME:-$HOME/.cargo}/bin""#,
    r#"_litter_consider_candidate codex "$HOME/Applications/Codex.app/Contents/Resources/codex""#,
    r#"_litter_consider_candidate codex "/Applications/Codex.app/Contents/Resources/codex""#,
    r#"_litter_consider_candidate codex "/opt/homebrew/bin/codex""#,
    r#"_litter_consider_candidate codex "/usr/local/bin/codex""#,
    r#"_litter_consider_candidate codex "/usr/bin/codex""#,
];

/// Script that prints the newest codex on a POSIX host. The names in double braces are
/// filled in before it is run.
pub const POSIX_RESOLVE_CODEX_BINARY: &'static str = r#"{{PROFILE_INIT}}
_litter_best_path=""
_litter_best_major=-1
_litter_best_minor=-1
_litter_best_patch=-1
_litter_first_path=""

_litter_consider_candidate() {
  _litter_kind="$1"
  _litter_path="$2"
  [ -n "$_litter_path" ] || return 0
  [ -f "$_litter_path" ] && [ -x "$_litter_path" ] || return 0
  [ -n "$_litter_first_path" ] || _litter_first_path="$_litter_path"
  _litter_version="$("$_litter_path" --version 2>&1 | sed -n 's/^[^0-9]*\([0-9][0-9]*\)\.\([0-9][0-9]*\)\.\([0-9][0-9]*\).*$/\1 \2 \3/p' | head -n 1)"
  [ -n "$_litter_version" ] || return 0
  set -- $_litter_version
  if [ "$1" -gt "$_litter_best_major" ] ||
    { [ "$1" -eq "$_litter_best_major" ] && [ "$2" -gt "$_litter_best_minor" ]; } ||
    { [ "$1" -eq "$_litter_best_major" ] && [ "$2" -eq "$_litter_best_minor" ] && [ "$3" -gt "$_litter_best_patch" ]; }; then
    _litter_best_path="$_litter_path"
    _litter_best_major="$1"
    _litter_best_minor="$2"
    _litter_best_patch="$3"
  fi
}

_litter_consider_from_dir() {
  [ -n "$3" ] || return 0
  _litter_consider_candidate "$1" "$3/$2"
}

_litter_consider_path_candidates() {
  _litter_saved_ifs="$IFS"
  IFS=":"
  for _litter_dir in $PATH; do
    IFS="$_litter_saved_ifs"
    _litter_consider_from_dir "$1" "$2" "$_litter_dir"
    IFS=":"
  done
  IFS="$_litter_saved_ifs"
}

{{SHARED_LINES}}
{{PACKAGE_MANAGER_PROBE}}
if [ -n "$_litter_best_path" ]; then
  printf 'codex:%s' "$_litter_best_path"
elif [ -n "$_litter_first_path" ]; then
  printf 'codex:%s' "$_litter_first_path"
fi
"#;

/// Script that prints the newest codex on a Windows host.
pub const POWERSHELL_RESOLVE_CODEX_BINARY: &'static str = r#"$candidates = New-Object System.Collections.Generic.List[string]
Get-Command codex -All -ErrorAction SilentlyContinue | ForEach-Object {
  if ($_.Source) { $candidates.Add($_.Source) }
}
$codexHome = if ($env:CODEX_HOME) { $env:CODEX_HOME } else { Join-Path $HOME '.codex' }
$candidates.Add((Join-Path $codexHome 'packages\standalone\current\codex.exe'))
$candidates.Add((Join-Path $codexHome 'packages\standalone\current\codex.cmd'))
$candidates.Add((Join-Path $HOME 'AppData\Roaming\npm\codex.cmd'))
$candidates.Add((Join-Path $HOME '.cargo\bin\codex.exe'))
$candidates.Add((Join-Path $HOME '.bun\bin\codex.exe'))
$candidates.Add((Join-Path $HOME '.volta\bin\codex.exe'))
$candidates.Add((Join-Path $HOME '.local\bin\codex.exe'))
$firstPath = $null
$bestPath = $null
$bestVersion = $null
foreach ($candidate in $candidates) {
  if (-not (Test-Path -LiteralPath $candidate -PathType Leaf)) { continue }
  if (-not $firstPath) { $firstPath = $candidate }
  try { $text = (& $candidate --version 2>&1 | Out-String) } catch { continue }
  if ($text -match '(\d+)\.(\d+)\.(\d+)') {
    $version = New-Object System.Version ([int]$Matches[1]), ([int]$Matches[2]), ([int]$Matches[3])
    if ($null -eq $bestVersion -or $version.CompareTo($bestVersion) -gt 0) {
      $bestVersion = $version
      $bestPath = $candidate
    }
  }
}
if (-not $bestPath) { $bestPath = $firstPath }
if ($bestPath) { [Console]::Out.Write("codex:$bestPath") }
"#;

/// Shell lines that name the usual places of codex.
pub fn shell_candidate_lines() -> (r: &'static [&'static str])
    ensures
        r@ == POSIX_SHELL_CANDIDATE_LINES@,
{
    &POSIX_SHELL_CANDIDATE_LINES
}

// ---------------------------------------------------------------------------
// Versions
// ---------------------------------------------------------------------------
/// The version of a codex program.
#[derive(Clone, Copy, Debug, PartialEq, Eq, Structural, PartialOrd, Ord)]
pub struct CodexCliVersion {
    pub major: u64,
    pub minor: u64,
    pub patch: u64,
}

/// One version comes before another: the first component that differs decides.
pub open spec fn older(a: CodexCliVersion, b: CodexCliVersion) -> bool {
    a.major < b.major || (a.major == b.major && (a.minor < b.minor || (a.minor == b.minor
        && a.patch < b.patch)))
}

/// Whether one version comes before another.
pub fn is_older(a: CodexCliVersion, b: CodexCliVersion) -> (r: bool)
    ensures
        r == older(a, b),
{
    a.major < b.major || (a.major == b.major && (a.minor < b.minor || (a.minor == b.minor
        && a.patch < b.patch)))
}

/// The ASCII digits at the beginning of a text.
pub open spec fn leading_digits(s: Seq<char>) -> Seq<char>
    decreases s.len(),
{
    if s.len() > 0 && '0' <= s[0] && s[0] <= '9' {
        seq![s[0]] + leading_digits(s.skip(1))
    } else {
        seq![]
    }
}

/// The number that some digits stand for.
pub open spec fn number(digits: Seq<char>) -> nat
    decreases digits.len(),
{
    if digits.len() == 0 {
        0
    } else {
        number(digits.drop_last()) * 10 + (digits.last() as nat - '0' as nat) as nat
    }
}

/// A component of a version: the number at its beginning, if there is one that is not
/// too large.
pub open spec fn component(s: Seq<char>) -> Option<u64> {
    let digits = leading_digits(s);
    if digits.len() > 0 && number(digits) <= u64::MAX {
        Some(number(digits) as u64)
    } else {
        None
    }
}

/// A text without the `v`s at its beginning.
pub open spec fn without_v(s: Seq<char>) -> Seq<char>
    decreases s.len(),
{
    if s.len() > 0 && s[0] == 'v' {
        without_v(s.skip(1))
    } else {
        s
    }
}

/// A character that may stand around a version.
pub open spec fn is_wrapping(c: char) -> bool {
    c == '(' || c == ')' || c == ',' || c == ';'
}

/// A text without what may stand before a version.
pub open spec fn unwrapped_start(s: Seq<char>) -> Seq<char>
    decreases s.len(),
{
    if s.len() > 0 && is_wrapping(s[0]) {
        unwrapped_start(s.skip(1))
    } else {
        s
    }
}

/// A text without what may stand after a version.
pub open spec fn unwrapped_end(s: Seq<char>) -> Seq<char>
    decreases s.len(),
{
    if s.len() > 0 && is_wrapping(s.last()) {
        unwrapped_end(s.drop_last())
    } else {
        s
    }
}

/// The version that a word gives: at least three components between dots, of which the
/// first three count.
pub open spec fn word_version(word: Seq<char>) -> Option<CodexCliVersion> {
    let parts = split_all(unwrapped_end(unwrapped_start(without_v(word))), '.');
    if parts.len() < 3 {
        None
    } else {
        match (component(parts[0]), component(parts[1]), component(parts[2])) {
            (Some(major), Some(minor), Some(patch)) => Some(
                CodexCliVersion { major, minor, patch },
            ),
            _ => None,
        }
    }
}

/// The first version among some words.
pub open spec fn first_version(words: Seq<Seq<char>>) -> Option<CodexCliVersion>
    decreases words.len(),
{
    if words.len() == 0 {
        None
    } else if word_version(words[0]) is Some {
        word_version(words[0])
    } else {
        first_version(words.skip(1))
    }
}

/// The version that a text tells: that of its first word with one.
pub open spec fn version_told(text: Seq<char>) -> Option<CodexCliVersion> {
    first_version(words_of(text))
}

proof fn lemma_number_grows(digits: Seq<char>, n: int)
    requires
        0 <= n <= digits.len(),
        forall|i: int| 0 <= i < digits.len() ==> '0' <= #[trigger] digits[i] && digits[i] <= '9',
    ensures
        number(digits.take(n)) <= number(digits),
    decreases digits.len() - n,
{
    if n < digits.len() {
        lemma_number_grows(digits, n + 1);
        assert(digits.take(n + 1).drop_last() =~= digits.take(n));
        assert(digits.take(n + 1).last() == digits[n]);
    } else {
        assert(digits.take(n) =~= digits);
    }
}

proof fn lemma_leading_digits(s: Seq<char>)
    ensures
        leading_digits(s).len() <= s.len(),
        leading_digits(s) == s.take(leading_digits(s).len() as int),
        forall|i: int|
            0 <= i < leading_digits(s).len() ==> '0' <= #[trigger] leading_digits(s)[i]
                && leading_digits(s)[i] <= '9',
    decreases s.len(),
{
    if s.len() > 0 && '0' <= s[0] && s[0] <= '9' {
        lemma_leading_digits(s.skip(1));
        let d = leading_digits(s.skip(1));
        assert(leading_digits(s) =~= s.take(d.len() as int + 1));
        assert forall|i: int| 0 <= i < leading_digits(s).len() implies '0'
            <= #[trigger] leading_digits(s)[i] && leading_digits(s)[i] <= '9' by {
            if i > 0 {
                assert(leading_digits(s)[i] == d[i - 1]);
            }
        }
    } else {
        assert(leading_digits(s) =~= s.take(0));
    }
}

/// A component of a version.
pub fn parse_version_component(s: &str) -> (r: Option<u64>)
    ensures
        r == component(s@),
{
    let v = chars_of(s);
    let ghost d = leading_digits(s@);
    proof {
        lemma_leading_digits(s@);
    }
    let mut value: u64 = 0;
    let mut i: usize = 0;
    assert(s@.skip(0) =~= s@);
    assert(d.take(0) =~= seq![]);
    while i < v.len() && '0' <= v[i] && v[i] <= '9'
        invariant
            i <= v@.len(),
            v@ == s@,
            d == leading_digits(s@),
            d.len() <= s@.len(),
            d == s@.take(d.len() as int),
            forall|k: int| 0 <= k < d.len() ==> '0' <= #[trigger] d[k] && d[k] <= '9',
            i <= d.len(),
            d.len() == i + leading_digits(s@.skip(i as int)).len(),
            value == number(d.take(i as int)),
        decreases v@.len() - i,
    {
        let ghost rest = s@.skip(i as int);
        assert(rest[0] == v@[i as int]);
        assert(rest.skip(1) =~= s@.skip(i + 1));
        assert(d[i as int] == s@.take(d.len() as int)[i as int]);
        let digit: u64 = v[i] as u64 - '0' as u64;
        proof {
            assert(d.take(i + 1).drop_last() =~= d.take(i as int));
            assert(d.take(i + 1).last() == v@[i as int]);
            lemma_number_grows(d, i + 1);
        }
        if value > (u64::MAX - digit) / 10 {
            assert(number(d.take(i + 1)) > u64::MAX);
            return None;
        }
        value = value * 10 + digit;
        i += 1;
    }
    proof {
        let rest = s@.skip(i as int);
        if i < v@.len() {
            assert(rest[0] == v@[i as int]);
        }
        assert(leading_digits(rest) =~= seq![]);
        assert(d.take(i as int) =~= d);
    }
    if i == 0 {
        None
    } else {
        Some(value)
    }
}

fn unwrap_word(word: &str) -> (r: String)
    ensures
        r@ == unwrapped_end(unwrapped_start(without_v(word@))),
{
    let v = chars_of(word);
    let mut lo: usize = 0;
    assert(word@.skip(0) =~= word@);
    while lo < v.len() && v[lo] == 'v'
        invariant
            lo <= v@.len(),
            v@ == word@,
            without_v(word@) == without_v(word@.skip(lo as int)),
        decreases v@.len() - lo,
    {
        assert(word@.skip(lo as int).skip(1) =~= word@.skip(lo + 1));
        lo += 1;
    }
    assert(without_v(word@) == word@.skip(lo as int));
    let ghost a = word@.skip(lo as int);
    while lo < v.len() && (v[lo] == '(' || v[lo] == ')' || v[lo] == ',' || v[lo] == ';')
        invariant
            lo <= v@.len(),
            v@ == word@,
            unwrapped_start(a) == unwrapped_start(word@.skip(lo as int)),
        decreases v@.len() - lo,
    {
        assert(word@.skip(lo as int).skip(1) =~= word@.skip(lo + 1));
        lo += 1;
    }
    let ghost b = word@.skip(lo as int);
    assert(unwrapped_start(a) == b);
    let mut hi: usize = v.len();
    assert(word@.subrange(lo as int, hi as int) =~= b);
    while hi > lo && (v[hi - 1] == '(' || v[hi - 1] == ')' || v[hi - 1] == ',' || v[hi - 1] == ';')
        invariant
            lo <= hi <= v@.len(),
            v@ == word@,
            unwrapped_end(b) == unwrapped_end(word@.subrange(lo as int, hi as int)),
        decreases hi,
    {
        let ghost t = word@.subrange(lo as int, hi as int);
        assert(t.last() == v@[hi - 1]);
        assert(t.drop_last() =~= word@.subrange(lo as int, hi - 1));
        hi -= 1;
    }
    let r = text_of(v.as_slice(), lo, hi);
    proof {
        let t = word@.subrange(lo as int, hi as int);
        if hi > lo {
            assert(t.last() == v@[hi - 1]);
        }
        assert(unwrapped_end(t) == t);
    }
    r
}

fn parse_word(word: &str) -> (r: Option<CodexCliVersion>)
    ensures
        r == word_version(word@),
{
    let core = unwrap_word(word);
    let parts = split(core.as_str(), '.');
    let ghost all = split_all(core@, '.');
    assert(texts(parts@).len() == parts@.len());
    if parts.len() < 3 {
        return None;
    }
    assert(all[0] == parts@[0]@ && all[1] == parts@[1]@ && all[2] == parts@[2]@);
    let major: u64 = match parse_version_component(parts[0].as_str()) {
        Some(n) => n,
        None => {
            return None;
        },
    };
    let minor: u64 = match parse_version_component(parts[1].as_str()) {
        Some(n) => n,
        None => {
            return None;
        },
    };
    let patch: u64 = match parse_version_component(parts[2].as_str()) {
        Some(n) => n,
        None => {
            return None;
        },
    };
    Some(CodexCliVersion { major, minor, patch })
}

/// The version that a text tells.
pub fn parse_codex_cli_version(text: &str) -> (r: Option<CodexCliVersion>)
    ensures
        r == version_told(text@),
{
    let tokens = words(text);
    let ghost all = words_of(text@);
    let mut i: usize = 0;
    assert(all.skip(0) =~= all);
    while i < tokens.len()
        invariant
            i <= tokens@.len(),
            all == texts(tokens@),
            all == words_of(text@),
            first_version(all) == first_version(all.skip(i as int)),
        decreases tokens@.len() - i,
    {
        assert(all.skip(i as int)[0] == tokens@[i as int]@);
        assert(all.skip(i as int).skip(1) =~= all.skip(i + 1));
        let v = parse_word(tokens[i].as_str());
        if v.is_some() {
            return v;
        }
        i += 1;
    }
    None
}

/// The version that a program told when it was asked for it.
pub fn version_from_output(success: bool, stdout: &[u8], stderr: &[u8]) -> (r: Option<
    CodexCliVersion,
>)
    ensures
        r == (if success {
            version_told(lossy(stdout@) + "\n"@ + lossy(stderr@))
        } else {
            None
        }),
{
    if !success {
        return None;
    }
    let text = join3(
        from_utf8_lossy(stdout).as_str(),
        "\n",
        from_utf8_lossy(stderr).as_str(),
    );
    parse_codex_cli_version(text.as_str())
}

// ---------------------------------------------------------------------------
// Names and places
// ---------------------------------------------------------------------------
/// The file names of codex programs.
pub open spec fn codex_name(path: Seq<char>, windows: bool) -> bool {
    match last_name(path, windows) {
        Some(n) => {
            let low = ascii_lowered(n);
            low == "codex"@ || low == "codex.exe"@ || low == "codex.cmd"@ || low == "codex.bat"@
                || low == "codex.com"@
        },
        None => false,
    }
}

/// Whether a program is codex by its name.
pub fn is_codex_program_name(program: &str, windows: bool) -> (r: bool)
    ensures
        r == codex_name(program@, windows),
{
    match file_name(program, windows) {
        Some(n) => {
            let low = to_ascii_lowercase(n.as_str());
            let s = low.as_str();
            same(s, "codex") || same(s, "codex.exe") || same(s, "codex.cmd") || same(
                s,
                "codex.bat",
            ) || same(s, "codex.com")
        },
        None => false,
    }
}

/// The parts of a list that are not empty, behind a name.
pub open spec fn with_suffixes(name: Seq<char>, parts: Seq<Seq<char>>) -> Seq<Seq<char>>
    decreases parts.len(),
{
    if parts.len() == 0 {
        seq![]
    } else if parts.last().len() == 0 {
        with_suffixes(name, parts.drop_last())
    } else {
        with_suffixes(name, parts.drop_last()).push(name + parts.last())
    }
}

/// The file names of a program. On Windows, `extensions` is the list in `PATHEXT`: a
/// name without an extension gets each of them.
pub fn program_file_names(program: &str, extensions: Option<&str>) -> (r: Vec<String>)
    ensures
        texts(r@) == (match extensions {
            Some(list) => if extended(program@, true) {
                seq![program@]
            } else {
                with_suffixes(program@, split_all(list@, ';'))
            },
            None => seq![program@],
        }),
{
    let mut out: Vec<String> = Vec::new();
    if let Some(list) = extensions {
        if !has_extension(program, true) {
            let parts = split(list, ';');
            let ghost all = texts(parts@);
            assert(texts(out@) =~= seq![]);
            let mut i: usize = 0;
            while i < parts.len()
                invariant
                    i <= parts@.len(),
                    all == texts(parts@),
                    texts(out@) == with_suffixes(program@, all.take(i as int)),
                decreases parts@.len() - i,
            {
                let ghost was = out@;
                assert(all.take(i + 1).drop_last() =~= all.take(i as int));
                assert(all.take(i + 1).last() == parts@[i as int]@);
                if !parts[i].as_str().is_empty() {
                    out.push(join2(program, parts[i].as_str()));
                    assert(texts(out@) =~= texts(was).push(program@ + parts@[i as int]@));
                }
                i += 1;
            }
            assert(all.take(i as int) =~= all);
            return out;
        }
    }
    out.push(owned(program));
    assert(texts(out@) =~= seq![program@]);
    out
}

/// The names in a directory.
pub open spec fn in_dir(dir: Seq<char>, names: Seq<Seq<char>>, windows: bool) -> Seq<Seq<char>> {
    names.map_values(|n: Seq<char>| below(dir, n, windows))
}

/// The names in some directories, directory by directory.
pub open spec fn in_dirs(
    dirs: Seq<Seq<char>>,
    names: Seq<Seq<char>>,
    windows: bool,
) -> Seq<Seq<char>>
    decreases dirs.len(),
{
    if dirs.len() == 0 {
        seq![]
    } else {
        in_dirs(dirs.drop_last(), names, windows) + in_dir(dirs.last(), names, windows)
    }
}

/// Where a program may be on the search path.
pub fn path_program_candidates(dirs: &Vec<String>, names: &Vec<String>, windows: bool) -> (r: Vec<
    String,
>)
    ensures
        texts(r@) == in_dirs(texts(dirs@), texts(names@), windows),
{
    let ghost ds = texts(dirs@);
    let ghost ns = texts(names@);
    let mut out: Vec<String> = Vec::new();
    assert(texts(out@) =~= seq![]);
    let mut i: usize = 0;
    while i < dirs.len()
        invariant
            i <= dirs@.len(),
            ds == texts(dirs@),
            ns == texts(names@),
            texts(out@) == in_dirs(ds.take(i as int), ns, windows),
        decreases dirs@.len() - i,
    {
        let ghost start = texts(out@);
        let ghost here = in_dir(dirs@[i as int]@, ns, windows);
        assert(ds.take(i + 1).drop_last() =~= ds.take(i as int));
        assert(ds.take(i + 1).last() == dirs@[i as int]@);
        let mut j: usize = 0;
        assert(start + here.take(0) =~= start);
        while j < names.len()
            invariant
                j <= names@.len(),
                i < dirs@.len(),
                ns == texts(names@),
                here == in_dir(dirs@[i as int]@, ns, windows),
                texts(out@) == start + here.take(j as int),
            decreases names@.len() - j,
        {
            let ghost was = out@;
            out.push(join_path(dirs[i].as_str(), names[j].as_str(), windows));
            assert(here[j as int] == below(dirs@[i as int]@, names@[j as int]@, windows));
            assert(here.take(j + 1) =~= here.take(j as int).push(here[j as int]));
            assert(texts(out@) =~= texts(was).push(here[j as int]));
            assert(texts(out@) =~= start + here.take(j + 1));
            j += 1;
        }
        assert(here.take(j as int) =~= here);
        i += 1;
    }
    assert(ds.take(i as int) =~= ds);
    out
}

/// What kind of host programs are looked for on.
#[derive(Debug, Clone, Copy, PartialEq, Eq, Structural)]
pub enum HostKind {
    Windows,
    Macos,
    Other,
}

/// The variables that say where programs are installed. A variable that is empty is
/// as good as none.
pub struct InstallDirs {
    pub home: Option<String>,
    pub codex_home: Option<String>,
    pub pnpm_home: Option<String>,
    pub nvm_bin: Option<String>,
    pub volta_home: Option<String>,
    pub cargo_home: Option<String>,
}

/// A variable that is set to something.
pub open spec fn set_dir(v: Option<String>) -> Option<Seq<char>> {
    match v {
        Some(s) => if s@.len() == 0 {
            None
        } else {
            Some(s@)
        },
        None => None,
    }
}

/// A place below a directory that is set.
pub open spec fn place(dir: Option<String>, name: Seq<char>) -> Seq<Seq<char>> {
    match set_dir(dir) {
        Some(d) => seq![below(d, name, false)],
        None => seq![],
    }
}

/// The directory of codex itself.
pub open spec fn codex_dir(dirs: InstallDirs, home: Seq<char>, windows: bool) -> Seq<char> {
    match set_dir(dirs.codex_home) {
        Some(d) => d,
        None => below(home, ".codex"@, windows),
    }
}

/// The usual places of codex on a host.
pub open spec fn usual_places(host: HostKind, dirs: InstallDirs) -> Seq<Seq<char>> {
    let system = seq![
        "/opt/homebrew/bin/codex"@,
        "/usr/local/bin/codex"@,
        "/usr/bin/codex"@,
    ];
    match (host, dirs.home) {
        (HostKind::Windows, Some(h)) => seq![
            below(codex_dir(dirs, h@, true), "packages/standalone/current/codex.exe"@, true),
            below(codex_dir(dirs, h@, true), "packages/standalone/current/codex.cmd"@, true),
            below(h@, "AppData/Roaming/npm/codex.cmd"@, true),
            below(h@, ".cargo/bin/codex.exe"@, true),
            below(h@, ".bun/bin/codex.exe"@, true),
            below(h@, ".bun/bin/codex.cmd"@, true),
            below(h@, ".volta/bin/codex.exe"@, true),
            below(h@, ".volta/bin/codex.cmd"@, true),
            below(h@, ".local/bin/codex.exe"@, true),
        ],
        (HostKind::Windows, None) => seq![],
        (_, Some(h)) => seq![
            below(codex_dir(dirs, h@, false), "packages/standalone/current/codex"@, false),
            below(h@, ".bun/bin/codex"@, false),
            below(h@, ".volta/bin/codex"@, false),
            below(h@, ".local/bin/codex"@, false),
            below(h@, ".cargo/bin/codex"@, false),
        ] + place(dirs.pnpm_home, "codex"@) + place(dirs.nvm_bin, "codex"@) + place(
            dirs.volta_home,
            "bin/codex"@,
        ) + place(dirs.cargo_home, "bin/codex"@) + (if host == HostKind::Macos {
            seq![
                below(h@, "Applications/Codex.app/Contents/Resources/codex"@, false),
                "/Applications/Codex.app/Contents/Resources/codex"@,
            ]
        } else {
            seq![]
        }) + system,
        (_, None) => system,
    }
}

fn add_path(out: &mut Vec<String>, path: String)
    ensures
        texts(final(out)@) == texts(old(out)@).push(path@),
{
    out.push(path);
    assert(texts(out@) =~= texts(old(out)@).push(path@));
}

fn add_place(out: &mut Vec<String>, dir: &Option<String>, name: &str)
    ensures
        texts(final(out)@) == texts(old(out)@) + place(*dir, name@),
{
    if let Some(d) = dir {
        if !d.as_str().is_empty() {
            add_path(out, join_path(d.as_str(), name, false));
        }
    }
    assert(texts(out@) =~= texts(old(out)@) + place(*dir, name@));
}

/// The usual places of codex on a host.
pub fn common_codex_candidates(host: HostKind, dirs: &InstallDirs) -> (r: Vec<String>)
    ensures
        texts(r@) == usual_places(host, *dirs),
{
    let windows = host == HostKind::Windows;
    let mut out: Vec<String> = Vec::new();
    assert(texts(out@) =~= seq![]);
    if let Some(h) = &dirs.home {
        let home = h.as_str();
        let codex_home = match &dirs.codex_home {
            Some(d) => if d.as_str().is_empty() {
                join_path(home, ".codex", windows)
            } else {
                d.clone()
            },
            None => join_path(home, ".codex", windows),
        };
        assert(codex_home@ == codex_dir(*dirs, h@, windows));
        let codex = codex_home.as_str();
        if windows {
            add_path(&mut out, join_path(codex, "packages/standalone/current/codex.exe", windows));
            add_path(&mut out, join_path(codex, "packages/standalone/current/codex.cmd", windows));
            add_path(&mut out, join_path(home, "AppData/Roaming/npm/codex.cmd", windows));
            add_path(&mut out, join_path(home, ".cargo/bin/codex.exe", windows));
            add_path(&mut out, join_path(home, ".bun/bin/codex.exe", windows));
            add_path(&mut out, join_path(home, ".bun/bin/codex.cmd", windows));
            add_path(&mut out, join_path(home, ".volta/bin/codex.exe", windows));
            add_path(&mut out, join_path(home, ".volta/bin/codex.cmd", windows));
            add_path(&mut out, join_path(home, ".local/bin/codex.exe", windows));
            assert(texts(out@) =~= usual_places(host, *dirs));
            return out;
        }
        add_path(&mut out, join_path(codex, "packages/standalone/current/codex", windows));
        add_path(&mut out, join_path(home, ".bun/bin/codex", windows));
        add_path(&mut out, join_path(home, ".volta/bin/codex", windows));
        add_path(&mut out, join_path(home, ".local/bin/codex", windows));
        add_path(&mut out, join_path(home, ".cargo/bin/codex", windows));
        add_place(&mut out, &dirs.pnpm_home, "codex");
        add_place(&mut out, &dirs.nvm_bin, "codex");
        add_place(&mut out, &dirs.volta_home, "bin/codex");
        add_place(&mut out, &dirs.cargo_home, "bin/codex");
        if host == HostKind::Macos {
            add_path(
                &mut out,
                join_path(home, "Applications/Codex.app/Contents/Resources/codex", windows),
            );
            add_path(&mut out, owned("/Applications/Codex.app/Contents/Resources/codex"));
        }
    } else if windows {
        return out;
    }
    add_path(&mut out, owned("/opt/homebrew/bin/codex"));
    add_path(&mut out, owned("/usr/local/bin/codex"));
    add_path(&mut out, owned("/usr/bin/codex"));
    assert(texts(out@) =~= usual_places(host, *dirs));
    out
}

// ---------------------------------------------------------------------------
// Candidates
// ---------------------------------------------------------------------------
/// A place that was looked at.
pub struct Place {
    pub path: String,
    /// Whether an executable file is there.
    pub executable: bool,
}

/// The executable files among some places, each path once.
pub open spec fn executables(s: Seq<Place>, windows: bool) -> Seq<Seq<char>>
    decreases s.len(),
{
    if s.len() == 0 {
        seq![]
    } else {
        let t = executables(s.drop_last(), windows);
        if s.last().executable && !has_path(t, s.last().path@, windows) {
            t.push(s.last().path@)
        } else {
            t
        }
    }
}

/// The places where a program is to be looked for: the search path, and the usual
/// places where the program is codex. A path is taken as it is, so nothing is looked
/// for.
pub fn places_to_look(
    program: &str,
    on_path: &Vec<String>,
    usual: &Vec<String>,
    windows: bool,
) -> (r: Vec<String>)
    ensures
        texts(r@) == (if placed(program@, windows) {
            seq![]
        } else if codex_name(program@, windows) {
            texts(on_path@) + texts(usual@)
        } else {
            texts(on_path@)
        }),
{
    let mut out: Vec<String> = Vec::new();
    assert(texts(out@) =~= seq![]);
    if is_placed(program, windows) {
        return out;
    }
    let mut i: usize = 0;
    assert(texts(on_path@).take(0) =~= seq![]);
    while i < on_path.len()
        invariant
            i <= on_path@.len(),
            texts(out@) == texts(on_path@).take(i as int),
        decreases on_path@.len() - i,
    {
        add_path(&mut out, on_path[i].clone());
        assert(texts(on_path@).take(i + 1) =~= texts(on_path@).take(i as int).push(
            on_path@[i as int]@,
        ));
        i += 1;
    }
    assert(texts(on_path@).take(i as int) =~= texts(on_path@));
    if is_codex_program_name(program, windows) {
        let mut j: usize = 0;
        assert(texts(on_path@) + texts(usual@).take(0) =~= texts(on_path@));
        while j < usual.len()
            invariant
                j <= usual@.len(),
                texts(out@) == texts(on_path@) + texts(usual@).take(j as int),
            decreases usual@.len() - j,
        {
            add_path(&mut out, usual[j].clone());
            assert(texts(usual@).take(j + 1) =~= texts(usual@).take(j as int).push(
                usual@[j as int]@,
            ));
            assert(texts(out@) =~= texts(on_path@) + texts(usual@).take(j + 1));
            j += 1;
        }
        assert(texts(usual@).take(j as int) =~= texts(usual@));
    }
    out
}

fn push_executable_candidate(candidates: &mut Vec<String>, place: &Place, windows: bool)
    ensures
        texts(final(candidates)@) == (if place.executable && !has_path(
            texts(old(candidates)@),
            place.path@,
            windows,
        ) {
            texts(old(candidates)@).push(place.path@)
        } else {
            texts(old(candidates)@)
        }),
{
    if place.executable && !holds_path(candidates, place.path.as_str(), windows) {
        add_path(candidates, place.path.clone());
    }
}

/// The programs that may be meant: a path is meant as it is; a name means every
/// executable file that was found for it, in order.
pub fn program_candidates(program: &str, found: &Vec<Place>, windows: bool) -> (r: Vec<String>)
    ensures
        texts(r@) == (if placed(program@, windows) {
            seq![program@]
        } else {
            executables(found@, windows)
        }),
{
    let mut out: Vec<String> = Vec::new();
    assert(texts(out@) =~= seq![]);
    if is_placed(program, windows) {
        add_path(&mut out, owned(program));
        assert(texts(out@) =~= seq![program@]);
        return out;
    }
    let mut i: usize = 0;
    while i < found.len()
        invariant
            i <= found@.len(),
            texts(out@) == executables(found@.take(i as int), windows),
        decreases found@.len() - i,
    {
        assert(found@.take(i + 1).drop_last() =~= found@.take(i as int));
        assert(found@.take(i + 1).last() == found@[i as int]);
        push_executable_candidate(&mut out, &found[i], windows);
        i += 1;
    }
    assert(found@.take(i as int) =~= found@);
    out
}

/// A program with its version, if it told one.
pub struct Versioned {
    pub path: String,
    pub version: Option<CodexCliVersion>,
}

/// The last of the newest programs with a version.
pub open spec fn newest(s: Seq<Versioned>) -> Option<int>
    decreases s.len(),
{
    if s.len() == 0 {
        None
    } else {
        match (newest(s.drop_last()), s.last().version) {
            (Some(i), Some(v)) => if older(v, s[i].version->Some_0) {
                Some(i)
            } else {
                Some(s.len() - 1)
            },
            (None, Some(_)) => Some(s.len() - 1),
            (i, None) => i,
        }
    }
}

fn latest_versioned_codex_candidate(v: &Vec<Versioned>) -> (r: Option<usize>)
    ensures
        match r {
            Some(i) => newest(v@) == Some(i as int) && i < v@.len() && v@[i as int].version
                is Some,
            None => newest(v@) is None,
        },
{
    let mut best: Option<(usize, CodexCliVersion)> = None;
    let mut i: usize = 0;
    while i < v.len()
        invariant
            i <= v@.len(),
            match best {
                Some((k, w)) => k < i && newest(v@.take(i as int)) == Some(k as int)
                    && v@[k as int].version == Some(w),
                None => newest(v@.take(i as int)) is None,
            },
        decreases v@.len() - i,
    {
        let ghost t = v@.take(i + 1);
        assert(t.drop_last() =~= v@.take(i as int));
        assert(t.last() == v@[i as int]);
        if let Some((k, _)) = best {
            assert(t[k as int] == v@[k as int]);
        }
        if let Some(w) = v[i].version {
            match best {
                Some((k, b)) => {
                    if !is_older(w, b) {
                        best = Some((i, w));
                    }
                },
                None => {
                    best = Some((i, w));
                },
            }
        }
        i += 1;
    }
    assert(v@.take(i as int) =~= v@);
    match best {
        Some((k, _)) => Some(k),
        None => None,
    }
}

/// Picks the newest of the candidates, or the first one if none tells its version.
pub fn resolve_latest_codex_binary(candidates: &Vec<Versioned>) -> (r: Option<String>)
    ensures
        match r {
            Some(p) => candidates@.len() > 0 && p@ == (match newest(candidates@) {
                Some(i) => candidates@[i].path@,
                None => candidates@[0].path@,
            }),
            None => candidates@.len() == 0,
        },
{
    if candidates.len() == 0 {
        return None;
    }
    match latest_versioned_codex_candidate(candidates) {
        Some(i) => Some(candidates[i].path.clone()),
        None => Some(candidates[0].path.clone()),
    }
}

// ---------------------------------------------------------------------------
// Order of candidates
// ---------------------------------------------------------------------------
/// A program that told its version.
pub type Dated = (CodexCliVersion, Seq<char>);

/// Where a program belongs in a list with the newest first: behind those that are not
/// older.
pub open spec fn slot(s: Seq<Dated>, v: CodexCliVersion) -> nat
    decreases s.len(),
{
    if s.len() == 0 || !older(s.last().0, v) {
        s.len()
    } else {
        slot(s.drop_last(), v)
    }
}

/// The programs with a version, the newest first; those of one version stay in order.
pub open spec fn dated(s: Seq<Versioned>) -> Seq<Dated>
    decreases s.len(),
{
    if s.len() == 0 {
        seq![]
    } else {
        match s.last().version {
            Some(v) => dated(s.drop_last()).insert(
                slot(dated(s.drop_last()), v) as int,
                (v, s.last().path@),
            ),
            None => dated(s.drop_last()),
        }
    }
}

/// The programs without a version, in order.
pub open spec fn undated(s: Seq<Versioned>) -> Seq<Seq<char>>
    decreases s.len(),
{
    if s.len() == 0 {
        seq![]
    } else if s.last().version is Some {
        undated(s.drop_last())
    } else {
        undated(s.drop_last()).push(s.last().path@)
    }
}

/// The programs with the newest first, and those without a version at the end.
pub open spec fn newest_first(s: Seq<Versioned>) -> Seq<Seq<char>> {
    dated(s).map_values(|d: Dated| d.1) + undated(s)
}

/// The programs with the newest first, and those without a version at the end.
pub fn newest_codex_candidates_first(candidates: &Vec<Versioned>) -> (r: Vec<String>)
    ensures
        texts(r@) == newest_first(candidates@),
{
    let mut versions: Vec<CodexCliVersion> = Vec::new();
    let mut paths: Vec<String> = Vec::new();
    let mut rest: Vec<String> = Vec::new();
    assert(texts(paths@) =~= seq![]);
    assert(texts(rest@) =~= seq![]);
    let mut i: usize = 0;
    while i < candidates.len()
        invariant
            i <= candidates@.len(),
            versions@.len() == paths@.len(),
            dated(candidates@.take(i as int)).len() == versions@.len(),
            forall|k: int|
                #![trigger versions@[k]]
                #![trigger paths@[k]]
                0 <= k < versions@.len() ==> dated(candidates@.take(i as int))[k] == (
                    versions@[k],
                    paths@[k]@,
                ),
            texts(rest@) == undated(candidates@.take(i as int)),
        decreases candidates@.len() - i,
    {
        let ghost t = candidates@.take(i + 1);
        let ghost d = dated(candidates@.take(i as int));
        assert(t.drop_last() =~= candidates@.take(i as int));
        assert(t.last() == candidates@[i as int]);
        match candidates[i].version {
            Some(v) => {
                let mut j: usize = versions.len();
                assert(d.take(j as int) =~= d);
                while j > 0 && is_older(versions[j - 1], v)
                    invariant
                        j <= versions@.len(),
                        d.len() == versions@.len(),
                        forall|k: int|
                            #![trigger versions@[k]]
                            0 <= k < versions@.len() ==> d[k].0 == versions@[k],
                        slot(d, v) == slot(d.take(j as int), v),
                    decreases j,
                {
                    assert(d.take(j as int).last() == d[j - 1]);
                    assert(d[j - 1].0 == versions@[j - 1]);
                    assert(d.take(j as int).drop_last() =~= d.take(j - 1));
                    j -= 1;
                }
                proof {
                    if j > 0 {
                        assert(d.take(j as int).last() == d[j - 1]);
                        assert(d[j - 1].0 == versions@[j - 1]);
                    }
                    assert(slot(d.take(j as int), v) == j);
                }
                let ghost vs = versions@;
                let ghost ps = paths@;
                versions.insert(j, v);
                paths.insert(j, candidates[i].path.clone());
                assert forall|k: int|
                    #![trigger versions@[k]]
                    0 <= k < versions@.len() implies dated(t)[k] == (versions@[k], paths@[k]@) by {
                    if k < j {
                        assert(vs[k] == versions@[k]);
                        assert(ps[k] == paths@[k]);
                    } else if k > j {
                        assert(vs[k - 1] == versions@[k]);
                        assert(ps[k - 1] == paths@[k]);
                    }
                }
            },
            None => {
                add_path(&mut rest, candidates[i].path.clone());
            },
        }
        i += 1;
    }
    assert(candidates@.take(i as int) =~= candidates@);
    let ghost front = texts(paths@);
    assert(front =~= dated(candidates@).map_values(|d: Dated| d.1));
    let mut k: usize = 0;
    assert(front + texts(rest@).take(0) =~= front);
    while k < rest.len()
        invariant
            k <= rest@.len(),
            texts(paths@) == front + texts(rest@).take(k as int),
        decreases rest@.len() - k,
    {
        add_path(&mut paths, rest[k].clone());
        assert(texts(rest@).take(k + 1) =~= texts(rest@).take(k as int).push(rest@[k as int]@));
        assert(texts(paths@) =~= front + texts(rest@).take(k + 1));
        k += 1;
    }
    assert(texts(rest@).take(k as int) =~= texts(rest@));
    paths
}

// ---------------------------------------------------------------------------
// Laws
// ---------------------------------------------------------------------------
/// Versions are in a strict total order.
pub proof fn law_versions_are_ordered(a: CodexCliVersion, b: CodexCliVersion, c: CodexCliVersion)
    ensures
        !older(a, a),
        a != b ==> older(a, b) != older(b, a),
        older(a, b) && older(b, c) ==> older(a, c),
{
}

proof fn lemma_slot(s: Seq<Dated>, v: CodexCliVersion)
    requires
        forall|i: int, j: int| 0 <= i < j < s.len() ==> !older((#[trigger] s[i]).0, (#[trigger] s[j]).0),
    ensures
        slot(s, v) <= s.len(),
        forall|i: int| 0 <= i < slot(s, v) ==> !older((#[trigger] s[i]).0, v),
        forall|i: int| slot(s, v) <= i < s.len() ==> older((#[trigger] s[i]).0, v),
    decreases s.len(),
{
    if s.len() > 0 {
        let t = s.drop_last();
        if older(s.last().0, v) {
            assert forall|i: int, j: int| 0 <= i < j < t.len() implies !older(
                (#[trigger] t[i]).0,
                (#[trigger] t[j]).0,
            ) by {
                assert(!older(s[i].0, s[j].0));
            }
            lemma_slot(t, v);
            assert forall|i: int| slot(s, v) <= i < s.len() implies older(
                (#[trigger] s[i]).0,
                v,
            ) by {
                if i < t.len() {
                    assert(t[i] == s[i]);
                }
            }
            assert forall|i: int| 0 <= i < slot(s, v) implies !older((#[trigger] s[i]).0, v) by {
                assert(t[i] == s[i]);
            }
        } else {
            assert forall|i: int| 0 <= i < s.len() implies !older((#[trigger] s[i]).0, v) by {
                if i < s.len() - 1 {
                    assert(!older(s[i].0, s[s.len() - 1].0));
                }
            }
        }
    }
}

/// No program stands before a newer one.
pub proof fn law_newest_comes_first(s: Seq<Versioned>)
    ensures
        forall|i: int, j: int|
            0 <= i < j < dated(s).len() ==> !older(
                (#[trigger] dated(s)[i]).0,
                (#[trigger] dated(s)[j]).0,
            ),
    decreases s.len(),
{
    if s.len() > 0 {
        law_newest_comes_first(s.drop_last());
        if let Some(v) = s.last().version {
            let d = dated(s.drop_last());
            lemma_slot(d, v);
            let k = slot(d, v) as int;
            let e = dated(s);
            assert forall|i: int, j: int| 0 <= i < j < e.len() implies !older(
                (#[trigger] e[i]).0,
                (#[trigger] e[j]).0,
            ) by {
                let a = if i < k { i } else { i - 1 };
                let b = if j < k { j } else { j - 1 };
                if i == k {
                    assert(e[j] == d[b]);
                } else if j == k {
                    assert(e[i] == d[a]);
                } else {
                    assert(e[i] == d[a]);
                    assert(e[j] == d[b]);
                }
            }
        }
    }
}

/// Sorting neither loses a program nor makes one up.
pub proof fn law_sorting_keeps_the_programs(s: Seq<Versioned>)
    ensures
        newest_first(s).to_multiset() == s.map_values(|v: Versioned| v.path@).to_multiset(),
    decreases s.len(),
{
    let paths = s.map_values(|v: Versioned| v.path@);
    if s.len() == 0 {
        assert(newest_first(s) =~= paths);
    } else {
        let t = s.drop_last();
        let x = s.last().path@;
        law_sorting_keeps_the_programs(t);
        let tp = t.map_values(|v: Versioned| v.path@);
        assert(paths =~= tp.push(x));
        vstd::seq_lib::to_multiset_build(tp, x);
        let d = dated(t).map_values(|d: Dated| d.1);
        let u = undated(t);
        match s.last().version {
            Some(v) => {
                lemma_slot_in_range(dated(t), v);
                let k = slot(dated(t), v) as int;
                assert(dated(s).map_values(|d: Dated| d.1) =~= d.insert(k, x));
                assert(newest_first(s) =~= (d + u).insert(k, x));
                vstd::seq_lib::to_multiset_insert(d + u, k, x);
            },
            None => {
                assert(newest_first(s) =~= (d + u).push(x));
                vstd::seq_lib::to_multiset_build(d + u, x);
            },
        }
    }
}

proof fn lemma_slot_in_range(s: Seq<Dated>, v: CodexCliVersion)
    ensures
        slot(s, v) <= s.len(),
    decreases s.len(),
{
    if s.len() > 0 && older(s.last().0, v) {
        lemma_slot_in_range(s.drop_last(), v);
    }
}

/// The program that is picked is not older than any other.
pub proof fn law_newest_is_picked(s: Seq<Versioned>, j: int)
    requires
        0 <= j < s.len(),
        s[j].version is Some,
    ensures
        newest(s) is Some,
        0 <= newest(s)->Some_0 < s.len(),
        s[newest(s)->Some_0].version is Some,
        !older(s[newest(s)->Some_0].version->Some_0, s[j].version->Some_0),
    decreases s.len(),
{
    let t = s.drop_last();
    lemma_newest_in_range(s);
    lemma_newest_in_range(t);
    if j < t.len() {
        assert(t[j] == s[j]);
        law_newest_is_picked(t, j);
        assert(t[newest(t)->Some_0] == s[newest(t)->Some_0]);
    } else if newest(t) is Some {
        assert(t[newest(t)->Some_0] == s[newest(t)->Some_0]);
    }
}

proof fn lemma_newest_in_range(s: Seq<Versioned>)
    ensures
        newest(s) matches Some(i) ==> 0 <= i < s.len() && s[i].version is Some,
    decreases s.len(),
{
    if s.len() > 0 {
        lemma_newest_in_range(s.drop_last());
        if let Some(i) = newest(s.drop_last()) {
            assert(s.drop_last()[i] == s[i]);
        }
    }
}

/// No path is a candidate twice.
pub proof fn law_candidates_differ(s: Seq<Place>, windows: bool)
    ensures
        forall|i: int, j: int|
            0 <= i < j < executables(s, windows).len() ==> !same_path(
                #[trigger] executables(s, windows)[i],
                #[trigger] executables(s, windows)[j],
                windows,
            ),
    decreases s.len(),
{
    if s.len() > 0 {
        law_candidates_differ(s.drop_last(), windows);
        let t = executables(s.drop_last(), windows);
        let all = executables(s, windows);
        assert forall|i: int, j: int| 0 <= i < j < all.len() implies !same_path(
            #[trigger] all[i],
            #[trigger] all[j],
            windows,
        ) by {
            assert(all[i] == t[i]);
            if j < t.len() {
                assert(all[j] == t[j]);
            }
        }
    }
}

/// Every executable file is a candidate, under the first of its paths, and nothing else is.
pub proof fn law_every_executable_is_a_candidate(s: Seq<Place>, windows: bool, p: Seq<char>)
    ensures
        (exists|i: int|
            0 <= i < s.len() && (#[trigger] s[i]).executable && same_path(
                s[i].path@,
                p,
                windows,
            )) <==> has_path(executables(s, windows), p, windows),
    decreases s.len(),
{
    let all = executables(s, windows);
    if s.len() > 0 {
        let before = s.drop_last();
        let t = executables(before, windows);
        law_every_executable_is_a_candidate(before, windows, p);
        law_every_executable_is_a_candidate(before, windows, s.last().path@);
        if has_path(t, p, windows) {
            let k = choose|k: int| 0 <= k < t.len() && same_path(#[trigger] t[k], p, windows);
            assert(all[k] == t[k]);
            let i = choose|i: int|
                0 <= i < before.len() && (#[trigger] before[i]).executable && same_path(
                    before[i].path@,
                    p,
                    windows,
                );
            assert(s[i] == before[i]);
        } else if has_path(all, p, windows) {
            let k = choose|k: int| 0 <= k < all.len() && same_path(#[trigger] all[k], p, windows);
            if k < t.len() {
                assert(t[k] == all[k]);
            }
            assert(s[s.len() - 1] == s.last());
        } else {
            assert forall|i: int| 0 <= i < s.len() && (#[trigger] s[i]).executable implies !same_path(
                s[i].path@,
                p,
                windows,
            ) by {
                if i < before.len() {
                    assert(before[i] == s[i]);
                } else if same_path(s[i].path@, p, windows) {
                    if has_path(t, s.last().path@, windows) {
                        let k = choose|k: int|
                            0 <= k < t.len() && same_path(
                                #[trigger] t[k],
                                s.last().path@,
                                windows,
                            );
                        assert(same_path(t[k], p, windows));
                    } else {
                        assert(all[all.len() - 1] == s.last().path@);
                    }
                }
            }
        }
    }
}

} // verus!
