//! Laws of environments: which variables are read, which program answers for them, and
//! where a program is looked for.

use vstd::prelude::*;

use super::launch_environment::{
    EnvV, Provider, answered, fallback_places, first_existing, first_found, first_runnable,
    is_letter, json_applied, lines_env, lookup_names, pairs_env, places_in, places_in_all, places_of,
    provider_applied, provider_args, search_dirs, shell_args, valid_key, windows_dirs,
};
use super::paths::{absolute, below, component_count};
use crate::json::JsonV;
use crate::json_text::parsed;
use crate::text::{has_text, joined, lines_of, lossy, split_first, texts};
use crate::text_laws::{
    law_cut_apart_again, law_cut_at_the_first, law_cut_everywhere, law_joined_in_order,
};

verus! {

// ---------------------------------------------------------------------------
// Variables
// ---------------------------------------------------------------------------
/// Of variables of the same name the last one counts.
pub proof fn law_last_pair_counts(s: Seq<(String, String)>, i: int)
    requires
        0 <= i < s.len(),
        forall|j: int| i < j < s.len() ==> (#[trigger] s[j]).0@ != s[i].0@,
    ensures
        pairs_env(s).dom().contains(s[i].0@),
        pairs_env(s)[s[i].0@] == s[i].1@,
    decreases s.len(),
{
    if i < s.len() - 1 {
        let t = s.drop_last();
        assert(s[s.len() - 1].0@ != s[i].0@);
        assert forall|j: int| i < j < t.len() implies (#[trigger] t[j]).0@ != t[i].0@ by {
            assert(t[j] == s[j]);
        }
        law_last_pair_counts(t, i);
    }
}

/// Every variable comes from a pair.
pub proof fn law_variables_come_from_pairs(s: Seq<(String, String)>, key: Seq<char>)
    requires
        pairs_env(s).dom().contains(key),
    ensures
        exists|i: int| 0 <= i < s.len() && (#[trigger] s[i]).0@ == key && s[i].1@ == pairs_env(s)[key],
    decreases s.len(),
{
    let t = s.drop_last();
    if s.last().0@ == key {
        assert(s[s.len() - 1].0@ == key);
    } else {
        law_variables_come_from_pairs(t, key);
        let i = choose|i: int|
            0 <= i < t.len() && (#[trigger] t[i]).0@ == key && t[i].1@ == pairs_env(t)[key];
        assert(s[i] == t[i]);
    }
}

proof fn lemma_names_hold_no_equals(key: Seq<char>)
    requires
        valid_key(key),
    ensures
        !key.contains('='),
{
    if key.contains('=') {
        let i = choose|i: int| 0 <= i < key.len() && key[i] == '=';
        if i > 0 {
            assert(key[i] == '_' || key[i] != '=');
        }
    }
}

/// A line with a name, an equals sign and a value sets the variable to all of the value,
/// further equals signs included.
pub proof fn law_one_line(key: Seq<char>, value: Seq<char>)
    requires
        valid_key(key),
    ensures
        ({
            let env = lines_env(seq![key + seq!['='] + value]);
            env.dom().contains(key) && env[key] == value
        }),
{
    lemma_names_hold_no_equals(key);
    law_cut_apart_again(key, '=', value);
    let s = seq![key + seq!['='] + value];
    assert(s.last() == key + seq!['='] + value);
}

/// A line without an equals sign, or whose name is none, sets nothing.
pub proof fn law_lines_that_set_nothing(s: Seq<Seq<char>>, line: Seq<char>)
    requires
        !line.contains('=') || (split_first(line, '=') matches Some((k, _)) && !valid_key(k)),
    ensures
        lines_env(s.push(line)) == lines_env(s),
{
    law_cut_at_the_first(line, '=');
    assert(s.push(line).drop_last() =~= s);
}

/// Later lines count more than earlier ones, and lines about other variables leave a
/// variable alone.
pub proof fn law_later_lines_count(a: Seq<Seq<char>>, b: Seq<Seq<char>>)
    ensures
        lines_env(a + b) == lines_env(a).union_prefer_right(lines_env(b)),
    decreases b.len(),
{
    if b.len() == 0 {
        assert(a + b =~= a);
        assert(lines_env(a).union_prefer_right(lines_env(b)) =~= lines_env(a));
    } else {
        law_later_lines_count(a, b.drop_last());
        assert((a + b).drop_last() =~= a + b.drop_last());
        assert((a + b).last() == b.last());
        assert(lines_env(a + b) =~= lines_env(a).union_prefer_right(lines_env(b)));
    }
}

/// Names of variables are letters, digits and underscores, and begin with no digit.
pub proof fn law_names_of_variables(key: Seq<char>, i: int)
    requires
        valid_key(key),
    ensures
        key.len() > 0,
        !('0' <= key[0] <= '9'),
        0 <= i < key.len() ==> key[i] == '_' || 'a' <= key[i] <= 'z' || 'A' <= key[i] <= 'Z' || '0'
            <= key[i] <= '9',
{
}

/// A single letter or an underscore is a name, and a name with another letter, digit or
/// underscore behind it is one too.
pub proof fn law_names_grow(key: Seq<char>, c: char)
    ensures
        c == '_' || 'a' <= c <= 'z' || 'A' <= c <= 'Z' ==> valid_key(seq![c]),
        valid_key(key) && (c == '_' || 'a' <= c <= 'z' || 'A' <= c <= 'Z' || '0' <= c <= '9')
            ==> valid_key(key.push(c)),
        valid_key(key.push(c)) && key.len() > 0 ==> valid_key(key),
{
    let longer = key.push(c);
    if valid_key(longer) && key.len() > 0 {
        assert(longer[0] == key[0]);
        assert forall|i: int| 1 <= i < key.len() implies #[trigger] key[i] == '_'
            || is_letter(key[i]) || ('0' <= key[i] && key[i] <= '9') by {
            assert(longer[i] == key[i]);
        }
    }
}

/// Values that are neither text nor `null`, and names that are none, leave the
/// environment as it was.
pub proof fn law_other_values_change_nothing(
    env: EnvV,
    m: Map<Seq<char>, JsonV>,
    key: Seq<char>,
)
    requires
        !valid_key(key) || !m.dom().contains(key) || (!(m[key] is Str) && m[key] != JsonV::Null),
    ensures
        json_applied(env, m).dom().contains(key) <==> env.dom().contains(key),
        env.dom().contains(key) ==> json_applied(env, m)[key] == env[key],
{
}

/// An answer that is no JSON object changes nothing.
pub proof fn law_answers_without_an_object(env: EnvV, stdout: Seq<u8>)
    ensures
        !vstd::utf8::valid_utf8(stdout) ==> provider_applied(env, stdout) == env,
        parsed(vstd::utf8::decode_utf8(stdout)) is None ==> provider_applied(env, stdout) == env,
        vstd::utf8::valid_utf8(stdout) ==> (parsed(vstd::utf8::decode_utf8(stdout)) matches Some(
            JsonV::Obj(m),
        ) ==> provider_applied(env, stdout) == json_applied(env, m)),
{
}

/// A shell is heard whether or not it succeeds, and adds to the environment; every other
/// program is heard only if it succeeds.
pub proof fn law_who_is_heard(
    env: EnvV,
    provider: Provider,
    success: bool,
    stdout: Seq<u8>,
    key: Seq<char>,
)
    ensures
        provider is UserShell ==> ({
            let said = lines_env(lines_of(lossy(stdout)));
            let r = answered(env, provider, success, stdout);
            &&& said.dom().contains(key) ==> r.dom().contains(key) && r[key] == said[key]
            &&& !said.dom().contains(key) && env.dom().contains(key) ==> r.dom().contains(key)
                && r[key] == env[key]
            &&& r.dom().contains(key) ==> said.dom().contains(key) || env.dom().contains(key)
        }),
        !(provider is UserShell) && !success ==> answered(env, provider, success, stdout) == env,
        !(provider is UserShell) && success ==> answered(env, provider, success, stdout)
            == provider_applied(env, stdout),
{
}

// ---------------------------------------------------------------------------
// What the providers are asked
// ---------------------------------------------------------------------------
/// Every shell is asked for its environment, as the last thing of a command.
pub proof fn law_shells_are_asked_for_their_environment(name: Seq<char>)
    ensures
        shell_args(name).len() >= 2,
        shell_args(name).last() == "env"@,
        has_text(name, "fish"@) ==> shell_args(name)[0] == "-l"@ && shell_args(name).len() == 3,
        !has_text(name, "fish"@) && (has_text(name, "zsh"@) || has_text(name, "bash"@))
            ==> shell_args(name)[0] == "-lic"@,
        shell_args(name)[0] == "-c"@ ==> name == "sh"@ || name == "dash"@ || name == "ash"@ || name
            == "busybox"@,
{
    reveal_strlit("-l");
    reveal_strlit("-c");
    reveal_strlit("-lic");
    reveal_strlit("-lc");
    assert("-l"@.len() == 2 && "-c"@.len() == 2 && "-lic"@.len() == 4 && "-lc"@.len() == 3);
    assert("-l"@[1] == 'l' && "-c"@[1] == 'c');
}

/// A program that keeps environments by directory is asked about the directory of the
/// process, if it has one, and in a form that is read again.
pub proof fn law_environments_by_directory(
    program: Seq<char>,
    cwd: Option<Seq<char>>,
    windows: bool,
)
    ensures
        ({
            let args = provider_args(Provider::Mise, program, cwd, windows);
            &&& args[0] == "env"@ && args[1] == "--json"@
            &&& cwd matches Some(dir) ==> args.len() == 4 && args[2] == "-C"@ && args[3] == dir
            &&& cwd is None ==> args.len() == 2
        }),
        provider_args(Provider::Direnv, program, cwd, windows) == seq!["export"@, "json"@],
{
}

// ---------------------------------------------------------------------------
// Looking for programs
// ---------------------------------------------------------------------------
/// The first place that exists is taken; there is one exactly if some place exists.
pub proof fn law_first_existing_is_taken(s: Seq<(String, bool)>, i: int)
    requires
        0 <= i < s.len(),
        s[i].1,
        forall|j: int| 0 <= j < i ==> !(#[trigger] s[j]).1,
    ensures
        first_existing(s) == Some(s[i].0@),
    decreases s.len(),
{
    if i > 0 {
        assert(!s[0].1);
        let t = s.skip(1);
        assert forall|j: int| 0 <= j < i - 1 implies !(#[trigger] t[j]).1 by {
            assert(t[j] == s[j + 1]);
        }
        assert(t[i - 1] == s[i]);
        law_first_existing_is_taken(t, i - 1);
    }
}

/// Where no place exists, none is taken.
pub proof fn law_no_place_exists(s: Seq<(String, bool)>)
    requires
        forall|j: int| 0 <= j < s.len() ==> !(#[trigger] s[j]).1,
    ensures
        first_existing(s) is None,
    decreases s.len(),
{
    if s.len() > 0 {
        let t = s.skip(1);
        assert forall|j: int| 0 <= j < t.len() implies !(#[trigger] t[j]).1 by {
            assert(t[j] == s[j + 1]);
        }
        assert(!s[0].1);
        law_no_place_exists(t);
    }
}

/// The first place that can be run is taken.
pub proof fn law_first_runnable_is_taken(places: Seq<Seq<char>>, runnable: Seq<bool>, i: int)
    requires
        0 <= i < places.len(),
        i < runnable.len(),
        runnable[i],
        forall|j: int| 0 <= j < i ==> !(#[trigger] runnable[j]),
    ensures
        first_runnable(places, runnable) == Some(places[i]),
    decreases places.len(),
{
    if i > 0 {
        assert(!runnable[0]);
        let r = runnable.skip(1);
        assert forall|j: int| 0 <= j < i - 1 implies !(#[trigger] r[j]) by {
            assert(r[j] == runnable[j + 1]);
        }
        assert(r[i - 1] == runnable[i]);
        assert(places.skip(1)[i - 1] == places[i]);
        law_first_runnable_is_taken(places.skip(1), r, i - 1);
    }
}

/// Where no place can be run, none is taken.
pub proof fn law_no_place_can_be_run(places: Seq<Seq<char>>, runnable: Seq<bool>)
    requires
        forall|j: int| 0 <= j < runnable.len() ==> !(#[trigger] runnable[j]),
    ensures
        first_runnable(places, runnable) is None,
    decreases places.len(),
{
    if places.len() > 0 && runnable.len() > 0 {
        assert(!runnable[0]);
        let r = runnable.skip(1);
        assert forall|j: int| 0 <= j < r.len() implies !(#[trigger] r[j]) by {
            assert(r[j] == runnable[j + 1]);
        }
        law_no_place_can_be_run(places.skip(1), r);
    }
}

/// The first name that leads to a program is taken.
pub proof fn law_first_found_is_taken(s: Seq<Option<String>>, i: int)
    requires
        0 <= i < s.len(),
        s[i] is Some,
        forall|j: int| 0 <= j < i ==> (#[trigger] s[j]) is None,
    ensures
        first_found(s) == Some(s[i]->Some_0@),
    decreases s.len(),
{
    if i > 0 {
        assert(s[0] is None);
        let t = s.skip(1);
        assert forall|j: int| 0 <= j < i - 1 implies (#[trigger] t[j]) is None by {
            assert(t[j] == s[j + 1]);
        }
        assert(t[i - 1] == s[i]);
        law_first_found_is_taken(t, i - 1);
    }
}

/// Where no name leads to a program, none is found.
pub proof fn law_nothing_is_found(s: Seq<Option<String>>)
    requires
        forall|j: int| 0 <= j < s.len() ==> (#[trigger] s[j]) is None,
    ensures
        first_found(s) is None,
    decreases s.len(),
{
    if s.len() > 0 {
        let t = s.skip(1);
        assert forall|j: int| 0 <= j < t.len() implies (#[trigger] t[j]) is None by {
            assert(t[j] == s[j + 1]);
        }
        assert(s[0] is None);
        law_nothing_is_found(t);
    }
}

/// Places are tried in the order of their table.
pub proof fn law_places_keep_their_order(
    a: Seq<&'static str>,
    b: Seq<&'static str>,
    home: Option<Seq<char>>,
    windows: bool,
)
    ensures
        fallback_places(a + b, home, windows) == fallback_places(a, home, windows)
            + fallback_places(b, home, windows),
    decreases b.len(),
{
    if b.len() == 0 {
        assert(a + b =~= a);
        assert(fallback_places(a, home, windows) + fallback_places(b, home, windows)
            =~= fallback_places(a, home, windows));
    } else {
        law_places_keep_their_order(a, b.drop_last(), home, windows);
        assert((a + b).drop_last() =~= a + b.drop_last());
        assert((a + b).last() == b.last());
        assert(fallback_places(a + b, home, windows) =~= fallback_places(a, home, windows)
            + fallback_places(b, home, windows));
    }
}

/// A whole path is tried as it is; any other lies in the home directory, and is not tried
/// where there is none.
pub proof fn law_one_place(place: &'static str, home: Option<Seq<char>>, windows: bool)
    ensures
        absolute(place@, windows) ==> fallback_places(seq![place], home, windows) == seq![place@],
        !absolute(place@, windows) ==> (home matches Some(h) ==> fallback_places(
            seq![place],
            home,
            windows,
        ) == seq![below(h, place@, windows)]),
        !absolute(place@, windows) && home is None ==> fallback_places(
            seq![place],
            home,
            windows,
        ).len() == 0,
{
    let s = seq![place];
    assert(s.drop_last() =~= Seq::empty());
    assert(fallback_places(s.drop_last(), home, windows).len() == 0);
    if absolute(place@, windows) {
        assert(fallback_places(s, home, windows) =~= seq![place@]);
    } else if home is Some {
        assert(fallback_places(s, home, windows) =~= seq![below(home->Some_0, place@, windows)]);
    }
}

/// The directories of a search path are those between its colons, all of them, in order.
pub proof fn law_directories_of_a_search_path(path: Seq<char>)
    ensures
        joined(search_dirs(path, false), seq![':']) == path,
        forall|i: int|
            0 <= i < search_dirs(path, false).len() ==> !(#[trigger] search_dirs(
                path,
                false,
            )[i]).contains(':'),
{
    law_cut_everywhere(path, ':');
}

proof fn lemma_unquoted_dirs(s: Seq<char>, part: Seq<char>)
    requires
        !s.contains('"'),
    ensures
        windows_dirs(s, part, false).len() > 0,
        windows_dirs(s, part, false)[0].is_prefix_of(part + s),
        joined(windows_dirs(s, part, false), seq![';']) == part + s,
    decreases s.len(),
{
    if s.len() == 0 {
        assert(part + s =~= part);
    } else {
        let t = s.skip(1);
        assert(!t.contains('"')) by {
            if t.contains('"') {
                let i = choose|i: int| 0 <= i < t.len() && t[i] == '"';
                assert(s[i + 1] == '"');
            }
        }
        assert(s[0] != '"');
        if s[0] == ';' {
            lemma_unquoted_dirs(t, seq![]);
            let rest = windows_dirs(t, seq![], false);
            law_joined_in_order(seq![part], rest, seq![';']);
            assert(Seq::<char>::empty() + t =~= t);
            assert(part + s =~= part + seq![';'] + t);
            assert(windows_dirs(s, part, false)[0] == part);
        } else {
            lemma_unquoted_dirs(t, part.push(s[0]));
            assert(part.push(s[0]) + t =~= part + s);
        }
    }
}

/// On Windows the directories of a search path without quotes are those between its
/// semicolons, in order.
pub proof fn law_windows_directories(path: Seq<char>)
    requires
        !path.contains('"'),
    ensures
        joined(search_dirs(path, true), seq![';']) == path,
{
    lemma_unquoted_dirs(path, seq![]);
    assert(Seq::<char>::empty() + path =~= path);
}

/// Between quotes a semicolon is part of a directory, and the quotes are not.
pub proof fn law_quoted_directories(dir: Seq<char>, part: Seq<char>, rest: Seq<char>)
    requires
        !dir.contains('"'),
    ensures
        windows_dirs(dir + seq!['"'] + rest, part, true) == windows_dirs(rest, part + dir, false),
        windows_dirs(seq!['"'] + dir, part, false) == windows_dirs(dir, part, true),
    decreases dir.len(),
{
    let s = dir + seq!['"'] + rest;
    assert((seq!['"'] + dir).skip(1) =~= dir);
    if dir.len() == 0 {
        assert(s[0] == '"');
        assert(s.skip(1) =~= rest);
        assert(part + dir =~= part);
    } else {
        let t = dir.skip(1);
        assert(!t.contains('"')) by {
            if t.contains('"') {
                let i = choose|i: int| 0 <= i < t.len() && t[i] == '"';
                assert(dir[i + 1] == '"');
            }
        }
        assert(s[0] == dir[0]);
        assert(dir.contains(dir[0]));
        law_quoted_directories(t, part.push(dir[0]), rest);
        assert(s.skip(1) =~= t + seq!['"'] + rest);
        assert(part.push(dir[0]) + t =~= part + dir);
    }
}

/// A program is looked for in every directory of the search path, one after the other.
pub proof fn law_every_directory_is_searched(
    a: Seq<Seq<char>>,
    b: Seq<Seq<char>>,
    program: Seq<char>,
    windows: bool,
)
    ensures
        places_in_all(a + b, program, windows) == places_in_all(a, program, windows)
            + places_in_all(b, program, windows),
    decreases b.len(),
{
    if b.len() == 0 {
        assert(a + b =~= a);
        assert(places_in_all(a, program, windows) + places_in_all(b, program, windows)
            =~= places_in_all(a, program, windows));
    } else {
        law_every_directory_is_searched(a, b.drop_last(), program, windows);
        assert((a + b).drop_last() =~= a + b.drop_last());
        assert((a + b).last() == b.last());
        assert(places_in_all(a + b, program, windows) =~= places_in_all(a, program, windows)
            + places_in_all(b, program, windows));
    }
}

/// In a directory a program is looked for under its own name first; on Windows then with
/// the endings of programs, and elsewhere under no other name.
pub proof fn law_names_in_a_directory(dir: Seq<char>, program: Seq<char>)
    ensures
        places_in_all(seq![dir], program, false) == seq![below(dir, program, false)],
        places_in(dir, program, true)[0] == below(dir, program, true),
        places_in(dir, program, true).contains(below(dir, program + ".exe"@, true)),
        places_in(dir, program, true).contains(below(dir, program + ".cmd"@, true)),
        places_in(dir, program, true).contains(below(dir, program + ".bat"@, true)),
        places_in(dir, program, true).len() == 4,
{
    let s = seq![dir];
    assert(s.drop_last() =~= Seq::empty());
    assert(places_in_all(s.drop_last(), program, false).len() == 0);
    assert(places_in_all(s, program, false) =~= seq![below(dir, program, false)]);
    let w = places_in(dir, program, true);
    assert(w[1] == below(dir, program + ".exe"@, true));
    assert(w[2] == below(dir, program + ".cmd"@, true));
    assert(w[3] == below(dir, program + ".bat"@, true));
}

/// Without a search path there is no place to look.
pub proof fn law_search_needs_a_path(env: EnvV, program: Seq<char>, windows: bool)
    ensures
        !env.dom().contains("PATH"@) ==> places_of(env, program, windows).len() == 0,
        env.dom().contains("PATH"@) ==> places_of(env, program, windows) == places_in_all(
            search_dirs(env["PATH"@], windows),
            program,
            windows,
        ),
{
}

/// A program is looked for under its own name before its other names; one with a place of
/// its own is not looked for.
pub proof fn law_own_name_comes_first(
    program: Seq<char>,
    aliases: Map<Seq<char>, Vec<String>>,
    windows: bool,
    i: int,
)
    ensures
        component_count(program, windows) > 1 ==> lookup_names(program, aliases, windows).len()
            == 0,
        component_count(program, windows) <= 1 ==> lookup_names(program, aliases, windows).len() > 0
            && lookup_names(program, aliases, windows)[0] == program,
        component_count(program, windows) <= 1 && aliases.dom().contains(program) && 0 <= i
            < aliases[program]@.len() ==> lookup_names(program, aliases, windows)[i + 1]
            == aliases[program]@[i]@,
        component_count(program, windows) <= 1 && !aliases.dom().contains(program)
            ==> lookup_names(program, aliases, windows).len() == 1,
{
    if aliases.dom().contains(program) && 0 <= i < aliases[program]@.len() {
        assert(texts(aliases[program]@)[i] == aliases[program]@[i]@);
    }
}

} // verus!
