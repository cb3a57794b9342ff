//! Laws of paths: what their parts are, and when they are whole.

use vstd::prelude::*;

use super::paths::{
    PartV, PrefixV, absolute, below, component_count, components, dotted, extended,
    last_name, lemma_named_parts, named_parts, placed, prefix_len, prefix_of, rooted, same_path,
    slashed, starts_at_root,
};
use crate::text::{begins, index_or_end, lemma_index_or_end, split_all};
use crate::text_laws::law_cutting_keeps_the_order;

verus! {

proof fn lemma_whole_part(name: Seq<char>)
    requires
        !name.contains('/'),
    ensures
        split_all(name, '/') == seq![name],
{
    lemma_index_or_end(name, '/');
    let k = index_or_end(name, '/');
    if k < name.len() {
        assert(name[k] == '/');
    }
}

/// Behind a separator a path goes on with one more part, or with none.
proof fn lemma_one_more(dir: Seq<char>, name: Seq<char>)
    requires
        dir.len() > 0,
        !name.contains('/'),
    ensures
        components(dir + seq!['/'] + name, false) == components(dir, false) + named_parts(
            seq![name],
            false,
        ),
{
    let longer = dir + seq!['/'] + name;
    assert(longer[0] == dir[0]);
    let x = if starts_at_root(dir, false) {
        dir.skip(1)
    } else {
        dir
    };
    assert(longer.skip(0) =~= longer && dir.skip(0) =~= dir);
    if starts_at_root(dir, false) {
        assert(longer.skip(1) =~= x + seq!['/'] + name);
    }
    law_cutting_keeps_the_order(x, '/', name);
    lemma_whole_part(name);
    lemma_named_parts(split_all(x, '/'), seq![name], false);
    crate::text_laws::law_cut_everywhere(x, '/');
    let p = split_all(x, '/');
    assert((p + seq![name])[0] == p[0]);
    assert(components(longer, false) =~= components(dir, false) + named_parts(seq![name], false));
}

/// A name behind a directory is the last part of the path, and the parts before it are
/// those of the directory.
pub proof fn law_name_is_the_last_part(dir: Seq<char>, name: Seq<char>)
    requires
        dir.len() > 0,
        name.len() > 0,
        !name.contains('/'),
        name != "."@,
        name != ".."@,
    ensures
        components(dir + seq!['/'] + name, false) == components(dir, false).push(
            PartV::Name(name),
        ),
        last_name(dir + seq!['/'] + name, false) == Some(name),
        component_count(dir + seq!['/'] + name, false) == component_count(dir, false) + 1,
{
    lemma_one_more(dir, name);
    assert(seq![name].drop_last() =~= Seq::empty());
    assert(named_parts(seq![name].drop_last(), false).len() == 0);
    assert(named_parts(seq![name], false) =~= seq![PartV::Name(name)]);
    assert(components(dir, false) + seq![PartV::Name(name)] =~= components(dir, false).push(
        PartV::Name(name),
    ));
}

/// A dot behind a directory is no part; two dots lead up.
pub proof fn law_dots_behind_a_directory(dir: Seq<char>)
    requires
        dir.len() > 0,
    ensures
        same_path(dir + seq!['/'] + "."@, dir, false),
        components(dir + seq!['/'] + ".."@, false) == components(dir, false).push(PartV::Up),
        last_name(dir + seq!['/'] + ".."@, false) is None,
{
    reveal_strlit(".");
    reveal_strlit("..");
    assert("."@.len() == 1 && ".."@.len() == 2);
    lemma_one_more(dir, "."@);
    lemma_one_more(dir, ".."@);
    assert(seq!["."@].drop_last() =~= Seq::empty());
    assert(seq![".."@].drop_last() =~= Seq::empty());
    assert(named_parts(Seq::<Seq<char>>::empty(), false).len() == 0);
    assert(named_parts(seq!["."@], false).len() == 0);
    assert(named_parts(seq![".."@], false) =~= seq![PartV::Up]);
    assert(components(dir, false) + named_parts(seq!["."@], false) =~= components(dir, false));
    assert(components(dir, false) + seq![PartV::Up] =~= components(dir, false).push(PartV::Up));
}

/// A name alone is one part, and has no place of its own.
pub proof fn law_name_alone(name: Seq<char>)
    requires
        name.len() > 0,
        !name.contains('/'),
        name != "."@,
        name != ".."@,
    ensures
        components(name, false) == seq![PartV::Name(name)],
        last_name(name, false) == Some(name),
        !placed(name, false),
{
    assert(name.skip(0) =~= name);
    assert(name.contains(name[0]));
    lemma_whole_part(name);
    assert(seq![name].drop_last() =~= Seq::empty());
    assert(named_parts(seq![name].drop_last(), false).len() == 0);
    assert(components(name, false) =~= seq![PartV::Name(name)]);
}

/// A name in a directory has a place of its own.
pub proof fn law_name_in_a_directory(dir: Seq<char>, name: Seq<char>)
    requires
        dir.len() > 0,
        !dir.contains('/'),
        dir != "."@,
        dir != ".."@,
        name.len() > 0,
        !name.contains('/'),
        name != "."@,
        name != ".."@,
    ensures
        placed(dir + seq!['/'] + name, false),
{
    law_name_alone(dir);
    law_name_is_the_last_part(dir, name);
}

/// A name has an ending if a dot stands in it behind its first character.
pub proof fn law_names_with_an_ending(base: Seq<char>, ending: Seq<char>)
    ensures
        base.len() > 0 ==> dotted(base + seq!['.'] + ending),
        !base.contains('.') ==> !dotted(base),
        !base.contains('.') ==> !dotted(seq!['.'] + base),
{
    if base.len() > 0 {
        assert((base + seq!['.'] + ending)[base.len() as int] == '.');
    }
    if !base.contains('.') {
        let hidden = seq!['.'] + base;
        assert forall|i: int| 0 < i < hidden.len() implies #[trigger] hidden[i] != '.' by {
            assert(hidden[i] == base[i - 1]);
            assert(base.contains(base[i - 1]));
        }
        assert forall|i: int| 0 < i < base.len() implies #[trigger] base[i] != '.' by {
            assert(base.contains(base[i]));
        }
    }
}

/// A path has an ending if its last name has one.
pub proof fn law_paths_with_an_ending(dir: Seq<char>, base: Seq<char>, ending: Seq<char>)
    requires
        dir.len() > 0,
        base.len() > 0,
        !base.contains('/'),
        !base.contains('.'),
        !ending.contains('/'),
    ensures
        extended(dir + seq!['/'] + (base + seq!['.'] + ending), false),
        !extended(dir + seq!['/'] + base, false),
{
    let name = base + seq!['.'] + ending;
    reveal_strlit(".");
    reveal_strlit("..");
    assert(base.contains(base[0]));
    assert(name[0] == base[0]);
    assert("."@[0] == '.' && ".."@[0] == '.');
    assert(!name.contains('/')) by {
        if name.contains('/') {
            let i = choose|i: int| 0 <= i < name.len() && name[i] == '/';
            if i < base.len() {
                assert(base.contains(name[i]));
            } else if i > base.len() {
                assert(ending[i - base.len() - 1] == '/');
                assert(ending.contains('/'));
            }
        }
    }
    law_name_is_the_last_part(dir, name);
    law_name_is_the_last_part(dir, base);
    law_names_with_an_ending(base, ending);
}

// ---------------------------------------------------------------------------
// Windows
// ---------------------------------------------------------------------------
proof fn lemma_drive(path: Seq<char>)
    requires
        path.len() >= 2,
        'a' <= path[0] <= 'z' || 'A' <= path[0] <= 'Z',
        path[1] == ':',
    ensures
        prefix_of(path, true) matches Some(PrefixV::Drive(_)),
        prefix_len(path, true) == 2,
{
    reveal_strlit("\\\\?\\");
    reveal_strlit("//./");
    reveal_strlit("//");
    let s = slashed(path, true);
    assert(s[0] == path[0]);
    if begins(path, "\\\\?\\"@) {
        assert(path.take(4)[0] == path[0]);
    }
    if begins(s, "//./"@) {
        assert(s.take(4)[0] == s[0]);
    }
    if begins(s, "//"@) {
        assert(s.take(2)[0] == s[0]);
    }
}

/// On Windows a path with a drive and a separator is whole; a drive alone is not.
pub proof fn law_drives(path: Seq<char>)
    requires
        path.len() >= 2,
        'a' <= path[0] <= 'z' || 'A' <= path[0] <= 'Z',
        path[1] == ':',
    ensures
        absolute(path, true) <==> path.len() > 2 && (path[2] == '\\' || path[2] == '/'),
{
    lemma_drive(path);
    let rest = path.skip(2);
    if path.len() > 2 {
        assert(rest[0] == path[2]);
    }
}

/// The same drive in capital and small letters is the same.
pub proof fn law_drive_letters(a: Seq<char>, b: Seq<char>)
    requires
        a.len() >= 2,
        b.len() >= 2,
        'A' <= a[0] <= 'Z',
        b[0] as int == a[0] as int + 32,
        a[1] == ':',
        b[1] == ':',
        a.skip(2) == b.skip(2),
    ensures
        same_path(a, b, true),
{
    assert('a' <= b[0] <= 'z');
    lemma_drive(a);
    lemma_drive(b);
    reveal_strlit("\\\\?\\");
    reveal_strlit("//./");
    reveal_strlit("//");
    assert(prefix_of(a, true) == prefix_of(b, true));
}

/// On Windows a name lies below a directory of a drive behind one separator, and a path
/// with a drive of its own stays as it is.
pub proof fn law_names_below_a_drive(dir: Seq<char>, name: Seq<char>)
    requires
        dir.len() > 2,
        'a' <= dir[0] <= 'z' || 'A' <= dir[0] <= 'Z',
        dir[1] == ':',
    ensures
        dir.last() != '\\' && dir.last() != '/' && !rooted(name, true) && prefix_of(name, true)
            is None ==> below(dir, name, true) == dir + "\\"@ + name,
        (dir.last() == '\\' || dir.last() == '/') && !rooted(name, true) && prefix_of(name, true)
            is None ==> below(dir, name, true) == dir + name,
        prefix_of(name, true) is Some ==> below(dir, name, true) == name,
        rooted(name, true) && prefix_of(name, true) is None ==> below(dir, name, true) == dir.take(2)
            + name,
{
    reveal(below);
    lemma_drive(dir);
}

} // verus!
