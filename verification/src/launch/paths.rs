//! Paths as texts. Components stand between `/`, and on Windows between `\` too, where a
//! path may start with a drive (`C:`), a share (`\\server\share`), a device (`\\.\name`)
//! or a verbatim prefix (`\\?\`), behind which only `\` separates and dots are names of
//! their own.

use vstd::prelude::*;

use crate::text::{
    ascii_lower, begins, chars_of, index_or_end, join2, join3, lemma_index_or_end, owned, same, split,
    split_all, split_first, split_once, starts_with, strip_prefix, text_of, texts,
};

verus! {

// ---------------------------------------------------------------------------
// Prefixes
// ---------------------------------------------------------------------------
/// A separator as `/`.
pub open spec fn slash(c: char) -> char {
    if c == '\\' {
        '/'
    } else {
        c
    }
}

/// A path with `/` as its only separator.
pub open spec fn slashed(path: Seq<char>, windows: bool) -> Seq<char> {
    if windows {
        path.map_values(|c: char| slash(c))
    } else {
        path
    }
}

/// Whether a text starts with a drive.
pub open spec fn on_drive(s: Seq<char>) -> bool {
    s.len() >= 2 && s[1] == ':' && ('a' <= s[0] <= 'z' || 'A' <= s[0] <= 'Z')
}

/// What stands before the first `c`, or all of a text without one.
pub open spec fn head(s: Seq<char>, c: char) -> Seq<char> {
    match split_first(s, c) {
        Some((a, _)) => a,
        None => s,
    }
}

/// What stands behind the first `c`; nothing where there is none.
pub open spec fn tail(s: Seq<char>, c: char) -> Seq<char> {
    match split_first(s, c) {
        Some((_, b)) => b,
        None => seq![],
    }
}

/// What a Windows path may start with. Drives are alike whatever the case of their letter.
#[verifier::ext_equal]
pub enum PrefixV {
    Drive(char),
    Share(Seq<char>, Seq<char>),
    Device(Seq<char>),
    Verbatim(Seq<char>),
    VerbatimDrive(char),
    VerbatimShare(Seq<char>, Seq<char>),
}

impl PrefixV {
    /// Whether what follows is taken as it is.
    pub open spec fn verbatim(self) -> bool {
        self is Verbatim || self is VerbatimDrive || self is VerbatimShare
    }

    /// How long it is in a path.
    pub open spec fn width(self) -> nat {
        match self {
            PrefixV::Drive(_) => 2,
            PrefixV::Share(x, y) => 3 + x.len() + y.len(),
            PrefixV::Device(x) => 4 + x.len(),
            PrefixV::Verbatim(x) => 4 + x.len(),
            PrefixV::VerbatimDrive(_) => 6,
            PrefixV::VerbatimShare(x, y) => if y.len() > 0 {
                9 + x.len() + y.len()
            } else {
                8 + x.len()
            },
        }
    }
}

/// The prefix of a path that starts with `\\?\`, from what follows that.
pub open spec fn verbatim_prefix(rest: Seq<char>) -> PrefixV {
    if begins(slashed(rest, true), "UNC/"@) {
        let at = rest.skip(4);
        PrefixV::VerbatimShare(head(at, '\\'), head(tail(at, '\\'), '\\'))
    } else if on_drive(rest) && (rest.len() == 2 || slash(rest[2]) == '/') {
        PrefixV::VerbatimDrive(ascii_lower(rest[0]))
    } else {
        PrefixV::Verbatim(head(rest, '\\'))
    }
}

/// The prefix of a path, if it has one. Only Windows knows prefixes.
pub open spec fn prefix_of(path: Seq<char>, windows: bool) -> Option<PrefixV> {
    let s = slashed(path, windows);
    if !windows {
        None
    } else if begins(path, "\\\\?\\"@) {
        Some(verbatim_prefix(path.skip(4)))
    } else if begins(s, "//./"@) {
        Some(PrefixV::Device(head(s.skip(4), '/')))
    } else if begins(s, "//"@) {
        let server = head(s.skip(2), '/');
        let share = head(tail(s.skip(2), '/'), '/');
        if server.len() > 0 && share.len() > 0 {
            Some(PrefixV::Share(server, share))
        } else {
            None
        }
    } else if on_drive(path) {
        Some(PrefixV::Drive(ascii_lower(path[0])))
    } else {
        None
    }
}

/// How much of a path is its prefix.
pub open spec fn prefix_len(path: Seq<char>, windows: bool) -> int {
    match prefix_of(path, windows) {
        Some(p) => p.width() as int,
        None => 0,
    }
}

proof fn lemma_head(s: Seq<char>, c: char)
    ensures
        head(s, c).len() <= s.len(),
        tail(s, c).len() > 0 ==> head(s, c).len() + 1 + tail(s, c).len() == s.len(),
{
    lemma_index_or_end(s, c);
}

proof fn lemma_prefix_len(path: Seq<char>, windows: bool)
    ensures
        0 <= prefix_len(path, windows) <= path.len(),
{
    reveal_strlit("\\\\?\\");
    reveal_strlit("UNC/");
    reveal_strlit("//./");
    reveal_strlit("//");
    let s = slashed(path, windows);
    assert(s.len() == path.len());
    if windows {
        if begins(path, "\\\\?\\"@) {
            let rest = path.skip(4);
            if begins(slashed(rest, true), "UNC/"@) {
                let at = rest.skip(4);
                lemma_head(at, '\\');
                lemma_head(tail(at, '\\'), '\\');
            } else {
                lemma_head(rest, '\\');
            }
        } else if begins(s, "//./"@) {
            lemma_head(s.skip(4), '/');
        } else if begins(s, "//"@) {
            lemma_head(s.skip(2), '/');
            lemma_head(tail(s.skip(2), '/'), '/');
        }
    }
}

// ---------------------------------------------------------------------------
// Components
// ---------------------------------------------------------------------------
/// A component of a path: its prefix, its root, `.`, `..` or a name.
#[verifier::ext_equal]
pub enum PartV {
    Prefix(PrefixV),
    Root,
    Dot,
    Up,
    Name(Seq<char>),
}

/// The components among the parts of a path. Empty parts are none; a dot is one only in
/// verbatim paths.
pub open spec fn named_parts(parts: Seq<Seq<char>>, verbatim: bool) -> Seq<PartV>
    decreases parts.len(),
{
    if parts.len() == 0 {
        seq![]
    } else {
        let rest = named_parts(parts.drop_last(), verbatim);
        let last = parts.last();
        if last.len() == 0 {
            rest
        } else if last == "."@ {
            if verbatim {
                rest.push(PartV::Dot)
            } else {
                rest
            }
        } else if last == ".."@ {
            rest.push(PartV::Up)
        } else {
            rest.push(PartV::Name(last))
        }
    }
}

/// Whether a text starts with a separator.
pub open spec fn starts_at_root(s: Seq<char>, windows: bool) -> bool {
    s.len() > 0 && (s[0] == '/' || (windows && s[0] == '\\'))
}

/// Whether a prefix is a root by itself.
pub open spec fn is_root(prefix: Option<PrefixV>) -> bool {
    prefix is Some && !(prefix->0 is Drive)
}

/// What stands between the separators of a path, behind its prefix and root.
pub open spec fn parts_of(rest: Seq<char>, verbatim: bool, windows: bool) -> Seq<Seq<char>> {
    if verbatim {
        split_all(rest, '\\')
    } else {
        split_all(slashed(rest, windows), '/')
    }
}

/// The components of what follows a prefix.
pub open spec fn body_components(
    prefix: Option<PrefixV>,
    body: Seq<char>,
    windows: bool,
) -> Seq<PartV> {
    let verbatim = prefix is Some && prefix->0.verbatim();
    let root = starts_at_root(body, windows);
    let rest = if root {
        body.skip(1)
    } else {
        body
    };
    let parts = parts_of(rest, verbatim, windows);
    let start = if root || (is_root(prefix) && !verbatim) {
        seq![PartV::Root]
    } else if prefix is None && parts[0] == "."@ {
        seq![PartV::Dot]
    } else {
        seq![]
    };
    start + named_parts(parts, verbatim)
}

/// The components of a path: its prefix, its root or a leading dot, and what stands
/// between its separators.
pub open spec fn components(path: Seq<char>, windows: bool) -> Seq<PartV> {
    let prefix = prefix_of(path, windows);
    let body = path.skip(prefix_len(path, windows));
    (match prefix {
        Some(p) => seq![PartV::Prefix(p)],
        None => seq![],
    }) + body_components(prefix, body, windows)
}

/// Whether two texts are the same path: they have the same components.
pub open spec fn same_path(a: Seq<char>, b: Seq<char>, windows: bool) -> bool {
    components(a, windows) == components(b, windows)
}

/// Whether a list of paths has a path in it.
pub open spec fn has_path(s: Seq<Seq<char>>, path: Seq<char>, windows: bool) -> bool {
    exists|i: int| 0 <= i < s.len() && same_path(#[trigger] s[i], path, windows)
}

/// Whether a path starts at a root, be it that of a drive. A share or a device is a root.
pub open spec fn rooted(path: Seq<char>, windows: bool) -> bool {
    is_root(prefix_of(path, windows)) || starts_at_root(
        path.skip(prefix_len(path, windows)),
        windows,
    )
}

/// Whether a path stands for the same file wherever it is read.
pub open spec fn absolute(path: Seq<char>, windows: bool) -> bool {
    rooted(path, windows) && (windows ==> prefix_of(path, windows) is Some)
}

/// How many components a path has.
pub open spec fn component_count(path: Seq<char>, windows: bool) -> nat {
    components(path, windows).len()
}

/// The last component of a path, if it is a name.
pub open spec fn last_name(path: Seq<char>, windows: bool) -> Option<Seq<char>> {
    let all = components(path, windows);
    if all.len() > 0 {
        match all.last() {
            PartV::Name(n) => Some(n),
            _ => None,
        }
    } else {
        None
    }
}

/// What a Windows path may start with.
pub enum Prefix {
    Drive(char),
    Share(String, String),
    Device(String),
    Verbatim(String),
    VerbatimDrive(char),
    VerbatimShare(String, String),
}

impl Prefix {
    /// The model of this prefix.
    pub open spec fn view(&self) -> PrefixV {
        match *self {
            Prefix::Drive(c) => PrefixV::Drive(c),
            Prefix::Share(x, y) => PrefixV::Share(x@, y@),
            Prefix::Device(x) => PrefixV::Device(x@),
            Prefix::Verbatim(x) => PrefixV::Verbatim(x@),
            Prefix::VerbatimDrive(c) => PrefixV::VerbatimDrive(c),
            Prefix::VerbatimShare(x, y) => PrefixV::VerbatimShare(x@, y@),
        }
    }

    fn is_verbatim(&self) -> (r: bool)
        ensures
            r == self.view().verbatim(),
    {
        match self {
            Prefix::Verbatim(_) => true,
            Prefix::VerbatimDrive(_) => true,
            Prefix::VerbatimShare(_, _) => true,
            _ => false,
        }
    }

    fn is_drive(&self) -> (r: bool)
        ensures
            r == (self.view() is Drive),
    {
        match self {
            Prefix::Drive(_) => true,
            _ => false,
        }
    }

    fn width(&self, limit: usize) -> (r: usize)
        requires
            self.view().width() <= limit,
        ensures
            r == self.view().width(),
    {
        match self {
            Prefix::Drive(_) => 2,
            Prefix::Share(x, y) => chars_of(x.as_str()).len() + chars_of(y.as_str()).len() + 3,
            Prefix::Device(x) => chars_of(x.as_str()).len() + 4,
            Prefix::Verbatim(x) => chars_of(x.as_str()).len() + 4,
            Prefix::VerbatimDrive(_) => 6,
            Prefix::VerbatimShare(x, y) => {
                let n: usize = chars_of(y.as_str()).len();
                if n > 0 {
                    chars_of(x.as_str()).len() + n + 9
                } else {
                    chars_of(x.as_str()).len() + 8
                }
            },
        }
    }

    fn equals(&self, other: &Prefix) -> (r: bool)
        ensures
            r == (self.view() == other.view()),
    {
        match (self, other) {
            (Prefix::Drive(a), Prefix::Drive(b)) => *a == *b,
            (Prefix::Share(a, x), Prefix::Share(b, y)) => same(a.as_str(), b.as_str()) && same(
                x.as_str(),
                y.as_str(),
            ),
            (Prefix::Device(a), Prefix::Device(b)) => same(a.as_str(), b.as_str()),
            (Prefix::Verbatim(a), Prefix::Verbatim(b)) => same(a.as_str(), b.as_str()),
            (Prefix::VerbatimDrive(a), Prefix::VerbatimDrive(b)) => *a == *b,
            (Prefix::VerbatimShare(a, x), Prefix::VerbatimShare(b, y)) => same(
                a.as_str(),
                b.as_str(),
            ) && same(x.as_str(), y.as_str()),
            _ => false,
        }
    }
}

/// A component of a path.
pub enum Component {
    Prefix(Prefix),
    Root,
    Dot,
    Up,
    Name(String),
}

impl Component {
    /// The model of this component.
    pub open spec fn view(&self) -> PartV {
        match *self {
            Component::Prefix(p) => PartV::Prefix(p.view()),
            Component::Root => PartV::Root,
            Component::Dot => PartV::Dot,
            Component::Up => PartV::Up,
            Component::Name(n) => PartV::Name(n@),
        }
    }

    fn equals(&self, other: &Component) -> (r: bool)
        ensures
            r == (self.view() == other.view()),
    {
        match (self, other) {
            (Component::Prefix(a), Component::Prefix(b)) => a.equals(b),
            (Component::Root, Component::Root) => true,
            (Component::Dot, Component::Dot) => true,
            (Component::Up, Component::Up) => true,
            (Component::Name(a), Component::Name(b)) => same(a.as_str(), b.as_str()),
            _ => false,
        }
    }
}

/// The model of a list of components.
pub open spec fn part_views(s: Seq<Component>) -> Seq<PartV> {
    s.map_values(|c: Component| c.view())
}

fn with_slashes(path: &str, windows: bool) -> (r: String)
    ensures
        r@ == slashed(path@, windows),
{
    if !windows {
        return owned(path);
    }
    let v = chars_of(path);
    let mut out = String::new();
    let mut i: usize = 0;
    assert(out@ =~= slashed(path@, true).take(0));
    while i < v.len()
        invariant
            i <= v@.len(),
            v@ == path@,
            out@ == slashed(path@, true).take(i as int),
        decreases v@.len() - i,
    {
        let ghost all = slashed(path@, true);
        assert(all.take(i + 1) =~= all.take(i as int).push(all[i as int]));
        if v[i] == '\\' {
            out.push('/');
        } else {
            out.push(v[i]);
        }
        i += 1;
    }
    assert(slashed(path@, true).take(i as int) =~= slashed(path@, true));
    out
}

fn head_of(s: &str, c: char) -> (r: String)
    ensures
        r@ == head(s@, c),
{
    match split_once(s, c) {
        Some((a, _)) => a,
        None => owned(s),
    }
}

fn tail_of(s: &str, c: char) -> (r: String)
    ensures
        r@ == tail(s@, c),
{
    match split_once(s, c) {
        Some((_, b)) => b,
        None => {
            let empty = String::new();
            assert(empty@ =~= seq![]);
            empty
        },
    }
}

fn drive_of(v: &Vec<char>) -> (r: Option<char>)
    ensures
        r == (if on_drive(v@) {
            Some(ascii_lower(v@[0]))
        } else {
            None
        }),
{
    if v.len() < 2 || v[1] != ':' {
        return None;
    }
    let c = v[0];
    if 'a' <= c && c <= 'z' {
        Some(c)
    } else if 'A' <= c && c <= 'Z' {
        Some(((c as u8) + 32u8) as char)
    } else {
        None
    }
}

fn find_verbatim(rest: &str) -> (r: Prefix)
    ensures
        r.view() == verbatim_prefix(rest@),
{
    proof {
        reveal_strlit("UNC/");
    }
    let s = with_slashes(rest, true);
    let v = chars_of(rest);
    if starts_with(s.as_str(), "UNC/") {
        let at = text_of(v.as_slice(), 4, v.len());
        assert(at@ =~= rest@.skip(4));
        let server = head_of(at.as_str(), '\\');
        let share = head_of(tail_of(at.as_str(), '\\').as_str(), '\\');
        return Prefix::VerbatimShare(server, share);
    }
    match drive_of(&v) {
        Some(c) => if v.len() == 2 || v[2] == '/' || v[2] == '\\' {
            return Prefix::VerbatimDrive(c);
        },
        None => {},
    }
    Prefix::Verbatim(head_of(rest, '\\'))
}

fn find_prefix(path: &str, windows: bool) -> (r: Option<Prefix>)
    ensures
        match r {
            Some(p) => prefix_of(path@, windows) == Some(p.view()),
            None => prefix_of(path@, windows) is None,
        },
{
    if !windows {
        return None;
    }
    proof {
        reveal_strlit("\\\\?\\");
        reveal_strlit("//./");
        reveal_strlit("//");
    }
    if let Some(rest) = strip_prefix(path, "\\\\?\\") {
        return Some(find_verbatim(rest.as_str()));
    }
    let s = with_slashes(path, true);
    if let Some(rest) = strip_prefix(s.as_str(), "//./") {
        return Some(Prefix::Device(head_of(rest.as_str(), '/')));
    }
    if let Some(rest) = strip_prefix(s.as_str(), "//") {
        let server = head_of(rest.as_str(), '/');
        let share = head_of(tail_of(rest.as_str(), '/').as_str(), '/');
        if !server.as_str().is_empty() && !share.as_str().is_empty() {
            return Some(Prefix::Share(server, share));
        }
        return None;
    }
    let v = chars_of(path);
    match drive_of(&v) {
        Some(c) => Some(Prefix::Drive(c)),
        None => None,
    }
}

/// A path, taken apart.
struct Parted {
    prefix: Option<Prefix>,
    /// How long the prefix is.
    width: usize,
    /// What follows the prefix.
    body: String,
}

impl Parted {
    spec fn of(&self, path: Seq<char>, windows: bool) -> bool {
        &&& self.width == prefix_len(path, windows)
        &&& self.width <= path.len()
        &&& self.body@ == path.skip(prefix_len(path, windows))
        &&& self.prefix_view() == prefix_of(path, windows)
    }

    spec fn prefix_view(&self) -> Option<PrefixV> {
        match self.prefix {
            Some(p) => Some(p.view()),
            None => None,
        }
    }

    fn is_verbatim(&self) -> (r: bool)
        ensures
            r == (self.prefix_view() is Some && self.prefix_view()->0.verbatim()),
    {
        match &self.prefix {
            Some(p) => p.is_verbatim(),
            None => false,
        }
    }

    fn is_drive(&self) -> (r: bool)
        ensures
            r == (self.prefix_view() is Some && self.prefix_view()->0 is Drive),
    {
        match &self.prefix {
            Some(p) => p.is_drive(),
            None => false,
        }
    }

    fn is_root(&self) -> (r: bool)
        ensures
            r == is_root(self.prefix_view()),
    {
        self.prefix.is_some() && !self.is_drive()
    }
}

fn part(path: &str, windows: bool) -> (r: Parted)
    ensures
        r.of(path@, windows),
{
    let v = chars_of(path);
    proof {
        lemma_prefix_len(path@, windows);
    }
    let prefix = find_prefix(path, windows);
    let width: usize = match &prefix {
        Some(p) => p.width(v.len()),
        None => 0,
    };
    let body = text_of(v.as_slice(), width, v.len());
    assert(body@ =~= path@.skip(width as int));
    Parted { prefix, width, body }
}

fn starts_with_separator(s: &str, windows: bool) -> (r: bool)
    ensures
        r == starts_at_root(s@, windows),
{
    let v = chars_of(s);
    v.len() > 0 && (v[0] == '/' || (windows && v[0] == '\\'))
}

fn add_named(out: &mut Vec<Component>, parts: &Vec<String>, verbatim: bool)
    ensures
        part_views(final(out)@) == part_views(old(out)@) + named_parts(texts(parts@), verbatim),
{
    let ghost all = texts(parts@);
    let ghost start = part_views(out@);
    let mut i: usize = 0;
    assert(start + named_parts(all.take(0), verbatim) =~= start);
    while i < parts.len()
        invariant
            i <= parts@.len(),
            all == texts(parts@),
            part_views(out@) == start + named_parts(all.take(i as int), verbatim),
        decreases parts@.len() - i,
    {
        let ghost was = out@;
        let ghost before = named_parts(all.take(i as int), verbatim);
        assert(all.take(i + 1).drop_last() =~= all.take(i as int));
        assert(all.take(i + 1).last() == parts@[i as int]@);
        let p = parts[i].as_str();
        if p.is_empty() {
        } else if same(p, ".") {
            if verbatim {
                out.push(Component::Dot);
                assert(part_views(out@) =~= part_views(was).push(PartV::Dot));
                assert(part_views(out@) =~= start + before.push(PartV::Dot));
            }
        } else if same(p, "..") {
            out.push(Component::Up);
            assert(part_views(out@) =~= part_views(was).push(PartV::Up));
            assert(part_views(out@) =~= start + before.push(PartV::Up));
        } else {
            let c = Component::Name(owned(p));
            let ghost cv = c.view();
            out.push(c);
            assert(part_views(out@) =~= part_views(was).push(cv));
            assert(part_views(out@) =~= start + before.push(cv));
        }
        i += 1;
    }
    assert(all.take(i as int) =~= all);
}

/// The components of a path.
pub fn components_of(path: &str, windows: bool) -> (r: Vec<Component>)
    ensures
        part_views(r@) == components(path@, windows),
{
    let p = part(path, windows);
    let ghost prefix = p.prefix_view();
    let verbatim = p.is_verbatim();
    let implied = p.is_root() && !verbatim;
    let bare = p.prefix.is_none();
    let root = starts_with_separator(p.body.as_str(), windows);
    let v = chars_of(p.body.as_str());
    let rest = if root {
        text_of(v.as_slice(), 1, v.len())
    } else {
        p.body.clone()
    };
    assert(rest@ =~= if root {
        p.body@.skip(1)
    } else {
        p.body@
    });
    let parts = if verbatim {
        split(rest.as_str(), '\\')
    } else {
        split(with_slashes(rest.as_str(), windows).as_str(), '/')
    };
    assert(texts(parts@) == parts_of(rest@, verbatim, windows));
    assert(texts(parts@).len() == parts@.len());
    assert(texts(parts@)[0] == parts@[0]@);
    let mut out: Vec<Component> = Vec::new();
    assert(part_views(out@) =~= seq![]);
    if let Some(x) = p.prefix {
        let c = Component::Prefix(x);
        let ghost cv = c.view();
        out.push(c);
        assert(part_views(out@) =~= seq![cv]);
    }
    let ghost lead = part_views(out@);
    if root || implied {
        let ghost was = out@;
        out.push(Component::Root);
        assert(part_views(out@) =~= part_views(was).push(PartV::Root));
        assert(part_views(out@) =~= lead + seq![PartV::Root]);
    } else if bare && same(parts[0].as_str(), ".") {
        let ghost was = out@;
        out.push(Component::Dot);
        assert(part_views(out@) =~= part_views(was).push(PartV::Dot));
        assert(part_views(out@) =~= lead + seq![PartV::Dot]);
    } else {
        assert(part_views(out@) =~= lead + seq![]);
    }
    let ghost start = part_views(out@);
    add_named(&mut out, &parts, verbatim);
    assert(part_views(out@) =~= components(path@, windows));
    out
}

/// Whether two texts are the same path.
pub fn is_same_path(a: &str, b: &str, windows: bool) -> (r: bool)
    ensures
        r == same_path(a@, b@, windows),
{
    let x = components_of(a, windows);
    let y = components_of(b, windows);
    are_same(&x, &y)
}

/// Whether two lists hold the same components.
pub fn are_same(x: &Vec<Component>, y: &Vec<Component>) -> (r: bool)
    ensures
        r == (part_views(x@) == part_views(y@)),
{
    let ghost xs = part_views(x@);
    let ghost ys = part_views(y@);
    assert(xs.len() == x@.len() && ys.len() == y@.len());
    if x.len() != y.len() {
        return false;
    }
    let mut i: usize = 0;
    while i < x.len()
        invariant
            i <= x@.len(),
            x@.len() == y@.len(),
            xs == part_views(x@),
            ys == part_views(y@),
            forall|k: int| 0 <= k < i ==> #[trigger] xs[k] == ys[k],
        decreases x@.len() - i,
    {
        assert(xs[i as int] == x@[i as int].view());
        assert(ys[i as int] == y@[i as int].view());
        if !x[i].equals(&y[i]) {
            return false;
        }
        i += 1;
    }
    assert(xs =~= ys);
    true
}

/// Whether a list of paths has a path in it.
pub fn holds_path(v: &Vec<String>, path: &str, windows: bool) -> (r: bool)
    ensures
        r == has_path(texts(v@), path@, windows),
{
    let ghost all = texts(v@);
    let mut i: usize = 0;
    while i < v.len()
        invariant
            i <= v@.len(),
            all == texts(v@),
            forall|k: int| 0 <= k < i ==> !same_path(#[trigger] all[k], path@, windows),
        decreases v@.len() - i,
    {
        assert(all[i as int] == v@[i as int]@);
        if is_same_path(v[i].as_str(), path, windows) {
            return true;
        }
        i += 1;
    }
    false
}

/// Whether a path stands for the same file wherever it is read.
pub fn is_absolute(path: &str, windows: bool) -> (r: bool)
    ensures
        r == absolute(path@, windows),
{
    let p = part(path, windows);
    let root = p.is_root() || starts_with_separator(p.body.as_str(), windows);
    root && (!windows || p.prefix.is_some())
}

/// Whether a path has more than one component.
pub fn has_several_components(path: &str, windows: bool) -> (r: bool)
    ensures
        r == (component_count(path@, windows) > 1),
{
    let all = components_of(path, windows);
    assert(part_views(all@).len() == all@.len());
    all.len() > 1
}

/// The last component of a path, if it is a name.
pub fn file_name(path: &str, windows: bool) -> (r: Option<String>)
    ensures
        match r {
            Some(n) => last_name(path@, windows) == Some(n@),
            None => last_name(path@, windows) is None,
        },
{
    let all = components_of(path, windows);
    assert(part_views(all@).len() == all@.len());
    if all.len() == 0 {
        return None;
    }
    let last = &all[all.len() - 1];
    assert(part_views(all@).last() == last.view());
    match last {
        Component::Name(n) => Some(n.clone()),
        _ => None,
    }
}

/// Whether a name has a dot that does not start it.
pub open spec fn dotted(n: Seq<char>) -> bool {
    exists|i: int| 0 < i < n.len() && #[trigger] n[i] == '.'
}

/// Whether the last component of a path has an extension.
pub open spec fn extended(path: Seq<char>, windows: bool) -> bool {
    match last_name(path, windows) {
        Some(n) => dotted(n),
        None => false,
    }
}

/// Whether the last component of a path has an extension.
pub fn has_extension(path: &str, windows: bool) -> (r: bool)
    ensures
        r == extended(path@, windows),
{
    let name = match file_name(path, windows) {
        Some(n) => n,
        None => {
            return false;
        },
    };
    let v = chars_of(name.as_str());
    let mut i: usize = 1;
    while i < v.len()
        invariant
            1 <= i,
            v@ == name@,
            last_name(path@, windows) == Some(name@),
            forall|k: int| 0 < k < i && k < v@.len() ==> v@[k] != '.',
        decreases v@.len() - i,
    {
        if v[i] == '.' {
            assert(name@[i as int] == '.');
            assert(dotted(name@));
            return true;
        }
        i += 1;
    }
    false
}

// ---------------------------------------------------------------------------
// Joining
// ---------------------------------------------------------------------------
/// A path with a component added: a root takes everything behind the prefix away, dots
/// stay out, and `..` takes the last name away.
pub open spec fn with_part(all: Seq<PartV>, c: PartV) -> Seq<PartV> {
    match c {
        PartV::Root => all.take(1).push(PartV::Root),
        PartV::Dot => all,
        PartV::Up => if all.last() is Name {
            all.drop_last()
        } else {
            all
        },
        _ => all.push(c),
    }
}

/// A path with components added, one by one.
pub open spec fn with_parts(all: Seq<PartV>, more: Seq<PartV>) -> Seq<PartV>
    decreases more.len(),
{
    if more.len() == 0 {
        all
    } else {
        with_part(with_parts(all, more.drop_last()), more.last())
    }
}

/// The text of a component; `lead` is that of the prefix.
pub open spec fn part_text(c: PartV, lead: Seq<char>) -> Seq<char> {
    match c {
        PartV::Prefix(_) => lead,
        PartV::Root => "\\"@,
        PartV::Dot => "."@,
        PartV::Up => ".."@,
        PartV::Name(n) => n,
    }
}

/// The text of a Windows path from its components; `lead` is the text of its prefix.
pub open spec fn parts_text(all: Seq<PartV>, lead: Seq<char>) -> Seq<char>
    decreases all.len(),
{
    if all.len() == 0 {
        seq![]
    } else if all.len() == 1 || all[all.len() - 2] is Root || all.last() is Root {
        parts_text(all.drop_last(), lead) + part_text(all.last(), lead)
    } else {
        parts_text(all.drop_last(), lead) + "\\"@ + part_text(all.last(), lead)
    }
}

/// A path below a directory. A path with a prefix of its own replaces the directory, and
/// one that starts at a root replaces all of it but its prefix. Below a verbatim
/// directory the path is put together component by component.
#[verifier::opaque]
pub open spec fn below(dir: Seq<char>, name: Seq<char>, windows: bool) -> Seq<char> {
    let prefix = prefix_of(dir, windows);
    let width = prefix_len(dir, windows);
    if prefix_of(name, windows) is Some {
        name
    } else if prefix is Some && prefix->0.verbatim() && name.len() > 0 {
        parts_text(
            with_parts(components(dir, windows), components(name, windows)),
            dir.take(width),
        )
    } else if rooted(name, windows) {
        dir.take(width) + name
    } else if dir.len() == 0 || starts_at_root(seq![dir.last()], windows) || (prefix is Some
        && prefix->0 is Drive && dir.len() == 2) {
        dir + name
    } else if windows {
        dir + "\\"@ + name
    } else {
        dir + "/"@ + name
    }
}

proof fn lemma_prefix_stays(all: Seq<PartV>, more: Seq<PartV>)
    requires
        all.len() >= 1,
        all[0] is Prefix,
    ensures
        with_parts(all, more).len() >= 1,
        with_parts(all, more)[0] == all[0],
    decreases more.len(),
{
    if more.len() > 0 {
        lemma_prefix_stays(all, more.drop_last());
    }
}

fn add_parts(all: &mut Vec<Component>, more: &Vec<Component>)
    requires
        old(all)@.len() >= 1,
        part_views(old(all)@)[0] is Prefix,
    ensures
        part_views(final(all)@) == with_parts(part_views(old(all)@), part_views(more@)),
{
    let ghost start = part_views(all@);
    let ghost ms = part_views(more@);
    let mut i: usize = 0;
    while i < more.len()
        invariant
            i <= more@.len(),
            ms == part_views(more@),
            start.len() >= 1,
            start[0] is Prefix,
            part_views(all@) == with_parts(start, ms.take(i as int)),
        decreases more@.len() - i,
    {
        let ghost was = all@;
        proof {
            assert(ms.take(i + 1).drop_last() =~= ms.take(i as int));
            assert(ms.take(i + 1).last() == more@[i as int].view());
            lemma_prefix_stays(start, ms.take(i as int));
            assert(part_views(was).len() == was.len());
        }
        match &more[i] {
            Component::Root => {
                all.truncate(1);
                all.push(Component::Root);
                assert(part_views(all@) =~= part_views(was).take(1).push(PartV::Root));
            },
            Component::Dot => {},
            Component::Up => {
                let last = &all[all.len() - 1];
                assert(part_views(was).last() == last.view());
                let is_name = match last {
                    Component::Name(_) => true,
                    _ => false,
                };
                if is_name {
                    all.pop();
                    assert(part_views(all@) =~= part_views(was).drop_last());
                }
            },
            Component::Name(n) => {
                let c = Component::Name(n.clone());
                let ghost cv = c.view();
                all.push(c);
                assert(part_views(all@) =~= part_views(was).push(cv));
            },
            Component::Prefix(p) => {
                let c = Component::Prefix(p.copy());
                let ghost cv = c.view();
                all.push(c);
                assert(part_views(all@) =~= part_views(was).push(cv));
            },
        }
        i += 1;
    }
    assert(ms.take(i as int) =~= ms);
}

fn write_part(c: &Component, lead: &str) -> (r: String)
    ensures
        r@ == part_text(c.view(), lead@),
{
    match c {
        Component::Prefix(_) => owned(lead),
        Component::Root => owned("\\"),
        Component::Dot => owned("."),
        Component::Up => owned(".."),
        Component::Name(n) => n.clone(),
    }
}

fn is_root_part(c: &Component) -> (r: bool)
    ensures
        r == (c.view() is Root),
{
    match c {
        Component::Root => true,
        _ => false,
    }
}

fn write_parts(all: &Vec<Component>, lead: &str) -> (r: String)
    ensures
        r@ == parts_text(part_views(all@), lead@),
{
    let ghost views = part_views(all@);
    let mut out = String::new();
    let mut i: usize = 0;
    assert(out@ =~= parts_text(views.take(0), lead@));
    while i < all.len()
        invariant
            i <= all@.len(),
            views == part_views(all@),
            out@ == parts_text(views.take(i as int), lead@),
        decreases all@.len() - i,
    {
        assert(views.take(i + 1).drop_last() =~= views.take(i as int));
        assert(views.take(i + 1).last() == all@[i as int].view());
        if i > 0 {
            assert(views.take(i + 1)[i - 1] == all@[i - 1].view());
            if !is_root_part(&all[i - 1]) && !is_root_part(&all[i]) {
                out.append("\\");
            }
        }
        out.append(write_part(&all[i], lead).as_str());
        i += 1;
    }
    assert(views.take(i as int) =~= views);
    out
}

impl Prefix {
    fn copy(&self) -> (r: Prefix)
        ensures
            r.view() == self.view(),
    {
        match self {
            Prefix::Drive(c) => Prefix::Drive(*c),
            Prefix::Share(x, y) => Prefix::Share(x.clone(), y.clone()),
            Prefix::Device(x) => Prefix::Device(x.clone()),
            Prefix::Verbatim(x) => Prefix::Verbatim(x.clone()),
            Prefix::VerbatimDrive(c) => Prefix::VerbatimDrive(*c),
            Prefix::VerbatimShare(x, y) => Prefix::VerbatimShare(x.clone(), y.clone()),
        }
    }
}

/// A path below a directory.
pub fn join_path(dir: &str, name: &str, windows: bool) -> (r: String)
    ensures
        r@ == below(dir@, name@, windows),
{
    proof {
        reveal(below);
    }
    let n = part(name, windows);
    if n.prefix.is_some() {
        return owned(name);
    }
    let d = part(dir, windows);
    let v = chars_of(dir);
    let lead = text_of(v.as_slice(), 0, d.width);
    assert(lead@ =~= dir@.take(d.width as int));
    if d.is_verbatim() && !name.is_empty() {
        let mut all = components_of(dir, windows);
        let more = components_of(name, windows);
        assert(part_views(all@).len() == all@.len());
        add_parts(&mut all, &more);
        return write_parts(&all, lead.as_str());
    }
    if n.is_root() || starts_with_separator(n.body.as_str(), windows) {
        return join2(lead.as_str(), name);
    }
    if v.len() == 0 {
        return join2(dir, name);
    }
    let last = v[v.len() - 1];
    if last == '/' || (windows && last == '\\') || (d.is_drive() && v.len() == 2) {
        join2(dir, name)
    } else if windows {
        join3(dir, "\\", name)
    } else {
        join3(dir, "/", name)
    }
}

/// A program that is given by its place: a path that stands for itself, or one of more
/// than one component.
pub open spec fn placed(program: Seq<char>, windows: bool) -> bool {
    absolute(program, windows) || component_count(program, windows) > 1
}

/// Whether a program is given by its place.
pub fn is_placed(program: &str, windows: bool) -> (r: bool)
    ensures
        r == placed(program@, windows),
{
    is_absolute(program, windows) || has_several_components(program, windows)
}

// ---------------------------------------------------------------------------
// Laws
// ---------------------------------------------------------------------------
proof fn lemma_split_at(x: Seq<char>, y: Seq<char>)
    ensures
        split_all(x + "/"@ + y, '/') == split_all(x, '/') + split_all(y, '/'),
        split_all(x, '/').len() > 0,
    decreases x.len(),
{
    reveal_strlit("/");
    let all = x + "/"@ + y;
    lemma_index_or_end(all, '/');
    lemma_index_or_end(x, '/');
    let k = index_or_end(all, '/');
    let j = index_or_end(x, '/');
    assert(all[x.len() as int] == '/');
    assert forall|i: int| 0 <= i < x.len() implies all[i] == x[i] by {}
    if j < x.len() {
        assert(all[j] == '/');
        if k < j {
            assert(x[k] == '/');
        }
        assert(k == j);
        assert(all.take(k) =~= x.take(k));
        assert(all.skip(k + 1) =~= x.skip(k + 1) + "/"@ + y);
        lemma_split_at(x.skip(k + 1), y);
        assert(split_all(all, '/') =~= split_all(x, '/') + split_all(y, '/'));
    } else {
        if k < x.len() {
            assert(x[k] == '/');
        }
        assert(k == x.len());
        assert(all.take(k) =~= x);
        assert(all.skip(k + 1) =~= y);
        assert(split_all(all, '/') =~= split_all(x, '/') + split_all(y, '/'));
    }
}

/// The parts of two lists of texts are those of the first and then those of the second.
pub proof fn lemma_named_parts(p: Seq<Seq<char>>, q: Seq<Seq<char>>, verbatim: bool)
    ensures
        named_parts(p + q, verbatim) == named_parts(p, verbatim) + named_parts(q, verbatim),
    decreases q.len(),
{
    if q.len() == 0 {
        assert(p + q =~= p);
    } else {
        assert((p + q).drop_last() =~= p + q.drop_last());
        assert((p + q).last() == q.last());
        lemma_named_parts(p, q.drop_last(), verbatim);
    }
    assert(named_parts(p + q, verbatim) =~= named_parts(p, verbatim) + named_parts(q, verbatim));
}

proof fn lemma_empty_split()
    ensures
        split_all(seq![], '/') == seq![Seq::<char>::empty()],
        named_parts(split_all(seq![], '/'), false) == Seq::<PartV>::empty(),
{
    let none: Seq<Seq<char>> = seq![Seq::<char>::empty()];
    assert(split_all(seq![], '/') =~= none);
    assert(none.drop_last() =~= seq![]);
    assert(named_parts(none.drop_last(), false) =~= seq![]);
}

/// A doubled separator does not make another path.
pub proof fn law_doubled_separators_do_not_count(a: Seq<char>, b: Seq<char>)
    requires
        a.len() > 0,
    ensures
        same_path(a + "//"@ + b, a + "/"@ + b, false),
{
    reveal_strlit("/");
    reveal_strlit("//");
    let two = a + "//"@ + b;
    let one = a + "/"@ + b;
    assert(two[0] == a[0] && one[0] == a[0]);
    let x = if starts_at_root(a, false) {
        a.skip(1)
    } else {
        a
    };
    let y: Seq<char> = seq![] + "/"@ + b;
    assert(two.skip(0) =~= two && one.skip(0) =~= one);
    if starts_at_root(a, false) {
        assert(two.skip(1) =~= x + "/"@ + y);
        assert(one.skip(1) =~= x + "/"@ + b);
    } else {
        assert(two =~= x + "/"@ + y);
    }
    lemma_split_at(x, y);
    lemma_split_at(seq![], b);
    lemma_split_at(x, b);
    lemma_empty_split();
    lemma_named_parts(split_all(x, '/'), split_all(y, '/'), false);
    lemma_named_parts(split_all(seq![], '/'), split_all(b, '/'), false);
    lemma_named_parts(split_all(x, '/'), split_all(b, '/'), false);
    assert(components(two, false) =~= components(one, false));
}

/// A separator at the end does not make another path.
pub proof fn law_last_separator_does_not_count(a: Seq<char>)
    requires
        a.len() > 0,
    ensures
        same_path(a + "/"@, a, false),
{
    reveal_strlit("/");
    let longer = a + "/"@;
    assert(longer[0] == a[0]);
    let x = if starts_at_root(a, false) {
        a.skip(1)
    } else {
        a
    };
    let none: Seq<char> = seq![];
    assert(longer.skip(0) =~= longer && a.skip(0) =~= a);
    if starts_at_root(a, false) {
        assert(longer.skip(1) =~= x + "/"@ + none);
    } else {
        assert(longer =~= x + "/"@ + none);
    }
    lemma_split_at(x, none);
    lemma_empty_split();
    lemma_named_parts(split_all(x, '/'), split_all(none, '/'), false);
    assert(components(longer, false) =~= components(a, false));
}

} // verus!
