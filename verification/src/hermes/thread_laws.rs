//! Laws of threads: which of them are listed, and what they keep.

use vstd::prelude::*;

use super::index::{BindingV, after_turn};
use super::threads::{
    HandledV, MODEL_PROVIDER, attached, forked, id_params, list_reply, listed, new_binding,
    settled, thread_of, thread_started,
};
use crate::codex::thread::{ThreadV, thread_model};
use crate::json::JsonV;
use crate::rpc::{INTERNAL_ERROR, ReplyV};
use crate::text::{
    all_ascii, ascii_lowered, begins, ends, has_text, lowered, stands_at, tag,
};

verus! {

// ---------------------------------------------------------------------------
// Lists
// ---------------------------------------------------------------------------
/// Whether a text occurs in the preview or in the name of a thread, whatever the case of
/// the letters; nothing occurs everywhere.
pub open spec fn found_by(b: BindingV, term: Seq<char>) -> bool {
    ||| lowered(term).len() == 0
    ||| b.preview matches Some(p) && has_text(lowered(p), lowered(term))
    ||| b.name matches Some(n) && has_text(lowered(n), lowered(term))
}

/// A list of archived threads holds a thread exactly if it is archived, and any other list
/// exactly if it is not; where something is searched for, only threads that have it in
/// their preview or their name.
pub proof fn law_lists_hold_what_is_asked_for(b: BindingV, term: Seq<char>)
    ensures
        listed(b, Some(true), None) <==> b.archived,
        listed(b, Some(false), None) <==> !b.archived,
        listed(b, None, None) <==> !b.archived,
        listed(b, Some(true), Some(term)) <==> b.archived && found_by(b, term),
        listed(b, Some(false), Some(term)) <==> !b.archived && found_by(b, term),
        listed(b, None, Some(term)) <==> !b.archived && found_by(b, term),
{
    let needle = lowered(term);
    let none = lowered(Seq::<char>::empty());
    assert(all_ascii(Seq::<char>::empty()));
    assert(none =~= Seq::<char>::empty());
    if term.len() == 0 {
        assert(term =~= Seq::<char>::empty());
    }
    if needle.len() == 0 {
        let shown = match b.preview {
            Some(p) => lowered(p),
            None => none,
        };
        assert(shown.subrange(0, 0) =~= needle);
        assert(stands_at(shown, needle, 0));
    } else if has_text(none, needle) {
        let i = choose|i: int| #[trigger] stands_at(none, needle, i);
        assert(false);
    }
}

/// An empty search is no search.
pub proof fn law_empty_search_finds_all(b: BindingV, archived: Option<bool>)
    ensures
        listed(b, archived, Some(Seq::empty())) <==> listed(b, archived, None),
{
}

/// A thread whose preview or name holds the words that are searched for, in any case of
/// their letters, is found.
pub proof fn law_search_finds_words(
    b: BindingV,
    head: Seq<char>,
    word: Seq<char>,
    tail: Seq<char>,
    term: Seq<char>,
    archived: Option<bool>,
)
    requires
        all_ascii(head + word + tail),
        all_ascii(term),
        ascii_lowered(word) == ascii_lowered(term),
        b.preview == Some(head + word + tail) || b.name == Some(head + word + tail),
        listed(b, archived, None),
    ensures
        listed(b, archived, Some(term)),
{
    let text = head + word + tail;
    let low = ascii_lowered(text);
    let needle = ascii_lowered(term);
    assert(low.subrange(head.len() as int, (head.len() + needle.len()) as int) =~= needle) by {
        assert(ascii_lowered(word).len() == word.len());
        assert forall|i: int| 0 <= i < needle.len() implies low[head.len() + i] == needle[i] by {
            assert(text[head.len() + i] == word[i]);
            assert(needle[i] == ascii_lowered(word)[i]);
        }
    }
    assert(stands_at(low, needle, head.len() as int));
}

/// Whoever asks for the archived threads and for the others sees every thread once.
pub proof fn law_every_thread_is_on_one_list(b: BindingV)
    ensures
        listed(b, Some(true), None) != listed(b, Some(false), None),
        listed(b, None, None) == listed(b, Some(false), None),
{
}

proof fn lemma_list_keys()
    ensures
        tag("data"@) == (4nat, 'd', 'a'),
        tag("nextCursor"@) == (10nat, 'n', 'e'),
        tag("backwardsCursor"@) == (15nat, 'b', 'a'),
{
    reveal_strlit("data");
    reveal_strlit("nextCursor");
    reveal_strlit("backwardsCursor");
}

/// The threads on a page.
pub open spec fn page(
    all: Seq<BindingV>,
    archived: Option<bool>,
    term: Option<Seq<char>>,
    now: i64,
    cwd: Seq<char>,
    version: Seq<char>,
) -> Seq<JsonV> {
    list_reply(all, archived, term, now, cwd, version).get("data"@)->Some_0->Arr_0
}

/// A list is one page of threads, and nothing comes before or after it.
pub proof fn law_a_list_is_one_page(
    all: Seq<BindingV>,
    archived: Option<bool>,
    term: Option<Seq<char>>,
    now: i64,
    cwd: Seq<char>,
    version: Seq<char>,
)
    ensures
        ({
            let r = list_reply(all, archived, term, now, cwd, version);
            &&& r.get("data"@) == Some(JsonV::Arr(page(all, archived, term, now, cwd, version)))
            &&& r.get("nextCursor"@) == Some(JsonV::Null)
            &&& r.get("backwardsCursor"@) == Some(JsonV::Null)
        }),
{
    lemma_list_keys();
}

/// A page shows the threads of the first part of the index and then those of the second.
pub proof fn law_lists_keep_their_order(
    a: Seq<BindingV>,
    b: Seq<BindingV>,
    archived: Option<bool>,
    term: Option<Seq<char>>,
    now: i64,
    cwd: Seq<char>,
    version: Seq<char>,
)
    ensures
        page(a + b, archived, term, now, cwd, version) == page(
            a,
            archived,
            term,
            now,
            cwd,
            version,
        ) + page(b, archived, term, now, cwd, version),
{
    lemma_list_keys();
    let keep = |x: BindingV| listed(x, archived, term);
    let show = |x: BindingV| thread_model(thread_of(x, now, cwd, version, seq![]));
    Seq::filter_distributes_over_add(a, b, keep);
    assert((a.filter(keep) + b.filter(keep)).map_values(show) =~= a.filter(keep).map_values(show)
        + b.filter(keep).map_values(show));
    assert(page(a + b, archived, term, now, cwd, version) == (a + b).filter(keep).map_values(
        show,
    ));
    assert(page(a, archived, term, now, cwd, version) == a.filter(keep).map_values(show));
    assert(page(b, archived, term, now, cwd, version) == b.filter(keep).map_values(show));
}

/// A thread by itself: without a search it is on the page of archived threads exactly if
/// it is archived, and on any other page exactly if it is not; it is shown without turns.
pub proof fn law_one_thread_is_listed(
    b: BindingV,
    archived: Option<bool>,
    now: i64,
    cwd: Seq<char>,
    version: Seq<char>,
)
    ensures
        b.archived == (archived == Some(true)) ==> page(
            seq![b],
            archived,
            None,
            now,
            cwd,
            version,
        ) == seq![thread_model(thread_of(b, now, cwd, version, Seq::empty()))],
        b.archived != (archived == Some(true)) ==> page(
            seq![b],
            archived,
            None,
            now,
            cwd,
            version,
        ) == Seq::<JsonV>::empty(),
{
    lemma_list_keys();
    let keep = |x: BindingV| listed(x, archived, None);
    let show = |x: BindingV| thread_model(thread_of(x, now, cwd, version, seq![]));
    let s = seq![b];
    reveal(Seq::filter);
    assert(s.drop_last() =~= Seq::empty());
    assert(s.last() == b);
    assert(s.drop_last().filter(keep) =~= Seq::empty());
    assert(page(s, archived, None, now, cwd, version) == s.filter(keep).map_values(show));
    if b.archived == (archived == Some(true)) {
        assert(s.filter(keep) =~= seq![b]);
        assert(s.filter(keep).map_values(show) =~= seq![show(b)]);
    } else {
        assert(s.filter(keep) =~= Seq::empty());
        assert(s.filter(keep).map_values(show) =~= Seq::empty());
    }
}

/// Archiving a thread takes it off the usual list and puts it on the list of archived
/// threads, and taking it out of the archive does the reverse.
pub proof fn law_archiving_moves_a_thread(b: BindingV, now: i64)
    ensures
        ({
            let gone = BindingV { archived: true, updated_at: now, ..b };
            let back = BindingV { archived: false, updated_at: now, ..b };
            &&& !listed(gone, None, None) && !listed(gone, Some(false), None)
            &&& listed(gone, Some(true), None)
            &&& listed(back, None, None) && listed(back, Some(false), None)
            &&& !listed(back, Some(true), None)
        }),
{
}

// ---------------------------------------------------------------------------
// What a thread shows
// ---------------------------------------------------------------------------
/// A thread is shown under its own id, with its session, its name, its origin and its own
/// directory; the directory of the bridge stands in only where it has none. A thread that
/// was never changed shows the present time.
pub proof fn law_threads_show_what_they_keep(
    b: BindingV,
    now: i64,
    cwd: Seq<char>,
    version: Seq<char>,
    turns: Seq<JsonV>,
)
    ensures
        ({
            let t = thread_of(b, now, cwd, version, turns);
            &&& t.id == b.thread_id
            &&& t.session_id == b.hermes_session_id
            &&& t.forked_from_id == b.forked_from_id
            &&& t.name == b.name
            &&& t.created_at == b.created_at
            &&& b.updated_at != 0 ==> t.updated_at == b.updated_at
            &&& b.updated_at == 0 ==> t.updated_at == now
            &&& b.cwd matches Some(c) ==> t.cwd == c
            &&& b.cwd is None ==> t.cwd == cwd
            &&& b.preview matches Some(p) ==> t.preview == p
            &&& b.preview is None ==> t.preview.len() == 0
            &&& t.turns == turns
            &&& t.cli_version == version
        }),
{
}

/// A thread that is started is not archived, comes from no other, and is as old as now.
pub proof fn law_new_threads_are_fresh(
    id: Seq<char>,
    session: Seq<char>,
    model: Option<Seq<char>>,
    cwd: Seq<char>,
    now: i64,
)
    ensures
        ({
            let b = new_binding(id, session, model, cwd, now);
            &&& listed(b, None, None)
            &&& b.thread_id == id
            &&& b.hermes_session_id == session
            &&& b.model == model
            &&& b.cwd == Some(cwd)
            &&& b.created_at == now && b.updated_at == now
            &&& b.forked_from_id is None && b.name is None && b.preview is None
        }),
{
}

/// A fork goes on with the session of its parent under an id of its own, and says where
/// it comes from. It has what it was given, and else what its parent had; it is not
/// archived even if its parent is, and a name that its parent has is marked.
pub proof fn law_forks_go_on(
    parent: BindingV,
    id: Seq<char>,
    model: Option<Seq<char>>,
    cwd: Option<Seq<char>>,
    now: i64,
)
    ensures
        ({
            let b = forked(parent, id, model, cwd, now);
            &&& b.thread_id == id
            &&& b.hermes_session_id == parent.hermes_session_id
            &&& b.forked_from_id == Some(parent.thread_id)
            &&& listed(b, None, None)
            &&& model is Some ==> b.model == model
            &&& model is None ==> b.model == parent.model
            &&& cwd is Some ==> b.cwd == cwd
            &&& cwd is None ==> b.cwd == parent.cwd
            &&& b.preview == parent.preview
            &&& b.created_at == now && b.updated_at == now
            &&& parent.name is None ==> b.name is None
            &&& parent.name matches Some(n) ==> b.name is Some && begins(b.name->Some_0, n)
                && ends(b.name->Some_0, " (fork)"@)
        }),
{
    if parent.name is Some {
        let n = parent.name->Some_0;
        let mark = " (fork)"@;
        assert((n + mark).take(n.len() as int) =~= n);
        assert((n + mark).skip(n.len() as int) =~= mark);
    }
}

/// What a turn gives is kept, and what it does not give stays; a turn never renames a
/// thread, moves it to the archive or out of it, or changes where it comes from.
pub proof fn law_turns_change_little(
    b: BindingV,
    session: Option<Seq<char>>,
    model: Option<Seq<char>>,
    preview: Option<Seq<char>>,
    cwd: Option<Seq<char>>,
    now: i64,
)
    ensures
        ({
            let a = after_turn(b, session, model, preview, cwd, now);
            &&& session matches Some(s) ==> a.hermes_session_id == s
            &&& session is None ==> a.hermes_session_id == b.hermes_session_id
            &&& model is Some ==> a.model == model
            &&& model is None ==> a.model == b.model
            &&& preview is Some ==> a.preview == preview
            &&& preview is None ==> a.preview == b.preview
            &&& cwd is Some ==> a.cwd == cwd
            &&& cwd is None ==> a.cwd == b.cwd
            &&& a.updated_at == now
            &&& a.created_at == b.created_at
            &&& a.thread_id == b.thread_id
            &&& a.name == b.name
            &&& a.archived == b.archived
            &&& a.forked_from_id == b.forked_from_id
        }),
{
}

// ---------------------------------------------------------------------------
// Answers
// ---------------------------------------------------------------------------
/// A client that attaches runs with the model that it asks for, and without one with the
/// bridge's own, in the directory of the thread.
pub proof fn law_attached_to_its_thread(t: ThreadV, model: Option<Seq<char>>)
    ensures
        attached(t, model).get("thread"@) == Some(thread_model(t)),
        attached(t, model).get("cwd"@) == Some(JsonV::Str(t.cwd)),
        model matches Some(m) ==> attached(t, model).get("model"@) == Some(JsonV::Str(m)),
        model is None ==> attached(t, model).get("model"@) == Some(JsonV::Str(MODEL_PROVIDER@)),
        thread_started(t).method == "thread/started"@,
        thread_started(t).params.get("thread"@) == Some(thread_model(t)),
{
    crate::codex::wire_laws::law_attachment_is_shown(
        thread_model(t),
        match model {
            Some(m) => m,
            None => MODEL_PROVIDER@,
        },
        MODEL_PROVIDER@,
        t.cwd,
        crate::codex::policy::ApprovalV::Never,
        JsonV::Str("user"@),
        crate::codex::policy::SandboxMode::DangerFullAccess,
        JsonV::Null,
        "medium"@,
    );
}

/// Nobody is told of what could not be stored: the request is refused with the reason. A
/// request that has nothing to store goes through.
pub proof fn law_nothing_unstored_is_told(h: HandledV, why: Seq<char>)
    ensures
        h.persist ==> settled(h, Some(why)).notify.len() == 0,
        h.persist ==> (settled(h, Some(why)).reply matches ReplyV::Refused(code, message) && code
            == INTERNAL_ERROR && ends(message, why)),
        !h.persist ==> settled(h, Some(why)) == h,
        settled(h, None) == h,
{
    let lead = "persist thread index: "@;
    assert((lead + why).skip(lead.len() as int) =~= why);
}

/// A notification that only names a thread names it.
pub proof fn law_named_by_id(id: Seq<char>)
    ensures
        id_params(id).get("threadId"@) == Some(JsonV::Str(id)),
{
}

} // verus!
