//! Which Hermes session stands behind each thread.

use vstd::prelude::*;

use crate::text::{opt_copy, opt_text};
use crate::text_map::TextMap;

verus! {

/// A thread and the session behind it.
#[derive(Debug, PartialEq)]
pub struct HermesBinding {
    pub thread_id: String,
    pub hermes_session_id: String,
    pub model: Option<String>,
    pub created_at: i64,
    pub updated_at: i64,
    pub preview: Option<String>,
    pub cwd: Option<String>,
    pub name: Option<String>,
    pub forked_from_id: Option<String>,
    pub archived: bool,
}

/// The model of a binding.
#[verifier::ext_equal]
pub struct BindingV {
    pub thread_id: Seq<char>,
    pub hermes_session_id: Seq<char>,
    pub model: Option<Seq<char>>,
    pub created_at: i64,
    pub updated_at: i64,
    pub preview: Option<Seq<char>>,
    pub cwd: Option<Seq<char>>,
    pub name: Option<Seq<char>>,
    pub forked_from_id: Option<Seq<char>>,
    pub archived: bool,
}

impl HermesBinding {
    /// The model of this binding.
    pub open spec fn view(&self) -> BindingV {
        BindingV {
            thread_id: self.thread_id@,
            hermes_session_id: self.hermes_session_id@,
            model: opt_text(self.model),
            created_at: self.created_at,
            updated_at: self.updated_at,
            preview: opt_text(self.preview),
            cwd: opt_text(self.cwd),
            name: opt_text(self.name),
            forked_from_id: opt_text(self.forked_from_id),
            archived: self.archived,
        }
    }

    /// A copy of this binding.
    pub fn copy(&self) -> (r: HermesBinding)
        ensures
            r == *self,
    {
        HermesBinding {
            thread_id: self.thread_id.clone(),
            hermes_session_id: self.hermes_session_id.clone(),
            model: opt_copy(&self.model),
            created_at: self.created_at,
            updated_at: self.updated_at,
            preview: opt_copy(&self.preview),
            cwd: opt_copy(&self.cwd),
            name: opt_copy(&self.name),
            forked_from_id: opt_copy(&self.forked_from_id),
            archived: self.archived,
        }
    }
}

/// `new` where it is there, else `old_value`.
pub open spec fn or_else(new: Option<Seq<char>>, old_value: Option<Seq<char>>) -> Option<Seq<char>> {
    match new {
        Some(x) => Some(x),
        None => old_value,
    }
}

/// The binding after a turn: what the turn gave replaces what was there.
pub open spec fn after_turn(
    b: BindingV,
    session: Option<Seq<char>>,
    model: Option<Seq<char>>,
    preview: Option<Seq<char>>,
    cwd: Option<Seq<char>>,
    now: i64,
) -> BindingV {
    BindingV {
        hermes_session_id: match session {
            Some(s) => s,
            None => b.hermes_session_id,
        },
        model: or_else(model, b.model),
        preview: or_else(preview, b.preview),
        cwd: or_else(cwd, b.cwd),
        updated_at: now,
        ..b
    }
}

/// The bindings of all threads.
pub struct ThreadIndex {
    bindings: TextMap<HermesBinding>,
}

impl ThreadIndex {
    /// The binding of each thread.
    pub closed spec fn view(&self) -> Map<Seq<char>, BindingV> {
        self.bindings@.map_values(|b: HermesBinding| b.view())
    }

    /// The threads in the order in which they came in.
    pub closed spec fn order(&self) -> Seq<Seq<char>> {
        self.bindings.keys()
    }

    /// An index without threads.
    pub fn new_in_memory() -> (r: ThreadIndex)
        ensures
            r.view() == Map::<Seq<char>, BindingV>::empty(),
            r.order() == Seq::<Seq<char>>::empty(),
    {
        let r = ThreadIndex { bindings: TextMap::new() };
        assert(r.view() =~= Map::empty());
        r
    }

    /// Inserts a binding, or replaces that of its thread.
    pub fn upsert(&mut self, binding: HermesBinding)
        ensures
            final(self).view() == old(self).view().insert(binding.thread_id@, binding.view()),
            final(self).order() == (if old(self).view().dom().contains(binding.thread_id@) {
                old(self).order()
            } else {
                old(self).order().push(binding.thread_id@)
            }),
    {
        let id = binding.thread_id.clone();
        self.bindings.insert(id.as_str(), binding);
        assert(self.view() =~= old(self).view().insert(id@, binding.view()));
    }

    /// The binding of a thread.
    pub fn get_by_thread(&self, thread_id: &str) -> (r: Option<HermesBinding>)
        ensures
            match r {
                Some(b) => self.view().dom().contains(thread_id@) && b.view()
                    == self.view()[thread_id@],
                None => !self.view().dom().contains(thread_id@),
            },
    {
        match self.bindings.get(thread_id) {
            Some(b) => Some(b.copy()),
            None => None,
        }
    }

    fn replace(&mut self, thread_id: &str, binding: HermesBinding)
        ensures
            final(self).view() == old(self).view().insert(thread_id@, binding.view()),
            old(self).view().dom().contains(thread_id@) ==> final(self).order()
                == old(self).order(),
    {
        self.bindings.insert(thread_id, binding);
        assert(self.view() =~= old(self).view().insert(thread_id@, binding.view()));
    }

    /// Archives a thread or takes it out of the archive, and hands its binding
    /// out.
    pub fn set_archived(&mut self, thread_id: &str, archived: bool, now: i64) -> (r: Option<
        HermesBinding,
    >)
        ensures
            match r {
                Some(b) => {
                    &&& old(self).view().dom().contains(thread_id@)
                    &&& b.view() == (BindingV {
                        archived,
                        updated_at: now,
                        ..old(self).view()[thread_id@]
                    })
                    &&& final(self).view() == old(self).view().insert(thread_id@, b.view())
                },
                None => !old(self).view().dom().contains(thread_id@) && final(self).view()
                    == old(self).view(),
            },
            final(self).order() == old(self).order(),
    {
        match self.get_by_thread(thread_id) {
            Some(mut b) => {
                b.archived = archived;
                b.updated_at = now;
                let out = b.copy();
                self.replace(thread_id, b);
                Some(out)
            },
            None => None,
        }
    }

    /// Names a thread, and hands its binding out.
    pub fn set_name(&mut self, thread_id: &str, name: Option<String>, now: i64) -> (r: Option<
        HermesBinding,
    >)
        ensures
            match r {
                Some(b) => {
                    &&& old(self).view().dom().contains(thread_id@)
                    &&& b.view() == (BindingV {
                        name: opt_text(name),
                        updated_at: now,
                        ..old(self).view()[thread_id@]
                    })
                    &&& final(self).view() == old(self).view().insert(thread_id@, b.view())
                },
                None => !old(self).view().dom().contains(thread_id@) && final(self).view()
                    == old(self).view(),
            },
            final(self).order() == old(self).order(),
    {
        match self.get_by_thread(thread_id) {
            Some(mut b) => {
                b.name = name;
                b.updated_at = now;
                let out = b.copy();
                self.replace(thread_id, b);
                Some(out)
            },
            None => None,
        }
    }

    /// Takes over what a turn gave.
    pub fn update_after_turn(
        &mut self,
        thread_id: &str,
        session: Option<String>,
        model: Option<String>,
        preview: Option<String>,
        cwd: Option<String>,
        now: i64,
    )
        ensures
            final(self).view() == (if old(self).view().dom().contains(thread_id@) {
                old(self).view().insert(
                    thread_id@,
                    after_turn(
                        old(self).view()[thread_id@],
                        opt_text(session),
                        opt_text(model),
                        opt_text(preview),
                        opt_text(cwd),
                        now,
                    ),
                )
            } else {
                old(self).view()
            }),
            final(self).order() == old(self).order(),
    {
        match self.get_by_thread(thread_id) {
            Some(mut b) => {
                if let Some(s) = session {
                    b.hermes_session_id = s;
                }
                if model.is_some() {
                    b.model = model;
                }
                if preview.is_some() {
                    b.preview = preview;
                }
                if cwd.is_some() {
                    b.cwd = cwd;
                }
                b.updated_at = now;
                self.replace(thread_id, b);
            },
            None => {},
        }
    }

    /// All bindings, in the order in which their threads came in.
    pub fn all(&self) -> (r: Vec<HermesBinding>)
        ensures
            r@.len() == self.order().len(),
            forall|i: int|
                0 <= i < r@.len() ==> self.view().dom().contains(self.order()[i]) && (
                #[trigger] r@[i]).view() == self.view()[self.order()[i]],
    {
        let n: usize = self.bindings.len();
        let mut out: Vec<HermesBinding> = Vec::new();
        let mut i: usize = 0;
        while i < n
            invariant
                i <= n,
                n == self.bindings.size(),
                self.bindings.enumerates(),
                out@.len() == i,
                forall|j: int|
                    0 <= j < i ==> self.view().dom().contains(self.order()[j]) && (
                    #[trigger] out@[j]).view() == self.view()[self.order()[j]],
            decreases n - i,
        {
            let (key, b) = self.bindings.entry(i);
            assert(self.order()[i as int] == self.bindings.key_at(i as int));
            out.push(b.copy());
            i += 1;
        }
        out
    }

    /// The ids of all threads, in the order in which they came in.
    pub fn thread_ids(&self) -> (r: Vec<String>)
        ensures
            crate::text::texts(r@) == self.order(),
    {
        let n: usize = self.bindings.len();
        let mut out: Vec<String> = Vec::new();
        let mut i: usize = 0;
        while i < n
            invariant
                i <= n,
                n == self.bindings.size(),
                self.bindings.enumerates(),
                out@.len() == i,
                forall|j: int| 0 <= j < i ==> (#[trigger] out@[j])@ == self.order()[j],
            decreases n - i,
        {
            let (key, _) = self.bindings.entry(i);
            assert(self.order()[i as int] == self.bindings.key_at(i as int));
            out.push(key.clone());
            i += 1;
        }
        assert(crate::text::texts(out@) =~= self.order());
        out
    }
}

} // verus!
