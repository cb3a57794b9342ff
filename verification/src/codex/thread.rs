//! Turns and the items in them.

use vstd::prelude::*;

use crate::decode::{default_array, read_default_array};
use crate::json::{
    Json, JsonV, ToJson, copy_all, jsons, lemma_array_view, list_to_json, opt_int, opt_str,
};
use crate::text::{opt_text, owned, same, tag};

verus! {

/// Progress of a turn.
#[derive(Clone, Copy, Debug, PartialEq, Eq, Structural)]
pub enum TurnStatus {
    InProgress,
    Completed,
    Failed,
}

impl TurnStatus {
    /// The wire name.
    pub open spec fn name(self) -> Seq<char> {
        match self {
            TurnStatus::InProgress => "inProgress"@,
            TurnStatus::Completed => "completed"@,
            TurnStatus::Failed => "failed"@,
        }
    }

    /// The wire name.
    pub fn as_str(&self) -> (r: &'static str)
        ensures
            r@ == self.name(),
    {
        match self {
            TurnStatus::InProgress => "inProgress",
            TurnStatus::Completed => "completed",
            TurnStatus::Failed => "failed",
        }
    }
}

/// Why a turn failed.
#[derive(Debug, PartialEq)]
pub struct TurnError {
    pub message: String,
}

impl ToJson for TurnError {
    open spec fn json(&self) -> JsonV {
        JsonV::object().with("message"@, JsonV::Str(self.message@))
    }

    fn to_json(&self) -> (j: Json) {
        Json::object().with("message", Json::text(self.message.as_str()))
    }
}

/// One piece of user input.
#[derive(Debug, PartialEq)]
pub enum UserInput {
    /// A text, with what is marked in it as it stands on the wire.
    Text { text: String, text_elements: Vec<Json> },
    Image { url: String },
    LocalImage { path: String },
    Skill { name: String, path: String },
    Mention { name: String, path: String },
}

/// The model of a piece of user input.
pub enum UserInputV {
    Text { text: Seq<char>, text_elements: Seq<JsonV> },
    Image { url: Seq<char> },
    LocalImage { path: Seq<char> },
    Skill { name: Seq<char>, path: Seq<char> },
    Mention { name: Seq<char>, path: Seq<char> },
}

impl UserInput {
    /// The model of this input.
    pub open spec fn view(&self) -> UserInputV {
        match self {
            UserInput::Text { text, text_elements } => UserInputV::Text {
                text: text@,
                text_elements: jsons(text_elements@),
            },
            UserInput::Image { url } => UserInputV::Image { url: url@ },
            UserInput::LocalImage { path } => UserInputV::LocalImage { path: path@ },
            UserInput::Skill { name, path } => UserInputV::Skill { name: name@, path: path@ },
            UserInput::Mention { name, path } => UserInputV::Mention { name: name@, path: path@ },
        }
    }

    /// A copy of this input.
    pub fn copy(&self) -> (r: UserInput)
        ensures
            r.view() == self.view(),
    {
        match self {
            UserInput::Text { text, text_elements } => UserInput::Text {
                text: text.clone(),
                text_elements: copy_all(text_elements),
            },
            UserInput::Image { url } => UserInput::Image { url: url.clone() },
            UserInput::LocalImage { path } => UserInput::LocalImage { path: path.clone() },
            UserInput::Skill { name, path } => UserInput::Skill {
                name: name.clone(),
                path: path.clone(),
            },
            UserInput::Mention { name, path } => UserInput::Mention {
                name: name.clone(),
                path: path.clone(),
            },
        }
    }
}

/// The wire form of a piece of user input.
pub open spec fn user_input_json(u: UserInputV) -> JsonV {
    match u {
        UserInputV::Text { text, text_elements } => {
            let base = JsonV::object()
                .with("type"@, JsonV::Str("text"@))
                .with("text"@, JsonV::Str(text));
            if text_elements.len() == 0 {
                base
            } else {
                base.with("text_elements"@, JsonV::Arr(text_elements))
            }
        },
        UserInputV::Image { url } => JsonV::object()
            .with("type"@, JsonV::Str("image"@))
            .with("url"@, JsonV::Str(url)),
        UserInputV::LocalImage { path } => JsonV::object()
            .with("type"@, JsonV::Str("localImage"@))
            .with("path"@, JsonV::Str(path)),
        UserInputV::Skill { name, path } => JsonV::object()
            .with("type"@, JsonV::Str("skill"@))
            .with("name"@, JsonV::Str(name))
            .with("path"@, JsonV::Str(path)),
        UserInputV::Mention { name, path } => JsonV::object()
            .with("type"@, JsonV::Str("mention"@))
            .with("name"@, JsonV::Str(name))
            .with("path"@, JsonV::Str(path)),
    }
}

impl ToJson for UserInput {
    open spec fn json(&self) -> JsonV {
        user_input_json(self.view())
    }

    fn to_json(&self) -> (j: Json) {
        match self {
            UserInput::Text { text, text_elements } => {
                let base = Json::object()
                    .with("type", Json::text("text"))
                    .with("text", Json::text(text.as_str()));
                if text_elements.len() == 0 {
                    base
                } else {
                    base.with("text_elements", Json::array(copy_all(text_elements)))
                }
            },
            UserInput::Image { url } => Json::object()
                .with("type", Json::text("image"))
                .with("url", Json::text(url.as_str())),
            UserInput::LocalImage { path } => Json::object()
                .with("type", Json::text("localImage"))
                .with("path", Json::text(path.as_str())),
            UserInput::Skill { name, path } => Json::object()
                .with("type", Json::text("skill"))
                .with("name", Json::text(name.as_str()))
                .with("path", Json::text(path.as_str())),
            UserInput::Mention { name, path } => Json::object()
                .with("type", Json::text("mention"))
                .with("name", Json::text(name.as_str()))
                .with("path", Json::text(path.as_str())),
        }
    }
}

/// The models of a list of inputs.
pub open spec fn inputs(s: Seq<UserInput>) -> Seq<UserInputV> {
    s.map_values(|u: UserInput| u.view())
}

/// A copy of a list of inputs.
pub fn copy_inputs(v: &Vec<UserInput>) -> (r: Vec<UserInput>)
    ensures
        inputs(r@) == inputs(v@),
{
    let mut out: Vec<UserInput> = Vec::new();
    let mut i: usize = 0;
    while i < v.len()
        invariant
            i <= v@.len(),
            out@.len() == i,
            forall|k: int| 0 <= k < i ==> (#[trigger] out@[k]).view() == v@[k].view(),
        decreases v@.len() - i,
    {
        out.push(v[i].copy());
        i += 1;
    }
    assert(inputs(out@) =~= inputs(v@));
    out
}

/// An item of a turn.
#[derive(Debug, PartialEq)]
pub enum ThreadItem {
    UserMessage { id: String, content: Vec<UserInput> },
    AgentMessage { id: String, text: String },
    /// Any other item, as it stands on the wire.
    Other { id: String, value: Json },
}

/// The model of an item.
pub enum ItemV {
    UserMessage { id: Seq<char>, content: Seq<UserInputV> },
    AgentMessage { id: Seq<char>, text: Seq<char> },
    Other { id: Seq<char>, value: JsonV },
}

impl ItemV {
    /// The id of the item.
    pub open spec fn id(self) -> Seq<char> {
        match self {
            ItemV::UserMessage { id, .. } => id,
            ItemV::AgentMessage { id, .. } => id,
            ItemV::Other { id, .. } => id,
        }
    }
}

impl ThreadItem {
    /// The model of this item.
    pub open spec fn view(&self) -> ItemV {
        match self {
            ThreadItem::UserMessage { id, content } => ItemV::UserMessage {
                id: id@,
                content: inputs(content@),
            },
            ThreadItem::AgentMessage { id, text } => ItemV::AgentMessage { id: id@, text: text@ },
            ThreadItem::Other { id, value } => ItemV::Other { id: id@, value: value.view() },
        }
    }

    /// The id of the item.
    pub fn id(&self) -> (r: &str)
        ensures
            r@ == self.view().id(),
    {
        match self {
            ThreadItem::UserMessage { id, .. } => id.as_str(),
            ThreadItem::AgentMessage { id, .. } => id.as_str(),
            ThreadItem::Other { id, .. } => id.as_str(),
        }
    }

    /// A copy of this item.
    pub fn copy(&self) -> (r: ThreadItem)
        ensures
            r.view() == self.view(),
    {
        match self {
            ThreadItem::UserMessage { id, content } => ThreadItem::UserMessage {
                id: id.clone(),
                content: copy_inputs(content),
            },
            ThreadItem::AgentMessage { id, text } => ThreadItem::AgentMessage {
                id: id.clone(),
                text: text.clone(),
            },
            ThreadItem::Other { id, value } => ThreadItem::Other {
                id: id.clone(),
                value: value.copy(),
            },
        }
    }
}

/// The models of a list of items.
pub open spec fn items(s: Seq<ThreadItem>) -> Seq<ItemV> {
    s.map_values(|x: ThreadItem| x.view())
}

/// A copy of a list of items.
pub fn copy_items(v: &Vec<ThreadItem>) -> (r: Vec<ThreadItem>)
    ensures
        items(r@) == items(v@),
{
    let mut out: Vec<ThreadItem> = Vec::new();
    let mut i: usize = 0;
    while i < v.len()
        invariant
            i <= v@.len(),
            out@.len() == i,
            forall|k: int| 0 <= k < i ==> (#[trigger] out@[k]).view() == v@[k].view(),
        decreases v@.len() - i,
    {
        out.push(v[i].copy());
        i += 1;
    }
    assert(items(out@) =~= items(v@));
    out
}

/// The wire form of an item.
pub open spec fn item_json(x: ItemV) -> JsonV {
    match x {
        ItemV::UserMessage { id, content } => JsonV::object()
            .with("type"@, JsonV::Str("userMessage"@))
            .with("id"@, JsonV::Str(id))
            .with("content"@, JsonV::Arr(content.map_values(|u: UserInputV| user_input_json(u)))),
        ItemV::AgentMessage { id, text } => JsonV::object()
            .with("type"@, JsonV::Str("agentMessage"@))
            .with("id"@, JsonV::Str(id))
            .with("text"@, JsonV::Str(text)),
        ItemV::Other { id, value } => value,
    }
}

impl ToJson for ThreadItem {
    open spec fn json(&self) -> JsonV {
        item_json(self.view())
    }

    fn to_json(&self) -> (j: Json) {
        match self {
            ThreadItem::UserMessage { id, content } => {
                assert(content@.map_values(|u: UserInput| u.json()) =~= inputs(
                    content@,
                ).map_values(|u: UserInputV| user_input_json(u)));
                Json::object()
                    .with("type", Json::text("userMessage"))
                    .with("id", Json::text(id.as_str()))
                    .with("content", list_to_json(content))
            },
            ThreadItem::AgentMessage { id, text } => Json::object()
                .with("type", Json::text("agentMessage"))
                .with("id", Json::text(id.as_str()))
                .with("text", Json::text(text.as_str())),
            ThreadItem::Other { id, value } => value.copy(),
        }
    }
}

// ---------------------------------------------------------------------------
// Reading items
// ---------------------------------------------------------------------------
/// The piece of user input that a JSON object stands for, if it is one.
pub open spec fn input_in(v: JsonV) -> Option<UserInputV> {
    match v.str_at("type"@) {
        Some(kind) => if kind == "text"@ {
            match (v.str_at("text"@), default_array(v, "text_elements"@)) {
                (Some(text), Some(text_elements)) => Some(UserInputV::Text { text, text_elements }),
                _ => None,
            }
        } else if kind == "image"@ {
            match v.str_at("url"@) {
                Some(url) => Some(UserInputV::Image { url }),
                None => None,
            }
        } else if kind == "localImage"@ {
            match v.str_at("path"@) {
                Some(path) => Some(UserInputV::LocalImage { path }),
                None => None,
            }
        } else if kind == "skill"@ {
            match (v.str_at("name"@), v.str_at("path"@)) {
                (Some(name), Some(path)) => Some(UserInputV::Skill { name, path }),
                _ => None,
            }
        } else if kind == "mention"@ {
            match (v.str_at("name"@), v.str_at("path"@)) {
                (Some(name), Some(path)) => Some(UserInputV::Mention { name, path }),
                _ => None,
            }
        } else {
            None
        },
        None => None,
    }
}

/// Reads a piece of user input.
pub fn input_from_json(v: &Json) -> (r: Option<UserInput>)
    ensures
        match r {
            Some(u) => input_in(v.view()) == Some(u.view()),
            None => input_in(v.view()) is None,
        },
{
    let kind = match v.str_at("type") {
        Some(kind) => kind,
        None => {
            return None;
        },
    };
    if same(kind, "text") {
        match (v.str_at("text"), read_default_array(v, "text_elements")) {
            (Some(text), Some(text_elements)) => Some(
                UserInput::Text { text: owned(text), text_elements },
            ),
            _ => None,
        }
    } else if same(kind, "image") {
        match v.str_at("url") {
            Some(url) => Some(UserInput::Image { url: owned(url) }),
            None => None,
        }
    } else if same(kind, "localImage") {
        match v.str_at("path") {
            Some(path) => Some(UserInput::LocalImage { path: owned(path) }),
            None => None,
        }
    } else if same(kind, "skill") {
        match (v.str_at("name"), v.str_at("path")) {
            (Some(name), Some(path)) => Some(
                UserInput::Skill { name: owned(name), path: owned(path) },
            ),
            _ => None,
        }
    } else if same(kind, "mention") {
        match (v.str_at("name"), v.str_at("path")) {
            (Some(name), Some(path)) => Some(
                UserInput::Mention { name: owned(name), path: owned(path) },
            ),
            _ => None,
        }
    } else {
        None
    }
}

/// The input that a JSON array stands for, if each element is a piece of it.
pub open spec fn inputs_in(a: Seq<JsonV>) -> Option<Seq<UserInputV>>
    decreases a.len(),
{
    if a.len() == 0 {
        Some(seq![])
    } else {
        match (inputs_in(a.drop_last()), input_in(a.last())) {
            (Some(rest), Some(u)) => Some(rest.push(u)),
            _ => None,
        }
    }
}

proof fn lemma_inputs_prefix(a: Seq<JsonV>, n: int)
    requires
        0 <= n <= a.len(),
        inputs_in(a.take(n)) is None,
    ensures
        inputs_in(a) is None,
    decreases a.len() - n,
{
    if n < a.len() {
        assert(a.take(n + 1).drop_last() =~= a.take(n));
        lemma_inputs_prefix(a, n + 1);
    } else {
        assert(a.take(n) =~= a);
    }
}

fn inputs_from_json(v: &Vec<Json>) -> (r: Option<Vec<UserInput>>)
    ensures
        match r {
            Some(x) => inputs_in(jsons(v@)) == Some(inputs(x@)),
            None => inputs_in(jsons(v@)) is None,
        },
{
    let ghost all = jsons(v@);
    let mut out: Vec<UserInput> = Vec::new();
    let mut i: usize = 0;
    assert(all.take(0) =~= seq![]);
    assert(inputs(out@) =~= seq![]);
    while i < v.len()
        invariant
            i <= v@.len(),
            all == jsons(v@),
            inputs_in(all.take(i as int)) == Some(inputs(out@)),
        decreases v@.len() - i,
    {
        assert(all.take(i + 1).drop_last() =~= all.take(i as int));
        assert(all.take(i + 1).last() == v@[i as int].view());
        match input_from_json(&v[i]) {
            Some(u) => {
                let ghost was = out@;
                out.push(u);
                assert(inputs(out@) =~= inputs(was).push(u.view()));
            },
            None => {
                proof {
                    lemma_inputs_prefix(all, i + 1);
                }
                return None;
            },
        }
        i += 1;
    }
    assert(all.take(i as int) =~= all);
    Some(out)
}

/// The item that a JSON object stands for: it needs a type and an id, a message of the
/// user its content, and a message of the agent its text.
pub open spec fn item_in(v: JsonV) -> Option<ItemV> {
    match (v.str_at("type"@), v.str_at("id"@)) {
        (Some(kind), Some(id)) => if kind == "userMessage"@ {
            match v.array_at("content"@) {
                Some(a) => match inputs_in(a) {
                    Some(content) => Some(ItemV::UserMessage { id, content }),
                    None => None,
                },
                None => None,
            }
        } else if kind == "agentMessage"@ {
            match v.str_at("text"@) {
                Some(text) => Some(ItemV::AgentMessage { id, text }),
                None => None,
            }
        } else {
            Some(ItemV::Other { id, value: v })
        },
        _ => None,
    }
}

/// Reads an item.
pub fn item_from_json(v: &Json) -> (r: Option<ThreadItem>)
    ensures
        match r {
            Some(x) => item_in(v.view()) == Some(x.view()),
            None => item_in(v.view()) is None,
        },
{
    match (v.str_at("type"), v.str_at("id")) {
        (Some(kind), Some(id)) => if same(kind, "userMessage") {
            match v.array_at("content") {
                Some(a) => match inputs_from_json(a) {
                    Some(content) => Some(ThreadItem::UserMessage { id: owned(id), content }),
                    None => None,
                },
                None => None,
            }
        } else if same(kind, "agentMessage") {
            match v.str_at("text") {
                Some(text) => Some(
                    ThreadItem::AgentMessage { id: owned(id), text: owned(text) },
                ),
                None => None,
            }
        } else {
            Some(ThreadItem::Other { id: owned(id), value: v.copy() })
        },
        _ => None,
    }
}

/// The items that a JSON array stands for, if each element is one.
pub open spec fn items_in(a: Seq<JsonV>) -> Option<Seq<ItemV>>
    decreases a.len(),
{
    if a.len() == 0 {
        Some(seq![])
    } else {
        match (items_in(a.drop_last()), item_in(a.last())) {
            (Some(rest), Some(x)) => Some(rest.push(x)),
            _ => None,
        }
    }
}

proof fn lemma_items_prefix(a: Seq<JsonV>, n: int)
    requires
        0 <= n <= a.len(),
        items_in(a.take(n)) is None,
    ensures
        items_in(a) is None,
    decreases a.len() - n,
{
    if n < a.len() {
        assert(a.take(n + 1).drop_last() =~= a.take(n));
        lemma_items_prefix(a, n + 1);
    } else {
        assert(a.take(n) =~= a);
    }
}

/// Reads a list of items.
pub fn items_from_json(v: &Vec<Json>) -> (r: Option<Vec<ThreadItem>>)
    ensures
        match r {
            Some(x) => items_in(jsons(v@)) == Some(items(x@)),
            None => items_in(jsons(v@)) is None,
        },
{
    let ghost all = jsons(v@);
    let mut out: Vec<ThreadItem> = Vec::new();
    let mut i: usize = 0;
    assert(all.take(0) =~= seq![]);
    assert(items(out@) =~= seq![]);
    while i < v.len()
        invariant
            i <= v@.len(),
            all == jsons(v@),
            items_in(all.take(i as int)) == Some(items(out@)),
        decreases v@.len() - i,
    {
        assert(all.take(i + 1).drop_last() =~= all.take(i as int));
        assert(all.take(i + 1).last() == v@[i as int].view());
        match item_from_json(&v[i]) {
            Some(x) => {
                let ghost was = out@;
                out.push(x);
                assert(items(out@) =~= items(was).push(x.view()));
            },
            None => {
                proof {
                    lemma_items_prefix(all, i + 1);
                }
                return None;
            },
        }
        i += 1;
    }
    assert(all.take(i as int) =~= all);
    Some(out)
}

/// A list of items as JSON.
pub open spec fn items_json(s: Seq<ItemV>) -> Seq<JsonV> {
    s.map_values(|x: ItemV| item_json(x))
}

/// Whether an item that is neither the user's nor the agent's message is one by its JSON.
pub open spec fn genuine(x: ItemV) -> bool {
    x matches ItemV::Other { value, .. } ==> item_in(value) == Some(x)
}

proof fn lemma_item_words()
    ensures
        tag("type"@) == (4nat, 't', 'y'),
        tag("text"@) == (4nat, 't', 'e'),
        tag("text_elements"@) == (13nat, 't', 'e'),
        tag("url"@) == (3nat, 'u', 'r'),
        tag("path"@) == (4nat, 'p', 'a'),
        tag("name"@) == (4nat, 'n', 'a'),
        tag("id"@) == (2nat, 'i', 'd'),
        tag("content"@) == (7nat, 'c', 'o'),
        tag("image"@) == (5nat, 'i', 'm'),
        tag("localImage"@) == (10nat, 'l', 'o'),
        tag("skill"@) == (5nat, 's', 'k'),
        tag("mention"@) == (7nat, 'm', 'e'),
        tag("userMessage"@) == (11nat, 'u', 's'),
        tag("agentMessage"@) == (12nat, 'a', 'g'),
{
    reveal_strlit("type");
    reveal_strlit("text");
    reveal_strlit("text_elements");
    reveal_strlit("url");
    reveal_strlit("path");
    reveal_strlit("name");
    reveal_strlit("id");
    reveal_strlit("content");
    reveal_strlit("image");
    reveal_strlit("localImage");
    reveal_strlit("skill");
    reveal_strlit("mention");
    reveal_strlit("userMessage");
    reveal_strlit("agentMessage");
}

/// A piece of user input is read back as it was written, with what is marked in it.
pub proof fn law_input_reads_back(u: UserInputV)
    ensures
        input_in(user_input_json(u)) == Some(u),
{
    lemma_item_words();
    let v = user_input_json(u);
    match u {
        UserInputV::Text { text, text_elements } => {
            assert(v.get("type"@) == Some(JsonV::Str("text"@)));
            assert(v.get("text"@) == Some(JsonV::Str(text)));
            if text_elements.len() == 0 {
                assert(text_elements =~= seq![]);
                assert(v.get("text_elements"@) is None);
            } else {
                assert(v.get("text_elements"@) == Some(JsonV::Arr(text_elements)));
            }
        },
        UserInputV::Image { url } => {
            assert(v.get("type"@) == Some(JsonV::Str("image"@)));
            assert(v.get("url"@) == Some(JsonV::Str(url)));
        },
        UserInputV::LocalImage { path } => {
            assert(v.get("type"@) == Some(JsonV::Str("localImage"@)));
            assert(v.get("path"@) == Some(JsonV::Str(path)));
        },
        UserInputV::Skill { name, path } => {
            assert(v.get("type"@) == Some(JsonV::Str("skill"@)));
            assert(v.get("name"@) == Some(JsonV::Str(name)));
            assert(v.get("path"@) == Some(JsonV::Str(path)));
        },
        UserInputV::Mention { name, path } => {
            assert(v.get("type"@) == Some(JsonV::Str("mention"@)));
            assert(v.get("name"@) == Some(JsonV::Str(name)));
            assert(v.get("path"@) == Some(JsonV::Str(path)));
        },
    }
}

proof fn lemma_inputs_read_back(s: Seq<UserInputV>)
    ensures
        inputs_in(s.map_values(|u: UserInputV| user_input_json(u))) == Some(s),
    decreases s.len(),
{
    let a = s.map_values(|u: UserInputV| user_input_json(u));
    if s.len() > 0 {
        lemma_inputs_read_back(s.drop_last());
        law_input_reads_back(s.last());
        assert(a.drop_last() =~= s.drop_last().map_values(|u: UserInputV| user_input_json(u)));
        assert(s.drop_last().push(s.last()) =~= s);
    } else {
        assert(s =~= seq![]);
    }
}

/// An item is read back as it was written.
pub proof fn law_item_reads_back(x: ItemV)
    requires
        genuine(x),
    ensures
        item_in(item_json(x)) == Some(x),
{
    lemma_item_words();
    let v = item_json(x);
    match x {
        ItemV::UserMessage { id, content } => {
            lemma_inputs_read_back(content);
            assert(v.get("type"@) == Some(JsonV::Str("userMessage"@)));
            assert(v.get("id"@) == Some(JsonV::Str(id)));
            assert(v.get("content"@) == Some(
                JsonV::Arr(content.map_values(|u: UserInputV| user_input_json(u))),
            ));
        },
        ItemV::AgentMessage { id, text } => {
            assert(v.get("type"@) == Some(JsonV::Str("agentMessage"@)));
            assert(v.get("id"@) == Some(JsonV::Str(id)));
            assert(v.get("text"@) == Some(JsonV::Str(text)));
        },
        ItemV::Other { .. } => {},
    }
}

/// A list of items is read back as it was written.
pub proof fn law_items_read_back(s: Seq<ItemV>)
    requires
        forall|i: int| 0 <= i < s.len() ==> genuine(#[trigger] s[i]),
    ensures
        items_in(items_json(s)) == Some(s),
    decreases s.len(),
{
    if s.len() > 0 {
        law_items_read_back(s.drop_last());
        law_item_reads_back(s.last());
        assert(items_json(s).drop_last() =~= items_json(s.drop_last()));
        assert(s.drop_last().push(s.last()) =~= s);
    } else {
        assert(s =~= seq![]);
    }
}

/// A turn of a thread.
#[derive(Debug, PartialEq)]
pub struct Turn {
    pub id: String,
    pub items: Vec<ThreadItem>,
    pub items_view: String,
    pub status: TurnStatus,
    pub error: Option<TurnError>,
    pub started_at: Option<i64>,
    pub completed_at: Option<i64>,
    pub duration_ms: Option<i64>,
}

/// The model of a turn.
#[verifier::ext_equal]
pub struct TurnV {
    pub id: Seq<char>,
    pub items: Seq<ItemV>,
    pub items_view: Seq<char>,
    pub status: TurnStatus,
    pub error: Option<Seq<char>>,
    pub started_at: Option<i64>,
    pub completed_at: Option<i64>,
    pub duration_ms: Option<i64>,
}

/// An optional integer as an unbounded one.
pub open spec fn widened(n: Option<i64>) -> Option<int> {
    match n {
        Some(i) => Some(i as int),
        None => None,
    }
}

/// The message of an optional error.
pub open spec fn error_text(e: Option<TurnError>) -> Option<Seq<char>> {
    match e {
        Some(x) => Some(x.message@),
        None => None,
    }
}

impl Turn {
    /// The model of this turn.
    pub open spec fn view(&self) -> TurnV {
        TurnV {
            id: self.id@,
            items: items(self.items@),
            items_view: self.items_view@,
            status: self.status,
            error: error_text(self.error),
            started_at: self.started_at,
            completed_at: self.completed_at,
            duration_ms: self.duration_ms,
        }
    }

    /// A copy of this turn.
    pub fn copy(&self) -> (r: Turn)
        ensures
            r.view() == self.view(),
    {
        Turn {
            id: self.id.clone(),
            items: copy_items(&self.items),
            items_view: self.items_view.clone(),
            status: self.status,
            error: match &self.error {
                Some(e) => Some(TurnError { message: e.message.clone() }),
                None => None,
            },
            started_at: self.started_at,
            completed_at: self.completed_at,
            duration_ms: self.duration_ms,
        }
    }
}

/// The models of a list of turns.
pub open spec fn turns(s: Seq<Turn>) -> Seq<TurnV> {
    s.map_values(|x: Turn| x.view())
}

/// A copy of a list of turns.
pub fn copy_turns(v: &Vec<Turn>) -> (r: Vec<Turn>)
    ensures
        turns(r@) == turns(v@),
{
    let mut out: Vec<Turn> = Vec::new();
    let mut i: usize = 0;
    while i < v.len()
        invariant
            i <= v@.len(),
            out@.len() == i,
            forall|k: int| 0 <= k < i ==> (#[trigger] out@[k]).view() == v@[k].view(),
        decreases v@.len() - i,
    {
        out.push(v[i].copy());
        i += 1;
    }
    assert(turns(out@) =~= turns(v@));
    out
}

/// The wire form of a turn error.
pub open spec fn opt_error_json(message: Option<Seq<char>>) -> JsonV {
    match message {
        Some(m) => JsonV::object().with("message"@, JsonV::Str(m)),
        None => JsonV::Null,
    }
}

/// The wire form of a turn.
pub open spec fn turn_model(t: TurnV) -> JsonV {
    JsonV::object()
        .with("id"@, JsonV::Str(t.id))
        .with("items"@, JsonV::Arr(t.items.map_values(|x: ItemV| item_json(x))))
        .with("itemsView"@, JsonV::Str(t.items_view))
        .with("status"@, JsonV::Str(t.status.name()))
        .with("error"@, opt_error_json(t.error))
        .with("startedAt"@, opt_int(widened(t.started_at)))
        .with("completedAt"@, opt_int(widened(t.completed_at)))
        .with("durationMs"@, opt_int(widened(t.duration_ms)))
}

impl ToJson for Turn {
    open spec fn json(&self) -> JsonV {
        turn_model(self.view())
    }

    fn to_json(&self) -> (j: Json) {
        assert(self.items@.map_values(|x: ThreadItem| x.json()) =~= items(self.items@).map_values(
            |x: ItemV| item_json(x),
        ));
        let error = match &self.error {
            Some(e) => e.to_json(),
            None => Json::Null,
        };
        Json::object()
            .with("id", Json::text(self.id.as_str()))
            .with("items", list_to_json(&self.items))
            .with("itemsView", Json::text(self.items_view.as_str()))
            .with("status", Json::text(self.status.as_str()))
            .with("error", error)
            .with("startedAt", Json::opt_int(self.started_at))
            .with("completedAt", Json::opt_int(self.completed_at))
            .with("durationMs", Json::opt_int(self.duration_ms))
    }
}

/// A thread as clients see it.
#[derive(Debug, PartialEq)]
pub struct Thread {
    pub id: String,
    pub session_id: String,
    pub forked_from_id: Option<String>,
    pub preview: String,
    pub model_provider: String,
    pub created_at: i64,
    pub updated_at: i64,
    pub path: Option<String>,
    pub cwd: String,
    pub cli_version: String,
    pub agent_nickname: Option<String>,
    pub agent_role: Option<String>,
    pub name: Option<String>,
    pub turns: Vec<Json>,
}

/// The model of a thread.
#[verifier::ext_equal]
pub struct ThreadV {
    pub id: Seq<char>,
    pub session_id: Seq<char>,
    pub forked_from_id: Option<Seq<char>>,
    pub preview: Seq<char>,
    pub model_provider: Seq<char>,
    pub created_at: i64,
    pub updated_at: i64,
    pub path: Option<Seq<char>>,
    pub cwd: Seq<char>,
    pub cli_version: Seq<char>,
    pub agent_nickname: Option<Seq<char>>,
    pub agent_role: Option<Seq<char>>,
    pub name: Option<Seq<char>>,
    pub turns: Seq<JsonV>,
}

impl Thread {
    /// The model of this thread.
    pub open spec fn view(&self) -> ThreadV {
        ThreadV {
            id: self.id@,
            session_id: self.session_id@,
            forked_from_id: opt_text(self.forked_from_id),
            preview: self.preview@,
            model_provider: self.model_provider@,
            created_at: self.created_at,
            updated_at: self.updated_at,
            path: opt_text(self.path),
            cwd: self.cwd@,
            cli_version: self.cli_version@,
            agent_nickname: opt_text(self.agent_nickname),
            agent_role: opt_text(self.agent_role),
            name: opt_text(self.name),
            turns: jsons(self.turns@),
        }
    }
}

/// The wire form of a thread: an idle thread of the app server.
pub open spec fn thread_model(t: ThreadV) -> JsonV {
    JsonV::object()
        .with("id"@, JsonV::Str(t.id))
        .with("sessionId"@, JsonV::Str(t.session_id))
        .with("forkedFromId"@, opt_str(t.forked_from_id))
        .with("preview"@, JsonV::Str(t.preview))
        .with("ephemeral"@, JsonV::Bool(false))
        .with("modelProvider"@, JsonV::Str(t.model_provider))
        .with("createdAt"@, JsonV::Int(t.created_at as int))
        .with("updatedAt"@, JsonV::Int(t.updated_at as int))
        .with("status"@, JsonV::object().with("type"@, JsonV::Str("idle"@)))
        .with("path"@, opt_str(t.path))
        .with("cwd"@, JsonV::Str(t.cwd))
        .with("cliVersion"@, JsonV::Str(t.cli_version))
        .with("source"@, JsonV::Str("appServer"@))
        .with("threadSource"@, JsonV::Null)
        .with("agentNickname"@, opt_str(t.agent_nickname))
        .with("agentRole"@, opt_str(t.agent_role))
        .with("gitInfo"@, JsonV::Null)
        .with("name"@, opt_str(t.name))
        .with("turns"@, JsonV::Arr(t.turns))
}

impl ToJson for Thread {
    open spec fn json(&self) -> JsonV {
        thread_model(self.view())
    }

    fn to_json(&self) -> (j: Json) {
        broadcast use lemma_array_view;

        Json::object()
            .with("id", Json::text(self.id.as_str()))
            .with("sessionId", Json::text(self.session_id.as_str()))
            .with("forkedFromId", Json::opt_str(&self.forked_from_id))
            .with("preview", Json::text(self.preview.as_str()))
            .with("ephemeral", Json::Bool(false))
            .with("modelProvider", Json::text(self.model_provider.as_str()))
            .with("createdAt", Json::Int(self.created_at))
            .with("updatedAt", Json::Int(self.updated_at))
            .with("status", Json::object().with("type", Json::text("idle")))
            .with("path", Json::opt_str(&self.path))
            .with("cwd", Json::text(self.cwd.as_str()))
            .with("cliVersion", Json::text(self.cli_version.as_str()))
            .with("source", Json::text("appServer"))
            .with("threadSource", Json::Null)
            .with("agentNickname", Json::opt_str(&self.agent_nickname))
            .with("agentRole", Json::opt_str(&self.agent_role))
            .with("gitInfo", Json::Null)
            .with("name", Json::opt_str(&self.name))
            .with("turns", Json::Array(copy_all(&self.turns)))
    }
}

/// A turn without items in its first state.
pub open spec fn fresh_turn(id: Seq<char>, status: TurnStatus, started_at: Option<i64>) -> TurnV {
    TurnV {
        id,
        items: seq![],
        items_view: "full"@,
        status,
        error: None,
        started_at,
        completed_at: None,
        duration_ms: None,
    }
}

/// A turn that was just started.
pub fn in_progress_turn(turn_id: &str, now: i64) -> (r: Turn)
    ensures
        r.view() == fresh_turn(turn_id@, TurnStatus::InProgress, Some(now)),
{
    let none: Vec<ThreadItem> = Vec::new();
    assert(items(none@) =~= seq![]);
    Turn {
        id: owned(turn_id),
        items: none,
        items_view: owned("full"),
        status: TurnStatus::InProgress,
        error: None,
        started_at: Some(now),
        completed_at: None,
        duration_ms: None,
    }
}

/// A turn that was answered at once.
pub fn completed_turn(turn_id: &str, started_at: i64, completed_at: i64) -> (r: Turn)
    ensures
        r.view() == (TurnV {
            completed_at: Some(completed_at),
            ..fresh_turn(turn_id@, TurnStatus::Completed, Some(started_at))
        }),
{
    let mut turn = in_progress_turn(turn_id, started_at);
    turn.status = TurnStatus::Completed;
    turn.completed_at = Some(completed_at);
    turn
}

} // verus!
