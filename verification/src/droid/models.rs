//! The models that Droid offers.

use vstd::prelude::*;

use crate::codex::models::{
    Model, ModelServiceTier, ReasoningEffort, ReasoningEffortOption, effort_json,
};
use crate::json::{JsonV, ToJson};
use crate::text::{begins, join2, opt_text, owned, strip_prefix, trim, trimmed};

verus! {

/// The family of models that Droid offers first: the name with which the identifiers of
/// its models begin, and the name that is shown.
pub struct ModelFamily {
    pub id: String,
    pub title: String,
}

/// The model of a thread that names none, where that is the first family.
pub open spec fn default_model(family: Seq<char>) -> Seq<char> {
    family + "-sonnet-4-5-20250929"@
}

impl ModelFamily {
    /// The model of a thread that names none.
    pub fn default_model(&self) -> (r: String)
        ensures
            r@ == default_model(self.id@),
    {
        join2(self.id.as_str(), "-sonnet-4-5-20250929")
    }

    fn entry(&self, id: &str, display: &str, effort: ReasoningEffort) -> (r: Model)
        ensures
            r.json() == droid_model(self.id@ + id@, self.title@ + display@, false, effort),
    {
        let id = join2(self.id.as_str(), id);
        let display = join2(self.title.as_str(), display);
        model(id.as_str(), display.as_str(), false, effort)
    }
}

/// The efforts that every model supports.
pub open spec fn droid_efforts() -> Seq<JsonV> {
    seq![
        effort_json(ReasoningEffort::Off, "No extended reasoning"@),
        effort_json(ReasoningEffort::Minimal, "Lowest latency"@),
        effort_json(ReasoningEffort::Low, "Brief reasoning"@),
        effort_json(ReasoningEffort::Medium, "Default reasoning"@),
        effort_json(ReasoningEffort::High, "Maximum reasoning"@),
    ]
}

/// A model on the wire.
pub open spec fn droid_model(
    id: Seq<char>,
    display: Seq<char>,
    is_default: bool,
    effort: ReasoningEffort,
) -> JsonV {
    JsonV::object()
        .with("id"@, JsonV::Str(id))
        .with("model"@, JsonV::Str(id))
        .with("upgrade"@, JsonV::Null)
        .with("upgradeInfo"@, JsonV::Null)
        .with("availabilityNux"@, JsonV::Null)
        .with("displayName"@, JsonV::Str(display))
        .with("description"@, JsonV::Str("Factory Droid model"@))
        .with("hidden"@, JsonV::Bool(false))
        .with("supportedReasoningEfforts"@, JsonV::Arr(droid_efforts()))
        .with("defaultReasoningEffort"@, JsonV::Str(effort.name()))
        .with("inputModalities"@, JsonV::Arr(seq![JsonV::Str("text"@), JsonV::Str("image"@)]))
        .with("supportsPersonality"@, JsonV::Bool(false))
        .with("additionalSpeedTiers"@, JsonV::Arr(seq![]))
        .with("serviceTiers"@, JsonV::Arr(seq![
            JsonV::object()
                .with("id"@, JsonV::Str("standard"@))
                .with("name"@, JsonV::Str("Standard"@))
                .with("description"@, JsonV::Str("Default bridge tier"@)),
        ]))
        .with("isDefault"@, JsonV::Bool(is_default))
}

/// The models on the wire, in the order in which they are offered, where the first family
/// has that identifier and that title.
pub open spec fn offered_models(family: Seq<char>, title: Seq<char>) -> Seq<JsonV> {
    seq![
        droid_model(default_model(family), title + " Sonnet 4.5"@, true, ReasoningEffort::Off),
        droid_model(family + "-opus-4-7"@, title + " Opus 4.7"@, false, ReasoningEffort::High),
        droid_model(family + "-sonnet-4-6"@, title + " Sonnet 4.6"@, false, ReasoningEffort::High),
        droid_model(family + "-haiku-4-5-20251001"@, title + " Haiku 4.5"@, false, ReasoningEffort::Off),
        droid_model("gpt-5.5"@, "GPT-5.5"@, false, ReasoningEffort::Medium),
        droid_model("gpt-5.5-fast"@, "GPT-5.5 Fast Mode"@, false, ReasoningEffort::Medium),
        droid_model("gpt-5.4"@, "GPT-5.4"@, false, ReasoningEffort::High),
        droid_model("gpt-5.4-mini"@, "GPT-5.4 Mini"@, false, ReasoningEffort::High),
        droid_model("gpt-5.3-codex"@, "GPT-5.3 Codex"@, false, ReasoningEffort::High),
        droid_model("gemini-3.1-pro-preview"@, "Gemini 3.1 Pro"@, false, ReasoningEffort::High),
        droid_model("glm-5.1"@, "GLM 5.1"@, false, ReasoningEffort::Medium),
        droid_model("kimi-k2.6"@, "Kimi K2.6"@, false, ReasoningEffort::High),
    ]
}

fn effort(reasoning_effort: ReasoningEffort, description: &str) -> (r: ReasoningEffortOption)
    ensures
        r.json() == effort_json(reasoning_effort, description@),
{
    ReasoningEffortOption { reasoning_effort, description: owned(description) }
}

/// A model of Droid.
pub fn model(id: &str, display: &str, is_default: bool, default_effort: ReasoningEffort) -> (r: Model)
    ensures
        r.json() == droid_model(id@, display@, is_default, default_effort),
{
    let mut efforts: Vec<ReasoningEffortOption> = Vec::new();
    efforts.push(effort(ReasoningEffort::Off, "No extended reasoning"));
    efforts.push(effort(ReasoningEffort::Minimal, "Lowest latency"));
    efforts.push(effort(ReasoningEffort::Low, "Brief reasoning"));
    efforts.push(effort(ReasoningEffort::Medium, "Default reasoning"));
    efforts.push(effort(ReasoningEffort::High, "Maximum reasoning"));
    let mut modalities: Vec<String> = Vec::new();
    modalities.push(owned("text"));
    modalities.push(owned("image"));
    let mut tiers: Vec<ModelServiceTier> = Vec::new();
    tiers.push(
        ModelServiceTier {
            id: owned("standard"),
            name: owned("Standard"),
            description: owned("Default bridge tier"),
        },
    );
    proof {
        assert(efforts@.map_values(|x: ReasoningEffortOption| x.json()) =~= droid_efforts());
        assert(modalities@.map_values(|x: String| JsonV::Str(x@)) =~= seq![
            JsonV::Str("text"@),
            JsonV::Str("image"@),
        ]);
        assert(tiers@.map_values(|x: ModelServiceTier| x.json()) =~= seq![
            JsonV::object()
                .with("id"@, JsonV::Str("standard"@))
                .with("name"@, JsonV::Str("Standard"@))
                .with("description"@, JsonV::Str("Default bridge tier"@)),
        ]);
    }
    Model {
        id: owned(id),
        display_name: owned(display),
        description: owned("Factory Droid model"),
        supported_reasoning_efforts: efforts,
        default_reasoning_effort: default_effort,
        input_modalities: modalities,
        service_tiers: tiers,
        is_default,
    }
}

/// The models of Droid, in the order in which they are offered.
pub fn droid_models(family: &ModelFamily) -> (r: Vec<Model>)
    ensures
        r@.map_values(|m: Model| m.json()) == offered_models(family.id@, family.title@),
{
    let mut out: Vec<Model> = Vec::new();
    let first = family.default_model();
    let shown = join2(family.title.as_str(), " Sonnet 4.5");
    out.push(model(first.as_str(), shown.as_str(), true, ReasoningEffort::Off));
    out.push(family.entry("-opus-4-7", " Opus 4.7", ReasoningEffort::High));
    out.push(family.entry("-sonnet-4-6", " Sonnet 4.6", ReasoningEffort::High));
    out.push(family.entry("-haiku-4-5-20251001", " Haiku 4.5", ReasoningEffort::Off));
    out.push(model("gpt-5.5", "GPT-5.5", false, ReasoningEffort::Medium));
    out.push(model("gpt-5.5-fast", "GPT-5.5 Fast Mode", false, ReasoningEffort::Medium));
    out.push(model("gpt-5.4", "GPT-5.4", false, ReasoningEffort::High));
    out.push(model("gpt-5.4-mini", "GPT-5.4 Mini", false, ReasoningEffort::High));
    out.push(model("gpt-5.3-codex", "GPT-5.3 Codex", false, ReasoningEffort::High));
    out.push(model("gemini-3.1-pro-preview", "Gemini 3.1 Pro", false, ReasoningEffort::High));
    out.push(model("glm-5.1", "GLM 5.1", false, ReasoningEffort::Medium));
    out.push(model("kimi-k2.6", "Kimi K2.6", false, ReasoningEffort::High));
    assert(out@.map_values(|m: Model| m.json()) =~= offered_models(family.id@, family.title@));
    out
}

/// The name of a model without surrounding whitespace and without the name of the
/// provider.
pub open spec fn plain_model(name: Seq<char>) -> Seq<char> {
    let t = trimmed(name);
    if begins(t, "droid/"@) {
        t.skip("droid/"@.len() as int)
    } else {
        t
    }
}

/// The model that a client names, if it names one.
pub fn normalize_model(model: Option<&str>) -> (r: Option<String>)
    ensures
        match model {
            Some(m) => opt_text(r) == Some(plain_model(m@)),
            None => r is None,
        },
{
    match model {
        Some(m) => {
            let t = trim(m);
            match strip_prefix(t.as_str(), "droid/") {
                Some(rest) => Some(rest),
                None => Some(t),
            }
        },
        None => None,
    }
}

/// One model, the first one, is what clients get who name none.
pub proof fn law_one_default_model(family: Seq<char>, title: Seq<char>)
    ensures
        offered_models(family, title).len() == 12,
        forall|i: int|
            0 <= i < 12 ==> ((#[trigger] offered_models(family, title)[i]).bool_at("isDefault"@) == Some(true)
                <==> i == 0),
        offered_models(family, title)[0].str_at("id"@) == Some(default_model(family)),
{
    assert forall|i: int| 0 <= i < 12 implies ((#[trigger] offered_models(family, title)[i]).bool_at(
        "isDefault"@,
    ) == Some(true) <==> i == 0) by {
        let m = offered_models(family, title);
        assert(m[0].bool_at("isDefault"@) == Some(true));
        assert(m[1].bool_at("isDefault"@) == Some(false));
        assert(m[2].bool_at("isDefault"@) == Some(false));
        assert(m[3].bool_at("isDefault"@) == Some(false));
        assert(m[4].bool_at("isDefault"@) == Some(false));
        assert(m[5].bool_at("isDefault"@) == Some(false));
        assert(m[6].bool_at("isDefault"@) == Some(false));
        assert(m[7].bool_at("isDefault"@) == Some(false));
        assert(m[8].bool_at("isDefault"@) == Some(false));
        assert(m[9].bool_at("isDefault"@) == Some(false));
        assert(m[10].bool_at("isDefault"@) == Some(false));
        assert(m[11].bool_at("isDefault"@) == Some(false));
    }
    lemma_model_id(default_model(family), title + " Sonnet 4.5"@, true, ReasoningEffort::Off);
}

proof fn lemma_model_id(id: Seq<char>, display: Seq<char>, is_default: bool, effort: ReasoningEffort)
    ensures
        droid_model(id, display, is_default, effort).str_at("id"@) == Some(id),
{
    reveal_strlit("id");
    reveal_strlit("model");
    reveal_strlit("upgrade");
    reveal_strlit("upgradeInfo");
    reveal_strlit("availabilityNux");
    reveal_strlit("displayName");
    reveal_strlit("description");
    reveal_strlit("hidden");
    reveal_strlit("supportedReasoningEfforts");
    reveal_strlit("defaultReasoningEffort");
    reveal_strlit("inputModalities");
    reveal_strlit("supportsPersonality");
    reveal_strlit("additionalSpeedTiers");
    reveal_strlit("serviceTiers");
    reveal_strlit("isDefault");
    assert("id"@.len() == 2);
    assert("model"@.len() == 5);
    assert("upgrade"@.len() == 7);
    assert("upgradeInfo"@.len() == 11);
    assert("availabilityNux"@.len() == 15);
    assert("displayName"@.len() == 11);
    assert("description"@.len() == 11);
    assert("hidden"@.len() == 6);
    assert("supportedReasoningEfforts"@.len() == 25);
    assert("defaultReasoningEffort"@.len() == 22);
    assert("inputModalities"@.len() == 15);
    assert("supportsPersonality"@.len() == 19);
    assert("additionalSpeedTiers"@.len() == 20);
    assert("serviceTiers"@.len() == 12);
    assert("isDefault"@.len() == 9);
    let m = droid_model(id, display, is_default, effort);
    assert(m is Obj && m->Obj_0.dom().contains("id"@) && m->Obj_0["id"@] == JsonV::Str(id));
}

} // verus!
