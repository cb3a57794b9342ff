//! Models that a bridge offers.

use vstd::prelude::*;

use crate::json::{Json, JsonV, ToJson, list_model, list_to_json};

verus! {

/// How hard a model thinks.
#[derive(Clone, Copy, Debug, PartialEq, Eq, Structural)]
pub enum ReasoningEffort {
    /// No extended reasoning.
    Off,
    Minimal,
    Low,
    Medium,
    High,
    XHigh,
    Max,
}

impl ReasoningEffort {
    /// The wire name.
    pub open spec fn name(self) -> Seq<char> {
        match self {
            ReasoningEffort::Off => "none"@,
            ReasoningEffort::Minimal => "minimal"@,
            ReasoningEffort::Low => "low"@,
            ReasoningEffort::Medium => "medium"@,
            ReasoningEffort::High => "high"@,
            ReasoningEffort::XHigh => "xhigh"@,
            ReasoningEffort::Max => "max"@,
        }
    }

    /// The wire name.
    pub fn as_str(&self) -> (r: &'static str)
        ensures
            r@ == self.name(),
    {
        match self {
            ReasoningEffort::Off => "none",
            ReasoningEffort::Minimal => "minimal",
            ReasoningEffort::Low => "low",
            ReasoningEffort::Medium => "medium",
            ReasoningEffort::High => "high",
            ReasoningEffort::XHigh => "xhigh",
            ReasoningEffort::Max => "max",
        }
    }
}

/// An effort that a model supports.
pub struct ReasoningEffortOption {
    pub reasoning_effort: ReasoningEffort,
    pub description: String,
}

/// The wire form of a supported effort.
pub open spec fn effort_json(effort: ReasoningEffort, description: Seq<char>) -> JsonV {
    JsonV::object()
        .with("reasoningEffort"@, JsonV::Str(effort.name()))
        .with("description"@, JsonV::Str(description))
}

impl ToJson for ReasoningEffortOption {
    open spec fn json(&self) -> JsonV {
        effort_json(self.reasoning_effort, self.description@)
    }

    fn to_json(&self) -> (j: Json) {
        Json::object()
            .with("reasoningEffort", Json::text(self.reasoning_effort.as_str()))
            .with("description", Json::text(self.description.as_str()))
    }
}

/// A service tier of a model.
pub struct ModelServiceTier {
    pub id: String,
    pub name: String,
    pub description: String,
}

impl ToJson for ModelServiceTier {
    open spec fn json(&self) -> JsonV {
        JsonV::object()
            .with("id"@, JsonV::Str(self.id@))
            .with("name"@, JsonV::Str(self.name@))
            .with("description"@, JsonV::Str(self.description@))
    }

    fn to_json(&self) -> (j: Json) {
        Json::object()
            .with("id", Json::text(self.id.as_str()))
            .with("name", Json::text(self.name.as_str()))
            .with("description", Json::text(self.description.as_str()))
    }
}

/// A model.
pub struct Model {
    pub id: String,
    pub display_name: String,
    pub description: String,
    pub supported_reasoning_efforts: Vec<ReasoningEffortOption>,
    pub default_reasoning_effort: ReasoningEffort,
    pub input_modalities: Vec<String>,
    pub service_tiers: Vec<ModelServiceTier>,
    pub is_default: bool,
}

impl ToJson for Model {
    open spec fn json(&self) -> JsonV {
        JsonV::object()
            .with("id"@, JsonV::Str(self.id@))
            .with("model"@, JsonV::Str(self.id@))
            .with("upgrade"@, JsonV::Null)
            .with("upgradeInfo"@, JsonV::Null)
            .with("availabilityNux"@, JsonV::Null)
            .with("displayName"@, JsonV::Str(self.display_name@))
            .with("description"@, JsonV::Str(self.description@))
            .with("hidden"@, JsonV::Bool(false))
            .with("supportedReasoningEfforts"@, list_model(self.supported_reasoning_efforts@))
            .with("defaultReasoningEffort"@, JsonV::Str(self.default_reasoning_effort.name()))
            .with("inputModalities"@, crate::json::texts_json(self.input_modalities@))
            .with("supportsPersonality"@, JsonV::Bool(false))
            .with("additionalSpeedTiers"@, JsonV::Arr(seq![]))
            .with("serviceTiers"@, list_model(self.service_tiers@))
            .with("isDefault"@, JsonV::Bool(self.is_default))
    }

    fn to_json(&self) -> (j: Json) {
        Json::object()
            .with("id", Json::text(self.id.as_str()))
            .with("model", Json::text(self.id.as_str()))
            .with("upgrade", Json::Null)
            .with("upgradeInfo", Json::Null)
            .with("availabilityNux", Json::Null)
            .with("displayName", Json::text(self.display_name.as_str()))
            .with("description", Json::text(self.description.as_str()))
            .with("hidden", Json::Bool(false))
            .with("supportedReasoningEfforts", list_to_json(&self.supported_reasoning_efforts))
            .with("defaultReasoningEffort", Json::text(self.default_reasoning_effort.as_str()))
            .with("inputModalities", crate::json::texts_to_json(&self.input_modalities))
            .with("supportsPersonality", Json::Bool(false))
            .with("additionalSpeedTiers", Json::empty_array())
            .with("serviceTiers", list_to_json(&self.service_tiers))
            .with("isDefault", Json::Bool(self.is_default))
    }
}

} // verus!
