//! Provider manifests: a provider's own description of the models it serves,
//! and the catalog that the program builds from it.
//!
//! A manifest is remote input. It names models and what they can do, and
//! nothing else: instructions, tools, headers and URLs stay local decisions.

pub mod budget;
pub mod catalog;
pub mod catalog_laws;
pub mod entry;
pub mod entry_laws;
pub mod laws;
pub mod rule_laws;
pub mod rules;

use vstd::prelude::*;

use crate::models::{InputModality, MultiAgentVersion, ReasoningEffort};

verus! {

/// The manifest schema that this crate reads.
pub const SUPPORTED_SCHEMA_VERSION: u32 = 1;

/// The largest manifest body that is decoded at all.
pub const MAX_PROVIDER_MANIFEST_BYTES: usize = 262_144;

/// The most models a manifest may list.
pub const MAX_PROVIDER_MANIFEST_MODELS: usize = 128;

/// How many models can be described to another model at once.
pub const MAX_MODEL_VISIBLE_MANIFEST_MODELS: usize = 5;

/// The most manifest text that the described models may add up to.
pub const MAX_MODEL_VISIBLE_MANIFEST_BYTES: usize = 512;

pub const MAX_MODEL_ID_BYTES: usize = 64;

pub const MAX_MODEL_DISPLAY_NAME_BYTES: usize = 128;

pub const MAX_MODEL_DESCRIPTION_BYTES: usize = 512;

pub const MAX_REASONING_EFFORTS_PER_MODEL: usize = 8;

pub const MAX_REASONING_EFFORT_ID_BYTES: usize = 32;

pub const MAX_SERVICE_TIERS_PER_MODEL: usize = 4;

pub const MAX_SERVICE_TIER_ID_BYTES: usize = 32;

pub const MAX_SERVICE_TIER_NAME_BYTES: usize = 128;

pub const MAX_SERVICE_TIER_DESCRIPTION_BYTES: usize = 256;

pub const MAX_INPUT_MODALITIES_PER_MODEL: usize = 3;

/// The largest token limit that can still be multiplied by nine.
pub const MAX_SAFE_MODEL_TOKEN_LIMIT: i64 = 1_024_819_115_206_086_200;

/// A decoded manifest.
#[derive(Debug)]
pub struct ProviderManifest {
    pub schema_version: u32,
    pub models: Vec<ProviderManifestModel>,
}

/// One model of a manifest.
#[derive(Debug)]
pub struct ProviderManifestModel {
    pub id: String,
    pub display_name: String,
    pub description: String,
    pub context_window: Option<i64>,
    pub max_input_tokens: Option<i64>,
    pub default_reasoning_effort: Option<ReasoningEffort>,
    pub supported_reasoning_efforts: Vec<ReasoningEffort>,
    pub supports_personality: bool,
    /// What the model accepts as input. A manifest that leaves this out means
    /// text only.
    pub input_modalities: Vec<InputModality>,
    pub service_tiers: Vec<ProviderManifestServiceTier>,
    /// The local multi-agent tools that the model works with, where the
    /// manifest says so.
    pub multi_agent_version: Option<MultiAgentVersion>,
}

/// One service tier of a manifest model.
#[derive(Debug)]
pub struct ProviderManifestServiceTier {
    pub id: String,
    pub name: String,
    pub description: String,
}

/// The input modalities of a manifest model that lists none.
pub fn default_provider_manifest_input_modalities() -> (modalities: Vec<InputModality>)
    ensures
        modalities@ == seq![InputModality::Text],
{
    vec![InputModality::Text]
}

} // verus!
