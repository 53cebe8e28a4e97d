//! The model metadata that the rest of the crate reads and builds.

use vstd::prelude::*;

use crate::text::same_text;

verus! {

/// How much reasoning a model is asked for. Every effort is identified by its
/// id; efforts that are not known by name are carried as they were given.
#[derive(Debug)]
pub enum ReasoningEffort {
    Off,
    Minimal,
    Low,
    Medium,
    High,
    XHigh,
    Custom(String),
}

impl ReasoningEffort {
    /// The id of the effort.
    pub open spec fn id(&self) -> Seq<char> {
        match self {
            ReasoningEffort::Off => "none"@,
            ReasoningEffort::Minimal => "minimal"@,
            ReasoningEffort::Low => "low"@,
            ReasoningEffort::Medium => "medium"@,
            ReasoningEffort::High => "high"@,
            ReasoningEffort::XHigh => "xhigh"@,
            ReasoningEffort::Custom(id) => id@,
        }
    }

    /// The id of the effort.
    pub fn as_str(&self) -> (id: &str)
        ensures
            id@ == self.id(),
    {
        match self {
            ReasoningEffort::Off => "none",
            ReasoningEffort::Minimal => "minimal",
            ReasoningEffort::Low => "low",
            ReasoningEffort::Medium => "medium",
            ReasoningEffort::High => "high",
            ReasoningEffort::XHigh => "xhigh",
            ReasoningEffort::Custom(id) => id.as_str(),
        }
    }

    /// The effort with the given id: one of the known efforts where the id is
    /// theirs.
    pub fn from_id(id: &str) -> (effort: ReasoningEffort)
        ensures
            effort.id() == id@,
            effort matches ReasoningEffort::Custom(_) ==> id@ != "none"@ && id@ != "minimal"@ && id@
                != "low"@ && id@ != "medium"@ && id@ != "high"@ && id@ != "xhigh"@,
    {
        if same_text(id, "none") {
            ReasoningEffort::Off
        } else if same_text(id, "minimal") {
            ReasoningEffort::Minimal
        } else if same_text(id, "low") {
            ReasoningEffort::Low
        } else if same_text(id, "medium") {
            ReasoningEffort::Medium
        } else if same_text(id, "high") {
            ReasoningEffort::High
        } else if same_text(id, "xhigh") {
            ReasoningEffort::XHigh
        } else {
            ReasoningEffort::Custom(id.to_owned())
        }
    }
}

impl Clone for ReasoningEffort {
    fn clone(&self) -> (copy: Self)
        ensures
            copy == *self,
    {
        match self {
            ReasoningEffort::Off => ReasoningEffort::Off,
            ReasoningEffort::Minimal => ReasoningEffort::Minimal,
            ReasoningEffort::Low => ReasoningEffort::Low,
            ReasoningEffort::Medium => ReasoningEffort::Medium,
            ReasoningEffort::High => ReasoningEffort::High,
            ReasoningEffort::XHigh => ReasoningEffort::XHigh,
            ReasoningEffort::Custom(id) => ReasoningEffort::Custom(id.clone()),
        }
    }
}

/// Two efforts are equal when they have the same id.
impl PartialEq for ReasoningEffort {
    fn eq(&self, other: &ReasoningEffort) -> (same: bool) {
        same_text(self.as_str(), other.as_str())
    }
}

impl vstd::std_specs::cmp::PartialEqSpecImpl for ReasoningEffort {
    open spec fn obeys_eq_spec() -> bool {
        true
    }

    open spec fn eq_spec(&self, other: &ReasoningEffort) -> bool {
        self.id() == other.id()
    }
}

impl Eq for ReasoningEffort {

}

/// Efforts are told apart by their ids: an effort that was made from an id has
/// that id, and the known efforts have the ids that go by their names.
pub proof fn efforts_have_the_ids_they_are_made_from(
    given: &str,
    effort: ReasoningEffort,
    id: &str,
)
    requires
        call_ensures(ReasoningEffort::from_id, (given,), effort),
        call_ensures(ReasoningEffort::as_str, (&effort,), id),
    ensures
        id@ == given@,
        effort is Off <==> given@ == "none"@,
        effort is Minimal <==> given@ == "minimal"@,
        effort is Low <==> given@ == "low"@,
        effort is Medium <==> given@ == "medium"@,
        effort is High <==> given@ == "high"@,
        effort is XHigh <==> given@ == "xhigh"@,
{
    reveal_strlit("none");
    reveal_strlit("minimal");
    reveal_strlit("low");
    reveal_strlit("medium");
    reveal_strlit("high");
    reveal_strlit("xhigh");
    assert("none"@[0] == 'n' && "high"@[0] == 'h');
    assert("none"@.len() == 4 && "minimal"@.len() == 7 && "low"@.len() == 3);
    assert("medium"@.len() == 6 && "high"@.len() == 4 && "xhigh"@.len() == 5);
}

/// Every effort has its id: a known one its name, any other the one it carries.
pub proof fn effort_ids_are_names(effort: ReasoningEffort, id: &str)
    requires
        call_ensures(ReasoningEffort::as_str, (&effort,), id),
    ensures
        id@ == effort.id(),
        effort is Off ==> id@ == "none"@,
        effort is Minimal ==> id@ == "minimal"@,
        effort is Low ==> id@ == "low"@,
        effort is Medium ==> id@ == "medium"@,
        effort is High ==> id@ == "high"@,
        effort is XHigh ==> id@ == "xhigh"@,
        effort matches ReasoningEffort::Custom(own) ==> id@ == own@,
{
}

/// What a model accepts as input.
#[derive(Debug, Clone, Copy, PartialEq, Eq, Structural)]
pub enum InputModality {
    Text,
    Image,
    Audio,
}

/// Which local multi-agent tools a model can drive.
#[derive(Debug, Clone, Copy, PartialEq, Eq, Structural)]
pub enum MultiAgentVersion {
    V1,
    V2,
}

/// Which shell tool a model is given.
#[derive(Debug, Clone, Copy, PartialEq, Eq, Structural)]
pub enum ConfigShellToolType {
    Default,
    Local,
    UnifiedExec,
    Disabled,
    ShellCommand,
}

/// Where a model is shown.
#[derive(Debug, Clone, Copy, PartialEq, Eq, Structural)]
pub enum ModelVisibility {
    List,
    Hide,
    Unlisted,
}

/// How reasoning is summarised.
#[derive(Debug, Clone, Copy, PartialEq, Eq, Structural)]
pub enum ReasoningSummary {
    Auto,
    Concise,
    Detailed,
    Off,
}

/// How wordy a model is asked to be.
#[derive(Debug, Clone, Copy, PartialEq, Eq, Structural)]
pub enum Verbosity {
    Low,
    Medium,
    High,
}

/// How the patch tool is presented.
#[derive(Debug, Clone, Copy, PartialEq, Eq, Structural)]
pub enum ApplyPatchToolType {
    Freeform,
    Function,
}

/// What the web search tool returns.
#[derive(Debug, Clone, Copy, PartialEq, Eq, Structural)]
pub enum WebSearchToolType {
    Text,
    TextAndImage,
}

/// How local tools are offered to a model.
#[derive(Debug, Clone, Copy, PartialEq, Eq, Structural)]
pub enum ToolMode {
    Direct,
    CodeMode,
    CodeModeOnly,
}

/// The unit in which tool output is cut.
#[derive(Debug, Clone, Copy, PartialEq, Eq, Structural)]
pub enum TruncationMode {
    Bytes,
    Tokens,
}

/// How tool output is cut before a model sees it.
#[derive(Debug, Clone, Copy, PartialEq, Eq, Structural)]
pub struct TruncationPolicyConfig {
    pub mode: TruncationMode,
    pub limit: i64,
}

impl TruncationPolicyConfig {
    /// Cut after `limit` bytes.
    pub fn bytes(limit: i64) -> (policy: TruncationPolicyConfig)
        ensures
            policy == (TruncationPolicyConfig { mode: TruncationMode::Bytes, limit }),
    {
        TruncationPolicyConfig { mode: TruncationMode::Bytes, limit }
    }

    /// Cut after `limit` tokens.
    pub fn tokens(limit: i64) -> (policy: TruncationPolicyConfig)
        ensures
            policy == (TruncationPolicyConfig { mode: TruncationMode::Tokens, limit }),
    {
        TruncationPolicyConfig { mode: TruncationMode::Tokens, limit }
    }
}

/// The value that asks for standard routing.
pub const SERVICE_TIER_DEFAULT_REQUEST_VALUE: &'static str = "default";

/// The service tiers that are known by name.
#[derive(Debug, Clone, Copy, PartialEq, Eq, Structural)]
pub enum ServiceTier {
    Fast,
    Flex,
}

impl ServiceTier {
    /// The value that a request carries for the tier.
    pub open spec fn wire_value(&self) -> Seq<char> {
        match self {
            ServiceTier::Fast => "priority"@,
            ServiceTier::Flex => "flex"@,
        }
    }

    /// The tier that a value stands for: its own wire value, or the legacy
    /// spelling `fast`.
    pub open spec fn named_by(value: Seq<char>) -> Option<ServiceTier> {
        if value == "priority"@ || value == "fast"@ {
            Some(ServiceTier::Fast)
        } else if value == "flex"@ {
            Some(ServiceTier::Flex)
        } else {
            None
        }
    }

    /// The value that a request carries for the tier.
    pub fn request_value(self) -> (value: &'static str)
        ensures
            value@ == self.wire_value(),
    {
        match self {
            ServiceTier::Fast => "priority",
            ServiceTier::Flex => "flex",
        }
    }

    /// The tier that `value` stands for.
    pub fn from_request_value(value: &str) -> (tier: Option<ServiceTier>)
        ensures
            tier == ServiceTier::named_by(value@),
    {
        if same_text(value, "priority") || same_text(value, "fast") {
            Some(ServiceTier::Fast)
        } else if same_text(value, "flex") {
            Some(ServiceTier::Flex)
        } else {
            None
        }
    }
}

/// Requests carry `priority` and `flex`. Each is read back as its tier, the old
/// word `fast` as the first of them, and no other value as a tier.
pub proof fn tiers_are_read_back_from_requests(
    tier: ServiceTier,
    value: &'static str,
    given: &str,
    read: Option<ServiceTier>,
)
    requires
        call_ensures(ServiceTier::request_value, (tier,), value),
        call_ensures(ServiceTier::from_request_value, (given,), read),
    ensures
        tier is Fast ==> value@ == "priority"@,
        tier is Flex ==> value@ == "flex"@,
        given@ == value@ ==> read == Some(tier),
        read == Some(ServiceTier::Fast) <==> given@ == "priority"@ || given@ == "fast"@,
        read == Some(ServiceTier::Flex) <==> given@ == "flex"@,
        SERVICE_TIER_DEFAULT_REQUEST_VALUE@ == "default"@,
{
    reveal_strlit("priority");
    reveal_strlit("fast");
    reveal_strlit("flex");
    assert("fast"@[1] == 'a' && "flex"@[1] == 'l');
}

/// Output is cut after so many bytes, or so many tokens, as is asked.
pub proof fn policies_cut_as_asked(
    limit: i64,
    in_bytes: TruncationPolicyConfig,
    in_tokens: TruncationPolicyConfig,
)
    requires
        call_ensures(TruncationPolicyConfig::bytes, (limit,), in_bytes),
        call_ensures(TruncationPolicyConfig::tokens, (limit,), in_tokens),
    ensures
        in_bytes.mode is Bytes && in_bytes.limit == limit,
        in_tokens.mode is Tokens && in_tokens.limit == limit,
{
}

/// One reasoning effort that a model supports.
#[derive(Debug, PartialEq, Eq)]
pub struct ReasoningEffortPreset {
    pub effort: ReasoningEffort,
    pub description: String,
}

impl Clone for ReasoningEffortPreset {
    fn clone(&self) -> (copy: Self)
        ensures
            copy == *self,
    {
        ReasoningEffortPreset {
            effort: self.effort.clone(),
            description: self.description.clone(),
        }
    }
}

/// One service tier that a model supports.
#[derive(Debug, PartialEq, Eq)]
pub struct ModelServiceTier {
    pub id: String,
    pub name: String,
    pub description: String,
}

impl Clone for ModelServiceTier {
    fn clone(&self) -> (copy: Self)
        ensures
            copy == *self,
    {
        ModelServiceTier {
            id: self.id.clone(),
            name: self.name.clone(),
            description: self.description.clone(),
        }
    }
}

/// The personality texts that fill an instructions template.
#[derive(Debug, PartialEq, Eq)]
pub struct ModelInstructionsVariables {
    pub personality_default: Option<String>,
    pub personality_friendly: Option<String>,
    pub personality_pragmatic: Option<String>,
}

impl Clone for ModelInstructionsVariables {
    fn clone(&self) -> (copy: Self)
        ensures
            copy == *self,
    {
        ModelInstructionsVariables {
            personality_default: self.personality_default.clone(),
            personality_friendly: self.personality_friendly.clone(),
            personality_pragmatic: self.personality_pragmatic.clone(),
        }
    }
}

/// The personality prompts that the program ships for a model.
#[derive(Debug, PartialEq, Eq)]
pub struct ModelMessages {
    pub instructions_template: Option<String>,
    pub instructions_variables: Option<ModelInstructionsVariables>,
}

impl Clone for ModelMessages {
    fn clone(&self) -> (copy: Self)
        ensures
            copy == *self,
    {
        ModelMessages {
            instructions_template: self.instructions_template.clone(),
            instructions_variables: self.instructions_variables.clone(),
        }
    }
}

/// The notice that introduces a newly available model.
#[derive(Debug, PartialEq, Eq)]
pub struct ModelAvailabilityNux {
    pub message: String,
}

impl Clone for ModelAvailabilityNux {
    fn clone(&self) -> (copy: Self)
        ensures
            copy == *self,
    {
        ModelAvailabilityNux { message: self.message.clone() }
    }
}

/// The model that a model's metadata recommends in its place.
#[derive(Debug, PartialEq, Eq)]
pub struct ModelInfoUpgrade {
    pub model: String,
    pub migration_markdown: String,
}

/// The model that a picker recommends in the place of another.
#[derive(Debug, PartialEq, Eq)]
pub struct ModelUpgrade {
    pub id: String,
    pub upgrade_copy: Option<String>,
    pub model_link: Option<String>,
    pub migration_markdown: Option<String>,
}

impl Clone for ModelUpgrade {
    fn clone(&self) -> (copy: Self)
        ensures
            copy == *self,
    {
        ModelUpgrade {
            id: self.id.clone(),
            upgrade_copy: self.upgrade_copy.clone(),
            model_link: self.model_link.clone(),
            migration_markdown: self.migration_markdown.clone(),
        }
    }
}

/// Everything the program knows of one model.
#[derive(Debug, PartialEq, Eq)]
pub struct ModelInfo {
    pub slug: String,
    pub display_name: String,
    pub description: Option<String>,
    pub default_reasoning_level: Option<ReasoningEffort>,
    pub supported_reasoning_levels: Vec<ReasoningEffortPreset>,
    pub shell_type: ConfigShellToolType,
    pub visibility: ModelVisibility,
    pub supported_in_api: bool,
    pub priority: i32,
    pub additional_speed_tiers: Vec<String>,
    pub service_tiers: Vec<ModelServiceTier>,
    pub default_service_tier: Option<String>,
    pub availability_nux: Option<ModelAvailabilityNux>,
    pub upgrade: Option<ModelInfoUpgrade>,
    pub base_instructions: String,
    pub model_messages: Option<ModelMessages>,
    pub include_skills_usage_instructions: bool,
    pub supports_reasoning_summary_parameter: bool,
    pub default_reasoning_summary: ReasoningSummary,
    pub support_verbosity: bool,
    pub default_verbosity: Option<Verbosity>,
    pub apply_patch_tool_type: Option<ApplyPatchToolType>,
    pub web_search_tool_type: WebSearchToolType,
    pub truncation_policy: TruncationPolicyConfig,
    pub supports_parallel_tool_calls: bool,
    pub supports_image_detail_original: bool,
    pub context_window: Option<i64>,
    pub max_context_window: Option<i64>,
    pub auto_compact_token_limit: Option<i64>,
    pub comp_hash: Option<String>,
    pub effective_context_window_percent: i64,
    pub experimental_supported_tools: Vec<String>,
    pub input_modalities: Vec<InputModality>,
    pub used_fallback_model_metadata: bool,
    pub supports_search_tool: bool,
    pub use_responses_lite: bool,
    pub auto_review_model_override: Option<String>,
    pub tool_mode: Option<ToolMode>,
    pub multi_agent_version: Option<MultiAgentVersion>,
}

/// A model as a picker offers it.
#[derive(Debug, PartialEq, Eq)]
pub struct ModelPreset {
    pub id: String,
    pub model: String,
    pub display_name: String,
    pub description: String,
    pub default_reasoning_effort: ReasoningEffort,
    pub supported_reasoning_efforts: Vec<ReasoningEffortPreset>,
    pub supports_personality: bool,
    pub additional_speed_tiers: Vec<String>,
    pub service_tiers: Vec<ModelServiceTier>,
    pub default_service_tier: Option<String>,
    pub is_default: bool,
    pub upgrade: Option<ModelUpgrade>,
    pub show_in_picker: bool,
    pub availability_nux: Option<ModelAvailabilityNux>,
    pub input_modalities: Vec<InputModality>,
}

impl ModelPreset {
    /// The two presets hold the same values, field by field and element by
    /// element.
    pub open spec fn same_as(&self, other: &ModelPreset) -> bool {
        &&& self.id == other.id
        &&& self.model == other.model
        &&& self.display_name == other.display_name
        &&& self.description == other.description
        &&& self.default_reasoning_effort == other.default_reasoning_effort
        &&& self.supported_reasoning_efforts@ == other.supported_reasoning_efforts@
        &&& self.supports_personality == other.supports_personality
        &&& self.additional_speed_tiers@ == other.additional_speed_tiers@
        &&& self.service_tiers@ == other.service_tiers@
        &&& self.default_service_tier == other.default_service_tier
        &&& self.is_default == other.is_default
        &&& self.upgrade == other.upgrade
        &&& self.show_in_picker == other.show_in_picker
        &&& self.availability_nux == other.availability_nux
        &&& self.input_modalities@ == other.input_modalities@
    }
}

impl Clone for ModelPreset {
    fn clone(&self) -> (copy: Self)
        ensures
            copy.same_as(self),
    {
        ModelPreset {
            id: self.id.clone(),
            model: self.model.clone(),
            display_name: self.display_name.clone(),
            description: self.description.clone(),
            default_reasoning_effort: self.default_reasoning_effort.clone(),
            supported_reasoning_efforts: self.supported_reasoning_efforts.clone(),
            supports_personality: self.supports_personality,
            additional_speed_tiers: self.additional_speed_tiers.clone(),
            service_tiers: self.service_tiers.clone(),
            default_service_tier: self.default_service_tier.clone(),
            is_default: self.is_default,
            upgrade: self.upgrade.clone(),
            show_in_picker: self.show_in_picker,
            availability_nux: self.availability_nux.clone(),
            input_modalities: self.input_modalities.clone(),
        }
    }
}

} // verus!
