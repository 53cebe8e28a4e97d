//! The catalog entry that a manifest model becomes.

use vstd::prelude::*;

use super::rules::{
    positive_limit, service_tier_command_name, validate_bounded_single_line_text,
    validate_input_modalities, validate_model_visible_token, validate_reasoning_efforts,
    validate_service_tiers, Check,
};
use super::{
    rules, ProviderManifestModel, ProviderManifestServiceTier, MAX_MODEL_DESCRIPTION_BYTES,
    MAX_MODEL_DISPLAY_NAME_BYTES, MAX_MODEL_ID_BYTES,
};
use crate::models::{
    ConfigShellToolType, InputModality, ModelInfo, ModelServiceTier, ModelVisibility,
    MultiAgentVersion, ReasoningEffort, ReasoningEffortPreset, ReasoningSummary, TruncationMode,
    TruncationPolicyConfig, WebSearchToolType,
};
use crate::text;
use crate::text::{blank, same_text};

verus! {

/// The first of the bundled models that has the slug, where one has.
pub open spec fn bundled_for(bundled_models: Seq<ModelInfo>, slug: Seq<char>) -> Option<ModelInfo>
    decreases bundled_models.len(),
{
    if bundled_models.len() == 0 {
        None
    } else {
        match bundled_for(bundled_models.drop_last(), slug) {
            Some(model) => Some(model),
            None => if bundled_models.last().slug@ == slug {
                Some(bundled_models.last())
            } else {
                None
            },
        }
    }
}

/// The model that a reference leads to.
pub open spec fn held(model: Option<&ModelInfo>) -> Option<ModelInfo> {
    match model {
        Some(model) => Some(*model),
        None => None,
    }
}

fn find_bundled<'a>(bundled_models: &'a [ModelInfo], slug: &str) -> (found: Option<&'a ModelInfo>)
    ensures
        held(found) == bundled_for(bundled_models@, slug@),
{
    let mut i: usize = 0;
    while i < bundled_models.len()
        invariant
            i <= bundled_models@.len(),
            bundled_for(bundled_models@.take(i as int), slug@) is None,
        decreases bundled_models@.len() - i,
    {
        proof {
            let now = bundled_models@.take(i + 1);
            assert(now.drop_last() =~= bundled_models@.take(i as int));
            assert(now.last() == bundled_models@[i as int]);
        }
        if same_text(bundled_models[i].slug.as_str(), slug) {
            proof {
                lemma_bundled_for_stays(bundled_models@, slug@, (i + 1) as int);
            }
            return Some(&bundled_models[i]);
        }
        i += 1;
    }
    assert(bundled_models@.take(i as int) =~= bundled_models@);
    None
}

proof fn lemma_bundled_for_stays(bundled_models: Seq<ModelInfo>, slug: Seq<char>, k: int)
    requires
        0 <= k <= bundled_models.len(),
        bundled_for(bundled_models.take(k), slug) is Some,
    ensures
        bundled_for(bundled_models, slug) == bundled_for(bundled_models.take(k), slug),
    decreases bundled_models.len(),
{
    if k < bundled_models.len() {
        assert(bundled_models.drop_last().take(k) =~= bundled_models.take(k));
        lemma_bundled_for_stays(bundled_models.drop_last(), slug, k);
    } else {
        assert(bundled_models.take(k) =~= bundled_models);
    }
}

/// What an entry has from the program itself: the prompt, the way local tools
/// are presented and the way their output is cut. A bundled model of the same
/// slug settles these; without one they are the program's defaults.
pub open spec fn has_local_traits(
    info: ModelInfo,
    bundled: Option<ModelInfo>,
    base_instructions: Seq<char>,
) -> bool {
    match bundled {
        Some(model) => {
            &&& info.shell_type == model.shell_type
            &&& info.base_instructions == model.base_instructions
            &&& info.include_skills_usage_instructions == model.include_skills_usage_instructions
            &&& info.apply_patch_tool_type == model.apply_patch_tool_type
            &&& info.truncation_policy == model.truncation_policy
            &&& info.effective_context_window_percent == model.effective_context_window_percent
            &&& info.tool_mode == model.tool_mode
        },
        None => {
            &&& info.shell_type == ConfigShellToolType::Default
            &&& info.base_instructions@ == base_instructions
            &&& !info.include_skills_usage_instructions
            &&& info.apply_patch_tool_type is None
            &&& info.truncation_policy == (TruncationPolicyConfig {
                mode: TruncationMode::Bytes,
                limit: 10_000,
            })
            &&& info.effective_context_window_percent == 95
            &&& info.tool_mode is None
        },
    }
}

/// What an entry never takes from a bundled model: anything that shapes a
/// request to the provider.
pub open spec fn is_provider_neutral(info: ModelInfo) -> bool {
    &&& info.description is None
    &&& info.supported_in_api
    &&& info.additional_speed_tiers@.len() == 0
    &&& info.default_service_tier is None
    &&& info.availability_nux is None
    &&& info.upgrade is None
    &&& info.supports_reasoning_summary_parameter
    &&& info.default_reasoning_summary == ReasoningSummary::Auto
    &&& !info.support_verbosity
    &&& info.default_verbosity is None
    &&& info.web_search_tool_type == WebSearchToolType::Text
    &&& !info.supports_parallel_tool_calls
    &&& !info.supports_image_detail_original
    &&& info.auto_compact_token_limit is None
    &&& info.comp_hash is None
    &&& info.experimental_supported_tools@.len() == 0
    &&& !info.used_fallback_model_metadata
    &&& !info.supports_search_tool
    &&& !info.use_responses_lite
    &&& info.auto_review_model_override is None
}

/// The personality prompts of the bundled model, where there are any.
pub open spec fn bundled_messages(bundled: Option<ModelInfo>) -> Option<
    crate::models::ModelMessages,
> {
    match bundled {
        Some(model) => model.model_messages,
        None => None,
    }
}

/// Builds a provider-neutral descriptor from metadata that is known locally.
///
/// A manifest may use the slug of a bundled model. The descriptor then keeps
/// what the program itself knows of that model, and nothing that would opt the
/// provider into a wire format that it never advertised.
pub fn safe_provider_manifest_model_info(
    slug: &str,
    bundled_model: Option<&ModelInfo>,
    base_instructions: &str,
) -> (info: ModelInfo)
    ensures
        has_local_traits(info, held(bundled_model), base_instructions@),
        is_provider_neutral(info),
        info.slug@ == slug@,
        info.display_name@ == slug@,
        info.default_reasoning_level is None,
        info.supported_reasoning_levels@.len() == 0,
        info.visibility == ModelVisibility::Unlisted,
        info.priority == 99,
        info.service_tiers@.len() == 0,
        info.model_messages == bundled_messages(held(bundled_model)),
        info.context_window is None,
        info.max_context_window is None,
        info.input_modalities@ == seq![InputModality::Text],
        info.multi_agent_version is None,
{
    ModelInfo {
        slug: slug.to_owned(),
        display_name: slug.to_owned(),
        description: None,
        default_reasoning_level: None,
        supported_reasoning_levels: Vec::new(),
        shell_type: match bundled_model {
            Some(model) => model.shell_type,
            None => ConfigShellToolType::Default,
        },
        visibility: ModelVisibility::Unlisted,
        supported_in_api: true,
        priority: 99,
        additional_speed_tiers: Vec::new(),
        service_tiers: Vec::new(),
        default_service_tier: None,
        availability_nux: None,
        upgrade: None,
        base_instructions: match bundled_model {
            Some(model) => model.base_instructions.clone(),
            None => base_instructions.to_owned(),
        },
        model_messages: match bundled_model {
            Some(model) => model.model_messages.clone(),
            None => None,
        },
        include_skills_usage_instructions: match bundled_model {
            Some(model) => model.include_skills_usage_instructions,
            None => false,
        },
        supports_reasoning_summary_parameter: true,
        default_reasoning_summary: ReasoningSummary::Auto,
        support_verbosity: false,
        default_verbosity: None,
        apply_patch_tool_type: match bundled_model {
            Some(model) => model.apply_patch_tool_type,
            None => None,
        },
        web_search_tool_type: WebSearchToolType::Text,
        truncation_policy: match bundled_model {
            Some(model) => model.truncation_policy,
            None => TruncationPolicyConfig::bytes(10_000),
        },
        supports_parallel_tool_calls: false,
        supports_image_detail_original: false,
        context_window: None,
        max_context_window: None,
        auto_compact_token_limit: None,
        comp_hash: None,
        effective_context_window_percent: match bundled_model {
            Some(model) => model.effective_context_window_percent,
            None => 95,
        },
        experimental_supported_tools: Vec::new(),
        input_modalities: vec![InputModality::Text],
        used_fallback_model_metadata: false,
        supports_search_tool: false,
        use_responses_lite: false,
        auto_review_model_override: None,
        tool_mode: match bundled_model {
            Some(model) => model.tool_mode,
            None => None,
        },
        multi_agent_version: None,
    }
}

/// The first of the presets that is for the effort, where one is.
pub open spec fn preset_for(levels: Seq<ReasoningEffortPreset>, effort: Seq<char>) -> Option<
    ReasoningEffortPreset,
>
    decreases levels.len(),
{
    if levels.len() == 0 {
        None
    } else {
        match preset_for(levels.drop_last(), effort) {
            Some(preset) => Some(preset),
            None => if levels.last().effort.id() == effort {
                Some(levels.last())
            } else {
                None
            },
        }
    }
}

proof fn lemma_preset_for_stays(levels: Seq<ReasoningEffortPreset>, effort: Seq<char>, k: int)
    requires
        0 <= k <= levels.len(),
        preset_for(levels.take(k), effort) is Some,
    ensures
        preset_for(levels, effort) == preset_for(levels.take(k), effort),
    decreases levels.len(),
{
    if k < levels.len() {
        assert(levels.drop_last().take(k) =~= levels.take(k));
        lemma_preset_for_stays(levels.drop_last(), effort, k);
    } else {
        assert(levels.take(k) =~= levels);
    }
}

/// The preset that the model already has for the effort; else one that
/// describes the effort by its id.
pub fn reasoning_preset(model: &ModelInfo, effort: ReasoningEffort) -> (preset:
    ReasoningEffortPreset)
    ensures
        match preset_for(model.supported_reasoning_levels@, effort.id()) {
            Some(known) => preset == known,
            None => preset.effort == effort && preset.description@ == effort.id(),
        },
{
    let levels = &model.supported_reasoning_levels;
    let mut i: usize = 0;
    while i < levels.len()
        invariant
            i <= levels@.len(),
            *levels == model.supported_reasoning_levels,
            preset_for(levels@.take(i as int), effort.id()) is None,
        decreases levels@.len() - i,
    {
        proof {
            let now = levels@.take(i + 1);
            assert(now.drop_last() =~= levels@.take(i as int));
            assert(now.last() == levels@[i as int]);
        }
        if levels[i].effort == effort {
            proof {
                lemma_preset_for_stays(levels@, effort.id(), (i + 1) as int);
            }
            return levels[i].clone();
        }
        i += 1;
    }
    assert(levels@.take(i as int) =~= levels@);
    ReasoningEffortPreset { description: effort.as_str().to_owned(), effort }
}

/// The tier of a catalog entry that a manifest tier becomes.
pub open spec fn is_tier_entry(tier: ProviderManifestServiceTier, entry: ModelServiceTier) -> bool {
    &&& entry.id == tier.id
    &&& entry.name@ == rules::command_name(tier.id@)
    &&& entry.description == tier.description
}

/// Turns a manifest tier into the tier of a catalog entry.
///
/// Tier names become commands. The name is therefore derived here from the id;
/// the manifest's own name for the tier never creates or shadows a command.
pub fn to_service_tier(service_tier: ProviderManifestServiceTier) -> (result: Result<
    ModelServiceTier,
    String,
>)
    ensures
        result matches Ok(entry) && is_tier_entry(service_tier, entry),
{
    let name = service_tier_command_name(service_tier.id.as_str());
    Ok(ModelServiceTier { id: service_tier.id, name, description: service_tier.description })
}

/// The texts in the list.
pub open spec fn texts(list: Seq<String>) -> Seq<Seq<char>> {
    list.map_values(|item: String| item@)
}

/// The limit by which requests to the model are sized: the smaller of the
/// limits that the manifest gives.
pub open spec fn usable_limit(model: ProviderManifestModel) -> Option<i64> {
    match (model.context_window, model.max_input_tokens) {
        (Some(window), Some(input)) => Some(
            if window <= input {
                window
            } else {
                input
            },
        ),
        (Some(window), None) => Some(window),
        (None, limit) => limit,
    }
}

/// What the manifest says of the model in words: its id and its prose.
pub open spec fn identity_check(model: ProviderManifestModel) -> Check {
    rules::both(
        rules::token_check("model id"@, model.id@, MAX_MODEL_ID_BYTES as nat),
        rules::both(
            rules::prose_check(
                "model display_name"@,
                model.display_name@,
                MAX_MODEL_DISPLAY_NAME_BYTES as nat,
            ),
            rules::prose_check(
                "model description"@,
                model.description@,
                MAX_MODEL_DESCRIPTION_BYTES as nat,
            ),
        ),
    )
}

/// The id of the model is sound, and no earlier model has it.
pub open spec fn is_admitted(model: ProviderManifestModel, seen_ids: Seq<Seq<char>>) -> bool {
    identity_check(model) is Ok && !seen_ids.contains(model.id@)
}

/// The default effort is one of the supported ones.
pub open spec fn default_effort_check(model: ProviderManifestModel) -> Check {
    match model.default_reasoning_effort {
        Some(effort) if !rules::effort_ids(model.supported_reasoning_efforts@).contains(
            effort.id(),
        ) => Err(
            rules::model_message(model.id@, " has an unsupported default_reasoning_effort"@),
        ),
        _ => Ok(()),
    }
}

/// Every rule that a manifest model at place `priority` is held to, where
/// `seen_ids` are the ids before it.
pub open spec fn model_check(
    model: ProviderManifestModel,
    priority: nat,
    seen_ids: Seq<Seq<char>>,
) -> Check {
    rules::both(
        identity_check(model),
        rules::both(
            if seen_ids.contains(model.id@) {
                Err("provider manifest contains duplicate model id "@ + model.id@)
            } else {
                Ok(())
            },
            rules::both(
                rules::efforts_check(model),
                rules::both(
                    rules::tiers_check(model),
                    rules::both(
                        rules::modalities_check(model),
                        rules::both(
                            rules::limit_check("context_window"@, model.context_window),
                            rules::both(
                                rules::limit_check("max_input_tokens"@, model.max_input_tokens),
                                rules::both(
                                    default_effort_check(model),
                                    if usable_limit(model) is None {
                                        Err(
                                            rules::model_message(
                                                model.id@,
                                                " must specify context_window or max_input_tokens"@,
                                            ),
                                        )
                                    } else if priority > i32::MAX {
                                        Err("provider manifest contains too many models"@)
                                    } else {
                                        Ok(())
                                    },
                                ),
                            ),
                        ),
                    ),
                ),
            ),
        ),
    )
}

/// The version of the local multi-agent tools that an entry is marked with. The
/// manifest's own word comes first, then that of the bundled model; a model
/// that only the provider knows gets the current version.
pub open spec fn agent_version(
    model: ProviderManifestModel,
    bundled: Option<ModelInfo>,
) -> Option<MultiAgentVersion> {
    match (model.multi_agent_version, bundled) {
        (Some(version), _) => Some(version),
        (None, Some(known)) => known.multi_agent_version,
        (None, None) => Some(MultiAgentVersion::V2),
    }
}

/// The catalog entry that a sound manifest model at place `priority` becomes.
pub open spec fn is_entry(
    model: ProviderManifestModel,
    priority: nat,
    bundled_models: Seq<ModelInfo>,
    base_instructions: Seq<char>,
    info: ModelInfo,
) -> bool {
    let bundled = bundled_for(bundled_models, model.id@);
    &&& has_local_traits(info, bundled, base_instructions)
    &&& is_provider_neutral(info)
    &&& info.slug == model.id
    &&& info.display_name@ == if text::is_blank(model.display_name@) {
        model.id@
    } else {
        model.display_name@
    }
    &&& info.default_reasoning_level == model.default_reasoning_effort
    &&& info.supported_reasoning_levels@.len() == model.supported_reasoning_efforts@.len()
    &&& forall|i: int|
        0 <= i < info.supported_reasoning_levels@.len() ==> {
            let level = #[trigger] info.supported_reasoning_levels@[i];
            &&& level.effort == model.supported_reasoning_efforts@[i]
            &&& level.description@ == level.effort.id()
        }
    &&& info.visibility == ModelVisibility::List
    &&& info.priority == priority
    &&& info.service_tiers@.len() == model.service_tiers@.len()
    &&& forall|i: int|
        0 <= i < info.service_tiers@.len() ==> is_tier_entry(
            model.service_tiers@[i],
            #[trigger] info.service_tiers@[i],
        )
    &&& info.input_modalities@ == model.input_modalities@
    &&& info.context_window == usable_limit(model)
    &&& info.max_context_window == usable_limit(model)
    &&& info.model_messages == if model.supports_personality {
        bundled_messages(bundled)
    } else {
        None
    }
    &&& info.multi_agent_version == agent_version(model, bundled)
}

fn has_text(list: &Vec<String>, item: &str) -> (yes: bool)
    ensures
        yes == texts(list@).contains(item@),
{
    let mut i: usize = 0;
    while i < list.len()
        invariant
            i <= list@.len(),
            forall|j: int| 0 <= j < i ==> #[trigger] texts(list@)[j] != item@,
        decreases list@.len() - i,
    {
        if same_text(list[i].as_str(), item) {
            assert(texts(list@)[i as int] == item@);
            return true;
        }
        i += 1;
    }
    false
}

fn supports_effort(efforts: &Vec<ReasoningEffort>, effort: &ReasoningEffort) -> (yes: bool)
    ensures
        yes == rules::effort_ids(efforts@).contains(effort.id()),
{
    let mut i: usize = 0;
    while i < efforts.len()
        invariant
            i <= efforts@.len(),
            forall|j: int|
                0 <= j < i ==> #[trigger] rules::effort_ids(efforts@)[j] != effort.id(),
        decreases efforts@.len() - i,
    {
        if efforts[i] == *effort {
            assert(rules::effort_ids(efforts@)[i as int] == effort.id());
            return true;
        }
        i += 1;
    }
    false
}

fn level_presets(model: &ModelInfo, efforts: &Vec<ReasoningEffort>) -> (levels: Vec<
    ReasoningEffortPreset,
>)
    requires
        model.supported_reasoning_levels@.len() == 0,
    ensures
        levels@.len() == efforts@.len(),
        forall|i: int|
            0 <= i < levels@.len() ==> {
                let level = #[trigger] levels@[i];
                &&& level.effort == efforts@[i]
                &&& level.description@ == level.effort.id()
            },
{
    let mut levels: Vec<ReasoningEffortPreset> = Vec::new();
    let mut i: usize = 0;
    while i < efforts.len()
        invariant
            model.supported_reasoning_levels@.len() == 0,
            i <= efforts@.len(),
            levels@.len() == i,
            forall|j: int|
                0 <= j < i ==> {
                    let level = #[trigger] levels@[j];
                    &&& level.effort == efforts@[j]
                    &&& level.description@ == level.effort.id()
                },
        decreases efforts@.len() - i,
    {
        levels.push(reasoning_preset(model, efforts[i].clone()));
        i += 1;
    }
    levels
}

fn tier_entries(tiers: Vec<ProviderManifestServiceTier>) -> (result: Result<
    Vec<ModelServiceTier>,
    String,
>)
    ensures
        result matches Ok(entries) && entries@.len() == tiers@.len() && forall|i: int|
            0 <= i < entries@.len() ==> is_tier_entry(tiers@[i], #[trigger] entries@[i]),
{
    let mut entries: Vec<ModelServiceTier> = Vec::new();
    for tier in it: tiers
        invariant
            it.seq() == tiers@,
            entries@.len() == it.index(),
            forall|i: int|
                0 <= i < entries@.len() ==> is_tier_entry(tiers@[i], #[trigger] entries@[i]),
    {
        entries.push(to_service_tier(tier)?);
    }
    Ok(entries)
}

/// Holds a manifest model to the rules and turns it into a catalog entry.
///
/// `seen_ids` holds the ids of the models before it, and receives its own.
pub fn to_model_info(
    manifest_model: ProviderManifestModel,
    priority: usize,
    bundled_models: &[ModelInfo],
    base_instructions: &str,
    seen_ids: &mut Vec<String>,
) -> (result: Result<ModelInfo, String>)
    ensures
        match result {
            Ok(info) => {
                &&& model_check(manifest_model, priority as nat, texts(old(seen_ids)@)) is Ok
                &&& is_entry(
                    manifest_model,
                    priority as nat,
                    bundled_models@,
                    base_instructions@,
                    info,
                )
            },
            Err(message) => model_check(manifest_model, priority as nat, texts(old(seen_ids)@))
                == Err::<(), _>(message@),
        },
        texts(final(seen_ids)@) == if is_admitted(manifest_model, texts(old(seen_ids)@)) {
            texts(old(seen_ids)@).push(manifest_model.id@)
        } else {
            texts(old(seen_ids)@)
        },
{
    validate_model_visible_token("model id", manifest_model.id.as_str(), MAX_MODEL_ID_BYTES)?;
    validate_bounded_single_line_text(
        "model display_name",
        manifest_model.display_name.as_str(),
        MAX_MODEL_DISPLAY_NAME_BYTES,
    )?;
    validate_bounded_single_line_text(
        "model description",
        manifest_model.description.as_str(),
        MAX_MODEL_DESCRIPTION_BYTES,
    )?;
    if has_text(seen_ids, manifest_model.id.as_str()) {
        return Err(
            "provider manifest contains duplicate model id ".to_owned().concat(
                manifest_model.id.as_str(),
            ),
        );
    }
    let ghost seen = texts(seen_ids@);
    seen_ids.push(manifest_model.id.clone());
    assert(texts(seen_ids@) =~= seen.push(manifest_model.id@));
    validate_reasoning_efforts(&manifest_model)?;
    validate_service_tiers(&manifest_model)?;
    validate_input_modalities(&manifest_model)?;

    let context_window = positive_limit("context_window", manifest_model.context_window)?;
    let max_input_tokens = positive_limit("max_input_tokens", manifest_model.max_input_tokens)?;
    if let Some(effort) = &manifest_model.default_reasoning_effort {
        if !supports_effort(&manifest_model.supported_reasoning_efforts, effort) {
            return Err(
                rules::model_text(
                    manifest_model.id.as_str(),
                    " has an unsupported default_reasoning_effort",
                ),
            );
        }
    }
    // Requests are compacted by this limit, so an entry without any could not
    // be used safely. The smaller one is kept: a prompt that fits it is never
    // rejected by the provider for its length.
    let resolved_context_window = match (context_window, max_input_tokens) {
        (Some(window), Some(input)) => if window <= input {
            window
        } else {
            input
        },
        (Some(window), None) => window,
        (None, Some(input)) => input,
        (None, None) => {
            return Err(
                rules::model_text(
                    manifest_model.id.as_str(),
                    " must specify context_window or max_input_tokens",
                ),
            );
        },
    };
    if priority > i32::MAX as usize {
        return Err("provider manifest contains too many models".to_owned());
    }
    let bundled_model = find_bundled(bundled_models, manifest_model.id.as_str());
    let mut model = safe_provider_manifest_model_info(
        manifest_model.id.as_str(),
        bundled_model,
        base_instructions,
    );
    model.display_name = if blank(manifest_model.display_name.as_str()) {
        manifest_model.id.clone()
    } else {
        manifest_model.display_name
    };
    model.slug = manifest_model.id;
    model.default_reasoning_level = manifest_model.default_reasoning_effort;
    model.supported_reasoning_levels =
    level_presets(&model, &manifest_model.supported_reasoning_efforts);
    model.visibility = ModelVisibility::List;
    model.priority = priority as i32;
    model.service_tiers = tier_entries(manifest_model.service_tiers)?;
    model.input_modalities = manifest_model.input_modalities;
    model.context_window = Some(resolved_context_window);
    model.max_context_window = Some(resolved_context_window);
    // Personality prompts are local. A manifest can leave one out, never bring
    // one in.
    if !manifest_model.supports_personality {
        model.model_messages = None;
    }
    model.multi_agent_version =
    match manifest_model.multi_agent_version {
        Some(version) => Some(version),
        None => match bundled_model {
            Some(known) => known.multi_agent_version,
            None => Some(MultiAgentVersion::V2),
        },
    };
    Ok(model)
}

} // verus!
