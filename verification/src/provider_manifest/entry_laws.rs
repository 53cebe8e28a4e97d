//! What stands in the entries of a catalog, field by field: what comes from the
//! manifest, what from a bundled model, and what from neither.

use vstd::prelude::*;

use super::{
    catalog, catalog_laws, entry, rule_laws, ProviderManifest, ProviderManifestModel,
    ProviderManifestServiceTier,
};
use crate::models::{
    ConfigShellToolType, InputModality, ModelInfo, ModelServiceTier, ModelVisibility,
    MultiAgentVersion, ReasoningEffort, ReasoningEffortPreset, ReasoningSummary, TruncationMode,
    WebSearchToolType,
};
use crate::text;
use crate::text_laws;

verus! {

proof fn lemma_entry<D: FnOnce(&[u8]) -> Result<ProviderManifest, String>>(
    body: &[u8],
    decode: D,
    manifest: ProviderManifest,
    bundled: Vec<ModelInfo>,
    base_instructions: &str,
    models: Vec<ModelInfo>,
    i: int,
)
    requires
        call_ensures(
            catalog::parse_provider_manifest::<D>,
            (body, decode, Ok(bundled), base_instructions),
            Ok(models),
        ),
        body@.len() <= 262_144,
        forall|made: Result<ProviderManifest, String>|
            decode.ensures((body,), made) ==> (made matches Ok(found) && found == manifest),
        0 <= i < manifest.models@.len(),
    ensures
        models@.len() == manifest.models@.len(),
        catalog_laws::is_sound_model(manifest.models@[i]),
        entry::is_entry(
            manifest.models@[i],
            i as nat,
            bundled@,
            base_instructions@,
            models@[i],
        ),
{
    catalog_laws::sound_manifests_and_no_others_are_accepted(
        body,
        decode,
        manifest,
        bundled,
        base_instructions,
        Ok(models),
    );
}

/// Every model of the manifest has an entry, at its own place, and there are no
/// other entries. The entry takes the id, the efforts, the tiers, the modalities
/// and the smaller limit from the manifest. A model without a display name is
/// shown under its id.
pub proof fn entries_say_what_the_manifest_says<
    D: FnOnce(&[u8]) -> Result<ProviderManifest, String>,
>(
    body: &[u8],
    decode: D,
    manifest: ProviderManifest,
    bundled: Vec<ModelInfo>,
    base_instructions: &str,
    models: Vec<ModelInfo>,
    i: int,
)
    requires
        call_ensures(
            catalog::parse_provider_manifest::<D>,
            (body, decode, Ok(bundled), base_instructions),
            Ok(models),
        ),
        body@.len() <= 262_144,
        forall|made: Result<ProviderManifest, String>|
            decode.ensures((body,), made) ==> (made matches Ok(found) && found == manifest),
        0 <= i < manifest.models@.len(),
    ensures
        models@.len() == manifest.models@.len(),
        models@[i].slug@ == manifest.models@[i].id@,
        models@[i].display_name@ == (if manifest.models@[i].display_name@.len() == 0 {
            manifest.models@[i].id@
        } else {
            manifest.models@[i].display_name@
        }),
        models@[i].priority == i,
        models@[i].visibility == ModelVisibility::List,
        models@[i].default_reasoning_level == manifest.models@[i].default_reasoning_effort,
        models@[i].supported_reasoning_levels@.len()
            == manifest.models@[i].supported_reasoning_efforts@.len(),
        forall|k: int|
            #![trigger models@[i].supported_reasoning_levels@[k]]
            0 <= k < models@[i].supported_reasoning_levels@.len() ==> {
                &&& models@[i].supported_reasoning_levels@[k].effort
                    == manifest.models@[i].supported_reasoning_efforts@[k]
                &&& models@[i].supported_reasoning_levels@[k].description@
                    == manifest.models@[i].supported_reasoning_efforts@[k].id()
            },
        models@[i].service_tiers@.len() == manifest.models@[i].service_tiers@.len(),
        forall|k: int|
            #![trigger models@[i].service_tiers@[k]]
            0 <= k < models@[i].service_tiers@.len() ==> {
                let given = manifest.models@[i].service_tiers@[k];
                &&& models@[i].service_tiers@[k].id@ == given.id@
                &&& models@[i].service_tiers@[k].description@ == given.description@
                &&& models@[i].service_tiers@[k].name@ == (if given.id@ == "priority"@ {
                    "fast"@
                } else if given.id@ == "flex"@ {
                    "flex"@
                } else {
                    "tier-"@ + given.id@
                })
            },
        models@[i].input_modalities@ == manifest.models@[i].input_modalities@,
        models@[i].context_window == (match (
            manifest.models@[i].context_window,
            manifest.models@[i].max_input_tokens,
        ) {
            (Some(window), Some(input)) => Some(
                if input < window {
                    input
                } else {
                    window
                },
            ),
            (Some(window), None) => Some(window),
            (None, Some(input)) => Some(input),
            (None, None) => None,
        }),
        models@[i].max_context_window == models@[i].context_window,
{
    lemma_entry(body, decode, manifest, bundled, base_instructions, models, i);
    let model = manifest.models@[i];
    let shown = model.display_name@;
    assert(text::is_blank(shown) <==> shown.len() == 0) by {
        if shown.len() > 0 && text::is_blank(shown) {
            assert(text::is_white_space(shown[0]));
            assert(text_laws::is_space_code(shown[0] as int));
        }
    }
    assert forall|k: int|
        #![trigger models@[i].service_tiers@[k]]
        0 <= k < models@[i].service_tiers@.len() implies {
        let given = manifest.models@[i].service_tiers@[k];
        &&& models@[i].service_tiers@[k].id@ == given.id@
        &&& models@[i].service_tiers@[k].description@ == given.description@
        &&& models@[i].service_tiers@[k].name@ == (if given.id@ == "priority"@ {
            "fast"@
        } else if given.id@ == "flex"@ {
            "flex"@
        } else {
            "tier-"@ + given.id@
        })
    } by {
        assert(entry::is_tier_entry(model.service_tiers@[k], models@[i].service_tiers@[k]));
    }
}

/// What an entry has from neither side: no prose, no hosted tools, no wire
/// format of another provider, no life of its own.
pub proof fn entries_are_provider_neutral<
    D: FnOnce(&[u8]) -> Result<ProviderManifest, String>,
>(
    body: &[u8],
    decode: D,
    manifest: ProviderManifest,
    bundled: Vec<ModelInfo>,
    base_instructions: &str,
    models: Vec<ModelInfo>,
    i: int,
)
    requires
        call_ensures(
            catalog::parse_provider_manifest::<D>,
            (body, decode, Ok(bundled), base_instructions),
            Ok(models),
        ),
        body@.len() <= 262_144,
        forall|made: Result<ProviderManifest, String>|
            decode.ensures((body,), made) ==> (made matches Ok(found) && found == manifest),
        0 <= i < models@.len(),
    ensures
        models@[i].description is None,
        models@[i].supported_in_api,
        models@[i].additional_speed_tiers@.len() == 0,
        models@[i].default_service_tier is None,
        models@[i].availability_nux is None,
        models@[i].upgrade is None,
        models@[i].supports_reasoning_summary_parameter,
        models@[i].default_reasoning_summary == ReasoningSummary::Auto,
        !models@[i].support_verbosity,
        models@[i].default_verbosity is None,
        models@[i].web_search_tool_type == WebSearchToolType::Text,
        !models@[i].supports_parallel_tool_calls,
        !models@[i].supports_image_detail_original,
        models@[i].auto_compact_token_limit is None,
        models@[i].comp_hash is None,
        models@[i].experimental_supported_tools@.len() == 0,
        !models@[i].used_fallback_model_metadata,
        !models@[i].supports_search_tool,
        !models@[i].use_responses_lite,
        models@[i].auto_review_model_override is None,
{
    catalog_laws::sound_manifests_and_no_others_are_accepted(
        body,
        decode,
        manifest,
        bundled,
        base_instructions,
        Ok(models),
    );
}

pub(crate) proof fn lemma_no_bundled(bundled: Seq<ModelInfo>, slug: Seq<char>)
    requires
        forall|k: int| 0 <= k < bundled.len() ==> (#[trigger] bundled[k]).slug@ != slug,
    ensures
        entry::bundled_for(bundled, slug) is None,
    decreases bundled.len(),
{
    if bundled.len() > 0 {
        assert(bundled[bundled.len() - 1].slug@ != slug);
        assert forall|k: int| 0 <= k < bundled.drop_last().len() implies (
        #[trigger] bundled.drop_last()[k]).slug@ != slug by {
            assert(bundled[k].slug@ != slug);
        }
        lemma_no_bundled(bundled.drop_last(), slug);
    }
}

pub(crate) proof fn lemma_first_bundled(bundled: Seq<ModelInfo>, slug: Seq<char>, j: int)
    requires
        0 <= j < bundled.len(),
        bundled[j].slug@ == slug,
        forall|k: int| 0 <= k < j ==> (#[trigger] bundled[k]).slug@ != slug,
    ensures
        entry::bundled_for(bundled, slug) == Some(bundled[j]),
    decreases bundled.len(),
{
    let rest = bundled.drop_last();
    if j < bundled.len() - 1 {
        assert(rest[j] == bundled[j]);
        assert forall|k: int| 0 <= k < j implies (#[trigger] rest[k]).slug@ != slug by {
            assert(bundled[k].slug@ != slug);
        }
        lemma_first_bundled(rest, slug, j);
    } else {
        assert forall|k: int| 0 <= k < rest.len() implies (#[trigger] rest[k]).slug@ != slug by {
            assert(bundled[k].slug@ != slug);
        }
        lemma_no_bundled(rest, slug);
    }
}

/// Where no bundled model has the slug of an entry, letter for letter, the entry
/// has the program's defaults and no personality.
pub proof fn unknown_models_get_the_defaults<
    D: FnOnce(&[u8]) -> Result<ProviderManifest, String>,
>(
    body: &[u8],
    decode: D,
    manifest: ProviderManifest,
    bundled: Vec<ModelInfo>,
    base_instructions: &str,
    models: Vec<ModelInfo>,
    i: int,
)
    requires
        call_ensures(
            catalog::parse_provider_manifest::<D>,
            (body, decode, Ok(bundled), base_instructions),
            Ok(models),
        ),
        body@.len() <= 262_144,
        forall|made: Result<ProviderManifest, String>|
            decode.ensures((body,), made) ==> (made matches Ok(found) && found == manifest),
        0 <= i < models@.len(),
        forall|k: int|
            0 <= k < bundled@.len() ==> (#[trigger] bundled@[k]).slug@ != models@[i].slug@,
    ensures
        models@[i].base_instructions@ == base_instructions@,
        models@[i].shell_type == ConfigShellToolType::Default,
        !models@[i].include_skills_usage_instructions,
        models@[i].apply_patch_tool_type is None,
        models@[i].truncation_policy.mode == TruncationMode::Bytes,
        models@[i].truncation_policy.limit == 10_000,
        models@[i].effective_context_window_percent == 95,
        models@[i].tool_mode is None,
        models@[i].model_messages is None,
        models@[i].multi_agent_version == (match manifest.models@[i].multi_agent_version {
            Some(version) => Some(version),
            None => Some(MultiAgentVersion::V2),
        }),
{
    catalog_laws::sound_manifests_and_no_others_are_accepted(
        body,
        decode,
        manifest,
        bundled,
        base_instructions,
        Ok(models),
    );
    assert(models@.len() == manifest.models@.len());
    lemma_entry(body, decode, manifest, bundled, base_instructions, models, i);
    lemma_no_bundled(bundled@, models@[i].slug@);
}

/// Where bundled models have the slug of an entry, letter for letter, the entry
/// has the local traits of the first of them, and its personality where the
/// manifest claims support for one.
pub proof fn known_models_keep_their_local_traits<
    D: FnOnce(&[u8]) -> Result<ProviderManifest, String>,
>(
    body: &[u8],
    decode: D,
    manifest: ProviderManifest,
    bundled: Vec<ModelInfo>,
    base_instructions: &str,
    models: Vec<ModelInfo>,
    i: int,
    j: int,
)
    requires
        call_ensures(
            catalog::parse_provider_manifest::<D>,
            (body, decode, Ok(bundled), base_instructions),
            Ok(models),
        ),
        body@.len() <= 262_144,
        forall|made: Result<ProviderManifest, String>|
            decode.ensures((body,), made) ==> (made matches Ok(found) && found == manifest),
        0 <= i < models@.len(),
        0 <= j < bundled@.len(),
        bundled@[j].slug@ == models@[i].slug@,
        forall|k: int| 0 <= k < j ==> (#[trigger] bundled@[k]).slug@ != models@[i].slug@,
    ensures
        models@[i].base_instructions@ == bundled@[j].base_instructions@,
        models@[i].shell_type == bundled@[j].shell_type,
        models@[i].include_skills_usage_instructions
            == bundled@[j].include_skills_usage_instructions,
        models@[i].apply_patch_tool_type == bundled@[j].apply_patch_tool_type,
        models@[i].truncation_policy == bundled@[j].truncation_policy,
        models@[i].effective_context_window_percent == bundled@[j].effective_context_window_percent,
        models@[i].tool_mode == bundled@[j].tool_mode,
        manifest.models@[i].supports_personality ==> models@[i].model_messages
            == bundled@[j].model_messages,
        !manifest.models@[i].supports_personality ==> models@[i].model_messages is None,
        models@[i].multi_agent_version == (match manifest.models@[i].multi_agent_version {
            Some(version) => Some(version),
            None => bundled@[j].multi_agent_version,
        }),
{
    catalog_laws::sound_manifests_and_no_others_are_accepted(
        body,
        decode,
        manifest,
        bundled,
        base_instructions,
        Ok(models),
    );
    assert(models@.len() == manifest.models@.len());
    lemma_entry(body, decode, manifest, bundled, base_instructions, models, i);
    lemma_first_bundled(bundled@, models@[i].slug@, j);
}

/// A model becomes an entry exactly when it is sound, no earlier model has its
/// id, and its place is a number that an entry can hold.
pub proof fn models_become_entries_when_sound_and_new(
    model: ProviderManifestModel,
    priority: usize,
    bundled: &[ModelInfo],
    base_instructions: &str,
    seen_ids: &mut Vec<String>,
    result: Result<ModelInfo, String>,
)
    requires
        call_ensures(
            entry::to_model_info,
            (model, priority, bundled, base_instructions, seen_ids),
            result,
        ),
    ensures
        result is Ok <==> {
            &&& catalog_laws::is_sound_model(model)
            &&& forall|k: int|
                0 <= k < old(seen_ids)@.len() ==> (#[trigger] old(seen_ids)@[k])@ != model.id@
            &&& priority <= 2_147_483_647
        },
        result matches Ok(info) ==> info.slug@ == model.id@ && info.priority == priority,
        result matches Err(message) ==> if !catalog_laws::is_sound_model(model) || (exists|k: int|
            0 <= k < old(seen_ids)@.len() && (#[trigger] old(seen_ids)@[k])@ == model.id@) {
            catalog_laws::is_model_complaint(
                model,
                exists|k: int|
                    0 <= k < old(seen_ids)@.len() && (#[trigger] old(seen_ids)@[k])@ == model.id@,
                message@,
            )
        } else {
            message@ == "provider manifest contains too many models"@
        },
{
    let seen = entry::texts(old(seen_ids)@);
    lemma_seen_texts(old(seen_ids)@, model.id@);
    catalog_laws::lemma_model_rule(model, 0, seen);
}

proof fn lemma_seen_texts(list: Seq<String>, id: Seq<char>)
    ensures
        entry::texts(list).contains(id) <==> exists|k: int|
            0 <= k < list.len() && (#[trigger] list[k])@ == id,
{
    let seen = entry::texts(list);
    if seen.contains(id) {
        let k = choose|k: int| 0 <= k < seen.len() && seen[k] == id;
        assert(list[k]@ == id);
    }
    if exists|k: int| 0 <= k < list.len() && (#[trigger] list[k])@ == id {
        let k = choose|k: int| 0 <= k < list.len() && (#[trigger] list[k])@ == id;
        assert(seen[k] == id);
    }
}

/// The ids that were seen stay, in order. The id of the model is added behind
/// them exactly when it is new and the model's id and prose are sound, whatever
/// else is wrong with it.
pub proof fn seen_ids_only_grow(
    model: ProviderManifestModel,
    priority: usize,
    bundled: &[ModelInfo],
    base_instructions: &str,
    seen_ids: &mut Vec<String>,
    result: Result<ModelInfo, String>,
)
    requires
        call_ensures(
            entry::to_model_info,
            (model, priority, bundled, base_instructions, seen_ids),
            result,
        ),
    ensures
        forall|k: int|
            0 <= k < old(seen_ids)@.len() ==> k < final(seen_ids)@.len() && (
            #[trigger] final(seen_ids)@[k])@ == old(seen_ids)@[k]@,
        ({
            &&& rule_laws::is_id(model.id@, 64)
            &&& rule_laws::is_prose(model.display_name@, 128)
            &&& rule_laws::is_prose(model.description@, 512)
            &&& forall|k: int|
                0 <= k < old(seen_ids)@.len() ==> (#[trigger] old(seen_ids)@[k])@ != model.id@
        }) ==> final(seen_ids)@.len() == old(seen_ids)@.len() + 1 && final(seen_ids)@.last()@
            == model.id@,
        !({
            &&& rule_laws::is_id(model.id@, 64)
            &&& rule_laws::is_prose(model.display_name@, 128)
            &&& rule_laws::is_prose(model.description@, 512)
            &&& forall|k: int|
                0 <= k < old(seen_ids)@.len() ==> (#[trigger] old(seen_ids)@[k])@ != model.id@
        }) ==> final(seen_ids)@.len() == old(seen_ids)@.len(),
{
    let before = entry::texts(old(seen_ids)@);
    let after = entry::texts(final(seen_ids)@);
    lemma_seen_texts(old(seen_ids)@, model.id@);
    rule_laws::lemma_token_rule("model id"@, model.id@, 64);
    rule_laws::lemma_prose_rule("model display_name"@, model.display_name@, 128);
    rule_laws::lemma_prose_rule("model description"@, model.description@, 512);
    assert(after.len() == final(seen_ids)@.len() && before.len() == old(seen_ids)@.len());
    assert forall|k: int| 0 <= k < old(seen_ids)@.len() implies k < final(seen_ids)@.len() && (
    #[trigger] final(seen_ids)@[k])@ == old(seen_ids)@[k]@ by {
        assert(after[k] == before[k]);
    }
    if after.len() == before.len() + 1 {
        assert(after[after.len() - 1] == model.id@);
    }
}

/// A descriptor says nothing but its slug before a manifest fills it in: it is
/// hidden, last, without efforts, tiers or limits, and for text alone.
pub proof fn descriptors_start_out_plain(
    slug: &str,
    bundled_model: Option<&ModelInfo>,
    base_instructions: &str,
    info: ModelInfo,
)
    requires
        call_ensures(
            entry::safe_provider_manifest_model_info,
            (slug, bundled_model, base_instructions),
            info,
        ),
    ensures
        info.slug@ == slug@,
        info.display_name@ == slug@,
        info.description is None,
        info.default_reasoning_level is None,
        info.supported_reasoning_levels@.len() == 0,
        info.visibility == ModelVisibility::Unlisted,
        info.supported_in_api,
        info.priority == 99,
        info.additional_speed_tiers@.len() == 0,
        info.service_tiers@.len() == 0,
        info.default_service_tier is None,
        info.availability_nux is None,
        info.upgrade is None,
        info.supports_reasoning_summary_parameter,
        info.default_reasoning_summary == ReasoningSummary::Auto,
        !info.support_verbosity,
        info.default_verbosity is None,
        info.web_search_tool_type == WebSearchToolType::Text,
        !info.supports_parallel_tool_calls,
        !info.supports_image_detail_original,
        info.context_window is None,
        info.max_context_window is None,
        info.auto_compact_token_limit is None,
        info.comp_hash is None,
        info.experimental_supported_tools@.len() == 0,
        info.input_modalities@.len() == 1,
        info.input_modalities@[0] == InputModality::Text,
        !info.used_fallback_model_metadata,
        !info.supports_search_tool,
        !info.use_responses_lite,
        info.auto_review_model_override is None,
        info.multi_agent_version is None,
{
}

/// A descriptor has its local traits from the bundled model where there is one,
/// and from the program's defaults where there is none.
pub proof fn descriptors_take_local_traits_from_the_bundle(
    slug: &str,
    bundled_model: Option<&ModelInfo>,
    base_instructions: &str,
    info: ModelInfo,
)
    requires
        call_ensures(
            entry::safe_provider_manifest_model_info,
            (slug, bundled_model, base_instructions),
            info,
        ),
    ensures
        bundled_model matches Some(known) ==> {
            &&& info.base_instructions@ == known.base_instructions@
            &&& info.shell_type == known.shell_type
            &&& info.model_messages == known.model_messages
            &&& info.include_skills_usage_instructions == known.include_skills_usage_instructions
            &&& info.apply_patch_tool_type == known.apply_patch_tool_type
            &&& info.truncation_policy == known.truncation_policy
            &&& info.effective_context_window_percent == known.effective_context_window_percent
            &&& info.tool_mode == known.tool_mode
        },
        bundled_model is None ==> {
            &&& info.base_instructions@ == base_instructions@
            &&& info.shell_type == ConfigShellToolType::Default
            &&& info.model_messages is None
            &&& !info.include_skills_usage_instructions
            &&& info.apply_patch_tool_type is None
            &&& info.truncation_policy.mode == TruncationMode::Bytes
            &&& info.truncation_policy.limit == 10_000
            &&& info.effective_context_window_percent == 95
            &&& info.tool_mode is None
        },
{
}

proof fn lemma_no_preset(levels: Seq<ReasoningEffortPreset>, effort: Seq<char>)
    requires
        forall|k: int| 0 <= k < levels.len() ==> (#[trigger] levels[k]).effort.id() != effort,
    ensures
        entry::preset_for(levels, effort) is None,
    decreases levels.len(),
{
    if levels.len() > 0 {
        assert(levels[levels.len() - 1].effort.id() != effort);
        assert forall|k: int| 0 <= k < levels.drop_last().len() implies (
        #[trigger] levels.drop_last()[k]).effort.id() != effort by {
            assert(levels[k].effort.id() != effort);
        }
        lemma_no_preset(levels.drop_last(), effort);
    }
}

proof fn lemma_first_preset(levels: Seq<ReasoningEffortPreset>, effort: Seq<char>, j: int)
    requires
        0 <= j < levels.len(),
        levels[j].effort.id() == effort,
        forall|k: int| 0 <= k < j ==> (#[trigger] levels[k]).effort.id() != effort,
    ensures
        entry::preset_for(levels, effort) == Some(levels[j]),
    decreases levels.len(),
{
    let rest = levels.drop_last();
    if j < levels.len() - 1 {
        assert(rest[j] == levels[j]);
        assert forall|k: int| 0 <= k < j implies (#[trigger] rest[k]).effort.id() != effort by {
            assert(levels[k].effort.id() != effort);
        }
        lemma_first_preset(rest, effort, j);
    } else {
        assert forall|k: int| 0 <= k < rest.len() implies (#[trigger] rest[k]).effort.id()
            != effort by {
            assert(levels[k].effort.id() != effort);
        }
        lemma_no_preset(rest, effort);
    }
}

/// An effort that the model has no preset for is described by its id.
pub proof fn new_presets_are_described_by_their_id(
    model: ModelInfo,
    effort: ReasoningEffort,
    preset: ReasoningEffortPreset,
)
    requires
        call_ensures(entry::reasoning_preset, (&model, effort), preset),
        forall|k: int|
            0 <= k < model.supported_reasoning_levels@.len() ==> (
            #[trigger] model.supported_reasoning_levels@[k]).effort.id() != effort.id(),
    ensures
        preset.effort == effort,
        preset.description@ == effort.id(),
{
    lemma_no_preset(model.supported_reasoning_levels@, effort.id());
}

/// An effort that the model has presets for keeps the first of them.
pub proof fn known_presets_are_kept(
    model: ModelInfo,
    effort: ReasoningEffort,
    preset: ReasoningEffortPreset,
    j: int,
)
    requires
        call_ensures(entry::reasoning_preset, (&model, effort), preset),
        0 <= j < model.supported_reasoning_levels@.len(),
        model.supported_reasoning_levels@[j].effort.id() == effort.id(),
        forall|k: int|
            0 <= k < j ==> (#[trigger] model.supported_reasoning_levels@[k]).effort.id()
                != effort.id(),
    ensures
        preset == model.supported_reasoning_levels@[j],
{
    lemma_first_preset(model.supported_reasoning_levels@, effort.id(), j);
}

/// A tier keeps its id and its description, and is named by its id alone.
pub proof fn tiers_keep_their_id_and_description(
    tier: ProviderManifestServiceTier,
    result: Result<ModelServiceTier, String>,
)
    requires
        call_ensures(entry::to_service_tier, (tier,), result),
    ensures
        result matches Ok(shown) && {
            &&& shown.id@ == tier.id@
            &&& shown.description@ == tier.description@
            &&& shown.name@ == (if tier.id@ == "priority"@ {
                "fast"@
            } else if tier.id@ == "flex"@ {
                "flex"@
            } else {
                "tier-"@ + tier.id@
            })
        },
{
}

/// Without a word on modalities a manifest model takes text, and only that.
pub proof fn models_take_text_by_default(modalities: Vec<InputModality>)
    requires
        call_ensures(super::default_provider_manifest_input_modalities, (), modalities),
    ensures
        modalities@.len() == 1,
        modalities@[0] == InputModality::Text,
{
}

} // verus!
