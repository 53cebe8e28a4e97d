//! What holds of every catalog that a manifest gave rise to.

use vstd::prelude::*;

use super::{
    budget, catalog, entry, rules, ProviderManifest, ProviderManifestModel,
    MAX_INPUT_MODALITIES_PER_MODEL, MAX_MODEL_ID_BYTES, MAX_MODEL_VISIBLE_MANIFEST_BYTES,
    MAX_PROVIDER_MANIFEST_MODELS, MAX_REASONING_EFFORT_ID_BYTES, MAX_SAFE_MODEL_TOKEN_LIMIT,
    MAX_SERVICE_TIER_ID_BYTES,
};
use crate::models::{
    InputModality, ModelInfo, ModelVisibility, MultiAgentVersion, ServiceTier,
    SERVICE_TIER_DEFAULT_REQUEST_VALUE,
};
use crate::text;

verus! {

/// The manifest was accepted, and `models` is its catalog.
pub open spec fn accepted(
    manifest: ProviderManifest,
    bundled: Vec<ModelInfo>,
    base_instructions: Seq<char>,
    models: Vec<ModelInfo>,
) -> bool {
    catalog::is_outcome(Ok(manifest), Ok(bundled), base_instructions, Ok(models))
}

proof fn lemma_models_sound(models: Seq<ProviderManifestModel>, n: nat)
    requires
        n <= models.len(),
        catalog::models_check(models, n) is Ok,
    ensures
        forall|i: int|
            #![trigger models[i]]
            0 <= i < n ==> entry::model_check(
                models[i],
                i as nat,
                catalog::model_ids(models.take(i)),
            ) is Ok,
    decreases n,
{
    if n > 0 {
        lemma_models_sound(models, (n - 1) as nat);
    }
}

/// The model at `i` of an accepted manifest passed every rule and became the
/// entry at `i`.
proof fn lemma_accepted_entry(
    manifest: ProviderManifest,
    bundled: Vec<ModelInfo>,
    base_instructions: Seq<char>,
    models: Vec<ModelInfo>,
    i: int,
)
    requires
        accepted(manifest, bundled, base_instructions, models),
        0 <= i < manifest.models@.len(),
    ensures
        models@.len() == manifest.models@.len(),
        entry::model_check(
            manifest.models@[i],
            i as nat,
            catalog::model_ids(manifest.models@.take(i)),
        ) is Ok,
        entry::is_entry(manifest.models@[i], i as nat, bundled@, base_instructions, models@[i]),
{
    lemma_models_sound(manifest.models@, manifest.models@.len());
}

/// A catalog is never empty and never too long. It lists the models of the
/// manifest under their ids and in their order, and shows them all.
pub proof fn catalog_lists_the_manifest(
    manifest: ProviderManifest,
    bundled: Vec<ModelInfo>,
    base_instructions: Seq<char>,
    models: Vec<ModelInfo>,
)
    requires
        accepted(manifest, bundled, base_instructions, models),
    ensures
        1 <= models@.len() <= MAX_PROVIDER_MANIFEST_MODELS,
        models@.len() == manifest.models@.len(),
        forall|i: int|
            #![trigger models@[i]]
            0 <= i < models@.len() ==> models@[i].slug@ == manifest.models@[i].id@
                && models@[i].priority == i && models@[i].visibility == ModelVisibility::List,
{
}

/// No two entries of a catalog have the same slug.
pub proof fn catalog_slugs_are_distinct(
    manifest: ProviderManifest,
    bundled: Vec<ModelInfo>,
    base_instructions: Seq<char>,
    models: Vec<ModelInfo>,
    i: int,
    j: int,
)
    requires
        accepted(manifest, bundled, base_instructions, models),
        0 <= i < j < models@.len(),
    ensures
        models@[i].slug@ != models@[j].slug@,
{
    lemma_accepted_entry(manifest, bundled, base_instructions, models, i);
    lemma_accepted_entry(manifest, bundled, base_instructions, models, j);
    let seen = catalog::model_ids(manifest.models@.take(j));
    assert(seen[i] == manifest.models@[i].id@);
    assert(seen.contains(manifest.models@[i].id@));
}

/// Every entry has a limit to size requests by. It is positive, it is one of
/// the limits that the manifest gave and none of them is smaller, and it can be
/// multiplied by nine without overflow.
pub proof fn entry_limit_is_usable(
    manifest: ProviderManifest,
    bundled: Vec<ModelInfo>,
    base_instructions: Seq<char>,
    models: Vec<ModelInfo>,
    i: int,
)
    requires
        accepted(manifest, bundled, base_instructions, models),
        0 <= i < models@.len(),
    ensures
        models@[i].max_context_window == models@[i].context_window,
        models@[i].context_window matches Some(limit) && {
            &&& 0 < limit <= MAX_SAFE_MODEL_TOKEN_LIMIT
            &&& limit * 9 <= i64::MAX
            &&& manifest.models@[i].context_window == Some(limit)
                || manifest.models@[i].max_input_tokens == Some(limit)
            &&& manifest.models@[i].context_window matches Some(window) ==> limit <= window
            &&& manifest.models@[i].max_input_tokens matches Some(input) ==> limit <= input
        },
{
    lemma_accepted_entry(manifest, bundled, base_instructions, models, i);
}

/// The largest safe limit is the largest number that can be multiplied by nine.
pub proof fn safe_limit_is_tight()
    ensures
        MAX_SAFE_MODEL_TOKEN_LIMIT * 9 <= i64::MAX < (MAX_SAFE_MODEL_TOKEN_LIMIT + 1) * 9,
{
}

/// However the entries that are described together are chosen, the manifest
/// text in their description stays within the budget.
pub proof fn visible_text_is_bounded(
    manifest: ProviderManifest,
    bundled: Vec<ModelInfo>,
    base_instructions: Seq<char>,
    models: Vec<ModelInfo>,
    places: Seq<int>,
)
    requires
        accepted(manifest, bundled, base_instructions, models),
        budget::is_pick(models@.len(), places),
    ensures
        budget::picked_total(budget::visible_sizes(models@), places)
            <= MAX_MODEL_VISIBLE_MANIFEST_BYTES,
{
    let sizes = budget::visible_sizes(models@);
    assert forall|i: int| 0 <= i < sizes.len() implies #[trigger] sizes[i]
        == catalog::manifest_sizes(manifest.models@)[i] by {
        lemma_accepted_entry(manifest, bundled, base_instructions, models, i);
        catalog::lemma_entry_bytes(
            manifest.models@[i],
            i as nat,
            bundled@,
            base_instructions,
            models@[i],
        );
    }
    assert(sizes =~= catalog::manifest_sizes(manifest.models@));
    assert(!budget::some_pick_exceeds(sizes, MAX_MODEL_VISIBLE_MANIFEST_BYTES as nat));
}

/// A short text of token characters.
pub open spec fn is_short_token(text: Seq<char>, max_bytes: nat) -> bool {
    &&& 0 < text.len()
    &&& text::byte_count(text) <= max_bytes
    &&& text::is_token(text)
}

/// Everything that an entry puts in front of a model is a short token: no
/// quoting, no markup, no line break, no prose.
pub proof fn visible_text_is_tokens(
    manifest: ProviderManifest,
    bundled: Vec<ModelInfo>,
    base_instructions: Seq<char>,
    models: Vec<ModelInfo>,
    i: int,
)
    requires
        accepted(manifest, bundled, base_instructions, models),
        0 <= i < models@.len(),
    ensures
        is_short_token(models@[i].slug@, MAX_MODEL_ID_BYTES as nat),
        forall|k: int|
            0 <= k < models@[i].supported_reasoning_levels@.len() ==> is_short_token(
                (#[trigger] models@[i].supported_reasoning_levels@[k]).effort.id(),
                MAX_REASONING_EFFORT_ID_BYTES as nat,
            ),
        forall|k: int|
            0 <= k < models@[i].service_tiers@.len() ==> is_short_token(
                (#[trigger] models@[i].service_tiers@[k]).id@,
                MAX_SERVICE_TIER_ID_BYTES as nat,
            ),
        models@[i].description is None,
{
    let model = manifest.models@[i];
    lemma_accepted_entry(manifest, bundled, base_instructions, models, i);
    catalog::lemma_effort_ids_bounded(model, model.supported_reasoning_efforts@.len());
    catalog::lemma_tiers_sound(model, model.service_tiers@.len());
    assert forall|k: int|
        0 <= k < models@[i].supported_reasoning_levels@.len() implies is_short_token(
        (#[trigger] models@[i].supported_reasoning_levels@[k]).effort.id(),
        MAX_REASONING_EFFORT_ID_BYTES as nat,
    ) by {
        assert(rules::effort_id_check(model.supported_reasoning_efforts@[k]) is Ok);
    }
    assert forall|k: int| 0 <= k < models@[i].service_tiers@.len() implies is_short_token(
        (#[trigger] models@[i].service_tiers@[k]).id@,
        MAX_SERVICE_TIER_ID_BYTES as nat,
    ) by {
        assert(entry::is_tier_entry(model.service_tiers@[k], models@[i].service_tiers@[k]));
        assert(rules::tier_text_check(model.service_tiers@[k]) is Ok);
    }
}

/// The two entries agree on everything that is decided locally: the prompt, the
/// local tools and the cutting of their output.
pub open spec fn same_local_traits(a: ModelInfo, b: ModelInfo) -> bool {
    &&& a.shell_type == b.shell_type
    &&& a.base_instructions@ == b.base_instructions@
    &&& a.include_skills_usage_instructions == b.include_skills_usage_instructions
    &&& a.apply_patch_tool_type == b.apply_patch_tool_type
    &&& a.truncation_policy == b.truncation_policy
    &&& a.effective_context_window_percent == b.effective_context_window_percent
    &&& a.tool_mode == b.tool_mode
    &&& a.experimental_supported_tools@ =~= b.experimental_supported_tools@
    &&& a.web_search_tool_type == b.web_search_tool_type
}

/// A manifest cannot steer what is decided locally: whatever else two manifests
/// say of a model, entries under the same slug agree on it.
pub proof fn manifest_cannot_steer_local_traits(
    first: ProviderManifest,
    second: ProviderManifest,
    bundled: Vec<ModelInfo>,
    base_instructions: Seq<char>,
    first_models: Vec<ModelInfo>,
    second_models: Vec<ModelInfo>,
    i: int,
    j: int,
)
    requires
        accepted(first, bundled, base_instructions, first_models),
        accepted(second, bundled, base_instructions, second_models),
        0 <= i < first_models@.len(),
        0 <= j < second_models@.len(),
        first_models@[i].slug@ == second_models@[j].slug@,
    ensures
        same_local_traits(first_models@[i], second_models@[j]),
{
    lemma_accepted_entry(first, bundled, base_instructions, first_models, i);
    lemma_accepted_entry(second, bundled, base_instructions, second_models, j);
}

/// Personality prompts are the program's own: an entry has either those of the
/// bundled model with its slug, or none; and none where the manifest does not
/// claim support.
pub proof fn personality_stays_local(
    manifest: ProviderManifest,
    bundled: Vec<ModelInfo>,
    base_instructions: Seq<char>,
    models: Vec<ModelInfo>,
    i: int,
)
    requires
        accepted(manifest, bundled, base_instructions, models),
        0 <= i < models@.len(),
    ensures
        models@[i].model_messages is Some ==> manifest.models@[i].supports_personality,
        models@[i].model_messages matches Some(messages) ==> entry::bundled_for(
            bundled@,
            models@[i].slug@,
        ) matches Some(known) && known.model_messages == Some(messages),
{
    lemma_accepted_entry(manifest, bundled, base_instructions, models, i);
}

/// The two entries agree on everything that shapes a request to the provider.
pub open spec fn same_request_shape(a: ModelInfo, b: ModelInfo) -> bool {
    &&& a.slug@ == b.slug@
    &&& a.use_responses_lite == b.use_responses_lite
    &&& a.supports_parallel_tool_calls == b.supports_parallel_tool_calls
    &&& a.supports_image_detail_original == b.supports_image_detail_original
    &&& a.supports_search_tool == b.supports_search_tool
    &&& a.support_verbosity == b.support_verbosity
    &&& a.default_verbosity == b.default_verbosity
    &&& a.web_search_tool_type == b.web_search_tool_type
    &&& a.supports_reasoning_summary_parameter == b.supports_reasoning_summary_parameter
    &&& a.default_reasoning_summary == b.default_reasoning_summary
    &&& a.default_service_tier == b.default_service_tier
    &&& a.additional_speed_tiers@ =~= b.additional_speed_tiers@
    &&& a.experimental_supported_tools@ =~= b.experimental_supported_tools@
    &&& a.auto_review_model_override == b.auto_review_model_override
    &&& a.input_modalities@ == b.input_modalities@
    &&& budget::entry_tier_ids(a.service_tiers@) =~= budget::entry_tier_ids(b.service_tiers@)
    &&& budget::level_ids(a.supported_reasoning_levels@) =~= budget::level_ids(
        b.supported_reasoning_levels@,
    )
}

/// A bundled model never opts a provider into a request shape: the same
/// manifest gives the same one, whatever models are bundled.
pub proof fn bundled_models_cannot_steer_requests(
    manifest: ProviderManifest,
    first_bundled: Vec<ModelInfo>,
    second_bundled: Vec<ModelInfo>,
    base_instructions: Seq<char>,
    first_models: Vec<ModelInfo>,
    second_models: Vec<ModelInfo>,
    i: int,
)
    requires
        accepted(manifest, first_bundled, base_instructions, first_models),
        accepted(manifest, second_bundled, base_instructions, second_models),
        0 <= i < first_models@.len(),
    ensures
        second_models@.len() == first_models@.len(),
        same_request_shape(first_models@[i], second_models@[i]),
{
    lemma_accepted_entry(manifest, first_bundled, base_instructions, first_models, i);
    lemma_accepted_entry(manifest, second_bundled, base_instructions, second_models, i);
    let a = first_models@[i];
    let b = second_models@[i];
    let tiers = manifest.models@[i].service_tiers@;
    let a_ids = budget::entry_tier_ids(a.service_tiers@);
    let b_ids = budget::entry_tier_ids(b.service_tiers@);
    assert forall|k: int| 0 <= k < a_ids.len() implies #[trigger] a_ids[k] == b_ids[k] by {
        assert(entry::is_tier_entry(tiers[k], a.service_tiers@[k]));
        assert(entry::is_tier_entry(tiers[k], b.service_tiers@[k]));
    }
}

/// Which models are accepted does not depend on the models that are bundled.
pub proof fn acceptance_is_up_to_the_manifest(
    manifest: ProviderManifest,
    first_bundled: Vec<ModelInfo>,
    second_bundled: Vec<ModelInfo>,
    base_instructions: Seq<char>,
    first: Result<Vec<ModelInfo>, String>,
    second: Result<Vec<ModelInfo>, String>,
)
    requires
        catalog::is_outcome(Ok(manifest), Ok(first_bundled), base_instructions, first),
        catalog::is_outcome(Ok(manifest), Ok(second_bundled), base_instructions, second),
    ensures
        first is Ok <==> second is Ok,
        first matches Err(message) ==> second matches Err(other) && message@ == other@,
{
}

/// The default effort of an entry is one that it supports, and no effort is
/// listed twice.
pub proof fn default_effort_is_supported(
    manifest: ProviderManifest,
    bundled: Vec<ModelInfo>,
    base_instructions: Seq<char>,
    models: Vec<ModelInfo>,
    i: int,
)
    requires
        accepted(manifest, bundled, base_instructions, models),
        0 <= i < models@.len(),
    ensures
        models@[i].default_reasoning_level matches Some(effort) ==> budget::level_ids(
            models@[i].supported_reasoning_levels@,
        ).contains(effort.id()),
        budget::level_ids(models@[i].supported_reasoning_levels@).no_duplicates(),
{
    let model = manifest.models@[i];
    lemma_accepted_entry(manifest, bundled, base_instructions, models, i);
    let ids = budget::level_ids(models@[i].supported_reasoning_levels@);
    assert(ids =~= rules::effort_ids(model.supported_reasoning_efforts@));
    lemma_unique_efforts(model, ids.len());
    assert forall|a: int, b: int|
        0 <= a < ids.len() && 0 <= b < ids.len() && a != b implies ids[a] != ids[b] by {
        assert(!rules::repeats(ids, a));
        assert(!rules::repeats(ids, b));
    }
}

proof fn lemma_unique_efforts(model: ProviderManifestModel, n: nat)
    requires
        n <= model.supported_reasoning_efforts@.len(),
        rules::unique_efforts_check(model, n) is Ok,
    ensures
        forall|k: int|
            0 <= k < n ==> !#[trigger] rules::repeats(
                rules::effort_ids(model.supported_reasoning_efforts@),
                k,
            ),
    decreases n,
{
    if n > 0 {
        lemma_unique_efforts(model, (n - 1) as nat);
    }
}

/// Every entry accepts text, and lists each modality once.
pub proof fn entries_accept_text(
    manifest: ProviderManifest,
    bundled: Vec<ModelInfo>,
    base_instructions: Seq<char>,
    models: Vec<ModelInfo>,
    i: int,
)
    requires
        accepted(manifest, bundled, base_instructions, models),
        0 <= i < models@.len(),
    ensures
        models@[i].input_modalities@.contains(InputModality::Text),
        models@[i].input_modalities@.no_duplicates(),
        models@[i].input_modalities@.len() <= MAX_INPUT_MODALITIES_PER_MODEL,
{
    lemma_accepted_entry(manifest, bundled, base_instructions, models, i);
    let modalities = models@[i].input_modalities@;
    assert forall|a: int, b: int|
        0 <= a < modalities.len() && 0 <= b < modalities.len() && a != b implies modalities[a]
        != modalities[b] by {
        if modalities[a] == modalities[b] {
            if a < b {
                assert(rules::repeats_modality(modalities));
            } else {
                assert(modalities[b] == modalities[a]);
                assert(rules::repeats_modality(modalities));
            }
        }
    }
}

/// The multi-agent marker of an entry: the manifest's word where it gives one,
/// else that of the bundled model with the slug, else the current version.
pub proof fn agent_marker_has_an_owner(
    manifest: ProviderManifest,
    bundled: Vec<ModelInfo>,
    base_instructions: Seq<char>,
    models: Vec<ModelInfo>,
    i: int,
)
    requires
        accepted(manifest, bundled, base_instructions, models),
        0 <= i < models@.len(),
    ensures
        manifest.models@[i].multi_agent_version is Some ==> models@[i].multi_agent_version
            == manifest.models@[i].multi_agent_version,
        manifest.models@[i].multi_agent_version is None ==> match entry::bundled_for(
            bundled@,
            models@[i].slug@,
        ) {
            Some(known) => models@[i].multi_agent_version == known.multi_agent_version,
            None => models@[i].multi_agent_version == Some(MultiAgentVersion::V2),
        },
{
    lemma_accepted_entry(manifest, bundled, base_instructions, models, i);
}

/// A tier that is not known by name never takes the name of one that is, and no
/// two ids share a name.
pub proof fn command_names_do_not_collide(a: Seq<char>, b: Seq<char>)
    ensures
        rules::command_name(a) == "fast"@ <==> a == ServiceTier::Fast.wire_value(),
        rules::command_name(a) == "flex"@ <==> a == ServiceTier::Flex.wire_value(),
        rules::command_name(a) == rules::command_name(b) ==> a == b,
{
    reveal_strlit("fast");
    reveal_strlit("flex");
    reveal_strlit("priority");
    reveal_strlit("tier-");
    assert("fast"@[0] == 'f' && "flex"@[0] == 'f' && "tier-"@[0] == 't');
    assert("fast"@[1] == 'a' && "flex"@[1] == 'l');
    assert("priority"@[0] == 'p');
    assert(("tier-"@ + a)[0] == 't');
    assert(("tier-"@ + b)[0] == 't');
    assert(("tier-"@ + a).skip(5) =~= a);
    assert(("tier-"@ + b).skip(5) =~= b);
}

/// The service tiers of an entry: none stands for standard routing, none goes
/// by a legacy spelling, each is named by its id alone, and the names differ
/// even where case is put aside.
pub proof fn tier_commands_are_distinct(
    manifest: ProviderManifest,
    bundled: Vec<ModelInfo>,
    base_instructions: Seq<char>,
    models: Vec<ModelInfo>,
    i: int,
    a: int,
    b: int,
)
    requires
        accepted(manifest, bundled, base_instructions, models),
        0 <= i < models@.len(),
        0 <= a < b < models@[i].service_tiers@.len(),
    ensures
        models@[i].service_tiers@[a].id@ != models@[i].service_tiers@[b].id@,
        text::lowercase(models@[i].service_tiers@[a].name@) != text::lowercase(
            models@[i].service_tiers@[b].name@,
        ),
{
    let model = manifest.models@[i];
    lemma_accepted_entry(manifest, bundled, base_instructions, models, i);
    catalog::lemma_tiers_sound(model, model.service_tiers@.len());
    assert(entry::is_tier_entry(model.service_tiers@[a], models@[i].service_tiers@[a]));
    assert(entry::is_tier_entry(model.service_tiers@[b], models@[i].service_tiers@[b]));
    assert(rules::tier_unique_check(model, b) is Ok);
    let ids = rules::tier_ids(model.service_tiers@);
    let commands = rules::tier_commands(model.service_tiers@);
    assert(ids[a] == model.service_tiers@[a].id@ && ids[b] == model.service_tiers@[b].id@);
    assert(commands[a] == text::lowercase(models@[i].service_tiers@[a].name@));
    assert(commands[b] == text::lowercase(models@[i].service_tiers@[b].name@));
}

/// What a catalog advertises as a tier id is what a request carries: never the
/// value for standard routing, never another spelling of a known tier. The name
/// of the tier follows from its id alone.
pub proof fn tier_ids_are_request_values(
    manifest: ProviderManifest,
    bundled: Vec<ModelInfo>,
    base_instructions: Seq<char>,
    models: Vec<ModelInfo>,
    i: int,
    k: int,
)
    requires
        accepted(manifest, bundled, base_instructions, models),
        0 <= i < models@.len(),
        0 <= k < models@[i].service_tiers@.len(),
    ensures
        models@[i].service_tiers@[k].id@ != SERVICE_TIER_DEFAULT_REQUEST_VALUE@,
        ServiceTier::named_by(models@[i].service_tiers@[k].id@) matches Some(tier)
            ==> models@[i].service_tiers@[k].id@ == tier.wire_value(),
        models@[i].service_tiers@[k].name@ == rules::command_name(
            models@[i].service_tiers@[k].id@,
        ),
{
    let model = manifest.models@[i];
    lemma_accepted_entry(manifest, bundled, base_instructions, models, i);
    catalog::lemma_tiers_sound(model, model.service_tiers@.len());
    assert(entry::is_tier_entry(model.service_tiers@[k], models@[i].service_tiers@[k]));
    assert(rules::tier_text_check(model.service_tiers@[k]) is Ok);
}

} // verus!
