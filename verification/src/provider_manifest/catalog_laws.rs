//! Which manifests become catalogs, what stands in the catalog, and what is said
//! of a manifest that becomes none.
//!
//! The laws speak of reading a body, in terms of what the body decodes to and of
//! the models that are bundled.

use vstd::prelude::*;
use vstd::utf8::encode_utf8;

use super::{
    budget, catalog, entry, rule_laws, rules, ProviderManifest, ProviderManifestModel,
    ProviderManifestServiceTier,
};
use crate::models::{ModelInfo, ModelServiceTier, ReasoningEffort, ReasoningEffortPreset};
use crate::text;

verus! {

/// A body of more than 262144 bytes is refused, whatever it holds.
pub proof fn large_bodies_are_refused<D: FnOnce(&[u8]) -> Result<ProviderManifest, String>>(
    body: &[u8],
    decode: D,
    bundled: Result<Vec<ModelInfo>, String>,
    base_instructions: &str,
    result: Result<Vec<ModelInfo>, String>,
)
    requires
        call_ensures(
            catalog::parse_provider_manifest::<D>,
            (body, decode, bundled, base_instructions),
            result,
        ),
        body@.len() > 262_144,
    ensures
        result matches Err(message) && message@ == "provider manifest exceeds maximum size of "@
            + text::decimal(262_144) + " bytes"@,
{
}

/// A body that cannot be decoded is refused with the reason.
pub proof fn undecoded_bodies_are_refused<D: FnOnce(&[u8]) -> Result<ProviderManifest, String>>(
    body: &[u8],
    decode: D,
    reason: String,
    bundled: Result<Vec<ModelInfo>, String>,
    base_instructions: &str,
    result: Result<Vec<ModelInfo>, String>,
)
    requires
        call_ensures(
            catalog::parse_provider_manifest::<D>,
            (body, decode, bundled, base_instructions),
            result,
        ),
        body@.len() <= 262_144,
        forall|made: Result<ProviderManifest, String>|
            decode.ensures((body,), made) ==> (made matches Err(told) && told == reason),
    ensures
        result matches Err(message) && message@ == "failed to decode provider manifest: "@
            + reason@,
{
}

proof fn lemma_outcome<D: FnOnce(&[u8]) -> Result<ProviderManifest, String>>(
    body: &[u8],
    decode: D,
    manifest: ProviderManifest,
    bundled: Result<Vec<ModelInfo>, String>,
    base_instructions: &str,
    result: Result<Vec<ModelInfo>, String>,
)
    requires
        call_ensures(
            catalog::parse_provider_manifest::<D>,
            (body, decode, bundled, base_instructions),
            result,
        ),
        body@.len() <= 262_144,
        forall|made: Result<ProviderManifest, String>|
            decode.ensures((body,), made) ==> (made matches Ok(found) && found == manifest),
    ensures
        catalog::is_outcome(Ok(manifest), bundled, base_instructions@, result),
{
}

/// The sum of the numbers.
pub open spec fn sum(numbers: Seq<nat>) -> nat {
    numbers.fold_left(0nat, |total: nat, number: nat| total + number)
}

/// How many bytes of the model's ids can be shown to another model: those of its
/// own id, of its efforts and of its tiers.
pub open spec fn shown_bytes(model: ProviderManifestModel) -> nat {
    encode_utf8(model.id@).len() + sum(
        model.supported_reasoning_efforts@.map_values(
            |effort: ReasoningEffort| encode_utf8(effort.id()).len(),
        ),
    ) + sum(
        model.service_tiers@.map_values(
            |tier: ProviderManifestServiceTier| encode_utf8(tier.id@).len(),
        ),
    )
}

/// What can be shown of each model, in bytes.
pub open spec fn all_shown_bytes(models: Seq<ProviderManifestModel>) -> Seq<nat> {
    models.map_values(|model: ProviderManifestModel| shown_bytes(model))
}

/// The numbers at the places.
pub open spec fn chosen(numbers: Seq<nat>, places: Seq<int>) -> Seq<nat> {
    places.map_values(|place: int| numbers[place])
}

/// However at most five of the models are chosen, what is shown of them is at
/// most 512 bytes.
pub open spec fn fits_the_budget(models: Seq<ProviderManifestModel>) -> bool {
    forall|places: Seq<int>|
        places.len() <= 5 && places.no_duplicates() && (forall|k: int|
            0 <= k < places.len() ==> 0 <= #[trigger] places[k] < models.len()) ==> sum(
            #[trigger] chosen(all_shown_bytes(models), places),
        ) <= 512
}

/// The model is sound by itself.
pub open spec fn is_sound_model(model: ProviderManifestModel) -> bool {
    &&& rule_laws::is_id(model.id@, 64)
    &&& rule_laws::is_prose(model.display_name@, 128)
    &&& rule_laws::is_prose(model.description@, 512)
    &&& rule_laws::has_sound_efforts(model)
    &&& rule_laws::has_sound_tiers(model)
    &&& rule_laws::has_sound_modalities(model)
    &&& rule_laws::is_limit(model.context_window)
    &&& rule_laws::is_limit(model.max_input_tokens)
    &&& has_supported_default(model)
    &&& model.context_window is Some || model.max_input_tokens is Some
}

/// The default effort, where there is one, is among the supported ones.
pub open spec fn has_supported_default(model: ProviderManifestModel) -> bool {
    model.default_reasoning_effort matches Some(effort) ==> exists|k: int|
        0 <= k < model.supported_reasoning_efforts@.len() && (
        #[trigger] model.supported_reasoning_efforts@[k]).id() == effort.id()
}

/// The manifest is of schema 1 and lists one to 128 sound models under ids that
/// all differ, within the budget.
pub open spec fn is_sound_manifest(manifest: ProviderManifest) -> bool {
    let models = manifest.models@;
    &&& manifest.schema_version == 1
    &&& 1 <= models.len() <= 128
    &&& forall|i: int| 0 <= i < models.len() ==> is_sound_model(#[trigger] models[i])
    &&& forall|i: int, j: int|
        0 <= i < j < models.len() ==> (#[trigger] models[i]).id@ != (#[trigger] models[j]).id@
    &&& fits_the_budget(models)
}

proof fn lemma_default_rule(model: ProviderManifestModel)
    ensures
        entry::default_effort_check(model) is Ok <==> has_supported_default(model),
{
    let ids = rules::effort_ids(model.supported_reasoning_efforts@);
    if let Some(effort) = model.default_reasoning_effort {
        if ids.contains(effort.id()) {
            let k = choose|k: int| 0 <= k < ids.len() && ids[k] == effort.id();
            assert(model.supported_reasoning_efforts@[k].id() == effort.id());
        }
        if has_supported_default(model) {
            let k = choose|k: int|
                0 <= k < model.supported_reasoning_efforts@.len() && (
                #[trigger] model.supported_reasoning_efforts@[k]).id() == effort.id();
            assert(ids[k] == effort.id());
        }
    }
}

pub(crate) proof fn lemma_model_rule(
    model: ProviderManifestModel,
    priority: nat,
    seen_ids: Seq<Seq<char>>,
)
    requires
        priority <= 128,
    ensures
        entry::model_check(model, priority, seen_ids) is Ok <==> is_sound_model(model)
            && !seen_ids.contains(model.id@),
        entry::model_check(model, priority, seen_ids) matches Err(message) ==> is_model_complaint(
            model,
            seen_ids.contains(model.id@),
            message,
        ),
{
    rule_laws::lemma_token_rule("model id"@, model.id@, 64);
    rule_laws::lemma_prose_rule("model display_name"@, model.display_name@, 128);
    rule_laws::lemma_prose_rule("model description"@, model.description@, 512);
    rule_laws::lemma_efforts_rule(model);
    rule_laws::lemma_tiers_rule(model);
    rule_laws::lemma_modalities_rule(model);
    lemma_default_rule(model);
}

/// What is said of a model that is not taken, where `is_repeated` tells whether
/// an earlier model has its id. The parts of the model are looked at in this
/// order, and the first that is broken is reported.
pub open spec fn is_model_complaint(
    model: ProviderManifestModel,
    is_repeated: bool,
    message: Seq<char>,
) -> bool {
    if !rule_laws::is_id(model.id@, 64) {
        rules::token_check("model id"@, model.id@, 64) == Err::<(), _>(message)
    } else if !rule_laws::is_prose(model.display_name@, 128) {
        rules::prose_check("model display_name"@, model.display_name@, 128) == Err::<(), _>(message)
    } else if !rule_laws::is_prose(model.description@, 512) {
        rules::prose_check("model description"@, model.description@, 512) == Err::<(), _>(message)
    } else if is_repeated {
        message == "provider manifest contains duplicate model id "@ + model.id@
    } else if !rule_laws::has_sound_efforts(model) {
        rules::efforts_check(model) == Err::<(), _>(message)
    } else if !rule_laws::has_sound_tiers(model) {
        rules::tiers_check(model) == Err::<(), _>(message)
    } else if !rule_laws::has_sound_modalities(model) {
        rules::modalities_check(model) == Err::<(), _>(message)
    } else if !rule_laws::is_limit(model.context_window) {
        rules::limit_check("context_window"@, model.context_window) == Err::<(), _>(message)
    } else if !rule_laws::is_limit(model.max_input_tokens) {
        rules::limit_check("max_input_tokens"@, model.max_input_tokens) == Err::<(), _>(message)
    } else if !has_supported_default(model) {
        message == "provider manifest model "@ + model.id@
            + " has an unsupported default_reasoning_effort"@
    } else {
        message == "provider manifest model "@ + model.id@
            + " must specify context_window or max_input_tokens"@
    }
}

proof fn lemma_models_rule(models: Seq<ProviderManifestModel>, n: nat)
    requires
        n <= models.len(),
        n <= 128,
    ensures
        catalog::models_check(models, n) is Ok <==> {
            &&& forall|i: int| 0 <= i < n ==> is_sound_model(#[trigger] models[i])
            &&& forall|i: int, j: int|
                0 <= i < j < n ==> (#[trigger] models[i]).id@ != (#[trigger] models[j]).id@
        },
    decreases n,
{
    if n > 0 {
        let k = n - 1;
        lemma_models_rule(models, k as nat);
        let seen = catalog::model_ids(models.take(k));
        lemma_model_rule(models[k], k as nat, seen);
        lemma_seen(models, k);
    }
}

proof fn lemma_seen(models: Seq<ProviderManifestModel>, k: int)
    requires
        0 <= k < models.len(),
    ensures
        catalog::model_ids(models.take(k)).contains(models[k].id@) <==> exists|i: int|
            0 <= i < k && (#[trigger] models[i]).id@ == models[k].id@,
{
    let seen = catalog::model_ids(models.take(k));
    if seen.contains(models[k].id@) {
        let i = choose|i: int| 0 <= i < seen.len() && seen[i] == models[k].id@;
        assert(models[i].id@ == models[k].id@);
    }
    if exists|i: int| 0 <= i < k && (#[trigger] models[i]).id@ == models[k].id@ {
        let i = choose|i: int| 0 <= i < k && (#[trigger] models[i]).id@ == models[k].id@;
        assert(seen[i] == models[k].id@);
    }
}

proof fn lemma_total_is_sum(texts: Seq<Seq<char>>, numbers: Seq<nat>)
    requires
        texts.len() == numbers.len(),
        forall|i: int|
            0 <= i < texts.len() ==> #[trigger] numbers[i] == encode_utf8(texts[i]).len(),
    ensures
        budget::total_bytes(texts) == sum(numbers),
    decreases texts.len(),
{
    if texts.len() > 0 {
        lemma_total_is_sum(texts.drop_last(), numbers.drop_last());
        assert(numbers[texts.len() - 1] == encode_utf8(texts[texts.len() - 1]).len());
    }
}

proof fn lemma_shown_bytes(model: ProviderManifestModel)
    ensures
        catalog::manifest_bytes(model) == shown_bytes(model),
{
    lemma_total_is_sum(
        rules::effort_ids(model.supported_reasoning_efforts@),
        model.supported_reasoning_efforts@.map_values(
            |effort: ReasoningEffort| encode_utf8(effort.id()).len(),
        ),
    );
    lemma_total_is_sum(
        rules::tier_ids(model.service_tiers@),
        model.service_tiers@.map_values(
            |tier: ProviderManifestServiceTier| encode_utf8(tier.id@).len(),
        ),
    );
}

proof fn lemma_picked_is_sum(sizes: Seq<nat>, places: Seq<int>, numbers: Seq<nat>)
    requires
        places.len() == numbers.len(),
        forall|i: int| 0 <= i < places.len() ==> #[trigger] numbers[i] == sizes[places[i]],
    ensures
        budget::picked_total(sizes, places) == sum(numbers),
    decreases places.len(),
{
    if places.len() > 0 {
        lemma_picked_is_sum(sizes, places.drop_last(), numbers.drop_last());
        assert(numbers[places.len() - 1] == sizes[places[places.len() - 1]]);
    }
}

proof fn lemma_budget_rule(models: Seq<ProviderManifestModel>)
    ensures
        budget::some_pick_exceeds(catalog::manifest_sizes(models), 512) <==> !fits_the_budget(
            models,
        ),
{
    let sizes = catalog::manifest_sizes(models);
    assert forall|places: Seq<int>| #[trigger]
        budget::is_pick(sizes.len(), places) implies budget::picked_total(sizes, places) == sum(
        chosen(all_shown_bytes(models), places),
    ) by {
        let numbers = chosen(all_shown_bytes(models), places);
        assert forall|i: int| 0 <= i < places.len() implies #[trigger] numbers[i]
            == sizes[places[i]] by {
            assert(0 <= places[i] < models.len());
            lemma_shown_bytes(models[places[i]]);
        }
        lemma_picked_is_sum(sizes, places, numbers);
    }
    if budget::some_pick_exceeds(sizes, 512) {
        let places = choose|places: Seq<int>|
            budget::is_pick(sizes.len(), places) && #[trigger] budget::picked_total(sizes, places)
                > 512;
        assert(budget::is_pick(sizes.len(), places));
        assert(sum(chosen(all_shown_bytes(models), places)) > 512);
    }
    if !fits_the_budget(models) {
        let places = choose|places: Seq<int>|
            places.len() <= 5 && places.no_duplicates() && (forall|k: int|
                0 <= k < places.len() ==> 0 <= #[trigger] places[k] < models.len()) && sum(
                #[trigger] chosen(all_shown_bytes(models), places),
            ) > 512;
        assert(budget::is_pick(sizes.len(), places));
        assert(budget::picked_total(sizes, places) > 512);
    }
}

proof fn lemma_larger_pick(sizes: Seq<nat>, small: nat, large: nat)
    requires
        small <= large,
        budget::some_pick_exceeds(sizes, large),
    ensures
        budget::some_pick_exceeds(sizes, small),
{
    let places = choose|places: Seq<int>|
        budget::is_pick(sizes.len(), places) && #[trigger] budget::picked_total(sizes, places)
            > large;
    assert(budget::picked_total(sizes, places) > small);
}

/// A manifest becomes a catalog exactly when it is sound.
pub proof fn sound_manifests_and_no_others_are_accepted<
    D: FnOnce(&[u8]) -> Result<ProviderManifest, String>,
>(
    body: &[u8],
    decode: D,
    manifest: ProviderManifest,
    bundled: Vec<ModelInfo>,
    base_instructions: &str,
    result: Result<Vec<ModelInfo>, String>,
)
    requires
        call_ensures(
            catalog::parse_provider_manifest::<D>,
            (body, decode, Ok(bundled), base_instructions),
            result,
        ),
        body@.len() <= 262_144,
        forall|made: Result<ProviderManifest, String>|
            decode.ensures((body,), made) ==> (made matches Ok(found) && found == manifest),
    ensures
        result is Ok <==> is_sound_manifest(manifest),
{
    lemma_outcome(body, decode, manifest, Ok(bundled), base_instructions, result);
    let models = manifest.models@;
    if models.len() <= 128 {
        lemma_models_rule(models, models.len());
        lemma_budget_rule(models);
        let sizes = catalog::manifest_sizes(models);
        if budget::some_pick_exceeds(sizes, usize::MAX as nat) {
            lemma_larger_pick(sizes, 512, usize::MAX as nat);
        }
    }
}

/// Before its models are looked at, a manifest is held to the schema and to the
/// number of its models, and then the bundled models must be there.
pub proof fn manifests_are_refused_by_their_header<
    D: FnOnce(&[u8]) -> Result<ProviderManifest, String>,
>(
    body: &[u8],
    decode: D,
    manifest: ProviderManifest,
    bundled: Result<Vec<ModelInfo>, String>,
    base_instructions: &str,
    result: Result<Vec<ModelInfo>, String>,
)
    requires
        call_ensures(
            catalog::parse_provider_manifest::<D>,
            (body, decode, bundled, base_instructions),
            result,
        ),
        body@.len() <= 262_144,
        forall|made: Result<ProviderManifest, String>|
            decode.ensures((body,), made) ==> (made matches Ok(found) && found == manifest),
    ensures
        manifest.schema_version != 1 ==> (result matches Err(message) && message@
            == "unsupported provider manifest schema_version "@ + text::decimal(
            manifest.schema_version as nat,
        ) + "; expected "@ + text::decimal(1)),
        manifest.schema_version == 1 && manifest.models@.len() == 0 ==> (result matches Err(message)
            && message@ == "provider manifest must contain at least one model"@),
        manifest.schema_version == 1 && manifest.models@.len() > 128 ==> (result matches Err(
            message,
        ) && message@ == "provider manifest must contain no more than "@ + text::decimal(128)
            + " models"@),
        manifest.schema_version == 1 && 1 <= manifest.models@.len() <= 128 ==> (
        bundled matches Err(reason) ==> (result matches Err(message) && message@
            == "failed to load bundled model metadata: "@ + reason@)),
{
    lemma_outcome(body, decode, manifest, bundled, base_instructions, result);
}

/// The first model that is unsound, or that repeats the id of an earlier one, is
/// the one that is reported.
pub proof fn the_first_broken_model_is_reported<
    D: FnOnce(&[u8]) -> Result<ProviderManifest, String>,
>(
    body: &[u8],
    decode: D,
    manifest: ProviderManifest,
    bundled: Vec<ModelInfo>,
    base_instructions: &str,
    result: Result<Vec<ModelInfo>, String>,
    k: int,
)
    requires
        call_ensures(
            catalog::parse_provider_manifest::<D>,
            (body, decode, Ok(bundled), base_instructions),
            result,
        ),
        body@.len() <= 262_144,
        forall|made: Result<ProviderManifest, String>|
            decode.ensures((body,), made) ==> (made matches Ok(found) && found == manifest),
        manifest.schema_version == 1,
        0 <= k < manifest.models@.len() <= 128,
        forall|i: int| 0 <= i < k ==> is_sound_model(#[trigger] manifest.models@[i]),
        forall|i: int, j: int|
            0 <= i < j < k ==> (#[trigger] manifest.models@[i]).id@ != (
            #[trigger] manifest.models@[j]).id@,
        !is_sound_model(manifest.models@[k]) || exists|i: int|
            0 <= i < k && (#[trigger] manifest.models@[i]).id@ == manifest.models@[k].id@,
    ensures
        result matches Err(message) && is_model_complaint(
            manifest.models@[k],
            exists|i: int|
                0 <= i < k && (#[trigger] manifest.models@[i]).id@ == manifest.models@[k].id@,
            message@,
        ),
{
    let models = manifest.models@;
    lemma_outcome(body, decode, manifest, Ok(bundled), base_instructions, result);
    lemma_models_rule(models, k as nat);
    lemma_model_rule(models[k], k as nat, catalog::model_ids(models.take(k)));
    lemma_seen(models, k);
    assert(catalog::models_check(models, (k + 1) as nat) is Err);
    catalog::lemma_models_check_stops(models, (k + 1) as nat, models.len());
}

proof fn lemma_pick_bound(sizes: Seq<nat>, places: Seq<int>, each: nat)
    requires
        forall|i: int| 0 <= i < places.len() ==> sizes[#[trigger] places[i]] <= each,
        places.len() <= 5,
    ensures
        budget::picked_total(sizes, places) <= places.len() * each,
    decreases places.len(),
{
    if places.len() > 0 {
        let rest = places.drop_last();
        assert forall|i: int| 0 <= i < rest.len() implies sizes[#[trigger] rest[i]] <= each by {
            assert(rest[i] == places[i]);
        }
        lemma_pick_bound(sizes, rest, each);
        assert(sizes[places[places.len() - 1]] <= each);
        assert(places.len() * each == rest.len() * each + each) by (nonlinear_arith)
            requires
                places.len() == rest.len() + 1,
        ;
    }
}

/// Where every model is sound but the budget is exceeded, that is reported.
pub proof fn an_exceeded_budget_is_reported<
    D: FnOnce(&[u8]) -> Result<ProviderManifest, String>,
>(
    body: &[u8],
    decode: D,
    manifest: ProviderManifest,
    bundled: Vec<ModelInfo>,
    base_instructions: &str,
    result: Result<Vec<ModelInfo>, String>,
)
    requires
        call_ensures(
            catalog::parse_provider_manifest::<D>,
            (body, decode, Ok(bundled), base_instructions),
            result,
        ),
        body@.len() <= 262_144,
        forall|made: Result<ProviderManifest, String>|
            decode.ensures((body,), made) ==> (made matches Ok(found) && found == manifest),
        manifest.schema_version == 1,
        1 <= manifest.models@.len() <= 128,
        forall|i: int|
            0 <= i < manifest.models@.len() ==> is_sound_model(#[trigger] manifest.models@[i]),
        forall|i: int, j: int|
            0 <= i < j < manifest.models@.len() ==> (#[trigger] manifest.models@[i]).id@ != (
            #[trigger] manifest.models@[j]).id@,
        !fits_the_budget(manifest.models@),
    ensures
        result matches Err(message) && message@
            == "provider manifest model-visible metadata must be no more than "@ + text::decimal(
            512,
        ) + " bytes across any "@ + text::decimal(5) + " models"@,
{
    let models = manifest.models@;
    let sizes = catalog::manifest_sizes(models);
    lemma_outcome(body, decode, manifest, Ok(bundled), base_instructions, result);
    lemma_models_rule(models, models.len());
    lemma_budget_rule(models);
    if budget::some_pick_exceeds(sizes, usize::MAX as nat) {
        let places = choose|places: Seq<int>|
            budget::is_pick(sizes.len(), places) && #[trigger] budget::picked_total(sizes, places)
                > usize::MAX;
        assert forall|i: int| 0 <= i < places.len() implies sizes[#[trigger] places[i]] <= 448 by {
            let p = places[i];
            lemma_model_rule(models[p], 0, Seq::empty());
            catalog::lemma_sound_model_is_small(models[p], 0, Seq::empty());
        }
        lemma_pick_bound(sizes, places, 448);
        assert(places.len() * 448 <= 5 * 448);
    }
}

/// How many bytes an entry puts in front of a model: those of its slug, of the
/// ids of its efforts and of the ids of its tiers.
pub proof fn visible_bytes_are_those_of_the_ids(model: ModelInfo, bytes: usize)
    requires
        call_ensures(budget::model_visible_manifest_bytes, (&model,), bytes),
    ensures
        bytes == encode_utf8(model.slug@).len() + sum(
            model.supported_reasoning_levels@.map_values(
                |level: ReasoningEffortPreset| encode_utf8(level.effort.id()).len(),
            ),
        ) + sum(
            model.service_tiers@.map_values(
                |tier: ModelServiceTier| encode_utf8(tier.id@).len(),
            ),
        ),
{
    lemma_total_is_sum(
        budget::level_ids(model.supported_reasoning_levels@),
        model.supported_reasoning_levels@.map_values(
            |level: ReasoningEffortPreset| encode_utf8(level.effort.id()).len(),
        ),
    );
    lemma_total_is_sum(
        budget::entry_tier_ids(model.service_tiers@),
        model.service_tiers@.map_values(|tier: ModelServiceTier| encode_utf8(tier.id@).len()),
    );
}

/// The sizes as numbers.
pub open spec fn as_numbers(sizes: Seq<usize>) -> Seq<nat> {
    sizes.map_values(|size: usize| size as nat)
}

/// A catalog is within the budget exactly when no choice of at most five of its
/// entries exceeds 512 bytes; `sizes` are what its entries put in front of a
/// model.
pub proof fn catalogs_pass_by_their_largest_entries(
    models: &[ModelInfo],
    sizes: Seq<usize>,
    result: Result<(), String>,
)
    requires
        call_ensures(budget::validate_model_visible_catalog_budget, (models,), result),
        sizes.len() == models@.len(),
        forall|i: int|
            0 <= i < sizes.len() ==> call_ensures(
                budget::model_visible_manifest_bytes,
                (&models@[i],),
                #[trigger] sizes[i],
            ),
    ensures
        result is Ok <==> forall|places: Seq<int>|
            places.len() <= 5 && places.no_duplicates() && (forall|k: int|
                0 <= k < places.len() ==> 0 <= #[trigger] places[k] < sizes.len()) ==> sum(
                #[trigger] chosen(as_numbers(sizes), places),
            ) <= 512,
        result matches Err(message) ==> message@ == (if exists|places: Seq<int>|
            places.len() <= 5 && places.no_duplicates() && (forall|k: int|
                0 <= k < places.len() ==> 0 <= #[trigger] places[k] < sizes.len()) && sum(
                #[trigger] chosen(as_numbers(sizes), places),
            ) > usize::MAX {
            "provider manifest model-visible metadata size overflowed"@
        } else {
            "provider manifest model-visible metadata must be no more than "@ + text::decimal(512)
                + " bytes across any "@ + text::decimal(5) + " models"@
        }),
{
    let visible = budget::visible_sizes(models@);
    assert forall|i: int| 0 <= i < sizes.len() implies visible[i] == #[trigger] sizes[i] by {
        assert(budget::visible_bytes(models@[i]) == sizes[i]);
    }
    assert forall|places: Seq<int>| #[trigger]
        budget::is_pick(visible.len(), places) implies budget::picked_total(visible, places)
        == sum(chosen(as_numbers(sizes), places)) by {
        let numbers = chosen(as_numbers(sizes), places);
        assert forall|i: int| 0 <= i < places.len() implies #[trigger] numbers[i]
            == visible[places[i]] by {
            assert(0 <= places[i] < sizes.len());
            assert(visible[places[i]] == sizes[places[i]]);
        }
        lemma_picked_is_sum(visible, places, numbers);
    }
    if budget::some_pick_exceeds(visible, usize::MAX as nat) {
        lemma_larger_pick(visible, 512, usize::MAX as nat);
        let places = choose|places: Seq<int>|
            budget::is_pick(visible.len(), places) && #[trigger] budget::picked_total(
                visible,
                places,
            ) > usize::MAX;
        assert(budget::is_pick(visible.len(), places));
        assert(sum(chosen(as_numbers(sizes), places)) > usize::MAX);
    } else {
        assert forall|places: Seq<int>|
            places.len() <= 5 && places.no_duplicates() && (forall|k: int|
                0 <= k < places.len() ==> 0 <= #[trigger] places[k] < sizes.len()) implies sum(
            #[trigger] chosen(as_numbers(sizes), places),
        ) <= usize::MAX by {
            assert(budget::is_pick(visible.len(), places));
            assert(!(budget::picked_total(visible, places) > usize::MAX));
        }
    }
    if budget::some_pick_exceeds(visible, 512) {
        let places = choose|places: Seq<int>|
            budget::is_pick(visible.len(), places) && #[trigger] budget::picked_total(
                visible,
                places,
            ) > 512;
        assert(budget::is_pick(visible.len(), places));
        assert(sum(chosen(as_numbers(sizes), places)) > 512);
    } else {
        assert forall|places: Seq<int>|
            places.len() <= 5 && places.no_duplicates() && (forall|k: int|
                0 <= k < places.len() ==> 0 <= #[trigger] places[k] < sizes.len()) implies sum(
            #[trigger] chosen(as_numbers(sizes), places),
        ) <= 512 by {
            assert(budget::is_pick(visible.len(), places));
            assert(!(budget::picked_total(visible, places) > 512));
        }
    }
}

} // verus!
