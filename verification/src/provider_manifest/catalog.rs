//! From the body of a manifest to the catalog that it describes.

use vstd::prelude::*;

use super::budget::validate_model_visible_catalog_budget;
use super::entry::to_model_info;
use super::rules::Check;
use super::{
    budget, entry, rules, ProviderManifest, ProviderManifestModel, MAX_MODEL_ID_BYTES,
    MAX_PROVIDER_MANIFEST_BYTES, MAX_PROVIDER_MANIFEST_MODELS, MAX_REASONING_EFFORTS_PER_MODEL,
    MAX_REASONING_EFFORT_ID_BYTES, MAX_SERVICE_TIERS_PER_MODEL, MAX_SERVICE_TIER_ID_BYTES,
    SUPPORTED_SCHEMA_VERSION,
};
use crate::models::ModelInfo;
use crate::text;
use crate::text::decimal_text;

verus! {

/// The ids of the models.
pub open spec fn model_ids(models: Seq<ProviderManifestModel>) -> Seq<Seq<char>> {
    models.map_values(|model: ProviderManifestModel| model.id@)
}

/// What a manifest model will put in front of a model once it is an entry.
pub open spec fn manifest_bytes(model: ProviderManifestModel) -> nat {
    text::byte_count(model.id@) + budget::total_bytes(
        rules::effort_ids(model.supported_reasoning_efforts@),
    ) + budget::total_bytes(rules::tier_ids(model.service_tiers@))
}

/// The visible bytes of each manifest model.
pub open spec fn manifest_sizes(models: Seq<ProviderManifestModel>) -> Seq<nat> {
    models.map_values(|model: ProviderManifestModel| manifest_bytes(model))
}

/// The manifest is of the schema that is read, and lists some models but not
/// too many.
pub open spec fn header_check(manifest: ProviderManifest) -> Check {
    if manifest.schema_version != SUPPORTED_SCHEMA_VERSION {
        Err(
            "unsupported provider manifest schema_version "@ + text::decimal(
                manifest.schema_version as nat,
            ) + "; expected "@ + text::decimal(SUPPORTED_SCHEMA_VERSION as nat),
        )
    } else if manifest.models@.len() == 0 {
        Err("provider manifest must contain at least one model"@)
    } else if manifest.models@.len() > MAX_PROVIDER_MANIFEST_MODELS {
        Err(
            "provider manifest must contain no more than "@ + text::decimal(
                MAX_PROVIDER_MANIFEST_MODELS as nat,
            ) + " models"@,
        )
    } else {
        Ok(())
    }
}

/// The first `n` models, in order.
pub open spec fn models_check(models: Seq<ProviderManifestModel>, n: nat) -> Check
    decreases n,
{
    if n == 0 {
        Ok(())
    } else {
        rules::both(
            models_check(models, (n - 1) as nat),
            entry::model_check(
                models[n - 1],
                (n - 1) as nat,
                model_ids(models.take(n - 1)),
            ),
        )
    }
}

/// The models of a manifest: each sound, and together within the budget.
pub open spec fn entries_check(models: Seq<ProviderManifestModel>) -> Check {
    rules::both(models_check(models, models.len()), budget::budget_check(manifest_sizes(models)))
}

/// Every rule that a decoded manifest is held to, where `bundled` is what
/// loading the bundled models gave.
pub open spec fn manifest_check(
    manifest: ProviderManifest,
    bundled: Result<Vec<ModelInfo>, String>,
) -> Check {
    rules::both(
        header_check(manifest),
        rules::both(
            match bundled {
                Ok(_) => Ok(()),
                Err(reason) => Err("failed to load bundled model metadata: "@ + reason@),
            },
            entries_check(manifest.models@),
        ),
    )
}

/// The catalog lists the entries of the manifest's models, in their order.
pub open spec fn is_catalog(
    models: Seq<ProviderManifestModel>,
    bundled_models: Seq<ModelInfo>,
    base_instructions: Seq<char>,
    catalog: Seq<ModelInfo>,
) -> bool {
    &&& catalog.len() == models.len()
    &&& forall|i: int|
        0 <= i < catalog.len() ==> entry::is_entry(
            models[i],
            i as nat,
            bundled_models,
            base_instructions,
            #[trigger] catalog[i],
        )
}

/// What becomes of a manifest, where `decoded` is what decoding it gave.
pub open spec fn is_outcome(
    decoded: Result<ProviderManifest, String>,
    bundled: Result<Vec<ModelInfo>, String>,
    base_instructions: Seq<char>,
    result: Result<Vec<ModelInfo>, String>,
) -> bool {
    match decoded {
        Err(reason) => result matches Err(message) && message@
            == "failed to decode provider manifest: "@ + reason@,
        Ok(manifest) => match manifest_check(manifest, bundled) {
            Err(text) => result matches Err(message) && message@ == text,
            Ok(_) => result matches Ok(catalog) && bundled matches Ok(bundled_models)
                && is_catalog(manifest.models@, bundled_models@, base_instructions, catalog@),
        },
    }
}

pub(crate) proof fn lemma_models_check_stops(models: Seq<ProviderManifestModel>, k: nat, n: nat)
    requires
        k <= n,
        models_check(models, k) is Err,
    ensures
        models_check(models, n) == models_check(models, k),
    decreases n,
{
    if k < n {
        lemma_models_check_stops(models, k, (n - 1) as nat);
    }
}

/// An entry shows exactly what its manifest model said it would.
pub(crate) proof fn lemma_entry_bytes(
    model: ProviderManifestModel,
    priority: nat,
    bundled_models: Seq<ModelInfo>,
    base_instructions: Seq<char>,
    info: ModelInfo,
)
    requires
        entry::is_entry(model, priority, bundled_models, base_instructions, info),
    ensures
        budget::visible_bytes(info) == manifest_bytes(model),
{
    assert(budget::level_ids(info.supported_reasoning_levels@) =~= rules::effort_ids(
        model.supported_reasoning_efforts@,
    ));
    let entry_tiers = budget::entry_tier_ids(info.service_tiers@);
    let tiers = rules::tier_ids(model.service_tiers@);
    assert forall|i: int| 0 <= i < tiers.len() implies #[trigger] entry_tiers[i] == tiers[i] by {
        assert(entry::is_tier_entry(model.service_tiers@[i], info.service_tiers@[i]));
    }
    assert(entry_tiers =~= tiers);
}

proof fn lemma_total_bytes_bound(texts: Seq<Seq<char>>, each: nat)
    requires
        forall|i: int| 0 <= i < texts.len() ==> text::byte_count(#[trigger] texts[i]) <= each,
    ensures
        budget::total_bytes(texts) <= texts.len() * each,
    decreases texts.len(),
{
    if texts.len() > 0 {
        lemma_total_bytes_bound(texts.drop_last(), each);
        assert(texts.len() * each == (texts.len() - 1) * each + each) by (nonlinear_arith)
            requires
                texts.len() > 0,
        ;
        assert(text::byte_count(texts[texts.len() - 1]) <= each);
    } else {
        assert(0 * each == 0);
    }
}

pub(crate) proof fn lemma_effort_ids_bounded(model: ProviderManifestModel, n: nat)
    requires
        n <= model.supported_reasoning_efforts@.len(),
        rules::effort_ids_check(model, n) is Ok,
    ensures
        forall|i: int|
            0 <= i < n ==> rules::effort_id_check(
                #[trigger] model.supported_reasoning_efforts@[i],
            ) is Ok,
    decreases n,
{
    if n > 0 {
        lemma_effort_ids_bounded(model, (n - 1) as nat);
    }
}

pub(crate) proof fn lemma_tiers_sound(model: ProviderManifestModel, n: nat)
    requires
        n <= model.service_tiers@.len(),
        rules::first_tiers_check(model, n) is Ok,
    ensures
        forall|i: int|
            #![trigger model.service_tiers@[i]]
            0 <= i < n ==> rules::tier_text_check(model.service_tiers@[i]) is Ok
                && rules::tier_unique_check(model, i) is Ok,
    decreases n,
{
    if n > 0 {
        lemma_tiers_sound(model, (n - 1) as nat);
    }
}

/// A sound model shows little.
pub(crate) proof fn lemma_sound_model_is_small(
    model: ProviderManifestModel,
    priority: nat,
    seen_ids: Seq<Seq<char>>,
)
    requires
        entry::model_check(model, priority, seen_ids) is Ok,
    ensures
        manifest_bytes(model) <= MAX_MODEL_ID_BYTES + MAX_REASONING_EFFORTS_PER_MODEL
            * MAX_REASONING_EFFORT_ID_BYTES + MAX_SERVICE_TIERS_PER_MODEL
            * MAX_SERVICE_TIER_ID_BYTES,
{
    let efforts = rules::effort_ids(model.supported_reasoning_efforts@);
    lemma_effort_ids_bounded(model, model.supported_reasoning_efforts@.len());
    assert forall|i: int| 0 <= i < efforts.len() implies text::byte_count(#[trigger] efforts[i])
        <= MAX_REASONING_EFFORT_ID_BYTES by {
        assert(rules::effort_id_check(model.supported_reasoning_efforts@[i]) is Ok);
    }
    lemma_total_bytes_bound(efforts, MAX_REASONING_EFFORT_ID_BYTES as nat);
    let tiers = rules::tier_ids(model.service_tiers@);
    lemma_tiers_sound(model, model.service_tiers@.len());
    assert forall|i: int| 0 <= i < tiers.len() implies text::byte_count(#[trigger] tiers[i])
        <= MAX_SERVICE_TIER_ID_BYTES by {
        assert(rules::tier_text_check(model.service_tiers@[i]) is Ok);
    }
    lemma_total_bytes_bound(tiers, MAX_SERVICE_TIER_ID_BYTES as nat);
}

fn validate_header(manifest: &ProviderManifest) -> (result: Result<(), String>)
    ensures
        rules::reported(result) == header_check(*manifest),
{
    if manifest.schema_version != SUPPORTED_SCHEMA_VERSION {
        let given = decimal_text(manifest.schema_version as u64);
        let expected = decimal_text(SUPPORTED_SCHEMA_VERSION as u64);
        return Err(
            "unsupported provider manifest schema_version ".to_owned().concat(
                given.as_str(),
            ).concat("; expected ").concat(expected.as_str()),
        );
    }
    if manifest.models.len() == 0 {
        return Err("provider manifest must contain at least one model".to_owned());
    }
    if manifest.models.len() > MAX_PROVIDER_MANIFEST_MODELS {
        let most = decimal_text(MAX_PROVIDER_MANIFEST_MODELS as u64);
        return Err(
            "provider manifest must contain no more than ".to_owned().concat(
                most.as_str(),
            ).concat(" models"),
        );
    }
    Ok(())
}

/// Turns the models of a manifest into a catalog.
pub fn catalog_entries(
    models: Vec<ProviderManifestModel>,
    bundled_models: &[ModelInfo],
    base_instructions: &str,
) -> (result: Result<Vec<ModelInfo>, String>)
    ensures
        match result {
            Ok(catalog) => entries_check(models@) is Ok && is_catalog(
                models@,
                bundled_models@,
                base_instructions@,
                catalog@,
            ),
            Err(message) => entries_check(models@) == Err::<(), _>(message@),
        },
{
    let mut catalog: Vec<ModelInfo> = Vec::new();
    let mut seen_ids: Vec<String> = Vec::new();
    let mut priority: usize = 0;
    let ghost all = models@;
    assert(all.len() == models.len());
    assert(entry::texts(seen_ids@) =~= model_ids(all.take(0)));
    for model in it: models
        invariant
            it.seq() == all,
            priority == it.index(),
            priority <= all.len() <= usize::MAX,
            catalog@.len() == priority,
            entry::texts(seen_ids@) == model_ids(all.take(priority as int)),
            models_check(all, priority as nat) is Ok,
            forall|i: int|
                0 <= i < priority ==> entry::is_entry(
                    all[i],
                    i as nat,
                    bundled_models@,
                    base_instructions@,
                    #[trigger] catalog@[i],
                ) && budget::visible_bytes(catalog@[i]) == manifest_bytes(all[i]) && manifest_bytes(
                    all[i],
                ) <= usize::MAX,
    {
        assert(model == all[priority as int]);
        let made = to_model_info(
            model,
            priority,
            bundled_models,
            base_instructions,
            &mut seen_ids,
        );
        match made {
            Ok(info) => {
                proof {
                    lemma_entry_bytes(
                        model,
                        priority as nat,
                        bundled_models@,
                        base_instructions@,
                        info,
                    );
                    lemma_sound_model_is_small(
                        model,
                        priority as nat,
                        model_ids(all.take(priority as int)),
                    );
                    assert(model_ids(all.take(priority + 1)) =~= model_ids(
                        all.take(priority as int),
                    ).push(model.id@));
                }
                catalog.push(info);
            },
            Err(message) => {
                proof {
                    lemma_models_check_stops(all, (priority + 1) as nat, all.len());
                }
                return Err(message);
            },
        }
        priority += 1;
    }
    assert(budget::visible_sizes(catalog@) =~= manifest_sizes(all));
    validate_model_visible_catalog_budget(catalog.as_slice())?;
    Ok(catalog)
}

/// Turns what decoding a manifest gave into a catalog.
///
/// `bundled` is what loading the bundled models gave.
pub fn manifest_catalog(
    decoded: Result<ProviderManifest, String>,
    bundled: Result<Vec<ModelInfo>, String>,
    base_instructions: &str,
) -> (result: Result<Vec<ModelInfo>, String>)
    ensures
        is_outcome(decoded, bundled, base_instructions@, result),
{
    let manifest = match decoded {
        Ok(manifest) => manifest,
        Err(reason) => {
            return Err(
                "failed to decode provider manifest: ".to_owned().concat(reason.as_str()),
            );
        },
    };
    validate_header(&manifest)?;
    let bundled_models = match bundled {
        Ok(models) => models,
        Err(reason) => {
            return Err(
                "failed to load bundled model metadata: ".to_owned().concat(reason.as_str()),
            );
        },
    };
    catalog_entries(manifest.models, bundled_models.as_slice(), base_instructions)
}

/// Reads the body of a manifest and turns it into a catalog.
///
/// A body that is too large is refused before `decode` sees any of it.
pub fn parse_provider_manifest<D: FnOnce(&[u8]) -> Result<ProviderManifest, String>>(
    body: &[u8],
    decode: D,
    bundled: Result<Vec<ModelInfo>, String>,
    base_instructions: &str,
) -> (result: Result<Vec<ModelInfo>, String>)
    requires
        body@.len() <= MAX_PROVIDER_MANIFEST_BYTES ==> decode.requires((body,)),
    ensures
        if body@.len() > MAX_PROVIDER_MANIFEST_BYTES {
            result matches Err(message) && message@ == "provider manifest exceeds maximum size of "@
                + text::decimal(MAX_PROVIDER_MANIFEST_BYTES as nat) + " bytes"@
        } else {
            exists|decoded: Result<ProviderManifest, String>|
                decode.ensures((body,), decoded) && #[trigger] is_outcome(
                    decoded,
                    bundled,
                    base_instructions@,
                    result,
                )
        },
{
    if body.len() > MAX_PROVIDER_MANIFEST_BYTES {
        let most = decimal_text(MAX_PROVIDER_MANIFEST_BYTES as u64);
        return Err(
            "provider manifest exceeds maximum size of ".to_owned().concat(most.as_str()).concat(
                " bytes",
            ),
        );
    }
    let decoded = decode(body);
    manifest_catalog(decoded, bundled, base_instructions)
}

} // verus!
