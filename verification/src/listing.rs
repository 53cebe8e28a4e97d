//! The models that a client of the program is shown.

use vstd::prelude::*;

use crate::models;
use crate::models::{
    InputModality, ModelAvailabilityNux, ModelPreset, ReasoningEffort, ReasoningEffortPreset,
};

verus! {

/// The model that a client should move to, and what to tell its user.
#[derive(Debug, PartialEq, Eq)]
pub struct ModelUpgradeInfo {
    pub model: String,
    pub upgrade_copy: Option<String>,
    pub model_link: Option<String>,
    pub migration_markdown: Option<String>,
}

/// A service tier as a client is shown it.
#[derive(Debug, PartialEq, Eq)]
pub struct ModelServiceTier {
    pub id: String,
    pub name: String,
    pub description: String,
}

/// A reasoning effort as a client is shown it.
#[derive(Debug, PartialEq, Eq)]
pub struct ReasoningEffortOption {
    pub reasoning_effort: ReasoningEffort,
    pub description: String,
}

/// A model as a client is shown it.
#[derive(Debug, PartialEq, Eq)]
pub struct Model {
    pub id: String,
    pub model: String,
    pub upgrade: Option<String>,
    pub upgrade_info: Option<ModelUpgradeInfo>,
    pub availability_nux: Option<ModelAvailabilityNux>,
    pub display_name: String,
    pub description: String,
    pub hidden: bool,
    pub supported_reasoning_efforts: Vec<ReasoningEffortOption>,
    pub default_reasoning_effort: ReasoningEffort,
    pub input_modalities: Vec<InputModality>,
    pub supports_personality: bool,
    pub additional_speed_tiers: Vec<String>,
    pub service_tiers: Vec<ModelServiceTier>,
    pub default_service_tier: Option<String>,
    pub is_default: bool,
}

/// The option that a preset of an effort is shown as.
pub open spec fn effort_option(preset: ReasoningEffortPreset) -> ReasoningEffortOption {
    ReasoningEffortOption { reasoning_effort: preset.effort, description: preset.description }
}

/// The tier that a tier of a model is shown as.
pub open spec fn shown_tier(tier: models::ModelServiceTier) -> ModelServiceTier {
    ModelServiceTier { id: tier.id, name: tier.name, description: tier.description }
}

/// The upgrade that a preset's upgrade is shown as.
pub open spec fn upgrade_info(upgrade: models::ModelUpgrade) -> ModelUpgradeInfo {
    ModelUpgradeInfo {
        model: upgrade.id,
        upgrade_copy: upgrade.upgrade_copy,
        model_link: upgrade.model_link,
        migration_markdown: upgrade.migration_markdown,
    }
}

/// The model is what the preset is shown as.
pub open spec fn shows(model: Model, preset: ModelPreset) -> bool {
    &&& model.id == preset.id
    &&& model.model == preset.model
    &&& match preset.upgrade {
        Some(upgrade) => model.upgrade == Some(upgrade.id) && model.upgrade_info == Some(
            upgrade_info(upgrade),
        ),
        None => model.upgrade is None && model.upgrade_info is None,
    }
    &&& model.availability_nux == preset.availability_nux
    &&& model.display_name == preset.display_name
    &&& model.description == preset.description
    &&& model.hidden == !preset.show_in_picker
    &&& model.supported_reasoning_efforts@ == preset.supported_reasoning_efforts@.map_values(
        |effort: ReasoningEffortPreset| effort_option(effort),
    )
    &&& model.default_reasoning_effort == preset.default_reasoning_effort
    &&& model.input_modalities == preset.input_modalities
    &&& model.supports_personality == preset.supports_personality
    &&& model.additional_speed_tiers == preset.additional_speed_tiers
    &&& model.service_tiers@ == preset.service_tiers@.map_values(
        |tier: models::ModelServiceTier| shown_tier(tier),
    )
    &&& model.default_service_tier == preset.default_service_tier
    &&& model.is_default == preset.is_default
}

/// The presets that are listed, in their order: all of them, or those that the
/// picker shows.
pub open spec fn listed(presets: Seq<ModelPreset>, include_hidden: bool) -> Seq<ModelPreset> {
    presets.filter(|preset: ModelPreset| include_hidden || preset.show_in_picker)
}

/// Each model is what the preset in its place is shown as.
pub open spec fn shows_all(models: Seq<Model>, presets: Seq<ModelPreset>) -> bool {
    &&& models.len() == presets.len()
    &&& forall|i: int| 0 <= i < models.len() ==> shows(#[trigger] models[i], presets[i])
}

/// The efforts as a client is shown them.
pub fn reasoning_efforts_from_preset(efforts: Vec<ReasoningEffortPreset>) -> (options: Vec<
    ReasoningEffortOption,
>)
    ensures
        options@ == efforts@.map_values(|effort: ReasoningEffortPreset| effort_option(effort)),
{
    let ghost all = efforts@;
    let mut options: Vec<ReasoningEffortOption> = Vec::new();
    for preset in it: efforts
        invariant
            it.seq() == all,
            options@ == all.take(it.index() as int).map_values(
                |effort: ReasoningEffortPreset| effort_option(effort),
            ),
    {
        options.push(
            ReasoningEffortOption {
                reasoning_effort: preset.effort,
                description: preset.description,
            },
        );
        assert(options@ =~= all.take(it.index() + 1).map_values(
            |effort: ReasoningEffortPreset| effort_option(effort),
        ));
    }
    assert(all.take(all.len() as int) =~= all);
    options
}

fn service_tiers_from_preset(tiers: Vec<models::ModelServiceTier>) -> (shown: Vec<ModelServiceTier>)
    ensures
        shown@ == tiers@.map_values(|tier: models::ModelServiceTier| shown_tier(tier)),
{
    let ghost all = tiers@;
    let mut shown: Vec<ModelServiceTier> = Vec::new();
    for tier in it: tiers
        invariant
            it.seq() == all,
            shown@ == all.take(it.index() as int).map_values(
                |tier: models::ModelServiceTier| shown_tier(tier),
            ),
    {
        shown.push(
            ModelServiceTier { id: tier.id, name: tier.name, description: tier.description },
        );
        assert(shown@ =~= all.take(it.index() + 1).map_values(
            |tier: models::ModelServiceTier| shown_tier(tier),
        ));
    }
    assert(all.take(all.len() as int) =~= all);
    shown
}

/// The model that a preset is shown as.
pub fn model_from_preset(preset: ModelPreset) -> (model: Model)
    ensures
        shows(model, preset),
{
    let (upgrade, upgrade_info) = match preset.upgrade {
        Some(upgrade) => (
            Some(upgrade.id.clone()),
            Some(
                ModelUpgradeInfo {
                    model: upgrade.id,
                    upgrade_copy: upgrade.upgrade_copy,
                    model_link: upgrade.model_link,
                    migration_markdown: upgrade.migration_markdown,
                },
            ),
        ),
        None => (None, None),
    };
    Model {
        id: preset.id,
        model: preset.model,
        upgrade,
        upgrade_info,
        availability_nux: preset.availability_nux,
        display_name: preset.display_name,
        description: preset.description,
        hidden: !preset.show_in_picker,
        supported_reasoning_efforts: reasoning_efforts_from_preset(
            preset.supported_reasoning_efforts,
        ),
        default_reasoning_effort: preset.default_reasoning_effort,
        input_modalities: preset.input_modalities,
        supports_personality: preset.supports_personality,
        additional_speed_tiers: preset.additional_speed_tiers,
        service_tiers: service_tiers_from_preset(preset.service_tiers),
        default_service_tier: preset.default_service_tier,
        is_default: preset.is_default,
    }
}

/// The models that a client is shown, in the order of the presets.
pub fn supported_models(presets: Vec<ModelPreset>, include_hidden: bool) -> (models: Vec<Model>)
    ensures
        shows_all(models@, listed(presets@, include_hidden)),
{
    let ghost all = presets@;
    let mut models: Vec<Model> = Vec::new();
    for preset in it: presets
        invariant
            it.seq() == all,
            shows_all(models@, listed(all.take(it.index() as int), include_hidden)),
    {
        proof {
            let i = it.index() as int;
            assert(all.take(i + 1) =~= all.take(i).push(preset));
            reveal(Seq::filter);
            assert(all.take(i + 1).drop_last() =~= all.take(i));
        }
        if include_hidden || preset.show_in_picker {
            models.push(model_from_preset(preset));
        }
    }
    assert(all.take(all.len() as int) =~= all);
    models
}

/// A preset is shown field by field: its names, texts, efforts, tiers and
/// modalities as they are, hidden where the picker does not show it, and as the
/// default exactly where it is the default.
pub proof fn presets_are_shown_field_by_field(preset: ModelPreset, model: Model)
    requires
        call_ensures(model_from_preset, (preset,), model),
    ensures
        shown_like(model, preset),
{
    lemma_shown(model, preset);
}

/// The model and the preset agree in every field.
pub open spec fn shown_like(model: Model, preset: ModelPreset) -> bool {
    &&& model.id@ == preset.id@
    &&& model.model@ == preset.model@
    &&& model.display_name@ == preset.display_name@
    &&& model.description@ == preset.description@
    &&& model.is_default <==> preset.is_default
    &&& model.hidden <==> !preset.show_in_picker
    &&& model.supports_personality <==> preset.supports_personality
    &&& model.default_reasoning_effort == preset.default_reasoning_effort
    &&& model.availability_nux == preset.availability_nux
    &&& model.default_service_tier == preset.default_service_tier
    &&& model.input_modalities@ == preset.input_modalities@
    &&& model.additional_speed_tiers@ == preset.additional_speed_tiers@
    &&& model.supported_reasoning_efforts@.len() == preset.supported_reasoning_efforts@.len()
    &&& forall|k: int|
        #![trigger model.supported_reasoning_efforts@[k]]
        0 <= k < preset.supported_reasoning_efforts@.len() ==> {
            &&& model.supported_reasoning_efforts@[k].reasoning_effort
                == preset.supported_reasoning_efforts@[k].effort
            &&& model.supported_reasoning_efforts@[k].description@
                == preset.supported_reasoning_efforts@[k].description@
        }
    &&& model.service_tiers@.len() == preset.service_tiers@.len()
    &&& forall|k: int|
        #![trigger model.service_tiers@[k]]
        0 <= k < preset.service_tiers@.len() ==> {
            &&& model.service_tiers@[k].id@ == preset.service_tiers@[k].id@
            &&& model.service_tiers@[k].name@ == preset.service_tiers@[k].name@
            &&& model.service_tiers@[k].description@ == preset.service_tiers@[k].description@
        }
    &&& match preset.upgrade {
        Some(upgrade) => {
            &&& model.upgrade matches Some(next) && next@ == upgrade.id@
            &&& model.upgrade_info matches Some(info) && {
                &&& info.model@ == upgrade.id@
                &&& info.upgrade_copy == upgrade.upgrade_copy
                &&& info.model_link == upgrade.model_link
                &&& info.migration_markdown == upgrade.migration_markdown
            }
        },
        None => model.upgrade is None && model.upgrade_info is None,
    }
}

/// Presets that differ in being the default are shown by models that differ in
/// it, and likewise for being hidden and for the support of personalities.
pub proof fn flags_of_presets_are_told_apart(
    a: ModelPreset,
    b: ModelPreset,
    model_a: Model,
    model_b: Model,
)
    requires
        call_ensures(model_from_preset, (a,), model_a),
        call_ensures(model_from_preset, (b,), model_b),
    ensures
        model_a.is_default == model_b.is_default <==> a.is_default == b.is_default,
        model_a.hidden == model_b.hidden <==> a.show_in_picker == b.show_in_picker,
        model_a.supports_personality == model_b.supports_personality <==> a.supports_personality
            == b.supports_personality,
{
}

/// With the hidden ones, a client is shown one model for each preset, in order,
/// and each like its preset.
pub proof fn every_preset_is_listed_on_request(presets: Vec<ModelPreset>, models: Vec<Model>)
    requires
        call_ensures(supported_models, (presets, true), models),
    ensures
        models@.len() == presets@.len(),
        forall|i: int|
            #![trigger models@[i]]
            0 <= i < models@.len() ==> {
                &&& models@[i].id@ == presets@[i].id@
                &&& models@[i].is_default == presets@[i].is_default
                &&& models@[i].hidden == !presets@[i].show_in_picker
                &&& shown_like(models@[i], presets@[i])
            },
{
    hidden_models_are_left_out(presets@, true, models@);
    assert forall|i: int| #![trigger models@[i]] 0 <= i < models@.len() implies shown_like(
        models@[i],
        presets@[i],
    ) by {
        lemma_shown(models@[i], presets@[i]);
    }
}

proof fn lemma_shown(model: Model, preset: ModelPreset)
    requires
        shows(model, preset),
    ensures
        shown_like(model, preset),
{
    assert forall|k: int|
        #![trigger model.supported_reasoning_efforts@[k]]
        0 <= k < preset.supported_reasoning_efforts@.len() implies {
        &&& model.supported_reasoning_efforts@[k].reasoning_effort
            == preset.supported_reasoning_efforts@[k].effort
        &&& model.supported_reasoning_efforts@[k].description@
            == preset.supported_reasoning_efforts@[k].description@
    } by {
        assert(model.supported_reasoning_efforts@[k] == effort_option(
            preset.supported_reasoning_efforts@[k],
        ));
    }
    assert forall|k: int|
        #![trigger model.service_tiers@[k]]
        0 <= k < preset.service_tiers@.len() implies {
        &&& model.service_tiers@[k].id@ == preset.service_tiers@[k].id@
        &&& model.service_tiers@[k].name@ == preset.service_tiers@[k].name@
        &&& model.service_tiers@[k].description@ == preset.service_tiers@[k].description@
    } by {
        assert(model.service_tiers@[k] == shown_tier(preset.service_tiers@[k]));
    }
}

/// Without the hidden ones, a client is shown a model for each preset that the
/// picker shows, and no other: there is a place for each model, the places
/// ascend, every shown preset has one, and each model is like the preset there.
pub proof fn shown_presets_are_listed_in_order(presets: Vec<ModelPreset>, models: Vec<Model>)
    -> (places: Seq<int>)
    requires
        call_ensures(supported_models, (presets, false), models),
    ensures
        places.len() == models@.len(),
        forall|i: int, j: int| 0 <= i < j < places.len() ==> places[i] < places[j],
        forall|i: int|
            #![trigger places[i]]
            0 <= i < places.len() ==> 0 <= places[i] < presets@.len()
                && presets@[places[i]].show_in_picker && shown_like(
                models@[i],
                presets@[places[i]],
            ),
        forall|p: int|
            0 <= p < presets@.len() && (#[trigger] presets@[p]).show_in_picker ==> places.contains(
                p,
            ),
{
    let include_hidden = false;
    let kept = |preset: ModelPreset| include_hidden || preset.show_in_picker;
    let places = lemma_filter_places(presets@, kept);
    let wanted = listed(presets@, false);
    assert(wanted =~= presets@.filter(kept));
    assert forall|i: int|
        #![trigger places[i]]
        0 <= i < places.len() implies 0 <= places[i] < presets@.len()
        && presets@[places[i]].show_in_picker && shown_like(models@[i], presets@[places[i]]) by {
        assert(kept(presets@[places[i]]));
        assert(shows(models@[i], wanted[i]));
        lemma_shown(models@[i], wanted[i]);
    }
    assert forall|p: int| 0 <= p < presets@.len() && (
    #[trigger] presets@[p]).show_in_picker implies places.contains(p) by {
        assert(kept(presets@[p]));
    }
    places
}

/// Where the items that a filter keeps stood.
proof fn lemma_filter_places(presets: Seq<ModelPreset>, kept: spec_fn(ModelPreset) -> bool)
    -> (places: Seq<int>)
    ensures
        places.len() == presets.filter(kept).len(),
        forall|i: int, j: int| 0 <= i < j < places.len() ==> places[i] < places[j],
        forall|i: int|
            #![trigger places[i]]
            0 <= i < places.len() ==> 0 <= places[i] < presets.len() && kept(presets[places[i]])
                && presets.filter(kept)[i] == presets[places[i]],
        forall|p: int| 0 <= p < presets.len() && kept(#[trigger] presets[p]) ==> places.contains(p),
    decreases presets.len(),
{
    reveal(Seq::filter);
    if presets.len() == 0 {
        Seq::empty()
    } else {
        let rest = presets.drop_last();
        let before = lemma_filter_places(rest, kept);
        let last = presets.len() - 1;
        if kept(presets[last]) {
            let places = before.push(last);
            assert forall|p: int| 0 <= p < presets.len() && kept(
                #[trigger] presets[p],
            ) implies places.contains(p) by {
                if p == last {
                    assert(places[before.len() as int] == p);
                } else {
                    assert(kept(rest[p]));
                    assert(before.contains(p));
                    let k = choose|k: int| 0 <= k < before.len() && before[k] == p;
                    assert(places[k] == p);
                }
            }
            assert forall|i: int|
                #![trigger places[i]]
                0 <= i < places.len() implies 0 <= places[i] < presets.len() && kept(
                presets[places[i]],
            ) && presets.filter(kept)[i] == presets[places[i]] by {
                if i < before.len() {
                    assert(places[i] == before[i]);
                    assert(rest[before[i]] == presets[before[i]]);
                }
            }
            places
        } else {
            assert forall|p: int| 0 <= p < presets.len() && kept(
                #[trigger] presets[p],
            ) implies before.contains(p) by {
                assert(kept(rest[p]));
            }
            assert forall|i: int|
                #![trigger before[i]]
                0 <= i < before.len() implies 0 <= before[i] < presets.len() && kept(
                presets[before[i]],
            ) && presets.filter(kept)[i] == presets[before[i]] by {
                assert(rest[before[i]] == presets[before[i]]);
            }
            before
        }
    }
}

/// The efforts are shown one for one, in order, each with its own description.
pub proof fn efforts_are_shown_one_for_one(
    efforts: Vec<ReasoningEffortPreset>,
    options: Vec<ReasoningEffortOption>,
)
    requires
        call_ensures(reasoning_efforts_from_preset, (efforts,), options),
    ensures
        options@.len() == efforts@.len(),
        forall|i: int|
            #![trigger options@[i]]
            0 <= i < options@.len() ==> options@[i].reasoning_effort == efforts@[i].effort
                && options@[i].description@ == efforts@[i].description@,
{
    assert forall|i: int| #![trigger options@[i]] 0 <= i < options@.len() implies options@[
        i
    ].reasoning_effort == efforts@[i].effort && options@[i].description@
        == efforts@[i].description@ by {
        assert(options@[i] == effort_option(efforts@[i]));
    }
}

/// Without the hidden models, a client is shown none that is marked hidden. With
/// them it is shown every preset, in order.
pub proof fn hidden_models_are_left_out(
    presets: Seq<ModelPreset>,
    include_hidden: bool,
    models: Seq<Model>,
)
    requires
        shows_all(models, listed(presets, include_hidden)),
    ensures
        include_hidden ==> shows_all(models, presets),
        !include_hidden ==> forall|i: int|
            0 <= i < models.len() ==> !(#[trigger] models[i]).hidden,
        forall|i: int|
            0 <= i < presets.len() && (include_hidden || (#[trigger] presets[i]).show_in_picker)
                ==> exists|k: int| 0 <= k < models.len() && shows(#[trigger] models[k], presets[i]),
{
    let wanted = |preset: ModelPreset| include_hidden || preset.show_in_picker;
    broadcast use vstd::seq_lib::group_filter_ensures;

    if include_hidden {
        lemma_filter_keeps_all(presets, wanted);
    }
    assert forall|i: int|
        0 <= i < presets.len() && (include_hidden || (
        #[trigger] presets[i]).show_in_picker) implies exists|k: int|
        0 <= k < models.len() && shows(#[trigger] models[k], presets[i]) by {
        assert(wanted(presets[i]));
        assert(listed(presets, include_hidden).contains(presets[i]));
        let k = choose|k: int|
            0 <= k < listed(presets, include_hidden).len() && listed(presets, include_hidden)[k]
                == presets[i];
        assert(shows(models[k], presets[i]));
    }
}

proof fn lemma_filter_keeps_all(presets: Seq<ModelPreset>, wanted: spec_fn(ModelPreset) -> bool)
    requires
        forall|i: int| 0 <= i < presets.len() ==> wanted(#[trigger] presets[i]),
    ensures
        presets.filter(wanted) == presets,
    decreases presets.len(),
{
    reveal(Seq::filter);
    if presets.len() > 0 {
        lemma_filter_keeps_all(presets.drop_last(), wanted);
        assert(presets.drop_last().push(presets.last()) =~= presets);
    }
}

} // verus!
