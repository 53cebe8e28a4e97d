//! The models that a session offers, and where they come from.

use std::convert::Infallible;

use vstd::prelude::*;

use crate::models::ModelPreset;

verus! {

/// The kind of provider that a catalog came from, as it was when the catalog was
/// made. The configuration may change afterwards; this does not.
#[derive(Debug, Clone, Copy, PartialEq, Eq)]
pub enum ModelCatalogProvenance {
    KnownOrdinary,
    KnownManifest,
    Unknown,
}

/// The models that a session offers.
#[derive(Debug)]
pub struct ModelCatalog {
    models: Vec<ModelPreset>,
}

/// Two lists hold the same presets in the same order.
pub open spec fn same_presets(a: Seq<ModelPreset>, b: Seq<ModelPreset>) -> bool {
    &&& a.len() == b.len()
    &&& forall|i: int| 0 <= i < a.len() ==> (#[trigger] a[i]).same_as(&b[i])
}

/// A catalog gives back the models it was made of, however often it is asked.
pub proof fn catalog_gives_back_its_models(
    models: Seq<ModelPreset>,
    catalog: ModelCatalog,
    first: Seq<ModelPreset>,
    second: Seq<ModelPreset>,
)
    requires
        catalog@ == models,
        same_presets(first, catalog@),
        same_presets(second, catalog@),
    ensures
        same_presets(first, models),
        same_presets(first, second),
{
    assert forall|i: int| 0 <= i < first.len() implies (#[trigger] first[i]).same_as(
        &second[i],
    ) by {
        assert(second[i].same_as(&models[i]));
    }
}

/// A catalog lists as many models as it was made of, in their order, and each of
/// them field by field as it was given.
pub proof fn catalogs_list_every_model_as_given(
    models: Vec<ModelPreset>,
    catalog: ModelCatalog,
    result: Result<Vec<ModelPreset>, Infallible>,
)
    requires
        call_ensures(ModelCatalog::new, (models,), catalog),
        call_ensures(ModelCatalog::try_list_models, (&catalog,), result),
    ensures
        result matches Ok(listed) && {
            &&& listed@.len() == models@.len()
            &&& forall|i: int|
                #![trigger listed@[i]]
                0 <= i < listed@.len() ==> {
                    &&& listed@[i].id@ == models@[i].id@
                    &&& listed@[i].model@ == models@[i].model@
                    &&& listed@[i].display_name@ == models@[i].display_name@
                    &&& listed@[i].description@ == models@[i].description@
                    &&& listed@[i].default_reasoning_effort == models@[i].default_reasoning_effort
                    &&& listed@[i].supported_reasoning_efforts@
                        == models@[i].supported_reasoning_efforts@
                    &&& listed@[i].supports_personality == models@[i].supports_personality
                    &&& listed@[i].additional_speed_tiers@ == models@[i].additional_speed_tiers@
                    &&& listed@[i].service_tiers@ == models@[i].service_tiers@
                    &&& listed@[i].default_service_tier == models@[i].default_service_tier
                    &&& listed@[i].is_default == models@[i].is_default
                    &&& listed@[i].upgrade == models@[i].upgrade
                    &&& listed@[i].show_in_picker == models@[i].show_in_picker
                    &&& listed@[i].availability_nux == models@[i].availability_nux
                    &&& listed@[i].input_modalities@ == models@[i].input_modalities@
                }
        },
{
}

impl View for ModelCatalog {
    type V = Seq<ModelPreset>;

    closed spec fn view(&self) -> Seq<ModelPreset> {
        self.models@
    }
}

impl ModelCatalog {
    /// A catalog of these models.
    pub fn new(models: Vec<ModelPreset>) -> (catalog: Self)
        ensures
            catalog@ == models@,
    {
        ModelCatalog { models }
    }

    /// The models of the catalog, in order.
    pub fn try_list_models(&self) -> (result: Result<Vec<ModelPreset>, Infallible>)
        ensures
            result matches Ok(models) && same_presets(models@, self@),
    {
        Ok(self.models.clone())
    }
}

} // verus!
