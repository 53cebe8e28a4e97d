use provider_models::listing::{
    model_from_preset, reasoning_efforts_from_preset, supported_models, ModelServiceTier,
    ModelUpgradeInfo, ReasoningEffortOption,
};
use provider_models::model_catalog::{ModelCatalog, ModelCatalogProvenance};
use provider_models::models;
use provider_models::models::{
    InputModality, ModelAvailabilityNux, ModelPreset, ModelUpgrade, ReasoningEffort,
    ReasoningEffortPreset,
};

fn preset(id: &str, show_in_picker: bool) -> ModelPreset {
    ModelPreset {
        id: id.to_string(),
        model: format!("{id}-model"),
        display_name: format!("Model {id}"),
        description: format!("About {id}"),
        default_reasoning_effort: ReasoningEffort::Medium,
        supported_reasoning_efforts: vec![ReasoningEffortPreset {
            effort: ReasoningEffort::Custom("deep".to_string()),
            description: "Thinks long".to_string(),
        }],
        supports_personality: true,
        additional_speed_tiers: vec!["fast".to_string()],
        service_tiers: vec![models::ModelServiceTier {
            id: "priority".to_string(),
            name: "fast".to_string(),
            description: "Sooner".to_string(),
        }],
        default_service_tier: Some("priority".to_string()),
        is_default: true,
        upgrade: Some(ModelUpgrade {
            id: "next".to_string(),
            upgrade_copy: Some("Try next".to_string()),
            model_link: None,
            migration_markdown: Some("# Next".to_string()),
        }),
        show_in_picker,
        availability_nux: Some(ModelAvailabilityNux { message: "New".to_string() }),
        input_modalities: vec![InputModality::Text, InputModality::Audio],
    }
}

#[test]
fn a_preset_is_shown_field_by_field() {
    let model = model_from_preset(preset("a", false));
    assert_eq!(model.id, "a");
    assert_eq!(model.model, "a-model");
    assert_eq!(model.upgrade, Some("next".to_string()));
    assert_eq!(
        model.upgrade_info,
        Some(ModelUpgradeInfo {
            model: "next".to_string(),
            upgrade_copy: Some("Try next".to_string()),
            model_link: None,
            migration_markdown: Some("# Next".to_string()),
        })
    );
    assert_eq!(model.availability_nux, Some(ModelAvailabilityNux { message: "New".to_string() }));
    assert_eq!(model.display_name, "Model a");
    assert_eq!(model.description, "About a");
    assert!(model.hidden);
    assert_eq!(
        model.supported_reasoning_efforts,
        vec![ReasoningEffortOption {
            reasoning_effort: ReasoningEffort::Custom("deep".to_string()),
            description: "Thinks long".to_string(),
        }]
    );
    assert_eq!(model.default_reasoning_effort, ReasoningEffort::Medium);
    assert_eq!(model.input_modalities, vec![InputModality::Text, InputModality::Audio]);
    assert!(model.supports_personality);
    assert_eq!(model.additional_speed_tiers, vec!["fast".to_string()]);
    assert_eq!(
        model.service_tiers,
        vec![ModelServiceTier {
            id: "priority".to_string(),
            name: "fast".to_string(),
            description: "Sooner".to_string(),
        }]
    );
    assert_eq!(model.default_service_tier, Some("priority".to_string()));
    assert!(model.is_default);
}

#[test]
fn a_preset_without_an_upgrade_shows_none() {
    let mut plain = preset("a", true);
    plain.upgrade = None;
    let model = model_from_preset(plain);
    assert_eq!(model.upgrade, None);
    assert_eq!(model.upgrade_info, None);
    assert!(!model.hidden);
}

#[test]
fn hidden_models_are_listed_on_request() {
    let presets = || vec![preset("a", true), preset("b", false), preset("c", true)];
    let ids = |include_hidden| {
        supported_models(presets(), include_hidden)
            .into_iter()
            .map(|model| (model.id, model.hidden))
            .collect::<Vec<_>>()
    };
    assert_eq!(ids(false), vec![("a".to_string(), false), ("c".to_string(), false)]);
    assert_eq!(
        ids(true),
        vec![("a".to_string(), false), ("b".to_string(), true), ("c".to_string(), false)]
    );
    assert!(supported_models(Vec::new(), true).is_empty());
}

#[test]
fn efforts_keep_their_order() {
    let effort = |id: &str| ReasoningEffortPreset {
        effort: ReasoningEffort::from_id(id),
        description: format!("{id} effort"),
    };
    let options = reasoning_efforts_from_preset(vec![effort("high"), effort("low")]);
    assert_eq!(options.len(), 2);
    assert_eq!(options[0].reasoning_effort, ReasoningEffort::High);
    assert_eq!(options[1].description, "low effort");
}

#[test]
fn a_catalog_lists_what_it_was_made_of() {
    let catalog = ModelCatalog::new(vec![preset("a", true), preset("b", false)]);
    let first = catalog.try_list_models().expect("infallible");
    let second = catalog.try_list_models().expect("infallible");
    assert_eq!(first, vec![preset("a", true), preset("b", false)]);
    assert_eq!(first, second);
    assert_ne!(ModelCatalogProvenance::KnownManifest, ModelCatalogProvenance::Unknown);
}
