use olp_storage::carried::Timestamp;
use olp_storage::configuration::ConfigurationError;
use olp_storage::domain::{CapabilitySource, OperationKind, Surface, TransportMode};
use olp_storage::rows::{
    capability_from_row, provider_models_from_rows, provider_revision_models_from_rows,
    CapabilityRow, ModelCapabilityRow, ProviderInventoryRow, ProviderModelRow,
    ProviderRevisionModelRow, RevisionCapabilityRow,
};
use uuid::Uuid;

fn row(operation: &str, surface: &str, mode: &str, source: &str) -> CapabilityRow {
    CapabilityRow {
        operation: operation.to_owned(),
        surface: surface.to_owned(),
        mode: mode.to_owned(),
        source: source.to_owned(),
        certified_at: Some(Timestamp { micros: 9 }),
    }
}

#[test]
fn stored_capabilities_read_back() {
    let record = capability_from_row(&row("video_get", "gemini", "streaming", "certified")).unwrap();
    assert_eq!(record.operation, OperationKind::VideoGet);
    assert_eq!(record.surface, Surface::Gemini);
    assert_eq!(record.mode, TransportMode::Streaming);
    assert_eq!(record.source, CapabilitySource::Certified);
    assert_eq!(record.certified_at, Some(Timestamp { micros: 9 }));
    for (bad, what) in [
        (row("chat", "openai", "unary", "declared"), "capability operation"),
        (row("generation", "azure", "unary", "declared"), "capability surface"),
        (row("generation", "openai", "batch", "declared"), "capability transport mode"),
        (row("generation", "openai", "unary", "probed"), "capability source"),
    ] {
        assert!(matches!(
            capability_from_row(&bad),
            Err(ConfigurationError::InvalidStoredValue(w)) if w == what
        ));
    }
}

#[test]
fn capability_rows_split_off_their_model() {
    let model_id = uuid::Uuid::from_u128(42);
    let (id, capability) = ModelCapabilityRow {
        provider_model_id: model_id,
        operation: "generation".to_owned(),
        surface: "openai".to_owned(),
        mode: "unary".to_owned(),
        source: "declared".to_owned(),
        certified_at: None,
    }
    .split();
    assert_eq!(id, model_id);
    assert_eq!(capability.operation, "generation");
    assert_eq!(capability.source, "declared");

    let (id, capability) = RevisionCapabilityRow {
        provider_revision_model_id: model_id,
        operation: "embeddings".to_owned(),
        surface: "anthropic".to_owned(),
        mode: "async".to_owned(),
        source: "certified".to_owned(),
        certified_at: Some(Timestamp { micros: 1 }),
    }
    .split();
    assert_eq!(id, model_id);
    assert_eq!(capability.mode, "async");
    assert_eq!(capability.certified_at, Some(Timestamp { micros: 1 }));
}

#[test]
fn inventory_rows_keep_their_model_part() {
    let model = ProviderInventoryRow {
        id: uuid::Uuid::from_u128(1),
        upstream_model: "gpt".to_owned(),
        display_name: "GPT".to_owned(),
        enabled: true,
        discovered_at: None,
        provider_id: uuid::Uuid::from_u128(2),
        provider_name: "Primary".to_owned(),
        provider_kind: "openai".to_owned(),
    }
    .model();
    assert_eq!(model.id, uuid::Uuid::from_u128(1));
    assert_eq!(model.upstream_model, "gpt");
    assert_eq!(model.display_name, "GPT");
    assert!(model.enabled);
}

#[test]
fn capability_texts_round_trip() {
    for text in [
        "generation",
        "embeddings",
        "image_generation",
        "token_count",
        "moderation",
        "model_list",
        "model_get",
        "video_get",
        "video_content",
        "video_delete",
    ] {
        assert_eq!(OperationKind::parse(text).unwrap().as_str(), text);
    }
    for text in ["openai", "anthropic", "gemini"] {
        assert_eq!(Surface::parse(text).unwrap().as_str(), text);
    }
    for text in ["unary", "streaming", "async"] {
        assert_eq!(TransportMode::parse(text).unwrap().as_str(), text);
    }
    for text in ["declared", "certified"] {
        assert_eq!(CapabilitySource::parse(text).unwrap().as_str(), text);
    }
    assert!(OperationKind::parse("Generation").is_none());
}

fn model_row(id: u128, name: &str) -> ProviderModelRow {
    ProviderModelRow {
        id: Uuid::from_u128(id),
        upstream_model: name.to_owned(),
        display_name: name.to_uppercase(),
        enabled: true,
        discovered_at: None,
    }
}

fn model_capability(owner: u128, operation: &str, mode: &str) -> ModelCapabilityRow {
    ModelCapabilityRow {
        provider_model_id: Uuid::from_u128(owner),
        operation: operation.to_owned(),
        surface: "openai".to_owned(),
        mode: mode.to_owned(),
        source: "declared".to_owned(),
        certified_at: None,
    }
}

#[test]
fn listed_models_collect_their_own_capabilities_in_row_order() {
    let models = provider_models_from_rows(
        vec![model_row(1, "alpha"), model_row(2, "beta"), model_row(3, "gamma")],
        vec![
            model_capability(2, "generation", "unary"),
            model_capability(1, "embeddings", "unary"),
            model_capability(2, "generation", "streaming"),
            model_capability(9, "moderation", "unary"),
        ],
    )
    .unwrap();
    assert_eq!(models.len(), 3);
    assert_eq!(models[0].id, Uuid::from_u128(1));
    assert_eq!(models[0].upstream_model, "alpha");
    assert_eq!(models[0].display_name, "ALPHA");
    let operations = |i: usize| {
        models[i]
            .capabilities
            .iter()
            .map(|c| (c.operation, c.mode))
            .collect::<Vec<_>>()
    };
    assert_eq!(operations(0), vec![(OperationKind::Embeddings, TransportMode::Unary)]);
    assert_eq!(
        operations(1),
        vec![
            (OperationKind::Generation, TransportMode::Unary),
            (OperationKind::Generation, TransportMode::Streaming),
        ]
    );
    assert!(operations(2).is_empty());
}

#[test]
fn a_repeated_model_receives_its_capabilities_once() {
    let models = provider_models_from_rows(
        vec![model_row(1, "alpha"), model_row(1, "alpha")],
        vec![model_capability(1, "generation", "unary")],
    )
    .unwrap();
    assert_eq!(models[0].capabilities.len(), 1);
    assert!(models[1].capabilities.is_empty());
}

#[test]
fn a_corrupt_capability_row_fails_the_listing_even_when_unowned() {
    let result = provider_models_from_rows(
        vec![model_row(1, "alpha")],
        vec![
            model_capability(1, "generation", "unary"),
            model_capability(7, "generation", "batch"),
            model_capability(7, "chat", "unary"),
        ],
    );
    assert!(matches!(
        result,
        Err(ConfigurationError::InvalidStoredValue(w)) if w == "capability transport mode"
    ));
}

fn revision_model(revision_model: u128, source: u128, name: &str) -> ProviderRevisionModelRow {
    ProviderRevisionModelRow {
        revision_model_id: Uuid::from_u128(revision_model),
        source_provider_model_id: Uuid::from_u128(source),
        upstream_model: name.to_owned(),
        display_name: name.to_owned(),
        enabled: false,
        discovered_at: Some(Timestamp { micros: 5 }),
    }
}

fn revision_capability(owner: u128, operation: &str) -> RevisionCapabilityRow {
    RevisionCapabilityRow {
        provider_revision_model_id: Uuid::from_u128(owner),
        operation: operation.to_owned(),
        surface: "anthropic".to_owned(),
        mode: "unary".to_owned(),
        source: "certified".to_owned(),
        certified_at: Some(Timestamp { micros: 6 }),
    }
}

#[test]
fn revision_models_keep_their_source_id_and_frozen_capabilities() {
    let models = provider_revision_models_from_rows(
        vec![revision_model(100, 1, "alpha"), revision_model(200, 2, "beta")],
        vec![revision_capability(200, "token_count"), revision_capability(100, "generation")],
        None,
    )
    .unwrap();
    assert_eq!(models[0].id, Uuid::from_u128(1));
    assert_eq!(models[1].id, Uuid::from_u128(2));
    assert_eq!(models[0].discovered_at, Some(Timestamp { micros: 5 }));
    assert_eq!(models[0].capabilities[0].operation, OperationKind::Generation);
    assert_eq!(models[1].capabilities[0].operation, OperationKind::TokenCount);
    assert_eq!(models[1].capabilities[0].surface, Surface::Anthropic);
}

#[test]
fn revision_capabilities_beyond_the_limit_are_refused() {
    let rows = || vec![revision_capability(100, "generation"), revision_capability(100, "moderation")];
    assert!(matches!(
        provider_revision_models_from_rows(vec![revision_model(100, 1, "alpha")], rows(), Some(1)),
        Err(ConfigurationError::ProviderRevisionDiffTooLarge { dimension: "capability tuples", maximum: 1 })
    ));
    let models =
        provider_revision_models_from_rows(vec![revision_model(100, 1, "alpha")], rows(), Some(2))
            .unwrap();
    assert_eq!(models[0].capabilities.len(), 2);
}
