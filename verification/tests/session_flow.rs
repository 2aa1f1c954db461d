use forge_variation::{
    AssetClass, BaseInputRefV1, BaseInputType, DimensionsMeters, ExportSettingsV1,
    ParameterSetV1, Seed, SessionError, SessionV1, UniqueId, PARAM_SCHEMA_VERSION,
};

fn blank_session() -> SessionV1 {
    SessionV1 {
        session_id: UniqueId(11),
        asset_class: AssetClass::ArenaProp,
        schema_version: String::from(PARAM_SCHEMA_VERSION),
        base_input: BaseInputRefV1 {
            input_type: BaseInputType::Drawn,
            source_path: String::from("test.png"),
        },
        base_seed: Seed(42),
        base_params: ParameterSetV1::default(),
        intent_history: vec![],
        variations: vec![],
        approvals: vec![],
        notes: None,
    }
}

fn good_dimensions() -> DimensionsMeters {
    DimensionsMeters { height: 2500, width: 1000, depth: 500 }
}

#[test]
fn test_empty_intent_rejected() {
    let mut session = blank_session();
    assert!(session.push_intent(String::from("")).is_err());
    assert!(session.push_intent(String::from("   ")).is_err());
    assert!(session.push_intent(String::from("valid intent")).is_ok());
}

#[test]
fn test_push_intent_numbers_sequentially() {
    let mut session = blank_session();
    assert_eq!(session.push_intent(String::from("first")).unwrap(), 0);
    assert!(matches!(
        session.push_intent(String::from("\t\n")),
        Err(SessionError::EmptyIntent)
    ));
    assert_eq!(session.push_intent(String::from("  second  ")).unwrap(), 1);
    assert_eq!(session.intent_history.len(), 2);
    assert_eq!(session.intent_history[0].iteration, 0);
    assert_eq!(session.intent_history[1].iteration, 1);
    assert_eq!(session.intent_history[1].text, "  second  ");
}

#[test]
fn test_session_new_invalid_path() {
    let missing = BaseInputRefV1 {
        input_type: BaseInputType::Image,
        source_path: String::from("no/such/file/anywhere.png"),
    };
    let r = SessionV1::new(AssetClass::Pillar, missing, Seed(1));
    match r {
        Err(SessionError::InvalidPath { path }) => {
            assert_eq!(path, "no/such/file/anywhere.png");
        },
        _ => panic!("expected InvalidPath"),
    }
}

#[test]
fn test_session_new_with_resolvable_path() {
    let input = BaseInputRefV1 {
        input_type: BaseInputType::Image,
        source_path: String::from("."),
    };
    let s = SessionV1::new(AssetClass::Pillar, input, Seed(5)).unwrap();
    assert_eq!(s.schema_version, PARAM_SCHEMA_VERSION);
    assert_eq!(s.base_seed, Seed(5));
    assert_eq!(s.base_params, ParameterSetV1::default());
    assert!(s.intent_history.is_empty());
    assert!(s.variations.is_empty());
    assert!(s.approvals.is_empty());
}

#[test]
fn test_generate_variations_replaces_batch() {
    let mut session = blank_session();
    session.generate_variations(5, "stone pillar");
    assert_eq!(session.variations.len(), 5);
    let first_ids: Vec<String> =
        session.variations.iter().map(|v| v.variation_id.clone()).collect();
    session.generate_variations(3, "rougher");
    assert_eq!(session.variations.len(), 3);
    // same base seed: the regenerated prefix carries the same ids
    assert_eq!(session.variations[0].variation_id, first_ids[0]);
}

#[test]
fn test_append_variations_keeps_existing() {
    let mut session = blank_session();
    session.generate_variations(2, "a");
    session.append_variations(3, "b");
    assert_eq!(session.variations.len(), 5);
    assert_eq!(session.variations[0].intent_text, "a");
    assert_eq!(session.variations[2].intent_text, "b");
    // appended entries continue the index sequence, so every id is unique
    assert!(session.variations[2].variation_id.starts_with("var_0002_"));
    assert!(session.variations[4].variation_id.starts_with("var_0004_"));
    assert!(session.validate_with(PARAM_SCHEMA_VERSION, true).is_ok());
}

#[test]
fn test_approve_variation_and_duplicate() {
    let mut session = blank_session();
    session.generate_variations(5, "stone pillar");
    let vid = session.variations[0].variation_id.clone();
    assert!(vid.starts_with("var_0000_"));

    let approved_id = session
        .approve_variation(&vid, good_dimensions(), ExportSettingsV1::default(), Some(
            String::from("pillar_a"),
        ))
        .unwrap();
    assert_eq!(approved_id, format!("appr_0_{}", vid));
    assert_eq!(session.approvals.len(), 1);
    assert_eq!(session.approvals[0].variation_id, vid);

    let again = session.approve_variation(
        &vid,
        good_dimensions(),
        ExportSettingsV1::default(),
        None,
    );
    assert!(matches!(again, Err(SessionError::DuplicateApproval { .. })));
    assert_eq!(session.approvals.len(), 1);
}

#[test]
fn test_approve_unknown_variation() {
    let mut session = blank_session();
    session.generate_variations(2, "x");
    let r = session.approve_variation(
        "var_9999_123",
        good_dimensions(),
        ExportSettingsV1::default(),
        None,
    );
    match r {
        Err(SessionError::UnknownVariation { variation_id }) => {
            assert_eq!(variation_id, "var_9999_123");
        },
        _ => panic!("expected UnknownVariation"),
    }
}

#[test]
fn test_approve_invalid_dimensions() {
    let mut session = blank_session();
    session.generate_variations(1, "x");
    let vid = session.variations[0].variation_id.clone();
    let bad = DimensionsMeters { height: 0, width: 1000, depth: 1000 };
    let r = session.approve_variation(&vid, bad, ExportSettingsV1::default(), None);
    assert!(matches!(r, Err(SessionError::InvalidDimensions)));
}

#[test]
fn test_validate_schema_mismatch() {
    let mut session = blank_session();
    session.schema_version = String::from("0.9");
    let r = session.validate_with(PARAM_SCHEMA_VERSION, true);
    match r {
        Err(SessionError::SchemaVersionMismatch { expected, got }) => {
            assert_eq!(expected, PARAM_SCHEMA_VERSION);
            assert_eq!(got, "0.9");
        },
        _ => panic!("expected SchemaVersionMismatch"),
    }
}

#[test]
fn test_validate_reports_missing_path() {
    let session = blank_session();
    // "test.png" does not exist here, and everything else is consistent
    let r = session.validate();
    match r {
        Err(SessionError::InvalidPath { path }) => {
            assert_eq!(path, "test.png");
        },
        _ => panic!("expected InvalidPath"),
    }
}

#[test]
fn test_validate_duplicate_variation() {
    let mut session = blank_session();
    session.generate_variations(2, "x");
    // forge a repeated entry, as a corrupted file would hold
    let copy = session.variations[0].clone();
    session.variations.push(copy);
    let r = session.validate_with(PARAM_SCHEMA_VERSION, true);
    assert!(matches!(r, Err(SessionError::DuplicateVariation { .. })));
}

#[test]
fn test_validate_orphaned_approval() {
    let mut session = blank_session();
    session.generate_variations(2, "x");
    let vid = session.variations[1].variation_id.clone();
    session
        .approve_variation(&vid, good_dimensions(), ExportSettingsV1::default(), None)
        .unwrap();
    // a replacement batch of one no longer carries index 1's id
    session.generate_variations(1, "x");
    let r = session.validate_with(PARAM_SCHEMA_VERSION, true);
    match r {
        Err(SessionError::OrphanedApproval { variation_id, .. }) => {
            assert_eq!(variation_id, vid);
        },
        _ => panic!("expected OrphanedApproval"),
    }
}

#[test]
fn test_validate_invalid_approval_dimensions() {
    let mut session = blank_session();
    session.generate_variations(1, "x");
    let vid = session.variations[0].variation_id.clone();
    session
        .approve_variation(&vid, good_dimensions(), ExportSettingsV1::default(), None)
        .unwrap();
    // forge corrupted dimensions, as a broken file would hold
    session.approvals[0].dimensions.height = -5;
    let r = session.validate_with(PARAM_SCHEMA_VERSION, true);
    assert!(matches!(r, Err(SessionError::InvalidDimensions)));
}

#[test]
fn test_validate_invalid_base_params() {
    let mut session = blank_session();
    session.base_params.height_scale.value = 99_999;
    let r = session.validate_with(PARAM_SCHEMA_VERSION, true);
    assert!(matches!(r, Err(SessionError::InvalidParameters(_))));
}

#[test]
fn test_validate_passes_on_consistent_state() {
    let mut session = blank_session();
    session.generate_variations(4, "clean pass");
    let vid = session.variations[2].variation_id.clone();
    session
        .approve_variation(&vid, good_dimensions(), ExportSettingsV1::default(), None)
        .unwrap();
    assert!(session.validate_with(PARAM_SCHEMA_VERSION, true).is_ok());
}

#[test]
fn test_approvals_survive_regeneration_by_id() {
    let mut session = blank_session();
    session.generate_variations(3, "first");
    let vid = session.variations[0].variation_id.clone();
    session
        .approve_variation(&vid, good_dimensions(), ExportSettingsV1::default(), None)
        .unwrap();
    // regenerating with the same seed and count keeps the same ids,
    // so the prior approval still resolves
    session.generate_variations(3, "second");
    assert!(session.validate_with(PARAM_SCHEMA_VERSION, true).is_ok());
    assert_eq!(session.approvals.len(), 1);
}
