use forge_variation::{
    AssetClass, Bounded, DimensionsCm, DimensionsMeters, ParamError, ParameterDeltaV1,
    ParameterSetV1, Seed, UniqueId, VariationSpecV1,
};

#[test]
fn test_seed_derive_deterministic() {
    let a = Seed(42).derive(7);
    let b = Seed(42).derive(7);
    assert_eq!(a, b);
    let c = Seed(42).derive(8);
    assert_ne!(a, c);
}

#[test]
fn test_bounded_construct_clamps() {
    // value 5.0 against bounds [0.0, 1.0]: clamped to 1.0, not an error
    let b = Bounded::new(5000, 0, 1000).unwrap();
    assert_eq!(b.value, 1000);
    assert_eq!(b.min, 0);
    assert_eq!(b.max, 1000);

    let low = Bounded::new(-250, 0, 1000).unwrap();
    assert_eq!(low.value, 0);
}

#[test]
fn test_bounded_invalid_bounds() {
    let r = Bounded::new(500, 1000, 0);
    assert!(matches!(r, Err(ParamError::InvalidBounds { min: 1000, max: 0 })));
    let r = Bounded::new(500, 700, 700);
    assert!(r.is_err());
}

#[test]
fn test_bounded_set_clamps() {
    let mut b = Bounded::new(500, 0, 1000).unwrap();
    b.set(1500);
    assert_eq!(b.value, 1000);
    b.set(250);
    assert_eq!(b.value, 250);
}

#[test]
fn test_apply_delta_clamps_and_skips_absent() {
    let mut p = ParameterSetV1::default();
    let delta = ParameterDeltaV1 {
        height_scale: Some(10_000),
        extrusion_depth: None,
        bevel_amount: Some(-10_000),
        symmetry_break: Some(300),
        erosion_intensity: None,
        detail_density: None,
    };
    p.apply_delta(&delta);
    // present fields are added then clamped to their fixed ranges
    assert_eq!(p.height_scale.value, 2000);
    assert_eq!(p.bevel_amount.value, 0);
    assert_eq!(p.symmetry_break.value, 300);
    // absent fields are untouched
    assert_eq!(p.extrusion_depth.value, 500);
    assert_eq!(p.erosion_intensity.value, 0);
    assert_eq!(p.detail_density.value, 200);
    assert!(p.validate().is_ok());
}

#[test]
fn test_params_validate_out_of_range() {
    let mut p = ParameterSetV1::default();
    // forge a corrupted value, as a broken file would
    p.detail_density.value = 5000;
    let r = p.validate();
    match r {
        Err(ParamError::OutOfRange { field, value, min, max }) => {
            assert_eq!(field, "detail_density");
            assert_eq!(value, 5000);
            assert_eq!(min, 0);
            assert_eq!(max, 1000);
        },
        _ => panic!("expected OutOfRange"),
    }
}

#[test]
fn test_params_validate_names_first_bad_field() {
    let mut p = ParameterSetV1::default();
    p.extrusion_depth.value = -50;
    p.detail_density.value = 5000;
    // the first field in schema order wins
    match p.validate() {
        Err(ParamError::OutOfRange { field, value, .. }) => {
            assert_eq!(field, "extrusion_depth");
            assert_eq!(value, -50);
        },
        _ => panic!("expected OutOfRange"),
    }
}

#[test]
fn test_clamp_all_repairs_forged_values() {
    let mut p = ParameterSetV1::default();
    p.height_scale.value = 9000;
    p.bevel_amount.value = -3;
    let p = p.clamp_all();
    assert_eq!(p.height_scale.value, 2000);
    assert_eq!(p.bevel_amount.value, 0);
    assert!(p.validate().is_ok());
}

#[test]
fn test_dimensions_validation() {
    let valid = DimensionsMeters { height: 2500, width: 1000, depth: 1000 };
    assert!(valid.is_valid());

    let invalid_negative = DimensionsMeters { height: -1000, width: 1000, depth: 1000 };
    assert!(!invalid_negative.is_valid());
}

#[test]
fn test_meters_to_centimeters() {
    let meters = DimensionsMeters { height: 2500, width: 1000, depth: 500 };
    let cm = meters.to_centimeters();
    assert_eq!(cm.height, 250_000);
    assert_eq!(cm.width, 100_000);
    assert_eq!(cm.depth, 50_000);
}

#[test]
fn test_centimeters_to_meters() {
    let cm = DimensionsCm { height: 250_000, width: 100_000, depth: 50_000 };
    let meters = cm.to_meters();
    assert_eq!(meters.height, 2500);
    assert_eq!(meters.width, 1000);
    assert_eq!(meters.depth, 500);
}

#[test]
fn test_generate_batch_count_and_distinct() {
    let batch = VariationSpecV1::generate_batch(
        UniqueId(7),
        AssetClass::Debris,
        Seed(99),
        ParameterSetV1::default(),
        "weathered rubble",
        12,
    );
    assert_eq!(batch.len(), 12);
    for i in 0..batch.len() {
        for j in 0..batch.len() {
            if i != j {
                assert_ne!(batch[i].variation_id, batch[j].variation_id);
            }
        }
        assert_eq!(batch[i].base_session_id, UniqueId(7));
        assert_eq!(batch[i].params, ParameterSetV1::default());
        assert_eq!(batch[i].intent_text, "weathered rubble");
        assert_eq!(batch[i].schema_version, "1.0");
    }
}

#[test]
fn test_variation_ids_follow_seed_derivation() {
    // base seed 42, default parameters, a batch of five
    let batch = VariationSpecV1::generate_batch(
        UniqueId(1),
        AssetClass::ArenaProp,
        Seed(42),
        ParameterSetV1::default(),
        "stone pillar",
        5,
    );
    assert_eq!(batch.len(), 5);
    for i in 0..5usize {
        let derived = Seed(42).derive(i as u64);
        assert_eq!(batch[i].seed, derived);
        let expected = format!("var_{:04}_{}", i, derived.0);
        assert_eq!(batch[i].variation_id, expected);
    }
    for i in 0..5 {
        for j in 0..5 {
            if i != j {
                assert_ne!(batch[i].variation_id, batch[j].variation_id);
            }
        }
    }
}
