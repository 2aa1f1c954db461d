use forge_variation::{
    AestheticProfile, AssetClass, Axis, BaseInputRefV1, BaseInputType, ColorPalette,
    ExportConfig, ExportError, ExportFormat, LodConfig, MaterialConfig, MaterialSystem,
    NamingConfig, ParameterSetV1, Project, ProjectError, ProjectStyleProfile, Rgb, Seed,
    TargetEngine,
};

#[test]
fn test_bevy_preset() {
    let config = ExportConfig::bevy();
    assert_eq!(config.format, ExportFormat::Gltf);
    assert_eq!(config.target_engine, TargetEngine::Bevy);
    assert!(config.validate().is_ok());
    assert_eq!(config.target_engine.up_axis(), Axis::Y);
    assert!(config.target_engine.is_right_handed());
}

#[test]
fn test_bevy_uses_meters() {
    let config = ExportConfig::bevy();
    let (scale, unit) = config.target_engine.unit_info();
    assert_eq!(scale, 1);
    assert_eq!(unit, "meters");
}

#[test]
fn test_lod_distance_thresholds() {
    let lod = LodConfig::for_bevy();
    assert!(lod.validate().is_ok());

    // thresholds come in ascending order
    for window in lod.distance_thresholds.windows(2) {
        assert!(window[0] < window[1]);
    }
}

#[test]
fn test_naming_for_bevy() {
    let naming = NamingConfig::for_bevy();
    let filename = naming.generate_filename("stone_pillar", "var_0001_12345", "glb");

    // lowercase, no prefix
    assert_eq!(filename, "stone_pillar_var_0001_12345.glb");
}

#[test]
fn test_material_metallic_roughness() {
    let material = MaterialConfig::for_bevy();
    assert!(material.generate_metallic_roughness);
    assert_eq!(material.system, MaterialSystem::Pbr);
}

#[test]
fn test_export_format_capabilities() {
    assert!(ExportFormat::Gltf.supports_lod());
    assert!(ExportFormat::Gltf.supports_materials());
    assert_eq!(ExportFormat::Gltf.extension(), "glb");
}

#[test]
fn test_filename_lowercases_mixed_case() {
    let naming = NamingConfig::for_bevy();
    let filename = naming.generate_filename("Stone_Pillar", "VAR_0002_9", "glb");
    assert_eq!(filename, "stone_pillar_var_0002_9.glb");
}

#[test]
fn test_filename_keeps_case_with_prefix() {
    let mut naming = NamingConfig::default();
    naming.prefix = String::from("SM");
    naming.lowercase = false;
    let filename = naming.generate_filename("Pillar", "var_0000_5", "fbx");
    assert_eq!(filename, "SM_Pillar_var_0000_5.fbx");
}

#[test]
fn test_naming_validate_rejects_bad_prefix() {
    let mut naming = NamingConfig::default();
    naming.prefix = String::from("bad/prefix");
    assert!(matches!(
        naming.validate(),
        Err(ExportError::InvalidNamingConfig { .. })
    ));
}

#[test]
fn test_lod_validate_rejects_bad_reduction() {
    let mut lod = LodConfig::default();
    lod.reduction_factor = 1000;
    assert!(matches!(lod.validate(), Err(ExportError::InvalidLodConfig { .. })));

    let mut lod = LodConfig::default();
    lod.distance_thresholds = vec![0, 10_000, 10_000];
    assert!(matches!(lod.validate(), Err(ExportError::InvalidLodConfig { .. })));
}

#[test]
fn test_material_validate_rejects_bad_resolution() {
    let mut material = MaterialConfig::default();
    material.texture_resolution = 1000;
    assert!(matches!(
        material.validate(),
        Err(ExportError::InvalidMaterialConfig { .. })
    ));
}

#[test]
fn test_export_config_incompatible_lod() {
    let mut config = ExportConfig::bevy();
    config.format = ExportFormat::Obj;
    assert!(matches!(
        config.validate(),
        Err(ExportError::IncompatibleSettings { .. })
    ));
}

#[test]
fn test_unreal_preset_units() {
    let config = ExportConfig::unreal_engine_5();
    assert_eq!(config.format, ExportFormat::Fbx);
    assert!(config.validate().is_ok());
    let (scale, unit) = config.target_engine.unit_info();
    assert_eq!(scale, 100);
    assert_eq!(unit, "centimeters");
    assert_eq!(config.target_engine.up_axis(), Axis::Z);
    assert!(!config.target_engine.is_right_handed());
}

#[test]
fn test_aesthetic_profile_validation() {
    let valid = AestheticProfile::default();
    assert!(valid.validate().is_ok());

    let invalid = AestheticProfile { geometry_complexity: 1500, ..Default::default() };
    match invalid.validate() {
        Err(ProjectError::InvalidAestheticValue { field, value }) => {
            assert_eq!(field, "geometry_complexity");
            assert_eq!(value, 1500);
        },
        _ => panic!("expected InvalidAestheticValue"),
    }
}

#[test]
fn test_color_palette_validation() {
    let valid = ColorPalette::default();
    assert!(valid.validate().is_ok());

    let invalid = ColorPalette {
        name: String::from("Bad"),
        colors: vec![Rgb { r: 500, g: 500, b: 500 }, Rgb { r: 1000, g: 2000, b: 500 }],
        strict: false,
    };
    match invalid.validate() {
        Err(ProjectError::InvalidColorValue { color_index, channel, value }) => {
            assert_eq!(color_index, 1);
            assert_eq!(channel, 1);
            assert_eq!(value, 2000);
        },
        _ => panic!("expected InvalidColorValue"),
    }
}

#[test]
fn test_minecraft_preset() {
    let style = ProjectStyleProfile::minecraft();
    assert!(style.validate().is_ok());
    assert_eq!(style.pixel_density, 100);
    assert_eq!(style.edge_sharpness, 1000);
}

#[test]
fn test_dark_fantasy_preset() {
    let style = ProjectStyleProfile::dark_fantasy();
    assert!(style.validate().is_ok());
    assert_eq!(style.aesthetic.wear_tendency, 800);
}

#[test]
fn test_style_application_to_params() {
    let style = ProjectStyleProfile::minecraft();
    let params = ParameterSetV1::default();

    let styled_params = style.apply_to_params(params);

    // low erosion (clean blocks)
    assert!(styled_params.erosion_intensity.value < 300);
    // low symmetry break (symmetric)
    assert!(styled_params.symmetry_break.value < 400);
    // hard edges leave no bevel
    assert_eq!(styled_params.bevel_amount.value, 0);
    assert!(styled_params.validate().is_ok());
}

#[test]
fn test_project_creation() {
    let style = ProjectStyleProfile::default();
    let project = Project::new(String::from("Test Project"), style);

    assert!(project.is_ok());
    let project = project.unwrap();
    assert_eq!(project.sessions.len(), 0);
}

#[test]
fn test_project_empty_name_rejected() {
    let style = ProjectStyleProfile::default();
    let project = Project::new(String::from(""), style);

    assert!(project.is_err());
}

#[test]
fn test_add_reference_asset() {
    let mut style = ProjectStyleProfile::default();
    assert_eq!(style.reference_assets.len(), 0);

    style.add_reference(String::from("appr_001"), Some(String::from("/path/to/asset.fbx")));
    assert_eq!(style.reference_assets.len(), 1);
    assert_eq!(style.reference_assets[0].approved_id, "appr_001");
}

#[test]
fn test_project_style_value_rejected() {
    let mut style = ProjectStyleProfile::default();
    style.pixel_density = 1500;
    match style.validate() {
        Err(ProjectError::InvalidStyleValue { field, value }) => {
            assert_eq!(field, "pixel_density");
            assert_eq!(value, 1500);
        },
        _ => panic!("expected InvalidStyleValue"),
    }
}

#[test]
fn test_project_invalid_override_rejected() {
    let mut project =
        Project::new(String::from("Overrides"), ProjectStyleProfile::default()).unwrap();
    let mut params = ParameterSetV1::default();
    params.height_scale.value = 50_000;
    project.set_class_override(AssetClass::Pillar, params);
    assert!(matches!(
        project.validate(),
        Err(ProjectError::InvalidOverrideParams(_))
    ));
    project.clear_class_override(&AssetClass::Pillar);
    assert!(project.validate().is_ok());
}

#[test]
fn test_create_session_applies_style_and_override() {
    let mut project =
        Project::new(String::from("Styled"), ProjectStyleProfile::minecraft()).unwrap();
    let input = BaseInputRefV1 {
        input_type: BaseInputType::Drawn,
        source_path: String::from("."),
    };
    let session = project
        .create_session(AssetClass::ArenaProp, input.clone(), Seed(42))
        .unwrap();
    // the minecraft profile writes its wear tendency into erosion
    assert_eq!(session.base_params.erosion_intensity.value, 200);
    assert_eq!(project.sessions.len(), 1);
    assert_eq!(project.sessions[0], session.session_id);

    let mut fixed = ParameterSetV1::default();
    fixed.detail_density.value = 900;
    project.set_class_override(AssetClass::ArenaProp, fixed);
    let second = project
        .create_session(AssetClass::ArenaProp, input, Seed(43))
        .unwrap();
    assert_eq!(second.base_params.detail_density.value, 900);
    assert_eq!(project.sessions.len(), 2);
}

#[test]
fn test_create_session_bad_path_is_reported() {
    let mut project =
        Project::new(String::from("Missing"), ProjectStyleProfile::default()).unwrap();
    let input = BaseInputRefV1 {
        input_type: BaseInputType::Image,
        source_path: String::from("definitely/not/here.png"),
    };
    let r = project.create_session(AssetClass::Debris, input, Seed(1));
    assert!(matches!(r, Err(ProjectError::SessionCreation(_))));
    assert_eq!(project.sessions.len(), 0);
}
