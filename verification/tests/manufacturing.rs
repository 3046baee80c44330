use shuttle_tile_sim::manufacturing::{
    apply_identification, create_tile_state, execute_stage, run_full_manufacturing,
    validate_tile_for_testing, ManufacturingPipeline,
};
use shuttle_tile_sim::{
    ManufacturingStage, StepResult, TileBatch, TileError, TileLocation, TileState, TileSurface,
    Timestamp,
};

fn now() -> Timestamp {
    let t = chrono::Utc::now();
    Timestamp { secs: t.timestamp(), nanos: t.timestamp_subsec_nanos() }
}

fn test_batch() -> TileBatch {
    TileBatch {
        batch_code: "A24001".to_string(),
        production_date: now(),
        oven_id: "Oven1".to_string(),
        operator_id: "OP001".to_string(),
    }
}

fn test_location() -> TileLocation {
    TileLocation {
        orbiter_id: "OV104".to_string(),
        surface: TileSurface::FuselageBottom,
        panel_id: "03".to_string(),
        row: 0,
        column: 3,
    }
}

// The components themselves (LI-900 material, the 150 x 150 x 25.4 mm flat geometry, black
// HRSI coating, the standard pad and RTV-560) are validated by the caller; the tile records
// that they were applied.
fn apply_material(tile: &mut TileState) {
    tile.has_material = true;
}

fn apply_geometry(tile: &mut TileState) {
    tile.has_geometry = true;
}

fn apply_coating(tile: &mut TileState) {
    tile.has_coating = true;
}

fn apply_bonding(tile: &mut TileState) {
    tile.has_strain_isolation_pad = true;
    tile.has_adhesive = true;
}

#[test]
fn test_pipeline_new() {
    let pipeline = ManufacturingPipeline::new();
    assert_eq!(pipeline.stages.len(), 11);
    assert_eq!(pipeline.stages[0], ManufacturingStage::RawMaterial);
    assert_eq!(pipeline.stages[10], ManufacturingStage::Complete);
}

#[test]
fn test_pipeline_current_stage() {
    let pipeline = ManufacturingPipeline::new();
    assert_eq!(pipeline.current_stage(), ManufacturingStage::RawMaterial);
}

#[test]
fn test_pipeline_advance_stage() {
    let mut pipeline = ManufacturingPipeline::new();
    let next = pipeline.advance_stage().unwrap();
    assert_eq!(next, ManufacturingStage::SlurryFormation);
    assert_eq!(pipeline.current_stage_index, 1);
}

#[test]
fn test_pipeline_advance_stage_at_end() {
    let mut pipeline = ManufacturingPipeline::new();
    pipeline.current_stage_index = pipeline.stages.len() - 1;
    assert!(pipeline.advance_stage().is_err());
}

#[test]
fn test_pipeline_is_complete() {
    let mut pipeline = ManufacturingPipeline::new();
    assert!(!pipeline.is_complete());
    pipeline.current_stage_index = pipeline.stages.len() - 1;
    assert!(pipeline.is_complete());
}

#[test]
fn test_pipeline_stages_completed() {
    let mut pipeline = ManufacturingPipeline::new();
    assert!(pipeline.stages_completed().is_empty());
    pipeline.advance_stage().unwrap();
    pipeline.advance_stage().unwrap();
    let completed = pipeline.stages_completed();
    assert_eq!(completed.len(), 2);
    assert_eq!(completed[0], ManufacturingStage::RawMaterial);
    assert_eq!(completed[1], ManufacturingStage::SlurryFormation);
}

#[test]
fn test_create_tile_state() {
    let tile = create_tile_state();
    assert!(tile.id.is_none());
    assert!(!tile.has_material);
    assert!(!tile.has_geometry);
    assert!(!tile.has_coating);
    assert!(!tile.has_strain_isolation_pad);
    assert!(!tile.has_adhesive);
    assert!(tile.applied_id.is_none());
    assert!(tile.manufacturing_steps.is_empty());
    assert!(tile.audit_results.is_empty());
    assert!(tile.defects.is_empty());
    assert_eq!(tile.current_stage, ManufacturingStage::RawMaterial);
}

#[test]
fn test_execute_stage_success() {
    let mut tile = create_tile_state();
    let step = execute_stage(&mut tile, ManufacturingStage::RawMaterial, "OP001").unwrap();
    assert_eq!(step.name, "Raw Material Preparation");
    assert_eq!(step.step_number, 1);
    assert_eq!(step.operator_id, "OP001");
    assert_eq!(step.result, StepResult::Success);
    assert_eq!(tile.manufacturing_steps.len(), 1);
    assert_eq!(tile.current_stage, ManufacturingStage::SlurryFormation);
}

#[test]
fn test_execute_stage_wrong_stage() {
    let mut tile = create_tile_state();
    let result = execute_stage(&mut tile, ManufacturingStage::Sintering, "OP001");
    assert!(result.is_err());
}

#[test]
fn test_execute_stage_multiple() {
    let mut tile = create_tile_state();
    execute_stage(&mut tile, ManufacturingStage::RawMaterial, "OP001").unwrap();
    execute_stage(&mut tile, ManufacturingStage::SlurryFormation, "OP001").unwrap();
    assert_eq!(tile.manufacturing_steps.len(), 2);
    assert_eq!(tile.current_stage, ManufacturingStage::MoldCasting);
}

#[test]
fn test_run_full_manufacturing_success() {
    let mut tile = create_tile_state();
    apply_material(&mut tile);
    apply_geometry(&mut tile);
    apply_coating(&mut tile);
    apply_bonding(&mut tile);
    apply_identification(&mut tile, test_batch(), test_location(), 1, "OP001").unwrap();

    run_full_manufacturing(&mut tile, "OP001").unwrap();
    assert_eq!(tile.current_stage, ManufacturingStage::Complete);
    assert_eq!(tile.manufacturing_steps.len(), 10);
}

#[test]
fn test_run_full_manufacturing_missing_material() {
    let mut tile = create_tile_state();
    let result = run_full_manufacturing(&mut tile, "OP001");
    assert!(result.is_err());
    assert!(result.unwrap_err().to_string().contains("Material"));
}

#[test]
fn test_run_full_manufacturing_missing_geometry() {
    let mut tile = create_tile_state();
    apply_material(&mut tile);
    let result = run_full_manufacturing(&mut tile, "OP001");
    assert!(result.is_err());
    assert!(result.unwrap_err().to_string().contains("Geometry"));
}

#[test]
fn test_run_full_manufacturing_missing_coating() {
    let mut tile = create_tile_state();
    apply_material(&mut tile);
    apply_geometry(&mut tile);
    let result = run_full_manufacturing(&mut tile, "OP001");
    assert!(result.is_err());
    assert!(result.unwrap_err().to_string().contains("Coating"));
}

#[test]
fn test_run_full_manufacturing_missing_bonding() {
    let mut tile = create_tile_state();
    apply_material(&mut tile);
    apply_geometry(&mut tile);
    apply_coating(&mut tile);
    let result = run_full_manufacturing(&mut tile, "OP001");
    assert!(result.is_err());
    assert!(result.unwrap_err().to_string().contains("SIP"));
}

#[test]
fn test_run_full_manufacturing_missing_id() {
    let mut tile = create_tile_state();
    apply_material(&mut tile);
    apply_geometry(&mut tile);
    apply_coating(&mut tile);
    apply_bonding(&mut tile);
    let result = run_full_manufacturing(&mut tile, "OP001");
    assert!(result.is_err());
    assert!(result.unwrap_err().to_string().contains("ID"));
}

#[test]
fn test_apply_identification() {
    let mut tile = create_tile_state();
    apply_identification(&mut tile, test_batch(), test_location(), 1, "OP001").unwrap();
    assert!(tile.id.is_some());
    assert!(tile.applied_id.is_some());
    let applied = tile.applied_id.unwrap();
    assert_eq!(applied.application_method, "Laser etching");
    assert_eq!(applied.operator_id, "OP001");
    assert!(!applied.digital_record.contains('-'));
}

#[test]
fn test_validate_tile_for_testing_complete() {
    let mut tile = create_tile_state();
    apply_material(&mut tile);
    apply_geometry(&mut tile);
    apply_coating(&mut tile);
    apply_bonding(&mut tile);
    apply_identification(&mut tile, test_batch(), test_location(), 1, "OP001").unwrap();
    assert!(validate_tile_for_testing(&tile).is_ok());
}

#[test]
fn test_validate_tile_for_testing_missing_material() {
    let mut tile = create_tile_state();
    apply_geometry(&mut tile);
    apply_coating(&mut tile);
    apply_bonding(&mut tile);
    apply_identification(&mut tile, test_batch(), test_location(), 1, "OP001").unwrap();
    let result = validate_tile_for_testing(&tile);
    assert!(result.is_err());
    assert!(result.unwrap_err().to_string().contains("material"));
}

#[test]
fn test_validate_tile_for_testing_missing_geometry() {
    let mut tile = create_tile_state();
    apply_material(&mut tile);
    apply_coating(&mut tile);
    apply_bonding(&mut tile);
    apply_identification(&mut tile, test_batch(), test_location(), 1, "OP001").unwrap();
    let result = validate_tile_for_testing(&tile);
    assert!(result.is_err());
    assert!(result.unwrap_err().to_string().contains("geometry"));
}

#[test]
fn test_validate_tile_for_testing_missing_coating() {
    let mut tile = create_tile_state();
    apply_material(&mut tile);
    apply_geometry(&mut tile);
    apply_bonding(&mut tile);
    apply_identification(&mut tile, test_batch(), test_location(), 1, "OP001").unwrap();
    let result = validate_tile_for_testing(&tile);
    assert!(result.is_err());
    assert!(result.unwrap_err().to_string().contains("coating"));
}

#[test]
fn test_validate_tile_for_testing_missing_sip() {
    let mut tile = create_tile_state();
    apply_material(&mut tile);
    apply_geometry(&mut tile);
    apply_coating(&mut tile);
    tile.has_adhesive = true;
    apply_identification(&mut tile, test_batch(), test_location(), 1, "OP001").unwrap();
    let result = validate_tile_for_testing(&tile);
    assert!(result.is_err());
    assert!(result.unwrap_err().to_string().contains("isolation pad"));
}

#[test]
fn test_validate_tile_for_testing_missing_adhesive() {
    let mut tile = create_tile_state();
    apply_material(&mut tile);
    apply_geometry(&mut tile);
    apply_coating(&mut tile);
    tile.has_strain_isolation_pad = true;
    apply_identification(&mut tile, test_batch(), test_location(), 1, "OP001").unwrap();
    let result = validate_tile_for_testing(&tile);
    assert!(result.is_err());
    assert!(result.unwrap_err().to_string().contains("adhesive"));
}

#[test]
fn test_validate_tile_for_testing_missing_id() {
    let mut tile = create_tile_state();
    apply_material(&mut tile);
    apply_geometry(&mut tile);
    apply_coating(&mut tile);
    apply_bonding(&mut tile);
    let result = validate_tile_for_testing(&tile);
    assert!(result.is_err());
    assert!(result.unwrap_err().to_string().contains("ID"));
}

// Further cases.

#[test]
fn advance_walks_the_standard_stages() {
    let mut pipeline = ManufacturingPipeline::default();
    let mut seen = vec![pipeline.current_stage()];
    while !pipeline.is_complete() {
        seen.push(pipeline.advance_stage().unwrap());
    }
    assert_eq!(seen.len(), 11);
    assert_eq!(seen[4], ManufacturingStage::Sintering);
    assert_eq!(seen[10], ManufacturingStage::Complete);
    assert_eq!(pipeline.stages_completed().len(), 10);
    assert_eq!(
        pipeline.advance_stage(),
        Err(TileError::ManufacturingError("Pipeline is already complete".to_string()))
    );
    assert_eq!(pipeline.current_stage_index, 10);
}

#[test]
fn wrong_stage_message_and_no_change() {
    let mut tile = create_tile_state();
    let before = tile.clone();
    let result = execute_stage(&mut tile, ManufacturingStage::Sintering, "OP001");
    assert_eq!(
        result.unwrap_err(),
        TileError::ManufacturingError(
            "Tile is at stage RawMaterial, expected Sintering".to_string()
        )
    );
    assert_eq!(tile, before);
}

#[test]
fn complete_stage_stays_complete() {
    let mut tile = create_tile_state();
    tile.current_stage = ManufacturingStage::Complete;
    let step = execute_stage(&mut tile, ManufacturingStage::Complete, "OP9").unwrap();
    assert_eq!(step.name, "Final Inspection");
    assert_eq!(tile.current_stage, ManufacturingStage::Complete);
}

#[test]
fn run_stops_at_first_missing_prerequisite() {
    let mut tile = create_tile_state();
    let err = run_full_manufacturing(&mut tile, "OP001").unwrap_err();
    assert_eq!(
        err,
        TileError::ManufacturingError("Material required before Sintering".to_string())
    );
    assert_eq!(tile.current_stage, ManufacturingStage::Sintering);
    let names: Vec<&str> = tile.manufacturing_steps.iter().map(|s| s.name.as_str()).collect();
    assert_eq!(names, vec!["Raw Material Preparation", "Slurry Formation", "Mold Casting", "Drying"]);
    let numbers: Vec<u32> = tile.manufacturing_steps.iter().map(|s| s.step_number).collect();
    assert_eq!(numbers, vec![1, 2, 3, 4]);
}

#[test]
fn run_reports_testing_gap() {
    let mut tile = create_tile_state();
    apply_material(&mut tile);
    apply_geometry(&mut tile);
    apply_coating(&mut tile);
    apply_bonding(&mut tile);
    apply_identification(&mut tile, test_batch(), test_location(), 1, "OP001").unwrap();
    tile.current_stage = ManufacturingStage::Testing;
    tile.has_adhesive = false;
    let err = run_full_manufacturing(&mut tile, "OP").unwrap_err();
    assert_eq!(err, TileError::ManufacturingError("Missing adhesive".to_string()));
    assert!(tile.manufacturing_steps.is_empty());
}

#[test]
fn run_from_rejected_is_refused() {
    let mut tile = create_tile_state();
    tile.current_stage = ManufacturingStage::Rejected;
    let err = run_full_manufacturing(&mut tile, "OP").unwrap_err();
    assert_eq!(err, TileError::ManufacturingError("Invalid current stage on tile".to_string()));
}

#[test]
fn run_resumes_from_current_stage() {
    let mut tile = create_tile_state();
    apply_material(&mut tile);
    apply_geometry(&mut tile);
    apply_coating(&mut tile);
    apply_bonding(&mut tile);
    apply_identification(&mut tile, test_batch(), test_location(), 1, "OP001").unwrap();
    tile.current_stage = ManufacturingStage::Bonding;
    run_full_manufacturing(&mut tile, "OP2").unwrap();
    assert_eq!(tile.manufacturing_steps.len(), 3);
    assert_eq!(tile.manufacturing_steps[0].name, "Bonding Assembly");
    assert_eq!(tile.manufacturing_steps[2].name, "Testing and QA");
    assert_eq!(tile.manufacturing_steps[2].step_number, 3);
    assert_eq!(tile.manufacturing_steps[2].operator_id, "OP2");
    assert_eq!(tile.current_stage, ManufacturingStage::Complete);
}

#[test]
fn identification_records_texts() {
    let mut tile = create_tile_state();
    apply_identification(&mut tile, test_batch(), test_location(), 1, "OP7").unwrap();
    let id = tile.id.clone().unwrap();
    let applied = tile.applied_id.clone().unwrap();
    assert_eq!(applied.physical_reading, id.raw);
    assert_eq!(applied.digital_record, id.raw.replace('-', ""));
    assert_eq!(applied.id, id);
    let err = apply_identification(&mut tile, test_batch(), test_location(), 10000, "OP7").unwrap_err();
    assert_eq!(
        err,
        TileError::IdentificationError("Sequence must be 4 digits or less".to_string())
    );
}
