use shuttle_tile_sim::audit::AuditEngine;
use shuttle_tile_sim::commands::{
    parse_surface, record_full_run, remaining_service_cycles, run_manufacturing_summary,
    run_overall_status,
};
use shuttle_tile_sim::identification::{generate_id, parse_id};
use shuttle_tile_sim::manufacturing::create_tile_state;
use shuttle_tile_sim::{
    AuditStatus, AuditSummary, DegradationState, IdSchema, ManufacturingStage, OverallStatus,
    StepResult, TestCounts, TileBatch, TileLocation, TileSurface, Timestamp,
};

fn now() -> Timestamp {
    let t = chrono::Utc::now();
    Timestamp { secs: t.timestamp(), nanos: t.timestamp_subsec_nanos() }
}

#[test]
fn test_id_validation() {
    let batch = TileBatch {
        batch_code: "A24001".to_string(),
        production_date: now(),
        oven_id: "O1".to_string(),
        operator_id: "OP001".to_string(),
    };
    let location = TileLocation {
        orbiter_id: "OV104".to_string(),
        surface: TileSurface::FuselageBottom,
        panel_id: "03".to_string(),
        row: 0,
        column: 3,
    };
    let id = generate_id(&batch, &location, 1).unwrap();
    let schema = IdSchema::default();
    let parsed = parse_id(&id.raw, &schema);
    assert!(parsed.is_ok());
}

#[test]
fn test_id_audit() {
    let batch = TileBatch {
        batch_code: "A24001".to_string(),
        production_date: now(),
        oven_id: "O1".to_string(),
        operator_id: "OP001".to_string(),
    };
    let location = TileLocation {
        orbiter_id: "OV104".to_string(),
        surface: TileSurface::FuselageBottom,
        panel_id: "03".to_string(),
        row: 0,
        column: 3,
    };
    let id = generate_id(&batch, &location, 1).unwrap();
    let mut engine = AuditEngine::new();
    let result = engine.audit_id(&id, &batch, &location);
    assert_eq!(result.status, AuditStatus::Pass);
}

#[test]
fn test_surface_parsing() {
    assert_eq!(parse_surface("nose"), TileSurface::NoseCap);
    assert_eq!(parse_surface("wing"), TileSurface::WingLeadingEdge);
    assert_eq!(parse_surface("top"), TileSurface::FuselageTop);
    assert_eq!(parse_surface("bottom"), TileSurface::FuselageBottom);
    assert_eq!(parse_surface("vs"), TileSurface::VerticalStabilizer);
    assert_eq!(parse_surface("oms"), TileSurface::OmsPod);
    assert_eq!(parse_surface("custom"), TileSurface::Custom("custom".to_string()));
}

// Further cases.

#[test]
fn surface_parsing_ignores_case() {
    assert_eq!(parse_surface("NoseCap"), TileSurface::NoseCap);
    assert_eq!(parse_surface("OMSPOD"), TileSurface::OmsPod);
    assert_eq!(parse_surface("Seat"), TileSurface::Custom("Seat".to_string()));
}

#[test]
fn full_run_records_ten_steps() {
    let mut tile = create_tile_state();
    record_full_run(&mut tile, "PIPELINE_OP");
    assert_eq!(tile.manufacturing_steps.len(), 10);
    assert_eq!(tile.current_stage, ManufacturingStage::Complete);
    assert_eq!(tile.manufacturing_steps[0].name, "Slurry formation");
    assert_eq!(tile.manufacturing_steps[0].step_number, 2);
    assert_eq!(tile.manufacturing_steps[9].name, "Final inspection");
    assert_eq!(tile.manufacturing_steps[9].step_number, 11);
    assert_eq!(tile.manufacturing_steps[9].result, StepResult::Success);
    assert_eq!(
        tile.manufacturing_steps[3].parameters.get("operator"),
        Some(&"PIPELINE_OP".to_string())
    );
    let summary = run_manufacturing_summary(&tile);
    assert_eq!(summary.total_steps, 10);
    assert_eq!(summary.steps_completed, 10);
    assert_eq!(summary.final_stage, ManufacturingStage::Complete);
}

#[test]
fn run_verdicts() {
    let mut tile = create_tile_state();
    let empty = run_manufacturing_summary(&tile);
    let no_tests = TestCounts { total_tests: 0, passed: 0, failed: 0, inconclusive: 0 };
    let audits = AuditSummary { total_audits: 0, passed: 0, warned: 0, failed: 0, findings: vec![] };
    assert_eq!(run_overall_status(&empty, &no_tests, &audits, &[]), OverallStatus::Pending);
    record_full_run(&mut tile, "OP");
    let m = run_manufacturing_summary(&tile);
    assert_eq!(run_overall_status(&m, &no_tests, &audits, &[]), OverallStatus::Accepted);
    let failing = TestCounts { total_tests: 1, passed: 0, failed: 1, inconclusive: 0 };
    assert_eq!(run_overall_status(&m, &failing, &audits, &[]), OverallStatus::Rejected);
}

#[test]
fn remaining_cycles() {
    assert_eq!(remaining_service_cycles(DegradationState::Nominal, 100), 900);
    assert_eq!(remaining_service_cycles(DegradationState::Failed, 5000), 0);
    assert_eq!(remaining_service_cycles(DegradationState::Severe, 1000), 0);
}
