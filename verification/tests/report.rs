use shuttle_tile_sim::report::{
    determine_overall_status, estimated_service_life_cycles, format_report_text,
    summarize_audits, summarize_manufacturing, summarize_test_outcomes,
};
use shuttle_tile_sim::{
    AuditFinding, AuditStatus, AuditSummary, DegradationState, Defect, DefectCategory,
    DefectSeverity, FindingCategory, FindingSeverity, IdAuditResult, ManufacturingStage,
    ManufacturingStep, ManufacturingSummary, OverallStatus, ReportOverview, SimulationOverview,
    StepResult, TestCounts, TestOutcome, TileLocation, TileSurface, Timestamp,
};
use std::collections::HashMap;

fn now() -> Timestamp {
    let t = chrono::Utc::now();
    Timestamp { secs: t.timestamp(), nanos: t.timestamp_subsec_nanos() }
}

fn no_audits() -> AuditSummary {
    AuditSummary { total_audits: 0, passed: 0, warned: 0, failed: 0, findings: vec![] }
}

fn one_passed_audit() -> AuditSummary {
    AuditSummary { total_audits: 1, passed: 1, warned: 0, failed: 0, findings: vec![] }
}

fn one_complete_step() -> ManufacturingSummary {
    ManufacturingSummary {
        total_steps: 1,
        steps_completed: 1,
        steps_with_warnings: 0,
        steps_with_failures: 0,
        final_stage: ManufacturingStage::Complete,
    }
}

#[test]
fn test_determine_overall_status_accepted() {
    let tests = TestCounts { total_tests: 1, passed: 1, failed: 0, inconclusive: 0 };
    let status = determine_overall_status(&tests, &one_passed_audit(), &one_complete_step(), &[]);
    assert_eq!(status, OverallStatus::Accepted);
}

#[test]
fn test_determine_overall_status_rejected_test_failure() {
    let tests = TestCounts { total_tests: 1, passed: 0, failed: 1, inconclusive: 0 };
    let status = determine_overall_status(&tests, &no_audits(), &one_complete_step(), &[]);
    assert_eq!(status, OverallStatus::Rejected);
}

#[test]
fn test_determine_overall_status_rejected_critical_defect() {
    let tests = TestCounts { total_tests: 1, passed: 1, failed: 0, inconclusive: 0 };
    let defects = vec![Defect {
        category: DefectCategory::Material,
        description: "Crack".to_string(),
        severity: DefectSeverity::Critical,
        detected_at: ManufacturingStage::RawMaterial,
        timestamp: now(),
    }];
    let status = determine_overall_status(&tests, &one_passed_audit(), &one_complete_step(), &defects);
    assert_eq!(status, OverallStatus::Rejected);
}

#[test]
fn test_determine_overall_status_accepted_with_notes() {
    let tests = TestCounts { total_tests: 1, passed: 0, failed: 0, inconclusive: 1 };
    let status = determine_overall_status(&tests, &no_audits(), &one_complete_step(), &[]);
    assert_eq!(status, OverallStatus::AcceptedWithNotes);
}

#[test]
fn test_determine_overall_status_pending() {
    let tests = TestCounts { total_tests: 0, passed: 0, failed: 0, inconclusive: 0 };
    let manufacturing = ManufacturingSummary {
        total_steps: 0,
        steps_completed: 0,
        steps_with_warnings: 0,
        steps_with_failures: 0,
        final_stage: ManufacturingStage::RawMaterial,
    };
    let status = determine_overall_status(&tests, &no_audits(), &manufacturing, &[]);
    assert_eq!(status, OverallStatus::Pending);
}

fn step(name: &str, number: u32, operator: &str, result: StepResult) -> ManufacturingStep {
    ManufacturingStep {
        name: name.to_string(),
        step_number: number,
        timestamp: now(),
        operator_id: operator.to_string(),
        parameters: HashMap::new(),
        result,
    }
}

#[test]
fn test_summarize_manufacturing_counts() {
    let steps = vec![
        step("RawMaterial", 1, "OP1", StepResult::Success),
        step("Coating", 2, "OP2", StepResult::Warning("thin coat".to_string())),
        step("Testing", 3, "OP3", StepResult::Failure("delam".to_string())),
    ];
    let summary = summarize_manufacturing(&steps);
    assert_eq!(summary.total_steps, 3);
    assert_eq!(summary.steps_completed, 1);
    assert_eq!(summary.steps_with_warnings, 1);
    assert_eq!(summary.steps_with_failures, 1);
    assert_eq!(summary.final_stage, ManufacturingStage::Testing);
}

#[test]
fn test_summarize_manufacturing_empty() {
    let summary = summarize_manufacturing(&[]);
    assert_eq!(summary.total_steps, 0);
    assert_eq!(summary.final_stage, ManufacturingStage::RawMaterial);
}

#[test]
fn test_summarize_audits() {
    let audits = vec![
        IdAuditResult {
            status: AuditStatus::Pass,
            findings: vec![],
            summary: "ok".to_string(),
            audited_id: "id1".to_string(),
            timestamp: now(),
        },
        IdAuditResult {
            status: AuditStatus::Warn,
            findings: vec![AuditFinding {
                category: FindingCategory::SchemaCompliance,
                severity: FindingSeverity::Warning,
                message: "format off".to_string(),
                expected: None,
                actual: None,
            }],
            summary: "warn".to_string(),
            audited_id: "id2".to_string(),
            timestamp: now(),
        },
        IdAuditResult {
            status: AuditStatus::Fail,
            findings: vec![AuditFinding {
                category: FindingCategory::ChecksumValidity,
                severity: FindingSeverity::Critical,
                message: "bad checksum".to_string(),
                expected: None,
                actual: None,
            }],
            summary: "fail".to_string(),
            audited_id: "id3".to_string(),
            timestamp: now(),
        },
    ];

    let summary = summarize_audits(&audits);
    assert_eq!(summary.total_audits, 3);
    assert_eq!(summary.passed, 1);
    assert_eq!(summary.warned, 1);
    assert_eq!(summary.failed, 1);
    assert_eq!(summary.findings.len(), 2);
}

fn report_overview() -> ReportOverview {
    ReportOverview {
        tile_id: Some("ABC123-NC0001-01-A1".to_string()),
        batch_code: Some("ABC123".to_string()),
        location: Some(TileLocation {
            orbiter_id: "OV-101".to_string(),
            surface: TileSurface::NoseCap,
            panel_id: "P01".to_string(),
            row: 1,
            column: 2,
        }),
        manufacturing_summary: summarize_manufacturing(&[]),
        test_counts: summarize_test_outcomes(&[]),
        audit_summary: summarize_audits(&[]),
        simulation: SimulationOverview {
            cycles_simulated: 0,
            final_degradation: DegradationState::Nominal,
            coating_wear_percent: "0.0".to_string(),
            max_temp_seen_c: "25.0".to_string(),
            estimated_service_life_cycles: 1000,
        },
        defects: vec![],
        overall_status: OverallStatus::Pending,
    }
}

#[test]
fn test_format_report_text_contains_header() {
    let report = report_overview();
    let text = format_report_text(&report);
    assert!(text.contains("=== TILE REPORT ==="));
    assert!(text.contains("Tile ID:"));
    assert!(text.contains("ABC123"));
}

// Further cases.

#[test]
fn report_text_exact_lines() {
    let text = format_report_text(&report_overview());
    let expected = [
        "=== TILE REPORT ===",
        "Tile ID: ABC123-NC0001-01-A1",
        "Batch: ABC123",
        "Location: OV-101 NC",
        "",
        "--- Manufacturing Summary ---",
        "Total Steps: 0",
        "Completed: 0",
        "Warnings: 0",
        "Failures: 0",
        "Final Stage: RawMaterial",
        "",
        "--- Test Summary ---",
        "Total Tests: 0",
        "Passed: 0",
        "Failed: 0",
        "Inconclusive: 0",
        "",
        "--- Audit Summary ---",
        "Total Audits: 0",
        "Passed: 0",
        "Warned: 0",
        "Failed: 0",
        "",
        "--- Simulation Summary ---",
        "No simulation data",
        "",
        "--- Defects ---",
        "No defects reported",
        "",
        "Overall Status: Pending",
    ]
    .join("\n");
    assert_eq!(text, expected);
}

#[test]
fn report_text_with_simulation_and_defects() {
    let mut report = report_overview();
    report.tile_id = None;
    report.location = None;
    report.simulation = SimulationOverview {
        cycles_simulated: 100,
        final_degradation: DegradationState::Moderate,
        coating_wear_percent: "0.1".to_string(),
        max_temp_seen_c: "1203.4".to_string(),
        estimated_service_life_cycles: 500,
    };
    report.defects = vec![Defect {
        category: DefectCategory::Coating,
        description: "Chip".to_string(),
        severity: DefectSeverity::Minor,
        detected_at: ManufacturingStage::Coating,
        timestamp: now(),
    }];
    report.overall_status = OverallStatus::AcceptedWithNotes;
    let text = format_report_text(&report);
    assert!(text.contains("Tile ID: N/A\n"));
    assert!(text.contains("Location: N/A\n"));
    assert!(text.contains(
        "Cycles Simulated: 100\nFinal Degradation: Moderate\nCoating Wear: 0.1%\nMax Temp: 1203.4 C\nEst. Service Life: 500 cycles\n"
    ));
    assert!(text.contains("--- Defects ---\n- Minor (Coating): Chip\n"));
    assert!(text.ends_with("Overall Status: AcceptedWithNotes"));
}

#[test]
fn test_outcomes_counted() {
    let c = summarize_test_outcomes(&[
        TestOutcome::Pass,
        TestOutcome::Pass,
        TestOutcome::Fail,
        TestOutcome::Inconclusive,
    ]);
    assert_eq!(c, TestCounts { total_tests: 4, passed: 2, failed: 1, inconclusive: 1 });
}

#[test]
fn service_life_by_degradation() {
    assert_eq!(estimated_service_life_cycles(DegradationState::Nominal), 1000);
    assert_eq!(estimated_service_life_cycles(DegradationState::Slight), 1000);
    assert_eq!(estimated_service_life_cycles(DegradationState::Moderate), 500);
    assert_eq!(estimated_service_life_cycles(DegradationState::Severe), 200);
    assert_eq!(estimated_service_life_cycles(DegradationState::Failed), 0);
}

#[test]
fn final_stage_from_unknown_name_is_raw_material() {
    let steps = vec![step("Raw Material Preparation", 1, "OP", StepResult::Success)];
    assert_eq!(summarize_manufacturing(&steps).final_stage, ManufacturingStage::RawMaterial);
    let steps = vec![step("Complete", 1, "OP", StepResult::Success)];
    assert_eq!(summarize_manufacturing(&steps).final_stage, ManufacturingStage::Complete);
}

#[test]
fn minor_and_major_defects_add_notes() {
    let tests = TestCounts { total_tests: 1, passed: 1, failed: 0, inconclusive: 0 };
    let major = vec![Defect {
        category: DefectCategory::Bonding,
        description: "gap".to_string(),
        severity: DefectSeverity::Major,
        detected_at: ManufacturingStage::Bonding,
        timestamp: now(),
    }];
    assert_eq!(
        determine_overall_status(&tests, &no_audits(), &one_complete_step(), &major),
        OverallStatus::AcceptedWithNotes
    );
    let warned = AuditSummary { total_audits: 1, passed: 0, warned: 1, failed: 0, findings: vec![] };
    assert_eq!(
        determine_overall_status(&tests, &warned, &one_complete_step(), &[]),
        OverallStatus::AcceptedWithNotes
    );
    let failed = AuditSummary { total_audits: 1, passed: 0, warned: 0, failed: 1, findings: vec![] };
    assert_eq!(
        determine_overall_status(&tests, &failed, &one_complete_step(), &[]),
        OverallStatus::Rejected
    );
}
