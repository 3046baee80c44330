use shuttle_tile_sim::audit::AuditEngine;
use shuttle_tile_sim::identification::generate_id;
use shuttle_tile_sim::{
    AppliedId, AuditFinding, AuditStatus, FindingCategory, FindingSeverity, TileBatch, TileId,
    TileLocation, TileSurface, Timestamp,
};

fn now() -> Timestamp {
    let t = chrono::Utc::now();
    Timestamp { secs: t.timestamp(), nanos: t.timestamp_subsec_nanos() }
}

fn test_batch() -> TileBatch {
    TileBatch {
        batch_code: "A24001".to_string(),
        production_date: now(),
        oven_id: "Oven1".to_string(),
        operator_id: "OP001".to_string(),
    }
}

fn test_location() -> TileLocation {
    TileLocation {
        orbiter_id: "OV104".to_string(),
        surface: TileSurface::FuselageBottom,
        panel_id: "03".to_string(),
        row: 0,
        column: 3,
    }
}

#[test]
fn test_audit_id_full_pass() {
    let mut engine = AuditEngine::new();
    let batch = test_batch();
    let location = test_location();
    let id = generate_id(&batch, &location, 1).unwrap();

    let result = engine.audit_id(&id, &batch, &location);
    assert_eq!(result.status, AuditStatus::Pass);
    assert!(result
        .findings
        .iter()
        .any(|f| f.category == FindingCategory::SchemaCompliance
            && f.severity == FindingSeverity::Info));
}

#[test]
fn test_audit_schema_compliance_broken() {
    let engine = AuditEngine::new();
    let broken = "INVALID-ID-FORMAT";
    let findings = engine.audit_schema_compliance(broken);

    assert_eq!(findings.len(), 1);
    assert_eq!(findings[0].severity, FindingSeverity::Critical);
    assert_eq!(findings[0].category, FindingCategory::SchemaCompliance);
}

#[test]
fn test_audit_duplicate_detection() {
    let mut engine = AuditEngine::new();
    let batch = test_batch();
    let location = test_location();
    let id = generate_id(&batch, &location, 1).unwrap();

    let first = engine.audit_duplicate(&id);
    assert_eq!(first[0].severity, FindingSeverity::Info);

    let second = engine.audit_duplicate(&id);
    assert_eq!(second[0].severity, FindingSeverity::Critical);
    assert_eq!(second[0].category, FindingCategory::DuplicateDetection);
}

#[test]
fn test_audit_batch_mismatch() {
    let engine = AuditEngine::new();
    let batch = test_batch();
    let location = test_location();
    let id = generate_id(&batch, &location, 1).unwrap();

    let wrong_batch = TileBatch {
        batch_code: "B99999".to_string(),
        production_date: now(),
        oven_id: "O2".to_string(),
        operator_id: "OP002".to_string(),
    };

    let findings = engine.audit_batch_consistency(&id, &wrong_batch);
    assert_eq!(findings.len(), 1);
    assert_eq!(findings[0].severity, FindingSeverity::Critical);
    assert_eq!(findings[0].category, FindingCategory::BatchConsistency);
}

#[test]
fn test_audit_location_mismatch() {
    let engine = AuditEngine::new();
    let batch = test_batch();
    let location = test_location();
    let id = generate_id(&batch, &location, 1).unwrap();

    let wrong_location = TileLocation {
        orbiter_id: "OV099".to_string(),
        surface: TileSurface::NoseCap,
        panel_id: "99".to_string(),
        row: 9,
        column: 9,
    };

    let findings = engine.audit_location_consistency(&id, &wrong_location);
    assert!(findings.iter().any(|f| f.severity == FindingSeverity::Critical));
    assert_eq!(findings[0].category, FindingCategory::LocationConsistency);
}

#[test]
fn test_audit_application_mismatch() {
    let engine = AuditEngine::new();
    let batch = test_batch();
    let location = test_location();
    let id = generate_id(&batch, &location, 1).unwrap();

    let applied = AppliedId {
        id: id.clone(),
        application_method: "Laser".to_string(),
        application_timestamp: now(),
        operator_id: "OP001".to_string(),
        physical_reading: "WRONG-READING".to_string(),
        digital_record: id.raw.clone(),
    };

    let findings = engine.audit_application(&applied);
    assert!(findings
        .iter()
        .any(|f| f.severity == FindingSeverity::Critical
            && f.category == FindingCategory::ApplicationCorrectness));
}

#[test]
fn test_audit_checksum_invalid() {
    let engine = AuditEngine::new();
    let batch = test_batch();
    let location = test_location();
    let mut id = generate_id(&batch, &location, 1).unwrap();
    id.checksum = 99;

    let findings = engine.audit_checksum(&id);
    assert_eq!(findings.len(), 1);
    assert_eq!(findings[0].severity, FindingSeverity::Critical);
    assert_eq!(findings[0].category, FindingCategory::ChecksumValidity);
}

#[test]
fn test_audit_serialization_roundtrip() {
    let engine = AuditEngine::new();
    let batch = test_batch();
    let location = test_location();
    let id = generate_id(&batch, &location, 42).unwrap();

    let findings = engine.audit_serialization(&id);
    assert_eq!(findings[0].severity, FindingSeverity::Info);
    assert_eq!(findings[0].category, FindingCategory::SerializationIntegrity);
}

#[test]
fn test_audit_human_readable() {
    let engine = AuditEngine::new();
    let batch = test_batch();
    let location = test_location();
    let id = generate_id(&batch, &location, 1).unwrap();

    let findings = engine.audit_human_readable(&id);
    assert_eq!(findings[0].severity, FindingSeverity::Info);
    assert_eq!(findings[0].category, FindingCategory::HumanReadability);
}

#[test]
fn test_audit_id_fails_with_broken_schema() {
    let mut engine = AuditEngine::new();
    let batch = test_batch();
    let location = test_location();

    let broken_id = TileId {
        raw: "BAD-ID".to_string(),
        batch: batch.clone(),
        location: location.clone(),
        sequence: 1,
        checksum: 0,
    };

    let result = engine.audit_id(&broken_id, &batch, &location);
    assert_eq!(result.status, AuditStatus::Fail);
    assert!(result
        .findings
        .iter()
        .any(|f| f.category == FindingCategory::SchemaCompliance
            && f.severity == FindingSeverity::Critical));
}

#[test]
fn test_batch_records_tracking() {
    let mut engine = AuditEngine::new();
    let batch = test_batch();
    let location = test_location();
    let id = generate_id(&batch, &location, 1).unwrap();

    engine.audit_duplicate(&id);
    assert!(engine.seen_ids.contains(&id.raw));
}

// Further cases.

fn messages(findings: &[AuditFinding]) -> Vec<String> {
    findings.iter().map(|f| f.message.clone()).collect()
}

#[test]
fn full_audit_summary_and_findings() {
    let mut engine = AuditEngine::default();
    let batch = test_batch();
    let location = test_location();
    let id = generate_id(&batch, &location, 1).unwrap();
    let result = engine.audit_id(&id, &batch, &location);
    assert_eq!(result.findings.len(), 7);
    assert_eq!(result.summary, "Audit Pass: 7 info, 0 warnings, 0 critical findings");
    assert_eq!(result.audited_id, id.raw);
    let second = engine.audit_id(&id, &batch, &location);
    assert_eq!(second.status, AuditStatus::Fail);
    assert_eq!(second.summary, "Audit Fail: 6 info, 0 warnings, 1 critical findings");
    assert_eq!(second.findings[4].message, "Duplicate ID detected");
}

#[test]
fn broken_id_audit_summary() {
    let mut engine = AuditEngine::new();
    let batch = test_batch();
    let location = test_location();
    let broken_id = TileId {
        raw: "BAD-ID".to_string(),
        batch: batch.clone(),
        location: location.clone(),
        sequence: 1,
        checksum: 0,
    };
    let result = engine.audit_id(&broken_id, &batch, &location);
    assert_eq!(
        messages(&result.findings),
        vec![
            "Schema validation failed: format does not match BATCH-LOC-SEQ-CHECK",
            "Checksum valid",
            "Batch code matches expected",
            "Location matches expected",
            "ID is unique",
            "Encode/decode roundtrip data mismatch",
            "Human-readable format contains all required fields",
        ]
    );
    assert_eq!(result.summary, "Audit Fail: 5 info, 0 warnings, 2 critical findings");
}

#[test]
fn schema_finding_texts() {
    let engine = AuditEngine::new();
    let id = generate_id(&test_batch(), &test_location(), 1).unwrap();
    let ok = engine.audit_schema_compliance(&id.raw);
    assert_eq!(ok[0].message, "Schema validation passed");
    assert_eq!(ok[0].expected, Some("BATCH-LOC-SEQ-CHECK".to_string()));
    assert_eq!(ok[0].actual, Some(id.raw.clone()));
}

#[test]
fn checksum_finding_texts() {
    let engine = AuditEngine::new();
    let mut id = generate_id(&test_batch(), &test_location(), 1).unwrap();
    let ok = engine.audit_checksum(&id);
    assert_eq!(ok[0].message, "Checksum valid");
    assert_eq!(ok[0].expected, Some(format!("{:02}", id.checksum)));
    id.checksum = 7;
    let bad = engine.audit_checksum(&id);
    assert_eq!(bad[0].expected, Some(format!("valid checksum for {}", id.raw)));
    assert_eq!(bad[0].actual, Some("07".to_string()));
    id.raw = "NODELIMITER".to_string();
    let err = engine.audit_checksum(&id);
    assert_eq!(err[0].severity, FindingSeverity::Critical);
    assert_eq!(
        err[0].message,
        "Checksum validation error: Identification error: No delimiter found"
    );
    assert_eq!(err[0].expected, Some("valid checksum".to_string()));
}

#[test]
fn batch_codes_compared_on_six_bytes() {
    let engine = AuditEngine::new();
    let id = generate_id(&test_batch(), &test_location(), 1).unwrap();
    let longer = TileBatch { batch_code: "A24001XYZ".to_string(), ..test_batch() };
    let f = engine.audit_batch_consistency(&id, &longer);
    assert_eq!(f[0].severity, FindingSeverity::Info);
    let short = TileBatch { batch_code: "A24".to_string(), ..test_batch() };
    let g = engine.audit_batch_consistency(&id, &short);
    assert_eq!(g[0].severity, FindingSeverity::Critical);
    assert_eq!(g[0].expected, Some("A24000".to_string()));
    assert_eq!(g[0].actual, Some("A24001".to_string()));
}

#[test]
fn location_mismatch_names_fields() {
    let engine = AuditEngine::new();
    let id = generate_id(&test_batch(), &test_location(), 1).unwrap();
    let wrong = TileLocation {
        orbiter_id: "OV099".to_string(),
        surface: TileSurface::NoseCap,
        panel_id: "99".to_string(),
        row: 9,
        column: 9,
    };
    let f = engine.audit_location_consistency(&id, &wrong);
    assert_eq!(f[0].message, "Location mismatch: surface, panel, row, column");
    assert_eq!(f[0].expected, Some(format!("{:?}", wrong)));
    assert_eq!(f[0].actual, Some(format!("{:?}", id.location)));
    let same_prefix = TileLocation { orbiter_id: "OV1".to_string(), ..test_location() };
    let g = engine.audit_location_consistency(&id, &same_prefix);
    assert_eq!(g[0].severity, FindingSeverity::Info);
    let custom = TileLocation { surface: TileSurface::Custom("Q\"".to_string()), ..test_location() };
    let h = engine.audit_location_consistency(&id, &custom);
    assert_eq!(h[0].message, "Location mismatch: surface");
    assert_eq!(h[0].expected, Some(format!("{:?}", custom)));
}

#[test]
fn application_findings_both_checks() {
    let engine = AuditEngine::new();
    let id = generate_id(&test_batch(), &test_location(), 1).unwrap();
    let applied = AppliedId {
        id: id.clone(),
        application_method: "Laser".to_string(),
        application_timestamp: now(),
        operator_id: "OP001".to_string(),
        physical_reading: id.raw.clone(),
        digital_record: id.raw.clone(),
    };
    let f = engine.audit_application(&applied);
    assert_eq!(f.len(), 2);
    assert_eq!(f[0].severity, FindingSeverity::Info);
    assert_eq!(f[1].severity, FindingSeverity::Info);
    assert_eq!(f[1].message, "Digital record matches encoded ID");
    let stale = AppliedId { digital_record: "OLD".to_string(), physical_reading: "OLD".to_string(), ..applied };
    let g = engine.audit_application(&stale);
    assert_eq!(g[0].severity, FindingSeverity::Info);
    assert_eq!(g[1].severity, FindingSeverity::Warning);
    assert_eq!(g[1].expected, Some(id.raw.clone()));
}

#[test]
fn serialization_mismatch_when_text_differs() {
    let engine = AuditEngine::new();
    let mut id = generate_id(&test_batch(), &test_location(), 1).unwrap();
    id.raw = "SOMETHING-ELSE".to_string();
    let f = engine.audit_serialization(&id);
    assert_eq!(f[0].severity, FindingSeverity::Critical);
    assert_eq!(f[0].message, "Encode/decode roundtrip data mismatch");
}

#[test]
fn human_readable_finding_shows_text() {
    let engine = AuditEngine::new();
    let id = generate_id(&test_batch(), &test_location(), 1).unwrap();
    let f = engine.audit_human_readable(&id);
    assert_eq!(f[0].actual, Some(shuttle_tile_sim::identification::to_human_readable(&id)));
    assert_eq!(f[0].expected, Some("batch, sequence, checksum present".to_string()));
}
