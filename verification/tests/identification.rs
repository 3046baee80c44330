use shuttle_tile_sim::identification::{
    calculate_checksum_str, decode_location, encode_id, encode_location, generate_id, parse_id,
    to_human_readable, to_machine_readable, validate_checksum, validate_schema,
};
use shuttle_tile_sim::{IdSchema, TileBatch, TileError, TileId, TileLocation, TileSurface, Timestamp};

fn now() -> Timestamp {
    let t = chrono::Utc::now();
    Timestamp { secs: t.timestamp(), nanos: t.timestamp_subsec_nanos() }
}

fn test_batch() -> TileBatch {
    TileBatch {
        batch_code: "A24001".to_string(),
        production_date: now(),
        oven_id: "Oven1".to_string(),
        operator_id: "OP001".to_string(),
    }
}

fn test_location() -> TileLocation {
    TileLocation {
        orbiter_id: "OV104".to_string(),
        surface: TileSurface::FuselageBottom,
        panel_id: "03".to_string(),
        row: 0,
        column: 3,
    }
}

fn default_schema() -> IdSchema {
    IdSchema::default()
}

#[test]
fn test_generate_id_valid() {
    let batch = test_batch();
    let location = test_location();
    let id = generate_id(&batch, &location, 1).unwrap();

    assert_eq!(id.sequence, 1);
    assert_eq!(id.batch.batch_code, "A24001");
    assert_eq!(id.location.orbiter_id, "OV104");
    assert_eq!(id.location.surface, TileSurface::FuselageBottom);
    assert_eq!(id.location.panel_id, "03");
    assert_eq!(id.location.row, 0);
    assert_eq!(id.location.column, 3);
    assert!(id.raw.starts_with("A24001-OVFB0303-0001-"));
}

#[test]
fn test_generate_id_sequence_max() {
    let batch = test_batch();
    let location = test_location();
    let id = generate_id(&batch, &location, 9999).unwrap();
    assert_eq!(id.sequence, 9999);
    assert!(id.raw.contains("-9999-"));
}

#[test]
fn test_generate_id_sequence_overflow() {
    let batch = test_batch();
    let location = test_location();
    let result = generate_id(&batch, &location, 10000);
    assert!(result.is_err());
}

#[test]
fn test_generate_id_short_batch() {
    let batch = TileBatch {
        batch_code: "ABC".to_string(),
        production_date: now(),
        oven_id: "O1".to_string(),
        operator_id: "OP".to_string(),
    };
    let location = test_location();
    let id = generate_id(&batch, &location, 1).unwrap();
    assert!(id.raw.starts_with("ABC000-"));
}

#[test]
fn test_generate_id_long_batch() {
    let batch = TileBatch {
        batch_code: "ABCDEFGHI".to_string(),
        production_date: now(),
        oven_id: "O1".to_string(),
        operator_id: "OP".to_string(),
    };
    let location = test_location();
    let id = generate_id(&batch, &location, 1).unwrap();
    assert!(id.raw.starts_with("ABCDEF-"));
}

#[test]
fn test_parse_id_valid() {
    let batch = test_batch();
    let location = test_location();
    let id = generate_id(&batch, &location, 1).unwrap();
    let schema = default_schema();
    let parsed = parse_id(&id.raw, &schema).unwrap();

    assert_eq!(parsed.sequence, id.sequence);
    assert_eq!(parsed.checksum, id.checksum);
    assert_eq!(parsed.raw, id.raw);
}

#[test]
fn test_parse_id_invalid_checksum() {
    let raw = "A24001-OVFB0303-0001-00";
    let schema = default_schema();
    let result = parse_id(raw, &schema);
    assert!(result.is_err());
}

#[test]
fn test_parse_id_malformed_format() {
    let schema = default_schema();
    let result = parse_id("A24001-OVFB0303-0001", &schema);
    assert!(result.is_err());
}

#[test]
fn test_parse_id_invalid_sequence() {
    let schema = default_schema();
    let result = parse_id("A24001-OVFB0303-ABCD-01", &schema);
    assert!(result.is_err());
}

#[test]
fn test_parse_id_invalid_checksum_format() {
    let schema = default_schema();
    let result = parse_id("A24001-OVFB0303-0001-AB", &schema);
    assert!(result.is_err());
}

#[test]
fn test_parse_id_wrong_batch_length() {
    let schema = default_schema();
    let result = parse_id("A2400-OVFB0303-0001-01", &schema);
    assert!(result.is_err());
}

#[test]
fn test_parse_id_wrong_location_length() {
    let schema = default_schema();
    let result = parse_id("A24001-OVFB030-0001-01", &schema);
    assert!(result.is_err());
}

#[test]
fn test_encode_id_default_schema() {
    let batch = test_batch();
    let location = test_location();
    let id = generate_id(&batch, &location, 42).unwrap();
    let schema = default_schema();
    let encoded = encode_id(&id, &schema);
    assert_eq!(encoded, id.raw);
}

#[test]
fn test_encode_id_custom_schema() {
    let batch = test_batch();
    let location = test_location();
    let id = generate_id(&batch, &location, 42).unwrap();
    let schema = IdSchema {
        format: "BATCH-LOC-SEQ-CHECK".to_string(),
        batch_code_length: 6,
        location_code_length: 8,
        sequence_length: 4,
        checksum_length: 2,
        delimiter: ':',
    };
    let encoded = encode_id(&id, &schema);
    assert!(encoded.contains(':'));
    assert!(!encoded.contains('-'));
}

#[test]
fn test_validate_checksum_valid() {
    let batch = test_batch();
    let location = test_location();
    let id = generate_id(&batch, &location, 1).unwrap();
    assert!(validate_checksum(&id).unwrap());
}

#[test]
fn test_validate_checksum_invalid() {
    let mut id = generate_id(&test_batch(), &test_location(), 1).unwrap();
    id.checksum = 99;
    assert!(!validate_checksum(&id).unwrap());
}

#[test]
fn test_validate_checksum_no_delimiter() {
    let id = TileId {
        raw: "INVALID".to_string(),
        batch: test_batch(),
        location: test_location(),
        sequence: 1,
        checksum: 0,
    };
    assert!(validate_checksum(&id).is_err());
}

#[test]
fn test_validate_schema_valid() {
    let schema = default_schema();
    let id = generate_id(&test_batch(), &test_location(), 1).unwrap();
    assert!(validate_schema(&id.raw, &schema).unwrap());
}

#[test]
fn test_validate_schema_wrong_part_count() {
    let schema = default_schema();
    assert!(!validate_schema("A-B-C", &schema).unwrap());
}

#[test]
fn test_validate_schema_wrong_batch_length() {
    let schema = default_schema();
    assert!(!validate_schema("A2400-OVFB0303-0001-01", &schema).unwrap());
}

#[test]
fn test_validate_schema_wrong_location_length() {
    let schema = default_schema();
    assert!(!validate_schema("A24001-OVFB030-0001-01", &schema).unwrap());
}

#[test]
fn test_validate_schema_wrong_sequence_length() {
    let schema = default_schema();
    assert!(!validate_schema("A24001-OVFB0303-001-01", &schema).unwrap());
}

#[test]
fn test_validate_schema_wrong_checksum_length() {
    let schema = default_schema();
    assert!(!validate_schema("A24001-OVFB0303-0001-1", &schema).unwrap());
}

#[test]
fn test_validate_schema_non_digit_sequence() {
    let schema = default_schema();
    assert!(!validate_schema("A24001-OVFB0303-ABCD-01", &schema).unwrap());
}

#[test]
fn test_validate_schema_non_digit_checksum() {
    let schema = default_schema();
    assert!(!validate_schema("A24001-OVFB0303-0001-AB", &schema).unwrap());
}

#[test]
fn test_to_human_readable() {
    let batch = test_batch();
    let location = test_location();
    let id = generate_id(&batch, &location, 1).unwrap();
    let hr = to_human_readable(&id);
    assert!(hr.contains("Batch A24001"));
    assert!(hr.contains("Location"));
    assert!(hr.contains("Sequence 0001"));
    assert!(hr.contains("Checksum"));
}

#[test]
fn test_to_machine_readable() {
    let batch = test_batch();
    let location = test_location();
    let id = generate_id(&batch, &location, 1).unwrap();
    let mr = to_machine_readable(&id);
    assert!(!mr.contains('-'));
    assert_eq!(mr.len(), id.raw.len() - 3);
}

#[test]
fn test_custom_surface() {
    let location = TileLocation {
        orbiter_id: "OV104".to_string(),
        surface: TileSurface::Custom("XY".to_string()),
        panel_id: "03".to_string(),
        row: 0,
        column: 3,
    };
    let batch = test_batch();
    let id = generate_id(&batch, &location, 1).unwrap();
    assert!(id.raw.contains("XY"));

    let schema = default_schema();
    let parsed = parse_id(&id.raw, &schema).unwrap();
    assert_eq!(parsed.location.surface, TileSurface::Custom("XY".to_string()));
}

#[test]
fn test_custom_surface_short() {
    let location = TileLocation {
        orbiter_id: "OV104".to_string(),
        surface: TileSurface::Custom("X".to_string()),
        panel_id: "03".to_string(),
        row: 0,
        column: 3,
    };
    let batch = test_batch();
    let id = generate_id(&batch, &location, 1).unwrap();
    assert!(id.raw.contains("X0"));
}

#[test]
fn test_location_row_col_clamping() {
    let location = TileLocation {
        orbiter_id: "OV104".to_string(),
        surface: TileSurface::NoseCap,
        panel_id: "03".to_string(),
        row: 15,
        column: 20,
    };
    let encoded = encode_location(&location);
    assert_eq!(encoded.as_bytes()[6] as char, '9');
    assert_eq!(encoded.as_bytes()[7] as char, '9');
}

#[test]
fn test_location_decode_invalid_length() {
    let result = decode_location("OVFB030");
    assert!(result.is_err());
}

#[test]
fn test_location_decode_invalid_row_col() {
    let result = decode_location("OVFB03AB");
    assert!(result.is_err());
}

#[test]
fn test_all_surfaces() {
    let surfaces = vec![
        (TileSurface::NoseCap, "NC"),
        (TileSurface::WingLeadingEdge, "WL"),
        (TileSurface::FuselageTop, "FT"),
        (TileSurface::FuselageBottom, "FB"),
        (TileSurface::VerticalStabilizer, "VS"),
        (TileSurface::OmsPod, "OM"),
        (TileSurface::EjectionSeat, "ES"),
    ];

    for (surface, expected_code) in surfaces {
        let location = TileLocation {
            orbiter_id: "OV104".to_string(),
            surface,
            panel_id: "03".to_string(),
            row: 0,
            column: 3,
        };
        let encoded = encode_location(&location);
        assert!(encoded.contains(expected_code), "Expected {} in {}", expected_code, encoded);
    }
}

#[test]
fn test_roundtrip_generate_parse() {
    let batch = test_batch();
    let location = test_location();
    let generated = generate_id(&batch, &location, 123).unwrap();
    let schema = default_schema();
    let parsed = parse_id(&generated.raw, &schema).unwrap();

    assert_eq!(generated.sequence, parsed.sequence);
    assert_eq!(generated.checksum, parsed.checksum);
    assert_eq!(generated.raw, parsed.raw);
}

#[test]
fn test_checksum_consistency() {
    let batch = test_batch();
    let location = test_location();
    let id1 = generate_id(&batch, &location, 1).unwrap();
    let id2 = generate_id(&batch, &location, 1).unwrap();
    assert_eq!(id1.checksum, id2.checksum);
    assert_eq!(id1.raw, id2.raw);
}

#[test]
fn test_different_sequences_different_checksums() {
    let batch = test_batch();
    let location = test_location();
    let id1 = generate_id(&batch, &location, 1).unwrap();
    let id2 = generate_id(&batch, &location, 2).unwrap();
    assert_ne!(id1.checksum, id2.checksum);
}

// Further cases.

#[test]
fn generated_id_has_exact_text() {
    let id = generate_id(&test_batch(), &test_location(), 1).unwrap();
    let prefix = "A24001-OVFB0303-0001";
    let checksum = calculate_checksum_str(prefix);
    assert_eq!(id.raw, format!("{}-{:02}", prefix, checksum));
    assert_eq!(id.checksum, checksum);
}

#[test]
fn checksum_is_luhn_check_value() {
    // digits 2 4 0 0 1 0 3 0 3 0 0 0 1: doubling every second digit from the right sums to 18
    assert_eq!(calculate_checksum_str("A24001-OVFB0303-0001"), 82);
    assert_eq!(calculate_checksum_str(""), 0);
    assert_eq!(calculate_checksum_str("no digits"), 0);
    // 7 9 9 2 7 3 9 8 7 1: the doubled-digit sum is 56
    assert_eq!(calculate_checksum_str("7992739871"), 44);
}

#[test]
fn generate_id_overflow_error_message() {
    match generate_id(&test_batch(), &test_location(), 10000) {
        Err(TileError::IdentificationError(m)) => {
            assert_eq!(m, "Sequence must be 4 digits or less")
        }
        other => panic!("unexpected {:?}", other),
    }
}

#[test]
fn encode_location_pads_short_fields() {
    let location = TileLocation {
        orbiter_id: "O".to_string(),
        surface: TileSurface::Custom("".to_string()),
        panel_id: "".to_string(),
        row: 9,
        column: 10,
    };
    assert_eq!(encode_location(&location), "O0000099");
}

#[test]
fn decode_location_reads_fields() {
    let l = decode_location("OVFB0303").unwrap();
    assert_eq!(l.orbiter_id, "OV00");
    assert_eq!(l.surface, TileSurface::FuselageBottom);
    assert_eq!(l.panel_id, "03");
    assert_eq!(l.row, 0);
    assert_eq!(l.column, 3);
    let c = decode_location("OVZZ0312").unwrap();
    assert_eq!(c.surface, TileSurface::Custom("ZZ".to_string()));
    assert_eq!(c.row, 1);
    assert_eq!(c.column, 2);
}

#[test]
fn decode_location_error_messages() {
    assert_eq!(
        decode_location("OVFB030"),
        Err(TileError::IdentificationError("Location code must be 8 characters".to_string()))
    );
    assert_eq!(
        decode_location("OVFB03AB"),
        Err(TileError::IdentificationError(
            "Invalid row or column in location code".to_string()
        ))
    );
}

#[test]
fn parse_id_error_messages() {
    let schema = default_schema();
    let err = |raw: &str| match parse_id(raw, &schema) {
        Err(TileError::IdentificationError(m)) => m,
        other => panic!("unexpected {:?}", other),
    };
    assert_eq!(err("A24001-OVFB0303-0001"), "Schema validation failed");
    assert_eq!(err("A24001-OVFB0303-0001-00"), "Checksum mismatch");
    let bad_row = format!("A24001-OVFB03X3-0001-{:02}", calculate_checksum_str("A24001-OVFB03X3-0001"));
    assert_eq!(err(&bad_row), "Invalid row or column in location code");
    assert_eq!(err("A24001-OVFB0303-0001-0A"), "Schema validation failed");
}

#[test]
fn parse_id_reads_location_and_batch() {
    let id = generate_id(&test_batch(), &test_location(), 7).unwrap();
    let parsed = parse_id(&id.raw, &default_schema()).unwrap();
    assert_eq!(parsed.batch.batch_code, "A24001");
    assert_eq!(parsed.batch.oven_id, "");
    assert_eq!(parsed.batch.operator_id, "");
    assert_eq!(parsed.location.orbiter_id, "OV00");
    assert_eq!(parsed.location.surface, TileSurface::FuselageBottom);
    assert_eq!(parsed.location.panel_id, "03");
    assert_eq!(parsed.sequence, 7);
}

#[test]
fn human_readable_exact_text() {
    let id = generate_id(&test_batch(), &test_location(), 1).unwrap();
    assert_eq!(
        to_human_readable(&id),
        format!("Batch A24001, Location OV104-FB-03-0-3, Sequence 0001, Checksum {:02}", id.checksum)
    );
}

#[test]
fn machine_readable_keeps_letters_and_digits() {
    let id = TileId {
        raw: "Ab-9 _é".to_string(),
        batch: test_batch(),
        location: test_location(),
        sequence: 1,
        checksum: 0,
    };
    assert_eq!(to_machine_readable(&id), "Ab9é");
}

#[test]
fn validate_checksum_no_delimiter_message() {
    let id = TileId {
        raw: "INVALID".to_string(),
        batch: test_batch(),
        location: test_location(),
        sequence: 1,
        checksum: 0,
    };
    assert_eq!(
        validate_checksum(&id),
        Err(TileError::IdentificationError("No delimiter found".to_string()))
    );
}

#[test]
fn error_texts_carry_prefix() {
    let e = TileError::IdentificationError("x".to_string());
    assert_eq!(e.to_string(), "Identification error: x");
    assert_eq!(TileError::AuditError("y".to_string()).to_string(), "Audit failure: y");
}
