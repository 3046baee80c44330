use shuttle_tile_sim::identification::{calculate_checksum_str, decode_location, encode_location};
use shuttle_tile_sim::report::{summarize_manufacturing, summarize_test_outcomes};
use shuttle_tile_sim::{
    ManufacturingStep, StepResult, TestOutcome, TileLocation, TileSurface, Timestamp,
};
use std::collections::HashMap;

#[test]
fn location_code_reads_back_as_kept() {
    let location = TileLocation {
        orbiter_id: "OV104".to_string(),
        surface: TileSurface::WingLeadingEdge,
        panel_id: "7".to_string(),
        row: 4,
        column: 12,
    };
    let code = encode_location(&location);
    let back = decode_location(&code).unwrap();
    assert_eq!(back.orbiter_id, "OV00");
    assert_eq!(back.surface, TileSurface::WingLeadingEdge);
    assert_eq!(back.panel_id, "70");
    assert_eq!(back.row, 4);
    assert_eq!(back.column, 9);
}

#[test]
fn custom_surface_with_standard_code_reads_back_as_standard() {
    let location = TileLocation {
        orbiter_id: "OV".to_string(),
        surface: TileSurface::Custom("NCX".to_string()),
        panel_id: "01".to_string(),
        row: 0,
        column: 0,
    };
    let back = decode_location(&encode_location(&location)).unwrap();
    assert_eq!(back.surface, TileSurface::NoseCap);
}

#[test]
fn every_single_digit_change_changes_checksum() {
    let text = "A24001-OVFB0303-0001";
    let base = calculate_checksum_str(text);
    for (i, c) in text.char_indices() {
        if c.is_ascii_digit() {
            for d in '0'..='9' {
                if d != c {
                    let mut changed = text.to_string();
                    changed.replace_range(i..i + 1, &d.to_string());
                    assert_ne!(calculate_checksum_str(&changed), base, "{}", changed);
                }
            }
        }
    }
}

#[test]
fn counts_add_up() {
    let stamp = Timestamp { secs: 0, nanos: 0 };
    let results = vec![
        StepResult::Success,
        StepResult::Warning("w".to_string()),
        StepResult::Success,
        StepResult::Failure("f".to_string()),
    ];
    let steps: Vec<ManufacturingStep> = results
        .into_iter()
        .enumerate()
        .map(|(i, result)| ManufacturingStep {
            name: format!("step {}", i),
            step_number: i as u32 + 1,
            timestamp: stamp,
            operator_id: "OP".to_string(),
            parameters: HashMap::new(),
            result,
        })
        .collect();
    let m = summarize_manufacturing(&steps);
    assert_eq!(m.steps_completed + m.steps_with_warnings + m.steps_with_failures, m.total_steps);
    let t = summarize_test_outcomes(&[TestOutcome::Fail, TestOutcome::Inconclusive, TestOutcome::Pass]);
    assert_eq!(t.passed + t.failed + t.inconclusive, t.total_tests);
}
