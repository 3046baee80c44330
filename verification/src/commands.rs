//! The decisions of the command-line tool: how it reads a surface name, the steps it records
//! for a full manufacturing run, and how its report rates a tile.
use vstd::prelude::*;
use crate::manufacturing::{same_parts, step_models};
use crate::report::has_defect;
use crate::text::{chars_equal, chars_of};
use crate::{
    AuditSummary, Defect, DefectSeverity, DegradationState, ManufacturingStage, ManufacturingStep,
    ManufacturingSummary, OverallStatus, ResultModel, StepResult, SurfaceModel, TestCounts,
    TileState, TileSurface,
};
use std::collections::HashMap;
use vstd::std_specs::hash::obeys_key_model;

verus! {

/// What `str::to_lowercase` makes of a string.
pub uninterp spec fn str_lowercase(s: Seq<char>) -> Seq<char>;

/// An ASCII character in lower case (other characters unchanged).
pub open spec fn ascii_lower(c: char) -> char {
    if 'A' <= c && c <= 'Z' {
        ((c as u32) + 32) as char
    } else {
        c
    }
}

/// `str::to_lowercase`. Its result is named `str_lowercase`; for text made of ASCII
/// characters only it is the text with `A`..`Z` turned into `a`..`z`. Other characters follow
/// the Unicode case tables, which are not stated.
#[verifier::external_body]
fn lowercase(s: &str) -> (r: String)
    ensures
        r@ == str_lowercase(s@),
        (forall|i: int| 0 <= i < s@.len() ==> (#[trigger] s@[i] as u32) < 128) ==> r@ == s@.map_values(
            |c: char| ascii_lower(c),
        ),
{
    s.to_lowercase()
}

/// The surface a command-line name stands for, ignoring case; any other name is a custom
/// surface of that name.
pub open spec fn surface_named(name: Seq<char>) -> SurfaceModel {
    let l = str_lowercase(name);
    if l == "nose"@ || l == "nosecap"@ {
        SurfaceModel::NoseCap
    } else if l == "wing"@ || l == "wingleadingedge"@ {
        SurfaceModel::WingLeadingEdge
    } else if l == "top"@ || l == "fuselagetop"@ {
        SurfaceModel::FuselageTop
    } else if l == "bottom"@ || l == "fuselagebottom"@ {
        SurfaceModel::FuselageBottom
    } else if l == "vs"@ || l == "verticalstabilizer"@ {
        SurfaceModel::VerticalStabilizer
    } else if l == "oms"@ || l == "omspod"@ {
        SurfaceModel::OmsPod
    } else {
        SurfaceModel::Custom(name)
    }
}

fn is_text(v: &Vec<char>, lit: &str) -> (r: bool)
    ensures
        r == (v@ == lit@),
{
    let l = chars_of(lit);
    chars_equal(v.as_slice(), l.as_slice())
}

/// Reads a surface name given on the command line (see `surface_named`).
pub fn parse_surface(surface: &str) -> (s: TileSurface)
    ensures
        s@ == surface_named(surface@),
{
    let lower = lowercase(surface);
    let l = chars_of(lower.as_str());
    if is_text(&l, "nose") || is_text(&l, "nosecap") {
        TileSurface::NoseCap
    } else if is_text(&l, "wing") || is_text(&l, "wingleadingedge") {
        TileSurface::WingLeadingEdge
    } else if is_text(&l, "top") || is_text(&l, "fuselagetop") {
        TileSurface::FuselageTop
    } else if is_text(&l, "bottom") || is_text(&l, "fuselagebottom") {
        TileSurface::FuselageBottom
    } else if is_text(&l, "vs") || is_text(&l, "verticalstabilizer") {
        TileSurface::VerticalStabilizer
    } else if is_text(&l, "oms") || is_text(&l, "omspod") {
        TileSurface::OmsPod
    } else {
        TileSurface::Custom(String::from_str(surface))
    }
}

/// The steps the command-line tool records for a full manufacturing run, after the first
/// one: their names and the stages they bring the tile to.
pub open spec fn run_step_name(k: int) -> Seq<char> {
    if k == 0 {
        "Slurry formation"@
    } else if k == 1 {
        "Mold casting"@
    } else if k == 2 {
        "Drying"@
    } else if k == 3 {
        "Sintering"@
    } else if k == 4 {
        "CNC machining"@
    } else if k == 5 {
        "Coating application"@
    } else if k == 6 {
        "Bonding assembly"@
    } else if k == 7 {
        "Identification"@
    } else if k == 8 {
        "Testing"@
    } else {
        "Final inspection"@
    }
}

pub open spec fn run_step_stage(k: int) -> ManufacturingStage {
    if k == 0 {
        ManufacturingStage::SlurryFormation
    } else if k == 1 {
        ManufacturingStage::MoldCasting
    } else if k == 2 {
        ManufacturingStage::Drying
    } else if k == 3 {
        ManufacturingStage::Sintering
    } else if k == 4 {
        ManufacturingStage::CncMachining
    } else if k == 5 {
        ManufacturingStage::Coating
    } else if k == 6 {
        ManufacturingStage::Bonding
    } else if k == 7 {
        ManufacturingStage::Identification
    } else if k == 8 {
        ManufacturingStage::Testing
    } else {
        ManufacturingStage::Complete
    }
}

fn run_step(k: usize) -> (r: (&'static str, ManufacturingStage))
    requires
        k < 10,
    ensures
        r.0@ == run_step_name(k as int),
        r.1 == run_step_stage(k as int),
{
    if k == 0 {
        ("Slurry formation", ManufacturingStage::SlurryFormation)
    } else if k == 1 {
        ("Mold casting", ManufacturingStage::MoldCasting)
    } else if k == 2 {
        ("Drying", ManufacturingStage::Drying)
    } else if k == 3 {
        ("Sintering", ManufacturingStage::Sintering)
    } else if k == 4 {
        ("CNC machining", ManufacturingStage::CncMachining)
    } else if k == 5 {
        ("Coating application", ManufacturingStage::Coating)
    } else if k == 6 {
        ("Bonding assembly", ManufacturingStage::Bonding)
    } else if k == 7 {
        ("Identification", ManufacturingStage::Identification)
    } else if k == 8 {
        ("Testing", ManufacturingStage::Testing)
    } else {
        ("Final inspection", ManufacturingStage::Complete)
    }
}

/// A parameter map holding one entry, `operator`, whose value is `operator`.
pub open spec fn operator_parameters(p: Map<String, String>, operator: Seq<char>) -> bool {
    exists|key: String, value: String|
        #![trigger Map::<String, String>::empty().insert(key, value)]
        key@ == "operator"@ && value@ == operator && p == Map::<String, String>::empty().insert(
            key,
            value,
        )
}

/// Records the ten steps of a full run, numbered 2 to 11, each a success by `operator` whose
/// parameters map `operator` to the operator, and leaves the tile `Complete`. vstd describes
/// inserting into a map keyed by strings only for key types that obey its hash-table key
/// model, so the parameter clause is stated under that condition.
pub fn record_full_run(tile: &mut TileState, operator: &str)
    ensures
        final(tile).current_stage == ManufacturingStage::Complete,
        final(tile).manufacturing_steps@.len() == old(tile).manufacturing_steps@.len() + 10,
        step_models(final(tile).manufacturing_steps@).subrange(
            0,
            old(tile).manufacturing_steps@.len() as int,
        ) == step_models(old(tile).manufacturing_steps@),
        forall|k: int|
            0 <= k < 10 ==> {
                let s = #[trigger] final(tile).manufacturing_steps@[old(
                    tile,
                ).manufacturing_steps@.len() + k]@;
                &&& s.name == run_step_name(k)
                &&& s.step_number == k + 2
                &&& s.operator_id == operator@
                &&& s.result == ResultModel::Success
                &&& (obeys_key_model::<String>() ==> operator_parameters(s.parameters, operator@))
            },
        same_parts(*final(tile), *old(tile)),
{
    let ghost n = old(tile).manufacturing_steps@.len();
    let mut k: usize = 0;
    while k < 10
        invariant
            k <= 10,
            n == old(tile).manufacturing_steps@.len(),
            tile.manufacturing_steps@.len() == n + k,
            step_models(tile.manufacturing_steps@).subrange(0, n as int) == step_models(
                old(tile).manufacturing_steps@,
            ),
            forall|j: int|
                0 <= j < k ==> {
                    let s = #[trigger] tile.manufacturing_steps@[n + j]@;
                    &&& s.name == run_step_name(j)
                    &&& s.step_number == j + 2
                    &&& s.operator_id == operator@
                    &&& s.result == ResultModel::Success
                    &&& (obeys_key_model::<String>() ==> operator_parameters(
                        s.parameters,
                        operator@,
                    ))
                },
            k > 0 ==> tile.current_stage == run_step_stage(k - 1),
            same_parts(*tile, *old(tile)),
        decreases 10 - k,
    {
        let (name, stage) = run_step(k);
        let mut params: HashMap<String, String> = HashMap::new();
        let key = String::from_str("operator");
        let value = String::from_str(operator);
        let ghost (gk, gv) = (key, value);
        params.insert(key, value);
        proof {
            broadcast use vstd::std_specs::hash::axiom_random_state_builds_valid_hashers;

            if obeys_key_model::<String>() {
                assert(params@ == Map::<String, String>::empty().insert(gk, gv));
                assert(operator_parameters(params@, operator@));
            }
        }
        let ghost before = tile.manufacturing_steps@;
        tile.manufacturing_steps.push(
            ManufacturingStep {
                name: String::from_str(name),
                step_number: (k + 2) as u32,
                timestamp: crate::now(),
                operator_id: String::from_str(operator),
                parameters: params,
                result: StepResult::Success,
            },
        );
        tile.current_stage = stage;
        proof {
            assert(step_models(tile.manufacturing_steps@).subrange(0, n as int) =~= step_models(
                before,
            ).subrange(0, n as int));
            assert forall|j: int| 0 <= j < k + 1 implies {
                let s = #[trigger] tile.manufacturing_steps@[n + j]@;
                &&& s.name == run_step_name(j)
                &&& s.step_number == j + 2
                &&& s.operator_id == operator@
                &&& s.result == ResultModel::Success
                &&& (obeys_key_model::<String>() ==> operator_parameters(s.parameters, operator@))
            } by {
                if j < k {
                    assert(tile.manufacturing_steps@[n + j] == before[n + j]);
                }
            }
        }
        k = k + 1;
    }
}

/// The manufacturing summary of the command-line report: every step counts as completed, the
/// warnings and failures are counted, and the final stage is the tile's current stage.
pub fn run_manufacturing_summary(tile: &TileState) -> (m: ManufacturingSummary)
    ensures
        m.total_steps == tile.manufacturing_steps@.len(),
        m.steps_completed == tile.manufacturing_steps@.len(),
        m.steps_with_warnings == crate::report::count_steps(step_models(tile.manufacturing_steps@), 1),
        m.steps_with_failures == crate::report::count_steps(step_models(tile.manufacturing_steps@), 2),
        m.final_stage == tile.current_stage,
{
    let s = crate::report::summarize_manufacturing(tile.manufacturing_steps.as_slice());
    ManufacturingSummary {
        total_steps: tile.manufacturing_steps.len(),
        steps_completed: tile.manufacturing_steps.len(),
        steps_with_warnings: s.steps_with_warnings,
        steps_with_failures: s.steps_with_failures,
        final_stage: tile.current_stage,
    }
}

/// The service life the command-line report gives: none left for a failed tile, otherwise
/// what remains of a thousand cycles.
pub open spec fn remaining_cycles(d: DegradationState, cycles: u32) -> int {
    if d == DegradationState::Failed {
        0
    } else {
        1000 - cycles
    }
}

/// Service cycles left after `cycles` simulated cycles (see `remaining_cycles`); more than a
/// thousand cycles on a tile that has not failed is out of range.
pub fn remaining_service_cycles(d: DegradationState, cycles: u32) -> (n: u32)
    requires
        d != DegradationState::Failed ==> cycles <= 1000,
    ensures
        n == remaining_cycles(d, cycles),
{
    if d == DegradationState::Failed {
        0
    } else {
        1000 - cycles
    }
}

/// The verdict of the command-line report: rejected on a failed step, test or audit or a
/// critical defect; accepted with notes on a step or audit warning or a major defect;
/// accepted when a test passed or any step was recorded; pending otherwise.
pub open spec fn run_verdict(
    m: ManufacturingSummary,
    tests: TestCounts,
    audits: AuditSummary,
    defects: Seq<Defect>,
) -> OverallStatus {
    if m.steps_with_failures > 0 || tests.failed > 0 || audits.failed > 0 || has_defect(
        defects,
        DefectSeverity::Critical,
    ) {
        OverallStatus::Rejected
    } else if m.steps_with_warnings > 0 || audits.warned > 0 || has_defect(
        defects,
        DefectSeverity::Major,
    ) {
        OverallStatus::AcceptedWithNotes
    } else if tests.passed > 0 || m.total_steps > 0 {
        OverallStatus::Accepted
    } else {
        OverallStatus::Pending
    }
}

fn any_defect(defects: &[Defect], sev: DefectSeverity) -> (b: bool)
    ensures
        b == has_defect(defects@, sev),
{
    let mut i: usize = 0;
    while i < defects.len()
        invariant
            i <= defects@.len(),
            forall|j: int| 0 <= j < i ==> defects@[j].severity != sev,
        decreases defects@.len() - i,
    {
        if defects[i].severity == sev {
            assert(defects@[i as int].severity == sev);
            return true;
        }
        i = i + 1;
    }
    false
}

/// Rates a tile for the command-line report (see `run_verdict`).
pub fn run_overall_status(
    m: &ManufacturingSummary,
    tests: &TestCounts,
    audits: &AuditSummary,
    defects: &[Defect],
) -> (s: OverallStatus)
    ensures
        s == run_verdict(*m, *tests, *audits, defects@),
{
    if m.steps_with_failures > 0 || tests.failed > 0 || audits.failed > 0 || any_defect(
        defects,
        DefectSeverity::Critical,
    ) {
        OverallStatus::Rejected
    } else if m.steps_with_warnings > 0 || audits.warned > 0 || any_defect(
        defects,
        DefectSeverity::Major,
    ) {
        OverallStatus::AcceptedWithNotes
    } else if tests.passed > 0 || m.total_steps > 0 {
        OverallStatus::Accepted
    } else {
        OverallStatus::Pending
    }
}

} // verus!
