//! Report summaries: counts of manufacturing steps, test outcomes and audits, the service
//! life left by a degradation state, and the overall verdict on a tile.
use vstd::prelude::*;
use crate::audit::models;
use crate::manufacturing::{stage_debug, step_models};
use crate::identification::{push_surface_display, surface_display};
use crate::text::{chars_equal, chars_of, decimal, decimal_exec, join, join_exec, string_from_chars};
use crate::{
    AuditFinding, AuditStatus, AuditSummary, DegradationState, Defect, DefectSeverity,
    IdAuditResult, ManufacturingStage, ManufacturingStep, ManufacturingSummary, OverallStatus,
    ResultModel, StepModel, StepResult, TestCounts, TestOutcome, FindingModel, DefectCategory,
    ReportOverview, SimulationOverview, TileLocation,
};

verus! {

/// 0 for a success, 1 for a warning, 2 for a failure.
pub open spec fn result_kind(r: ResultModel) -> int {
    match r {
        ResultModel::Success => 0,
        ResultModel::Warning(_) => 1,
        ResultModel::Failure(_) => 2,
    }
}

/// How many steps have a result of the given kind (see `result_kind`).
pub open spec fn count_steps(steps: Seq<StepModel>, kind: int) -> nat
    decreases steps.len(),
{
    if steps.len() == 0 {
        0
    } else {
        count_steps(steps.drop_last(), kind) + if result_kind(steps.last().result) == kind {
            1nat
        } else {
            0nat
        }
    }
}

/// The stage whose variant name is `name`, if any.
pub open spec fn stage_named(name: Seq<char>) -> Option<ManufacturingStage> {
    if name == stage_debug(ManufacturingStage::RawMaterial) {
        Some(ManufacturingStage::RawMaterial)
    } else if name == stage_debug(ManufacturingStage::SlurryFormation) {
        Some(ManufacturingStage::SlurryFormation)
    } else if name == stage_debug(ManufacturingStage::MoldCasting) {
        Some(ManufacturingStage::MoldCasting)
    } else if name == stage_debug(ManufacturingStage::Drying) {
        Some(ManufacturingStage::Drying)
    } else if name == stage_debug(ManufacturingStage::Sintering) {
        Some(ManufacturingStage::Sintering)
    } else if name == stage_debug(ManufacturingStage::CncMachining) {
        Some(ManufacturingStage::CncMachining)
    } else if name == stage_debug(ManufacturingStage::Coating) {
        Some(ManufacturingStage::Coating)
    } else if name == stage_debug(ManufacturingStage::Bonding) {
        Some(ManufacturingStage::Bonding)
    } else if name == stage_debug(ManufacturingStage::Identification) {
        Some(ManufacturingStage::Identification)
    } else if name == stage_debug(ManufacturingStage::Testing) {
        Some(ManufacturingStage::Testing)
    } else if name == stage_debug(ManufacturingStage::Complete) {
        Some(ManufacturingStage::Complete)
    } else if name == stage_debug(ManufacturingStage::Rejected) {
        Some(ManufacturingStage::Rejected)
    } else {
        None
    }
}

/// The stage named by the last step, `RawMaterial` when there is no step or its name is
/// not a stage's variant name.
pub open spec fn final_stage_of(steps: Seq<StepModel>) -> ManufacturingStage {
    if steps.len() == 0 {
        ManufacturingStage::RawMaterial
    } else {
        match stage_named(steps.last().name) {
            Some(s) => s,
            None => ManufacturingStage::RawMaterial,
        }
    }
}

fn same_text(a: &String, lit: &str) -> (r: bool)
    ensures
        r == (a@ == lit@),
{
    let x = chars_of(a.as_str());
    let y = chars_of(lit);
    chars_equal(x.as_slice(), y.as_slice())
}

fn stage_from_name(name: &String) -> (r: Option<ManufacturingStage>)
    ensures
        r == stage_named(name@),
{
    if same_text(name, "RawMaterial") {
        Some(ManufacturingStage::RawMaterial)
    } else if same_text(name, "SlurryFormation") {
        Some(ManufacturingStage::SlurryFormation)
    } else if same_text(name, "MoldCasting") {
        Some(ManufacturingStage::MoldCasting)
    } else if same_text(name, "Drying") {
        Some(ManufacturingStage::Drying)
    } else if same_text(name, "Sintering") {
        Some(ManufacturingStage::Sintering)
    } else if same_text(name, "CncMachining") {
        Some(ManufacturingStage::CncMachining)
    } else if same_text(name, "Coating") {
        Some(ManufacturingStage::Coating)
    } else if same_text(name, "Bonding") {
        Some(ManufacturingStage::Bonding)
    } else if same_text(name, "Identification") {
        Some(ManufacturingStage::Identification)
    } else if same_text(name, "Testing") {
        Some(ManufacturingStage::Testing)
    } else if same_text(name, "Complete") {
        Some(ManufacturingStage::Complete)
    } else if same_text(name, "Rejected") {
        Some(ManufacturingStage::Rejected)
    } else {
        None
    }
}

/// Counts the steps by result, and names the stage of the last step.
pub fn summarize_manufacturing(steps: &[ManufacturingStep]) -> (s: ManufacturingSummary)
    ensures
        s.total_steps == steps@.len(),
        s.steps_completed == count_steps(step_models(steps@), 0),
        s.steps_with_warnings == count_steps(step_models(steps@), 1),
        s.steps_with_failures == count_steps(step_models(steps@), 2),
        s.final_stage == final_stage_of(step_models(steps@)),
{
    let ghost all = step_models(steps@);
    let mut completed: usize = 0;
    let mut warnings: usize = 0;
    let mut failures: usize = 0;
    let mut i: usize = 0;
    while i < steps.len()
        invariant
            i <= steps@.len(),
            all == step_models(steps@),
            completed <= i,
            warnings <= i,
            failures <= i,
            completed == count_steps(all.subrange(0, i as int), 0),
            warnings == count_steps(all.subrange(0, i as int), 1),
            failures == count_steps(all.subrange(0, i as int), 2),
        decreases steps@.len() - i,
    {
        assert(all.subrange(0, i + 1).drop_last() =~= all.subrange(0, i as int));
        assert(all.subrange(0, i + 1).last() == steps@[i as int]@);
        match &steps[i].result {
            StepResult::Success => {
                completed = completed + 1;
            },
            StepResult::Warning(_) => {
                warnings = warnings + 1;
            },
            StepResult::Failure(_) => {
                failures = failures + 1;
            },
        }
        i = i + 1;
    }
    assert(all.subrange(0, steps@.len() as int) =~= all);
    let final_stage = if steps.len() == 0 {
        ManufacturingStage::RawMaterial
    } else {
        assert(all.last() == steps@[steps@.len() - 1]@);
        match stage_from_name(&steps[steps.len() - 1].name) {
            Some(s) => s,
            None => ManufacturingStage::RawMaterial,
        }
    };
    ManufacturingSummary {
        total_steps: steps.len(),
        steps_completed: completed,
        steps_with_warnings: warnings,
        steps_with_failures: failures,
        final_stage,
    }
}

/// Law: every step is counted exactly once: as completed, as a warning or as a failure.
pub proof fn law_step_counts_add_up(steps: Seq<StepModel>)
    ensures
        count_steps(steps, 0) + count_steps(steps, 1) + count_steps(steps, 2) == steps.len(),
    decreases steps.len(),
{
    if steps.len() > 0 {
        law_step_counts_add_up(steps.drop_last());
    }
}

/// How many outcomes equal `o`.
pub open spec fn count_outcome(outcomes: Seq<TestOutcome>, o: TestOutcome) -> nat
    decreases outcomes.len(),
{
    if outcomes.len() == 0 {
        0
    } else {
        count_outcome(outcomes.drop_last(), o) + if outcomes.last() == o {
            1nat
        } else {
            0nat
        }
    }
}

/// Counts test outcomes: all of them, and how many passed, failed, or were inconclusive.
pub fn summarize_test_outcomes(outcomes: &[TestOutcome]) -> (c: TestCounts)
    ensures
        c.total_tests == outcomes@.len(),
        c.passed == count_outcome(outcomes@, TestOutcome::Pass),
        c.failed == count_outcome(outcomes@, TestOutcome::Fail),
        c.inconclusive == count_outcome(outcomes@, TestOutcome::Inconclusive),
{
    let mut passed: usize = 0;
    let mut failed: usize = 0;
    let mut inconclusive: usize = 0;
    let mut i: usize = 0;
    while i < outcomes.len()
        invariant
            i <= outcomes@.len(),
            passed <= i,
            failed <= i,
            inconclusive <= i,
            passed == count_outcome(outcomes@.subrange(0, i as int), TestOutcome::Pass),
            failed == count_outcome(outcomes@.subrange(0, i as int), TestOutcome::Fail),
            inconclusive == count_outcome(
                outcomes@.subrange(0, i as int),
                TestOutcome::Inconclusive,
            ),
        decreases outcomes@.len() - i,
    {
        assert(outcomes@.subrange(0, i + 1).drop_last() =~= outcomes@.subrange(0, i as int));
        match outcomes[i] {
            TestOutcome::Pass => {
                passed = passed + 1;
            },
            TestOutcome::Fail => {
                failed = failed + 1;
            },
            TestOutcome::Inconclusive => {
                inconclusive = inconclusive + 1;
            },
        }
        i = i + 1;
    }
    assert(outcomes@.subrange(0, outcomes@.len() as int) =~= outcomes@);
    TestCounts { total_tests: outcomes.len(), passed, failed, inconclusive }
}

/// Law: every test outcome is counted exactly once.
pub proof fn law_outcome_counts_add_up(outcomes: Seq<TestOutcome>)
    ensures
        count_outcome(outcomes, TestOutcome::Pass) + count_outcome(outcomes, TestOutcome::Fail)
            + count_outcome(outcomes, TestOutcome::Inconclusive) == outcomes.len(),
    decreases outcomes.len(),
{
    if outcomes.len() > 0 {
        law_outcome_counts_add_up(outcomes.drop_last());
    }
}

/// How many audits came out with the given status.
pub open spec fn count_status(audits: Seq<IdAuditResult>, st: AuditStatus) -> nat
    decreases audits.len(),
{
    if audits.len() == 0 {
        0
    } else {
        count_status(audits.drop_last(), st) + if audits.last().status == st {
            1nat
        } else {
            0nat
        }
    }
}

/// The findings of all audits, audit after audit.
pub open spec fn all_findings(audits: Seq<IdAuditResult>) -> Seq<FindingModel>
    decreases audits.len(),
{
    if audits.len() == 0 {
        Seq::empty()
    } else {
        all_findings(audits.drop_last()) + models(audits.last().findings@)
    }
}

fn copy_text(o: &Option<String>) -> (r: Option<String>)
    ensures
        crate::opt_view(r) == crate::opt_view(*o),
{
    match o {
        Some(s) => Some(s.clone()),
        None => None,
    }
}

fn copy_finding(f: &AuditFinding) -> (r: AuditFinding)
    ensures
        r@ == f@,
{
    AuditFinding {
        category: f.category,
        severity: f.severity,
        message: f.message.clone(),
        expected: copy_text(&f.expected),
        actual: copy_text(&f.actual),
    }
}

/// Counts the audits by status and gathers all their findings.
pub fn summarize_audits(audits: &[IdAuditResult]) -> (s: AuditSummary)
    ensures
        s.total_audits == audits@.len(),
        s.passed == count_status(audits@, AuditStatus::Pass),
        s.warned == count_status(audits@, AuditStatus::Warn),
        s.failed == count_status(audits@, AuditStatus::Fail),
        models(s.findings@) == all_findings(audits@),
{
    let mut passed: usize = 0;
    let mut warned: usize = 0;
    let mut failed: usize = 0;
    let mut findings: Vec<AuditFinding> = Vec::new();
    let mut i: usize = 0;
    while i < audits.len()
        invariant
            i <= audits@.len(),
            passed <= i,
            warned <= i,
            failed <= i,
            passed == count_status(audits@.subrange(0, i as int), AuditStatus::Pass),
            warned == count_status(audits@.subrange(0, i as int), AuditStatus::Warn),
            failed == count_status(audits@.subrange(0, i as int), AuditStatus::Fail),
            models(findings@) == all_findings(audits@.subrange(0, i as int)),
        decreases audits@.len() - i,
    {
        assert(audits@.subrange(0, i + 1).drop_last() =~= audits@.subrange(0, i as int));
        let audit = &audits[i];
        match audit.status {
            AuditStatus::Pass => {
                passed = passed + 1;
            },
            AuditStatus::Warn => {
                warned = warned + 1;
            },
            AuditStatus::Fail => {
                failed = failed + 1;
            },
        }
        let ghost before = models(findings@);
        let mut k: usize = 0;
        while k < audit.findings.len()
            invariant
                k <= audit.findings@.len(),
                models(findings@) == before + models(audit.findings@).subrange(0, k as int),
            decreases audit.findings@.len() - k,
        {
            let ghost prev = findings@;
            findings.push(copy_finding(&audit.findings[k]));
            assert(models(findings@) =~= models(prev).push(audit.findings@[k as int]@));
            assert(models(audit.findings@).subrange(0, k + 1) =~= models(audit.findings@).subrange(
                0,
                k as int,
            ).push(audit.findings@[k as int]@));
            k = k + 1;
            assert(models(findings@) =~= before + models(audit.findings@).subrange(0, k as int));
        }
        assert(models(audit.findings@).subrange(0, audit.findings@.len() as int) =~= models(
            audit.findings@,
        ));
        i = i + 1;
    }
    assert(audits@.subrange(0, audits@.len() as int) =~= audits@);
    AuditSummary { total_audits: audits.len(), passed, warned, failed, findings }
}

/// Law: every audit is counted exactly once, as passed, warned or failed.
pub proof fn law_audit_counts_add_up(audits: Seq<IdAuditResult>)
    ensures
        count_status(audits, AuditStatus::Pass) + count_status(audits, AuditStatus::Warn)
            + count_status(audits, AuditStatus::Fail) == audits.len(),
    decreases audits.len(),
{
    if audits.len() > 0 {
        law_audit_counts_add_up(audits.drop_last());
    }
}

/// Service cycles a tile has left in a degradation state.
pub open spec fn service_life(d: DegradationState) -> u32 {
    match d {
        DegradationState::Nominal => 1000,
        DegradationState::Slight => 1000,
        DegradationState::Moderate => 500,
        DegradationState::Severe => 200,
        DegradationState::Failed => 0,
    }
}

/// The estimated service life, in cycles, of a tile in a degradation state.
pub fn estimated_service_life_cycles(d: DegradationState) -> (n: u32)
    ensures
        n == service_life(d),
{
    match d {
        DegradationState::Nominal | DegradationState::Slight => 1000,
        DegradationState::Moderate => 500,
        DegradationState::Severe => 200,
        DegradationState::Failed => 0,
    }
}

/// Some defect has the given severity.
pub open spec fn has_defect(defects: Seq<Defect>, sev: DefectSeverity) -> bool {
    exists|i: int| 0 <= i < defects.len() && #[trigger] defects[i].severity == sev
}

/// The verdict on a tile: rejected on any test failure, audit failure or critical defect;
/// pending when nothing has been tested, audited or manufactured; accepted with notes on an
/// inconclusive test, an audit warning or a minor or major defect; accepted otherwise.
pub open spec fn overall_status(
    tests: TestCounts,
    audits: AuditSummary,
    manufacturing: ManufacturingSummary,
    defects: Seq<Defect>,
) -> OverallStatus {
    if tests.failed > 0 || audits.failed > 0 || has_defect(defects, DefectSeverity::Critical) {
        OverallStatus::Rejected
    } else if tests.total_tests == 0 && audits.total_audits == 0 && manufacturing.total_steps
        == 0 {
        OverallStatus::Pending
    } else if tests.inconclusive > 0 || audits.warned > 0 || has_defect(
        defects,
        DefectSeverity::Minor,
    ) || has_defect(defects, DefectSeverity::Major) {
        OverallStatus::AcceptedWithNotes
    } else {
        OverallStatus::Accepted
    }
}

fn has_defect_exec(defects: &[Defect], sev: DefectSeverity) -> (b: bool)
    ensures
        b == has_defect(defects@, sev),
{
    let mut i: usize = 0;
    while i < defects.len()
        invariant
            i <= defects@.len(),
            forall|j: int| 0 <= j < i ==> defects@[j].severity != sev,
        decreases defects@.len() - i,
    {
        if defects[i].severity == sev {
            assert(defects@[i as int].severity == sev);
            return true;
        }
        i = i + 1;
    }
    false
}

/// Decides the verdict on a tile from its test counts, audit summary, manufacturing summary
/// and defects (see `overall_status`).
pub fn determine_overall_status(
    tests: &TestCounts,
    audits: &AuditSummary,
    manufacturing: &ManufacturingSummary,
    defects: &[Defect],
) -> (s: OverallStatus)
    ensures
        s == overall_status(*tests, *audits, *manufacturing, defects@),
{
    let has_test_failures = tests.failed > 0;
    let has_audit_failures = audits.failed > 0;
    let has_critical_defects = has_defect_exec(defects, DefectSeverity::Critical);
    if has_test_failures || has_audit_failures || has_critical_defects {
        return OverallStatus::Rejected;
    }
    let is_incomplete = tests.total_tests == 0 && audits.total_audits == 0
        && manufacturing.total_steps == 0;
    if is_incomplete {
        return OverallStatus::Pending;
    }
    let has_warnings = tests.inconclusive > 0 || audits.warned > 0 || has_defect_exec(
        defects,
        DefectSeverity::Minor,
    ) || has_defect_exec(defects, DefectSeverity::Major);
    if has_warnings {
        OverallStatus::AcceptedWithNotes
    } else {
        OverallStatus::Accepted
    }
}

/// Law: a failed test, a failed audit or a critical defect rejects a tile whatever else its
/// report holds; and a tile is only accepted outright when nothing failed, warned or was
/// inconclusive and it has no defect of any severity.
pub proof fn law_failures_reject(
    tests: TestCounts,
    audits: AuditSummary,
    manufacturing: ManufacturingSummary,
    defects: Seq<Defect>,
)
    ensures
        (tests.failed > 0 || audits.failed > 0 || has_defect(defects, DefectSeverity::Critical))
            ==> overall_status(tests, audits, manufacturing, defects) == OverallStatus::Rejected,
        overall_status(tests, audits, manufacturing, defects) == OverallStatus::Accepted ==> {
            &&& tests.failed == 0 && tests.inconclusive == 0
            &&& audits.failed == 0 && audits.warned == 0
            &&& forall|i: int| 0 <= i < defects.len() ==> #[trigger] defects[i].severity != DefectSeverity::Minor
                && defects[i].severity != DefectSeverity::Major && defects[i].severity
                != DefectSeverity::Critical
        },
{
    if overall_status(tests, audits, manufacturing, defects) == OverallStatus::Accepted {
        assert forall|i: int| 0 <= i < defects.len() implies #[trigger] defects[i].severity
            != DefectSeverity::Minor && defects[i].severity != DefectSeverity::Major
            && defects[i].severity != DefectSeverity::Critical by {
            if defects[i].severity == DefectSeverity::Minor {
                assert(has_defect(defects, DefectSeverity::Minor));
            }
            if defects[i].severity == DefectSeverity::Major {
                assert(has_defect(defects, DefectSeverity::Major));
            }
            if defects[i].severity == DefectSeverity::Critical {
                assert(has_defect(defects, DefectSeverity::Critical));
            }
        }
    }
}

/// Law: a tile is rejected exactly when a test failed, an audit failed or some defect is
/// critical; it is pending exactly when none of these holds and nothing was tested, audited
/// or manufactured; otherwise a minor or major defect makes it accepted with notes, and it is
/// accepted outright exactly when no test was inconclusive, no audit warned and no defect is
/// minor or major.
pub proof fn law_only_failures_reject(
    tests: TestCounts,
    audits: AuditSummary,
    manufacturing: ManufacturingSummary,
    defects: Seq<Defect>,
)
    ensures
        overall_status(tests, audits, manufacturing, defects) == OverallStatus::Rejected <==> (
        tests.failed > 0 || audits.failed > 0 || exists|i: int|
            0 <= i < defects.len() && #[trigger] defects[i].severity == DefectSeverity::Critical),
        overall_status(tests, audits, manufacturing, defects) == OverallStatus::Pending <==> (
        overall_status(tests, audits, manufacturing, defects) != OverallStatus::Rejected
            && tests.total_tests == 0 && audits.total_audits == 0 && manufacturing.total_steps
            == 0),
        ({
            &&& overall_status(tests, audits, manufacturing, defects) != OverallStatus::Rejected
            &&& overall_status(tests, audits, manufacturing, defects) != OverallStatus::Pending
            &&& exists|i: int|
                0 <= i < defects.len() && (#[trigger] defects[i].severity == DefectSeverity::Minor
                    || defects[i].severity == DefectSeverity::Major)
        }) ==> overall_status(tests, audits, manufacturing, defects)
            == OverallStatus::AcceptedWithNotes,
        overall_status(tests, audits, manufacturing, defects) == OverallStatus::Accepted <==> ({
            &&& overall_status(tests, audits, manufacturing, defects) != OverallStatus::Rejected
            &&& overall_status(tests, audits, manufacturing, defects) != OverallStatus::Pending
            &&& tests.inconclusive == 0
            &&& audits.warned == 0
            &&& forall|i: int|
                0 <= i < defects.len() ==> #[trigger] defects[i].severity
                    != DefectSeverity::Minor && defects[i].severity != DefectSeverity::Major
        }),
{
    if exists|i: int|
        0 <= i < defects.len() && (#[trigger] defects[i].severity == DefectSeverity::Minor
            || defects[i].severity == DefectSeverity::Major) {
        let i = choose|i: int|
            0 <= i < defects.len() && (#[trigger] defects[i].severity == DefectSeverity::Minor
                || defects[i].severity == DefectSeverity::Major);
        if defects[i].severity == DefectSeverity::Minor {
            assert(has_defect(defects, DefectSeverity::Minor));
        } else {
            assert(has_defect(defects, DefectSeverity::Major));
        }
    }
    law_failures_reject(tests, audits, manufacturing, defects);
}

// ---------------------------------------------------------------------------------------------
// Report text
// ---------------------------------------------------------------------------------------------

pub open spec fn or_na(o: Option<String>) -> Seq<char> {
    match o {
        Some(s) => s@,
        None => "N/A"@,
    }
}

pub open spec fn location_text(l: Option<TileLocation>) -> Seq<char> {
    match l {
        Some(l) => l.orbiter_id@ + " "@ + surface_display(l.surface@),
        None => "N/A"@,
    }
}

pub open spec fn degradation_debug(d: DegradationState) -> Seq<char> {
    match d {
        DegradationState::Nominal => "Nominal"@,
        DegradationState::Slight => "Slight"@,
        DegradationState::Moderate => "Moderate"@,
        DegradationState::Severe => "Severe"@,
        DegradationState::Failed => "Failed"@,
    }
}

pub open spec fn severity_debug(s: DefectSeverity) -> Seq<char> {
    match s {
        DefectSeverity::Minor => "Minor"@,
        DefectSeverity::Major => "Major"@,
        DefectSeverity::Critical => "Critical"@,
    }
}

pub open spec fn category_debug(c: DefectCategory) -> Seq<char> {
    match c {
        DefectCategory::Material => "Material"@,
        DefectCategory::Geometry => "Geometry"@,
        DefectCategory::Coating => "Coating"@,
        DefectCategory::Bonding => "Bonding"@,
        DefectCategory::Identification => "Identification"@,
        DefectCategory::Thermal => "Thermal"@,
        DefectCategory::Mechanical => "Mechanical"@,
    }
}

pub open spec fn status_text(s: OverallStatus) -> Seq<char> {
    match s {
        OverallStatus::Accepted => "Accepted"@,
        OverallStatus::AcceptedWithNotes => "AcceptedWithNotes"@,
        OverallStatus::Rejected => "Rejected"@,
        OverallStatus::Pending => "Pending"@,
    }
}

/// The title and the identity of the tile.
pub open spec fn head_lines(r: ReportOverview) -> Seq<Seq<char>> {
    seq![
        "=== TILE REPORT ==="@,
        "Tile ID: "@ + or_na(r.tile_id),
        "Batch: "@ + or_na(r.batch_code),
        "Location: "@ + location_text(r.location),
    ]
}

pub open spec fn manufacturing_lines(r: ReportOverview) -> Seq<Seq<char>> {
    let m = r.manufacturing_summary;
    seq![
        Seq::empty(),
        "--- Manufacturing Summary ---"@,
        "Total Steps: "@ + decimal(m.total_steps as nat),
        "Completed: "@ + decimal(m.steps_completed as nat),
        "Warnings: "@ + decimal(m.steps_with_warnings as nat),
        "Failures: "@ + decimal(m.steps_with_failures as nat),
        "Final Stage: "@ + stage_debug(m.final_stage),
    ]
}

pub open spec fn test_lines(r: ReportOverview) -> Seq<Seq<char>> {
    let t = r.test_counts;
    seq![
        Seq::empty(),
        "--- Test Summary ---"@,
        "Total Tests: "@ + decimal(t.total_tests as nat),
        "Passed: "@ + decimal(t.passed as nat),
        "Failed: "@ + decimal(t.failed as nat),
        "Inconclusive: "@ + decimal(t.inconclusive as nat),
    ]
}

pub open spec fn audit_lines(r: ReportOverview) -> Seq<Seq<char>> {
    let a = r.audit_summary;
    seq![
        Seq::empty(),
        "--- Audit Summary ---"@,
        "Total Audits: "@ + decimal(a.total_audits as nat),
        "Passed: "@ + decimal(a.passed as nat),
        "Warned: "@ + decimal(a.warned as nat),
        "Failed: "@ + decimal(a.failed as nat),
    ]
}

pub open spec fn simulation_lines(s: SimulationOverview) -> Seq<Seq<char>> {
    seq![Seq::empty(), "--- Simulation Summary ---"@] + if s.cycles_simulated > 0 {
        seq![
            "Cycles Simulated: "@ + decimal(s.cycles_simulated as nat),
            "Final Degradation: "@ + degradation_debug(s.final_degradation),
            "Coating Wear: "@ + s.coating_wear_percent@ + "%"@,
            "Max Temp: "@ + s.max_temp_seen_c@ + " C"@,
            "Est. Service Life: "@ + decimal(s.estimated_service_life_cycles as nat) + " cycles"@,
        ]
    } else {
        seq!["No simulation data"@]
    }
}

pub open spec fn defect_line(d: Defect) -> Seq<char> {
    "- "@ + severity_debug(d.severity) + " ("@ + category_debug(d.category) + "): "@
        + d.description@
}

pub open spec fn defect_lines(defects: Seq<Defect>) -> Seq<Seq<char>> {
    seq![Seq::empty(), "--- Defects ---"@] + if defects.len() == 0 {
        seq!["No defects reported"@]
    } else {
        defects.map_values(|d: Defect| defect_line(d))
    }
}

/// The lines of a report's text, in order.
pub open spec fn report_lines(r: ReportOverview) -> Seq<Seq<char>> {
    head_lines(r) + manufacturing_lines(r) + test_lines(r) + audit_lines(r) + simulation_lines(
        r.simulation,
    ) + defect_lines(r.defects@) + seq![Seq::empty(), "Overall Status: "@ + status_text(r.overall_status)]
}

/// The views of a list of lines.
pub open spec fn line_views(v: Seq<Vec<char>>) -> Seq<Seq<char>> {
    v.map_values(|l: Vec<char>| l@)
}

fn add_line(lines: &mut Vec<Vec<char>>, label: &str, value: &[char])
    ensures
        line_views(final(lines)@) == line_views(old(lines)@).push(label@ + value@),
{
    let mut l = chars_of(label);
    let mut k: usize = 0;
    while k < value.len()
        invariant
            k <= value@.len(),
            l@ == label@ + value@.subrange(0, k as int),
        decreases value@.len() - k,
    {
        l.push(value[k]);
        k = k + 1;
        assert(l@ =~= label@ + value@.subrange(0, k as int));
    }
    assert(value@.subrange(0, value@.len() as int) =~= value@);
    lines.push(l);
    assert(line_views(lines@) =~= line_views(old(lines)@).push(label@ + value@));
}

fn add_number(lines: &mut Vec<Vec<char>>, label: &str, n: u64)
    ensures
        line_views(final(lines)@) == line_views(old(lines)@).push(label@ + decimal(n as nat)),
{
    let d = decimal_exec(n);
    add_line(lines, label, d.as_slice());
}

fn add_text(lines: &mut Vec<Vec<char>>, text: &str)
    ensures
        line_views(final(lines)@) == line_views(old(lines)@).push(text@),
{
    let empty: Vec<char> = Vec::new();
    add_line(lines, text, empty.as_slice());
    assert(text@ + empty@ =~= text@);
}

fn add_blank(lines: &mut Vec<Vec<char>>)
    ensures
        line_views(final(lines)@) == line_views(old(lines)@).push(Seq::<char>::empty()),
{
    let empty: Vec<char> = Vec::new();
    lines.push(empty);
    assert(line_views(final(lines)@) =~= line_views(old(lines)@).push(Seq::<char>::empty()));
}

fn or_na_exec(o: &Option<String>) -> (r: Vec<char>)
    ensures
        r@ == or_na(*o),
{
    match o {
        Some(s) => chars_of(s.as_str()),
        None => chars_of("N/A"),
    }
}

fn location_text_exec(l: &Option<TileLocation>) -> (r: Vec<char>)
    ensures
        r@ == location_text(*l),
{
    match l {
        Some(l) => {
            let mut v = chars_of(l.orbiter_id.as_str());
            v.push(' ');
            push_surface_display(&mut v, &l.surface);
            assert(v@ =~= l.orbiter_id@ + " "@ + surface_display(l.surface@)) by {
                reveal_strlit(" ");
            }
            v
        },
        None => chars_of("N/A"),
    }
}

fn degradation_text(d: DegradationState) -> (s: &'static str)
    ensures
        s@ == degradation_debug(d),
{
    match d {
        DegradationState::Nominal => "Nominal",
        DegradationState::Slight => "Slight",
        DegradationState::Moderate => "Moderate",
        DegradationState::Severe => "Severe",
        DegradationState::Failed => "Failed",
    }
}

fn severity_text(s: DefectSeverity) -> (t: &'static str)
    ensures
        t@ == severity_debug(s),
{
    match s {
        DefectSeverity::Minor => "Minor",
        DefectSeverity::Major => "Major",
        DefectSeverity::Critical => "Critical",
    }
}

fn category_text(c: DefectCategory) -> (t: &'static str)
    ensures
        t@ == category_debug(c),
{
    match c {
        DefectCategory::Material => "Material",
        DefectCategory::Geometry => "Geometry",
        DefectCategory::Coating => "Coating",
        DefectCategory::Bonding => "Bonding",
        DefectCategory::Identification => "Identification",
        DefectCategory::Thermal => "Thermal",
        DefectCategory::Mechanical => "Mechanical",
    }
}

fn overall_text(s: OverallStatus) -> (t: &'static str)
    ensures
        t@ == status_text(s),
{
    match s {
        OverallStatus::Accepted => "Accepted",
        OverallStatus::AcceptedWithNotes => "AcceptedWithNotes",
        OverallStatus::Rejected => "Rejected",
        OverallStatus::Pending => "Pending",
    }
}

fn stage_text(s: ManufacturingStage) -> (t: &'static str)
    ensures
        t@ == stage_debug(s),
{
    match s {
        ManufacturingStage::RawMaterial => "RawMaterial",
        ManufacturingStage::SlurryFormation => "SlurryFormation",
        ManufacturingStage::MoldCasting => "MoldCasting",
        ManufacturingStage::Drying => "Drying",
        ManufacturingStage::Sintering => "Sintering",
        ManufacturingStage::CncMachining => "CncMachining",
        ManufacturingStage::Coating => "Coating",
        ManufacturingStage::Bonding => "Bonding",
        ManufacturingStage::Identification => "Identification",
        ManufacturingStage::Testing => "Testing",
        ManufacturingStage::Complete => "Complete",
        ManufacturingStage::Rejected => "Rejected",
    }
}

fn head_section(r: &ReportOverview) -> (v: Vec<Vec<char>>)
    ensures
        line_views(v@) == head_lines(*r),
{
    let mut v: Vec<Vec<char>> = Vec::new();
    add_text(&mut v, "=== TILE REPORT ===");
    let id = or_na_exec(&r.tile_id);
    add_line(&mut v, "Tile ID: ", id.as_slice());
    let batch = or_na_exec(&r.batch_code);
    add_line(&mut v, "Batch: ", batch.as_slice());
    let loc = location_text_exec(&r.location);
    add_line(&mut v, "Location: ", loc.as_slice());
    assert(line_views(v@) =~= head_lines(*r));
    v
}

fn manufacturing_section(r: &ReportOverview) -> (v: Vec<Vec<char>>)
    ensures
        line_views(v@) == manufacturing_lines(*r),
{
    let m = &r.manufacturing_summary;
    let mut v: Vec<Vec<char>> = Vec::new();
    add_blank(&mut v);
    add_text(&mut v, "--- Manufacturing Summary ---");
    add_number(&mut v, "Total Steps: ", m.total_steps as u64);
    add_number(&mut v, "Completed: ", m.steps_completed as u64);
    add_number(&mut v, "Warnings: ", m.steps_with_warnings as u64);
    add_number(&mut v, "Failures: ", m.steps_with_failures as u64);
    let stage = chars_of(stage_text(m.final_stage));
    add_line(&mut v, "Final Stage: ", stage.as_slice());
    assert(line_views(v@) =~= manufacturing_lines(*r));
    v
}

fn test_section(r: &ReportOverview) -> (v: Vec<Vec<char>>)
    ensures
        line_views(v@) == test_lines(*r),
{
    let t = &r.test_counts;
    let mut v: Vec<Vec<char>> = Vec::new();
    add_blank(&mut v);
    add_text(&mut v, "--- Test Summary ---");
    add_number(&mut v, "Total Tests: ", t.total_tests as u64);
    add_number(&mut v, "Passed: ", t.passed as u64);
    add_number(&mut v, "Failed: ", t.failed as u64);
    add_number(&mut v, "Inconclusive: ", t.inconclusive as u64);
    assert(line_views(v@) =~= test_lines(*r));
    v
}

fn audit_section(r: &ReportOverview) -> (v: Vec<Vec<char>>)
    ensures
        line_views(v@) == audit_lines(*r),
{
    let a = &r.audit_summary;
    let mut v: Vec<Vec<char>> = Vec::new();
    add_blank(&mut v);
    add_text(&mut v, "--- Audit Summary ---");
    add_number(&mut v, "Total Audits: ", a.total_audits as u64);
    add_number(&mut v, "Passed: ", a.passed as u64);
    add_number(&mut v, "Warned: ", a.warned as u64);
    add_number(&mut v, "Failed: ", a.failed as u64);
    assert(line_views(v@) =~= audit_lines(*r));
    v
}

fn simulation_section(s: &SimulationOverview) -> (v: Vec<Vec<char>>)
    ensures
        line_views(v@) == simulation_lines(*s),
{
    let mut v: Vec<Vec<char>> = Vec::new();
    add_blank(&mut v);
    add_text(&mut v, "--- Simulation Summary ---");
    if s.cycles_simulated > 0 {
        add_number(&mut v, "Cycles Simulated: ", s.cycles_simulated as u64);
        let d = chars_of(degradation_text(s.final_degradation));
        add_line(&mut v, "Final Degradation: ", d.as_slice());
        let mut wear = chars_of(s.coating_wear_percent.as_str());
        wear.push('%');
        add_line(&mut v, "Coating Wear: ", wear.as_slice());
        let mut temp = chars_of(s.max_temp_seen_c.as_str());
        temp.push(' ');
        temp.push('C');
        add_line(&mut v, "Max Temp: ", temp.as_slice());
        let mut life = decimal_exec(s.estimated_service_life_cycles as u64);
        let mut unit = chars_of(" cycles");
        life.append(&mut unit);
        add_line(&mut v, "Est. Service Life: ", life.as_slice());
        proof {
            reveal_strlit("%");
            reveal_strlit(" C");
            assert("Coating Wear: "@ + wear@ =~= "Coating Wear: "@ + s.coating_wear_percent@ + "%"@);
            assert("Max Temp: "@ + temp@ =~= "Max Temp: "@ + s.max_temp_seen_c@ + " C"@);
            assert("Est. Service Life: "@ + life@ =~= "Est. Service Life: "@ + decimal(
                s.estimated_service_life_cycles as nat,
            ) + " cycles"@);
        }
        assert(line_views(v@) =~= simulation_lines(*s));
    } else {
        add_text(&mut v, "No simulation data");
        assert(line_views(v@) =~= simulation_lines(*s));
    }
    v
}

fn defect_section(defects: &Vec<Defect>) -> (v: Vec<Vec<char>>)
    ensures
        line_views(v@) == defect_lines(defects@),
{
    let mut v: Vec<Vec<char>> = Vec::new();
    add_blank(&mut v);
    add_text(&mut v, "--- Defects ---");
    if defects.len() == 0 {
        add_text(&mut v, "No defects reported");
        assert(line_views(v@) =~= defect_lines(defects@));
    } else {
        let ghost head = line_views(v@);
        let mut i: usize = 0;
        while i < defects.len()
            invariant
                i <= defects@.len(),
                head == seq![Seq::<char>::empty(), "--- Defects ---"@],
                line_views(v@) == head + defects@.subrange(0, i as int).map_values(
                    |d: Defect| defect_line(d),
                ),
            decreases defects@.len() - i,
        {
            let d = &defects[i];
            let mut l = chars_of(severity_text(d.severity));
            let mut open = chars_of(" (");
            l.append(&mut open);
            let mut cat = chars_of(category_text(d.category));
            l.append(&mut cat);
            let mut close = chars_of("): ");
            l.append(&mut close);
            let mut desc = chars_of(d.description.as_str());
            l.append(&mut desc);
            add_line(&mut v, "- ", l.as_slice());
            assert("- "@ + l@ =~= defect_line(*d));
            assert(defects@.subrange(0, i + 1).map_values(|d: Defect| defect_line(d))
                =~= defects@.subrange(0, i as int).map_values(|d: Defect| defect_line(d)).push(
                defect_line(defects@[i as int]),
            ));
            i = i + 1;
        }
        assert(defects@.subrange(0, defects@.len() as int) =~= defects@);
        assert(line_views(v@) =~= defect_lines(defects@));
    }
    v
}

fn append_lines(all: &mut Vec<Vec<char>>, more: Vec<Vec<char>>)
    ensures
        line_views(final(all)@) == line_views(old(all)@) + line_views(more@),
{
    let mut m = more;
    all.append(&mut m);
    assert(line_views(final(all)@) =~= line_views(old(all)@) + line_views(more@));
}

/// The text of a report: its lines (see `report_lines`) joined by newlines.
pub fn format_report_text(report: &ReportOverview) -> (s: String)
    ensures
        s@ == join(report_lines(*report), "\n"@),
{
    let mut lines = head_section(report);
    append_lines(&mut lines, manufacturing_section(report));
    append_lines(&mut lines, test_section(report));
    append_lines(&mut lines, audit_section(report));
    append_lines(&mut lines, simulation_section(&report.simulation));
    append_lines(&mut lines, defect_section(&report.defects));
    add_blank(&mut lines);
    let status = chars_of(overall_text(report.overall_status));
    add_line(&mut lines, "Overall Status: ", status.as_slice());
    assert(line_views(lines@) =~= report_lines(*report));
    let newline = chars_of("\n");
    let text = join_exec(&lines, newline.as_slice());
    string_from_chars(text.as_slice())
}

/// Law: the report text lists, line by line, the title and the tile's identifier, the
/// manufacturing counts, the test counts (total, passed, failed, inconclusive) and the audit
/// counts (total, passed, warned, failed) each under its own heading, and ends with the
/// overall status.
pub proof fn law_report_lines_show_counts(r: ReportOverview)
    ensures
        ({
            let lines = report_lines(r);
            let m = r.manufacturing_summary;
            let t = r.test_counts;
            let a = r.audit_summary;
            &&& lines.len() >= 23
            &&& lines[0] == "=== TILE REPORT ==="@
            &&& lines[1] == "Tile ID: "@ + or_na(r.tile_id)
            &&& lines[5] == "--- Manufacturing Summary ---"@
            &&& lines[6] == "Total Steps: "@ + decimal(m.total_steps as nat)
            &&& lines[7] == "Completed: "@ + decimal(m.steps_completed as nat)
            &&& lines[8] == "Warnings: "@ + decimal(m.steps_with_warnings as nat)
            &&& lines[9] == "Failures: "@ + decimal(m.steps_with_failures as nat)
            &&& lines[12] == "--- Test Summary ---"@
            &&& lines[13] == "Total Tests: "@ + decimal(t.total_tests as nat)
            &&& lines[14] == "Passed: "@ + decimal(t.passed as nat)
            &&& lines[15] == "Failed: "@ + decimal(t.failed as nat)
            &&& lines[16] == "Inconclusive: "@ + decimal(t.inconclusive as nat)
            &&& lines[18] == "--- Audit Summary ---"@
            &&& lines[19] == "Total Audits: "@ + decimal(a.total_audits as nat)
            &&& lines[20] == "Passed: "@ + decimal(a.passed as nat)
            &&& lines[21] == "Warned: "@ + decimal(a.warned as nat)
            &&& lines[22] == "Failed: "@ + decimal(a.failed as nat)
            &&& lines.last() == "Overall Status: "@ + status_text(r.overall_status)
        }),
{
    let front = head_lines(r) + manufacturing_lines(r) + test_lines(r) + audit_lines(r);
    assert(front.len() == 23);
    let lines = report_lines(r);
    assert(lines == front + simulation_lines(r.simulation) + defect_lines(r.defects@) + seq![
        Seq::empty(),
        "Overall Status: "@ + status_text(r.overall_status),
    ]);
    assert(forall|k: int| 0 <= k < 23 ==> lines[k] == #[trigger] front[k]);
}

} // verus!
