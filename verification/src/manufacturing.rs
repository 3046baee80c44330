//! The manufacturing pipeline: the fixed order of stages a tile goes through, the steps
//! recorded as it does, and the components each stage needs before it can run.
use vstd::prelude::*;
use crate::identification::{
    alphanumerics, copy_id, generate_id, generated_id, generation_ok, to_machine_readable,
};
use crate::text::{chars_of, string_from_chars};
use crate::{
    AppliedId, ManufacturingStage, ManufacturingStep, StepModel, StepResult, ResultModel,
    TileBatch, TileError, TileLocation, TileState,
};
use std::collections::HashMap;

verus! {

/// The stages of manufacture, in order; `Rejected` is not among them.
pub open spec fn standard_stages() -> Seq<ManufacturingStage> {
    seq![
        ManufacturingStage::RawMaterial,
        ManufacturingStage::SlurryFormation,
        ManufacturingStage::MoldCasting,
        ManufacturingStage::Drying,
        ManufacturingStage::Sintering,
        ManufacturingStage::CncMachining,
        ManufacturingStage::Coating,
        ManufacturingStage::Bonding,
        ManufacturingStage::Identification,
        ManufacturingStage::Testing,
        ManufacturingStage::Complete,
    ]
}

/// Index of the first occurrence of `x` in `s`.
pub open spec fn first_position(s: Seq<ManufacturingStage>, x: ManufacturingStage) -> Option<int>
    decreases s.len(),
{
    if s.len() == 0 {
        None
    } else if s[0] == x {
        Some(0)
    } else {
        match first_position(s.drop_first(), x) {
            Some(i) => Some(i + 1),
            None => None,
        }
    }
}

/// The stage after the first occurrence of `x` in `s`, if there is one.
pub open spec fn next_after(s: Seq<ManufacturingStage>, x: ManufacturingStage) -> Option<
    ManufacturingStage,
> {
    match first_position(s, x) {
        Some(i) => if i + 1 < s.len() {
            Some(s[i + 1])
        } else {
            None
        },
        None => None,
    }
}

proof fn lemma_first_position(s: Seq<ManufacturingStage>, x: ManufacturingStage, i: int)
    requires
        0 <= i <= s.len(),
        forall|j: int| 0 <= j < i ==> s[j] != x,
    ensures
        i < s.len() && s[i] == x ==> first_position(s, x) == Some(i),
        i == s.len() ==> first_position(s, x) is None,
    decreases i,
{
    if i > 0 {
        lemma_first_position(s.drop_first(), x, i - 1);
    }
}

/// The stage index after one `advance_stage` on a pipeline of `len` stages: the next index,
/// or the same one at the last stage, where advancing fails.
pub open spec fn advanced_index(len: int, idx: int) -> int {
    if idx >= len - 1 {
        idx
    } else {
        idx + 1
    }
}

/// The stage index after `k` calls of `advance_stage`, starting from `idx`.
pub open spec fn advanced_times(len: int, idx: int, k: nat) -> int
    decreases k,
{
    if k == 0 {
        idx
    } else {
        advanced_times(len, advanced_index(len, idx), (k - 1) as nat)
    }
}

proof fn lemma_advanced_times(len: int, idx: int, k: nat)
    requires
        0 <= idx,
        idx + k <= len - 1,
    ensures
        advanced_times(len, idx, k) == idx + k,
    decreases k,
{
    if k > 0 {
        lemma_advanced_times(len, idx + 1, (k - 1) as nat);
    }
}

/// Law: from `new()`, each of the first ten calls of `advance_stage` succeeds, and after `k`
/// of them (`k <= 10`) the current stage is the `k`-th of the standard order: `RawMaterial`
/// after none, `SlurryFormation` after one, and so on up to `Complete` after ten, where a
/// further call fails and leaves the pipeline where it is.
pub proof fn law_advancing_from_new(k: nat)
    requires
        k <= 10,
    ensures
        advanced_times(standard_stages().len() as int, 0, k) == k,
        forall|j: int|
            0 <= j < k ==> #[trigger] advanced_index(standard_stages().len() as int, j) == j + 1,
        k == 0 ==> standard_stages()[k as int] == ManufacturingStage::RawMaterial,
        k == 1 ==> standard_stages()[k as int] == ManufacturingStage::SlurryFormation,
        k == 4 ==> standard_stages()[k as int] == ManufacturingStage::Sintering,
        k == 9 ==> standard_stages()[k as int] == ManufacturingStage::Testing,
        k == 10 ==> standard_stages()[k as int] == ManufacturingStage::Complete,
        k == 10 ==> advanced_index(standard_stages().len() as int, 10) == 10,
{
    lemma_advanced_times(standard_stages().len() as int, 0, k);
}

/// The sequence of stages a tile goes through and how far it has got.
pub struct ManufacturingPipeline {
    pub stages: Vec<ManufacturingStage>,
    pub current_stage_index: usize,
}

impl ManufacturingPipeline {
    /// The standard pipeline, at its first stage.
    pub fn new() -> (p: Self)
        ensures
            p.stages@ == standard_stages(),
            p.current_stage_index == 0,
    {
        let mut stages: Vec<ManufacturingStage> = Vec::new();
        stages.push(ManufacturingStage::RawMaterial);
        stages.push(ManufacturingStage::SlurryFormation);
        stages.push(ManufacturingStage::MoldCasting);
        stages.push(ManufacturingStage::Drying);
        stages.push(ManufacturingStage::Sintering);
        stages.push(ManufacturingStage::CncMachining);
        stages.push(ManufacturingStage::Coating);
        stages.push(ManufacturingStage::Bonding);
        stages.push(ManufacturingStage::Identification);
        stages.push(ManufacturingStage::Testing);
        stages.push(ManufacturingStage::Complete);
        assert(stages@ =~= standard_stages());
        ManufacturingPipeline { stages, current_stage_index: 0 }
    }

    /// The stage the pipeline is at.
    pub fn current_stage(&self) -> (s: ManufacturingStage)
        requires
            self.current_stage_index < self.stages@.len(),
        ensures
            s == self.stages@[self.current_stage_index as int],
    {
        self.stages[self.current_stage_index]
    }

    /// Moves to the next stage and returns it; fails when the pipeline is at its last stage.
    pub fn advance_stage(&mut self) -> (r: Result<ManufacturingStage, TileError>)
        requires
            old(self).stages@.len() >= 1,
        ensures
            final(self).stages == old(self).stages,
            old(self).current_stage_index >= old(self).stages@.len() - 1 ==> {
                &&& r matches Err(TileError::ManufacturingError(m))
                &&& m@ == "Pipeline is already complete"@
                &&& final(self).current_stage_index == old(self).current_stage_index
            },
            old(self).current_stage_index < old(self).stages@.len() - 1 ==> {
                &&& r == Ok::<ManufacturingStage, TileError>(
                    old(self).stages@[old(self).current_stage_index + 1],
                )
                &&& final(self).current_stage_index == old(self).current_stage_index + 1
            },
            final(self).current_stage_index == advanced_index(
                old(self).stages@.len() as int,
                old(self).current_stage_index as int,
            ),
    {
        if self.current_stage_index >= self.stages.len() - 1 {
            return Err(TileError::ManufacturingError(String::from_str("Pipeline is already complete")));
        }
        self.current_stage_index = self.current_stage_index + 1;
        Ok(self.stages[self.current_stage_index])
    }

    /// Whether the pipeline is at its last stage.
    pub fn is_complete(&self) -> (b: bool)
        requires
            self.stages@.len() >= 1,
        ensures
            b == (self.current_stage_index == self.stages@.len() - 1),
    {
        self.current_stage_index == self.stages.len() - 1
    }

    /// The stages before the current one.
    pub fn stages_completed(&self) -> (v: Vec<ManufacturingStage>)
        requires
            self.current_stage_index <= self.stages@.len(),
        ensures
            v@ == self.stages@.subrange(0, self.current_stage_index as int),
    {
        let mut v: Vec<ManufacturingStage> = Vec::new();
        let mut i: usize = 0;
        while i < self.current_stage_index
            invariant
                i <= self.current_stage_index,
                self.current_stage_index <= self.stages@.len(),
                v@ == self.stages@.subrange(0, i as int),
            decreases self.current_stage_index - i,
        {
            v.push(self.stages[i]);
            i = i + 1;
            assert(v@ =~= self.stages@.subrange(0, i as int));
        }
        v
    }

    /// The stage after the first occurrence of `stage` in the pipeline.
    fn get_next_stage(&self, stage: ManufacturingStage) -> (r: Option<ManufacturingStage>)
        ensures
            r == next_after(self.stages@, stage),
    {
        let mut i: usize = 0;
        while i < self.stages.len()
            invariant
                i <= self.stages@.len(),
                forall|j: int| 0 <= j < i ==> self.stages@[j] != stage,
            decreases self.stages@.len() - i,
        {
            if self.stages[i] == stage {
                proof {
                    lemma_first_position(self.stages@, stage, i as int);
                }
                if i + 1 < self.stages.len() {
                    return Some(self.stages[i + 1]);
                } else {
                    return None;
                }
            }
            i = i + 1;
        }
        proof {
            lemma_first_position(self.stages@, stage, i as int);
        }
        None
    }
}

impl Default for ManufacturingPipeline {
    fn default() -> (p: Self)
        ensures
            p.stages@ == standard_stages(),
            p.current_stage_index == 0,
    {
        Self::new()
    }
}

proof fn lemma_standard_position(k: int)
    requires
        0 <= k < 11,
    ensures
        first_position(standard_stages(), standard_stages()[k]) == Some(k),
{
    let s = standard_stages();
    assert forall|j: int| 0 <= j < k implies s[j] != s[k] by {
        assert(s[j] != s[k]);
    }
    lemma_first_position(s, s[k], k);
}

/// Law: in the standard pipeline each stage but the last is followed by the next one in the
/// list, `Complete` by nothing, and `Rejected` is not a stage of the pipeline at all.
pub proof fn law_standard_successors(k: int)
    requires
        0 <= k < 11,
    ensures
        first_position(standard_stages(), standard_stages()[k]) == Some(k),
        k < 10 ==> next_after(standard_stages(), standard_stages()[k]) == Some(
            standard_stages()[k + 1],
        ),
        k == 10 ==> next_after(standard_stages(), standard_stages()[k]) is None,
        first_position(standard_stages(), ManufacturingStage::Rejected) is None,
        next_after(standard_stages(), ManufacturingStage::Rejected) is None,
{
    lemma_standard_position(k);
    lemma_first_position(standard_stages(), ManufacturingStage::Rejected, 11);
}

/// The name recorded for the step of a stage.
pub open spec fn stage_title(stage: ManufacturingStage) -> Seq<char> {
    match stage {
        ManufacturingStage::RawMaterial => "Raw Material Preparation"@,
        ManufacturingStage::SlurryFormation => "Slurry Formation"@,
        ManufacturingStage::MoldCasting => "Mold Casting"@,
        ManufacturingStage::Drying => "Drying"@,
        ManufacturingStage::Sintering => "Sintering"@,
        ManufacturingStage::CncMachining => "CNC Machining"@,
        ManufacturingStage::Coating => "Coating Application"@,
        ManufacturingStage::Bonding => "Bonding Assembly"@,
        ManufacturingStage::Identification => "Identification Application"@,
        ManufacturingStage::Testing => "Testing and QA"@,
        ManufacturingStage::Complete => "Final Inspection"@,
        ManufacturingStage::Rejected => "Rejected"@,
    }
}

/// The derived `Debug` text of a stage: its variant name.
pub open spec fn stage_debug(stage: ManufacturingStage) -> Seq<char> {
    match stage {
        ManufacturingStage::RawMaterial => "RawMaterial"@,
        ManufacturingStage::SlurryFormation => "SlurryFormation"@,
        ManufacturingStage::MoldCasting => "MoldCasting"@,
        ManufacturingStage::Drying => "Drying"@,
        ManufacturingStage::Sintering => "Sintering"@,
        ManufacturingStage::CncMachining => "CncMachining"@,
        ManufacturingStage::Coating => "Coating"@,
        ManufacturingStage::Bonding => "Bonding"@,
        ManufacturingStage::Identification => "Identification"@,
        ManufacturingStage::Testing => "Testing"@,
        ManufacturingStage::Complete => "Complete"@,
        ManufacturingStage::Rejected => "Rejected"@,
    }
}

fn stage_name(stage: ManufacturingStage) -> (s: &'static str)
    ensures
        s@ == stage_title(stage),
{
    match stage {
        ManufacturingStage::RawMaterial => "Raw Material Preparation",
        ManufacturingStage::SlurryFormation => "Slurry Formation",
        ManufacturingStage::MoldCasting => "Mold Casting",
        ManufacturingStage::Drying => "Drying",
        ManufacturingStage::Sintering => "Sintering",
        ManufacturingStage::CncMachining => "CNC Machining",
        ManufacturingStage::Coating => "Coating Application",
        ManufacturingStage::Bonding => "Bonding Assembly",
        ManufacturingStage::Identification => "Identification Application",
        ManufacturingStage::Testing => "Testing and QA",
        ManufacturingStage::Complete => "Final Inspection",
        ManufacturingStage::Rejected => "Rejected",
    }
}

fn stage_debug_text(stage: ManufacturingStage) -> (s: &'static str)
    ensures
        s@ == stage_debug(stage),
{
    match stage {
        ManufacturingStage::RawMaterial => "RawMaterial",
        ManufacturingStage::SlurryFormation => "SlurryFormation",
        ManufacturingStage::MoldCasting => "MoldCasting",
        ManufacturingStage::Drying => "Drying",
        ManufacturingStage::Sintering => "Sintering",
        ManufacturingStage::CncMachining => "CncMachining",
        ManufacturingStage::Coating => "Coating",
        ManufacturingStage::Bonding => "Bonding",
        ManufacturingStage::Identification => "Identification",
        ManufacturingStage::Testing => "Testing",
        ManufacturingStage::Complete => "Complete",
        ManufacturingStage::Rejected => "Rejected",
    }
}

fn manufacturing_error(msg: &str) -> (e: TileError)
    ensures
        e matches TileError::ManufacturingError(m) && m@ == msg@,
{
    TileError::ManufacturingError(String::from_str(msg))
}

/// A fresh tile: nothing applied, no steps, at the first stage.
pub fn create_tile_state() -> (t: TileState)
    ensures
        t.id is None,
        !t.has_material,
        !t.has_geometry,
        !t.has_coating,
        !t.has_strain_isolation_pad,
        !t.has_adhesive,
        t.applied_id is None,
        t.manufacturing_steps@.len() == 0,
        t.audit_results@.len() == 0,
        t.defects@.len() == 0,
        t.current_stage == ManufacturingStage::RawMaterial,
{
    TileState {
        id: None,
        has_material: false,
        has_geometry: false,
        has_coating: false,
        has_strain_isolation_pad: false,
        has_adhesive: false,
        applied_id: None,
        manufacturing_steps: Vec::new(),
        audit_results: Vec::new(),
        defects: Vec::new(),
        created_at: crate::now(),
        current_stage: ManufacturingStage::RawMaterial,
    }
}

/// The step recorded for running `stage` as step `number` by `operator`.
pub open spec fn step_made(step: StepModel, stage: ManufacturingStage, number: int, operator: Seq<char>) -> bool {
    &&& step.name == stage_title(stage)
    &&& step.step_number == number
    &&& step.operator_id == operator
    &&& step.parameters == Map::<String, String>::empty()
    &&& step.result == ResultModel::Success
}

/// Everything of a tile but its steps and its stage.
pub open spec fn same_parts(a: TileState, b: TileState) -> bool {
    &&& a.id == b.id
    &&& a.has_material == b.has_material
    &&& a.has_geometry == b.has_geometry
    &&& a.has_coating == b.has_coating
    &&& a.has_strain_isolation_pad == b.has_strain_isolation_pad
    &&& a.has_adhesive == b.has_adhesive
    &&& a.applied_id == b.applied_id
    &&& a.audit_results == b.audit_results
    &&& a.defects == b.defects
    &&& a.created_at == b.created_at
}

/// The steps of a tile, as values.
pub open spec fn step_models(v: Seq<ManufacturingStep>) -> Seq<StepModel> {
    v.map_values(|s: ManufacturingStep| s@)
}

/// The stage a tile moves to after running `stage`: the next one in the standard pipeline,
/// or the same one when there is none.
pub open spec fn stage_after(stage: ManufacturingStage) -> ManufacturingStage {
    match next_after(standard_stages(), stage) {
        Some(n) => n,
        None => stage,
    }
}

fn make_step(stage: ManufacturingStage, number: u32, operator_id: &str, timestamp: crate::Timestamp) -> (s: ManufacturingStep)
    ensures
        step_made(s@, stage, number as int, operator_id@),
        s.timestamp == timestamp,
{
    ManufacturingStep {
        name: String::from_str(stage_name(stage)),
        step_number: number,
        timestamp,
        operator_id: String::from_str(operator_id),
        parameters: HashMap::new(),
        result: StepResult::Success,
    }
}

/// Runs the stage a tile is at: records a successful step for it and moves the tile to the
/// next stage of the pipeline. Fails, leaving the tile as it was, when the tile is at
/// another stage.
pub fn execute_stage(tile: &mut TileState, stage: ManufacturingStage, operator_id: &str) -> (r: Result<
    ManufacturingStep,
    TileError,
>)
    requires
        old(tile).manufacturing_steps@.len() < u32::MAX,
    ensures
        old(tile).current_stage != stage ==> {
            &&& r matches Err(TileError::ManufacturingError(m))
            &&& m@ == "Tile is at stage "@ + stage_debug(old(tile).current_stage) + ", expected "@
                + stage_debug(stage)
            &&& *final(tile) == *old(tile)
        },
        old(tile).current_stage == stage ==> {
            &&& r matches Ok(step)
            &&& step_made(step@, stage, old(tile).manufacturing_steps@.len() + 1int, operator_id@)
            &&& step_models(final(tile).manufacturing_steps@) == step_models(
                old(tile).manufacturing_steps@,
            ).push(step@)
            &&& final(tile).current_stage == stage_after(stage)
            &&& same_parts(*final(tile), *old(tile))
        },
{
    if tile.current_stage != stage {
        let mut m = chars_of("Tile is at stage ");
        let mut a = chars_of(stage_debug_text(tile.current_stage));
        m.append(&mut a);
        let mut b = chars_of(", expected ");
        m.append(&mut b);
        let mut c = chars_of(stage_debug_text(stage));
        m.append(&mut c);
        assert(m@ =~= "Tile is at stage "@ + stage_debug(tile.current_stage) + ", expected "@
            + stage_debug(stage));
        return Err(TileError::ManufacturingError(string_from_chars(m.as_slice())));
    }
    let number = tile.manufacturing_steps.len() as u32 + 1;
    let timestamp = crate::now();
    let step = make_step(stage, number, operator_id, timestamp);
    let recorded = make_step(stage, number, operator_id, timestamp);
    assert(recorded@ == step@);
    tile.manufacturing_steps.push(recorded);
    assert(step_models(tile.manufacturing_steps@) =~= step_models(
        old(tile).manufacturing_steps@,
    ).push(step@));
    let pipeline = ManufacturingPipeline::new();
    match pipeline.get_next_stage(stage) {
        Some(next) => {
            tile.current_stage = next;
        },
        None => {},
    }
    Ok(step)
}

/// What the tile lacks before testing, in the order it is checked.
pub open spec fn testing_gap(t: TileState) -> Option<Seq<char>> {
    if t.id is None {
        Some("Missing tile ID"@)
    } else if !t.has_material {
        Some("Missing tile material"@)
    } else if !t.has_geometry {
        Some("Missing tile geometry"@)
    } else if !t.has_coating {
        Some("Missing tile coating"@)
    } else if !t.has_strain_isolation_pad {
        Some("Missing strain isolation pad"@)
    } else if !t.has_adhesive {
        Some("Missing adhesive"@)
    } else {
        None
    }
}

/// Checks that a tile has an identifier and every component before it is tested.
pub fn validate_tile_for_testing(tile: &TileState) -> (r: Result<(), TileError>)
    ensures
        match testing_gap(*tile) {
            Some(m) => r matches Err(TileError::ManufacturingError(e)) && e@ == m,
            None => r is Ok,
        },
{
    if tile.id.is_none() {
        return Err(manufacturing_error("Missing tile ID"));
    }
    if !tile.has_material {
        return Err(manufacturing_error("Missing tile material"));
    }
    if !tile.has_geometry {
        return Err(manufacturing_error("Missing tile geometry"));
    }
    if !tile.has_coating {
        return Err(manufacturing_error("Missing tile coating"));
    }
    if !tile.has_strain_isolation_pad {
        return Err(manufacturing_error("Missing strain isolation pad"));
    }
    if !tile.has_adhesive {
        return Err(manufacturing_error("Missing adhesive"));
    }
    Ok(())
}

/// What a tile lacks before a stage can run, as the message that stops it.
pub open spec fn prerequisite_gap(t: TileState, stage: ManufacturingStage) -> Option<Seq<char>> {
    match stage {
        ManufacturingStage::Sintering => if !t.has_material {
            Some("Material required before Sintering"@)
        } else {
            None
        },
        ManufacturingStage::CncMachining => if !t.has_geometry {
            Some("Geometry required before CNC Machining"@)
        } else {
            None
        },
        ManufacturingStage::Coating => if !t.has_coating {
            Some("Coating required before Coating stage"@)
        } else {
            None
        },
        ManufacturingStage::Bonding => if !t.has_strain_isolation_pad || !t.has_adhesive {
            Some("SIP and adhesive required before Bonding"@)
        } else {
            None
        },
        ManufacturingStage::Identification => if t.id is None {
            Some("ID required before Identification"@)
        } else {
            None
        },
        ManufacturingStage::Testing => testing_gap(t),
        _ => None,
    }
}

/// The first stage of the standard pipeline, from index `k` up to (not including)
/// `Complete`, whose prerequisites the tile lacks.
pub open spec fn blocked_from(t: TileState, k: int) -> Option<int>
    decreases 10 - k,
{
    if k >= 10 || k < 0 {
        None
    } else if prerequisite_gap(t, standard_stages()[k]) is Some {
        Some(k)
    } else {
        blocked_from(t, k + 1)
    }
}

/// `fin` is `old` after running the standard stages from index `start` up to (not including)
/// index `end`: one successful step recorded for each, in order, and the tile at `end`.
pub open spec fn ran(old: TileState, fin: TileState, start: int, end: int, operator: Seq<char>) -> bool {
    let n = old.manufacturing_steps@.len();
    &&& fin.current_stage == standard_stages()[end]
    &&& same_parts(fin, old)
    &&& fin.manufacturing_steps@.len() == n + (end - start)
    &&& step_models(fin.manufacturing_steps@).subrange(0, n as int) == step_models(
        old.manufacturing_steps@,
    )
    &&& forall|i: int|
        n <= i < n + (end - start) ==> step_made(
            #[trigger] fin.manufacturing_steps@[i]@,
            standard_stages()[start + i - n],
            i + 1,
            operator,
        )
}

/// Runs every remaining stage of the standard pipeline on a tile, from the stage it is at up
/// to `Complete`, checking before each stage that the tile has what the stage needs. Stops
/// at the first stage whose prerequisites are missing, with the stages before it run.
pub fn run_full_manufacturing(tile: &mut TileState, operator_id: &str) -> (r: Result<(), TileError>)
    requires
        old(tile).manufacturing_steps@.len() + 10 < u32::MAX,
    ensures
        match first_position(standard_stages(), old(tile).current_stage) {
            None => {
                &&& r matches Err(TileError::ManufacturingError(m))
                &&& m@ == "Invalid current stage on tile"@
                &&& *final(tile) == *old(tile)
            },
            Some(start) => match blocked_from(*old(tile), start) {
                Some(j) => {
                    &&& r matches Err(TileError::ManufacturingError(m))
                    &&& prerequisite_gap(*old(tile), standard_stages()[j]) == Some(m@)
                    &&& ran(*old(tile), *final(tile), start, j, operator_id@)
                },
                None => r is Ok && ran(*old(tile), *final(tile), start, 10, operator_id@),
            },
        },
{
    let pipeline = ManufacturingPipeline::new();
    let mut start: usize = 0;
    while start < pipeline.stages.len() && pipeline.stages[start] != tile.current_stage
        invariant
            pipeline.stages@ == standard_stages(),
            start <= pipeline.stages@.len(),
            forall|j: int| 0 <= j < start ==> pipeline.stages@[j] != tile.current_stage,
        decreases pipeline.stages@.len() - start,
    {
        start = start + 1;
    }
    proof {
        lemma_first_position(standard_stages(), tile.current_stage, start as int);
    }
    if start == pipeline.stages.len() {
        return Err(manufacturing_error("Invalid current stage on tile"));
    }
    let mut i: usize = start;
    proof {
        assert(step_models(tile.manufacturing_steps@).subrange(
            0,
            tile.manufacturing_steps@.len() as int,
        ) =~= step_models(tile.manufacturing_steps@));
    }
    loop
        invariant
            pipeline.stages@ == standard_stages(),
            start <= i <= 10,
            first_position(standard_stages(), old(tile).current_stage) == Some(start as int),
            old(tile).manufacturing_steps@.len() + 10 < u32::MAX,
            ran(*old(tile), *tile, start as int, i as int, operator_id@),
            blocked_from(*old(tile), start as int) == blocked_from(*old(tile), i as int),
        ensures
            blocked_from(*old(tile), start as int) is None,
            ran(*old(tile), *tile, start as int, 10, operator_id@),
        decreases 10 - i,
    {
        let stage = pipeline.stages[i];
        if stage == ManufacturingStage::Complete || stage == ManufacturingStage::Rejected {
            break;
        }
        proof {
            law_standard_successors(i as int);
        }
        match stage {
            ManufacturingStage::Sintering => {
                if !tile.has_material {
                    return Err(manufacturing_error("Material required before Sintering"));
                }
            },
            ManufacturingStage::CncMachining => {
                if !tile.has_geometry {
                    return Err(manufacturing_error("Geometry required before CNC Machining"));
                }
            },
            ManufacturingStage::Coating => {
                if !tile.has_coating {
                    return Err(manufacturing_error("Coating required before Coating stage"));
                }
            },
            ManufacturingStage::Bonding => {
                if !tile.has_strain_isolation_pad || !tile.has_adhesive {
                    return Err(manufacturing_error("SIP and adhesive required before Bonding"));
                }
            },
            ManufacturingStage::Identification => {
                if tile.id.is_none() {
                    return Err(manufacturing_error("ID required before Identification"));
                }
            },
            ManufacturingStage::Testing => {
                match validate_tile_for_testing(tile) {
                    Ok(()) => {},
                    Err(e) => {
                        return Err(e);
                    },
                }
            },
            _ => {},
        }
        assert(prerequisite_gap(*old(tile), stage) is None);
        let ghost before = *tile;
        let step = match execute_stage(tile, stage, operator_id) {
            Ok(step) => step,
            Err(e) => {
                return Err(e);
            },
        };
        proof {
            let n = old(tile).manufacturing_steps@.len();
            let m = before.manufacturing_steps@.len();
            let after = step_models(tile.manufacturing_steps@);
            assert(after == step_models(before.manufacturing_steps@).push(step@));
            assert(after.len() == tile.manufacturing_steps@.len());
            assert(tile.manufacturing_steps@.len() == m + 1);
            assert(after.subrange(0, n as int) =~= step_models(old(tile).manufacturing_steps@)) by {
                assert(step_models(before.manufacturing_steps@).subrange(0, n as int)
                    =~= step_models(old(tile).manufacturing_steps@));
            }
            assert forall|k: int|
                n <= k < n + (i + 1 - start) implies step_made(
                #[trigger] tile.manufacturing_steps@[k]@,
                standard_stages()[start + k - n],
                k + 1,
                operator_id@,
            ) by {
                assert(after[k] == tile.manufacturing_steps@[k]@);
                if k < m {
                    assert(after[k] == step_models(before.manufacturing_steps@)[k]);
                    assert(before.manufacturing_steps@[k]@ == step_models(
                        before.manufacturing_steps@,
                    )[k]);
                } else {
                    assert(after[k] == step@);
                }
            }
        }
        i = i + 1;
    }
    Ok(())
}

/// Law: a tile that has its identifier and every component never lacks a prerequisite, so
/// running the pipeline on it from any of its stages goes through to `Complete`.
pub proof fn law_complete_tile_is_never_blocked(t: TileState, k: int)
    requires
        t.id is Some,
        t.has_material,
        t.has_geometry,
        t.has_coating,
        t.has_strain_isolation_pad,
        t.has_adhesive,
    ensures
        blocked_from(t, k) is None,
    decreases 10 - k,
{
    if 0 <= k < 10 {
        law_complete_tile_is_never_blocked(t, k + 1);
    }
}

/// A stage whose prerequisites the tile lacks, at or after `k`, stops the pipeline there or
/// at an earlier blocked stage.
proof fn lemma_blocked_by(t: TileState, k: int, s: int)
    requires
        0 <= k <= s < 10,
        prerequisite_gap(t, standard_stages()[s]) is Some,
    ensures
        blocked_from(t, k) matches Some(j) && k <= j <= s && prerequisite_gap(
            t,
            standard_stages()[j],
        ) is Some,
    decreases s - k,
{
    if prerequisite_gap(t, standard_stages()[k]) is None {
        lemma_blocked_by(t, k + 1, s);
    }
}

/// Law: the pipeline never runs a stage whose prerequisite the tile lacks. Run from any
/// stage up to the one that needs a missing part (the material for Sintering, the geometry
/// for CNC Machining, the coating for Coating, the pad and the adhesive for Bonding, the
/// identifier for Identification), it stops at that stage or before it; a tile that has
/// every part but no identifier stops exactly at Identification, with "ID required before
/// Identification".
pub proof fn law_missing_part_stops_before_its_stage(t: TileState, k: int)
    requires
        0 <= k,
    ensures
        !t.has_material && k <= 4 ==> (blocked_from(t, k) matches Some(j) && j <= 4),
        !t.has_geometry && k <= 5 ==> (blocked_from(t, k) matches Some(j) && j <= 5),
        !t.has_coating && k <= 6 ==> (blocked_from(t, k) matches Some(j) && j <= 6),
        (!t.has_strain_isolation_pad || !t.has_adhesive) && k <= 7 ==> (blocked_from(t, k) matches Some(j)
            && j <= 7),
        t.id is None && k <= 8 ==> (blocked_from(t, k) matches Some(j) && j <= 8),
        ({
            &&& t.id is None
            &&& t.has_material
            &&& t.has_geometry
            &&& t.has_coating
            &&& t.has_strain_isolation_pad
            &&& t.has_adhesive
            &&& k <= 8
        }) ==> blocked_from(t, k) == Some(8int) && prerequisite_gap(t, standard_stages()[8])
            == Some("ID required before Identification"@),
{
    if !t.has_material && k <= 4 {
        lemma_blocked_by(t, k, 4);
    }
    if !t.has_geometry && k <= 5 {
        lemma_blocked_by(t, k, 5);
    }
    if !t.has_coating && k <= 6 {
        lemma_blocked_by(t, k, 6);
    }
    if (!t.has_strain_isolation_pad || !t.has_adhesive) && k <= 7 {
        lemma_blocked_by(t, k, 7);
    }
    if t.id is None && k <= 8 {
        lemma_blocked_by(t, k, 8);
    }
}

/// Gives a tile its identifier: generates it from the batch, the location and the sequence
/// number, and records it as laser etched by the operator, its physical reading being the
/// identifier's text and its digital record the text's letters and numbers.
pub fn apply_identification(
    tile: &mut TileState,
    batch: TileBatch,
    location: TileLocation,
    sequence: u32,
    operator_id: &str,
) -> (r: Result<(), TileError>)
    requires
        generation_ok(batch@, location@),
    ensures
        sequence > 9999 ==> {
            &&& r matches Err(TileError::IdentificationError(m))
            &&& m@ == "Sequence must be 4 digits or less"@
            &&& *final(tile) == *old(tile)
        },
        sequence <= 9999 ==> {
            let made = generated_id(batch@, location@, sequence as nat);
            &&& r is Ok
            &&& final(tile).id matches Some(id) && id@ == made
            &&& final(tile).applied_id matches Some(a) && {
                &&& a.id@ == made
                &&& a.application_method@ == "Laser etching"@
                &&& a.operator_id@ == operator_id@
                &&& a.physical_reading@ == made.raw
                &&& a.digital_record@ == alphanumerics(made.raw)
            }
            &&& final(tile).has_material == old(tile).has_material
            &&& final(tile).has_geometry == old(tile).has_geometry
            &&& final(tile).has_coating == old(tile).has_coating
            &&& final(tile).has_strain_isolation_pad == old(tile).has_strain_isolation_pad
            &&& final(tile).has_adhesive == old(tile).has_adhesive
            &&& final(tile).manufacturing_steps == old(tile).manufacturing_steps
            &&& final(tile).audit_results == old(tile).audit_results
            &&& final(tile).defects == old(tile).defects
            &&& final(tile).created_at == old(tile).created_at
            &&& final(tile).current_stage == old(tile).current_stage
        },
{
    let id = match generate_id(&batch, &location, sequence) {
        Ok(id) => id,
        Err(e) => {
            return Err(e);
        },
    };
    let applied_id = AppliedId {
        id: copy_id(&id),
        application_method: String::from_str("Laser etching"),
        application_timestamp: crate::now(),
        operator_id: String::from_str(operator_id),
        physical_reading: id.raw.clone(),
        digital_record: to_machine_readable(&id),
    };
    tile.id = Some(id);
    tile.applied_id = Some(applied_id);
    Ok(())
}

} // verus!
