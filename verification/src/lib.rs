//! Space Shuttle thermal protection tile records: identifier encoding and parsing,
//! identifier audits, the manufacturing pipeline and report summaries.
use vstd::prelude::*;
use std::collections::HashMap;

pub mod audit;
pub mod commands;
pub mod identification;
pub mod manufacturing;
pub mod report;
pub mod text;

verus! {

/// Errors of the tile library, one variant per subsystem, each with its message.
#[derive(Debug, Clone, PartialEq)]
pub enum TileError {
    MaterialError(String),
    GeometryError(String),
    BondingError(String),
    IdentificationError(String),
    AuditError(String),
    TestError(String),
    SimulationError(String),
    ManufacturingError(String),
}

impl TileError {
    /// The text that displaying this error shows: a subsystem prefix and the message.
    pub open spec fn display(self) -> Seq<char> {
        match self {
            TileError::MaterialError(m) => "Material error: "@ + m@,
            TileError::GeometryError(m) => "Geometry error: "@ + m@,
            TileError::BondingError(m) => "Bonding error: "@ + m@,
            TileError::IdentificationError(m) => "Identification error: "@ + m@,
            TileError::AuditError(m) => "Audit failure: "@ + m@,
            TileError::TestError(m) => "Test failure: "@ + m@,
            TileError::SimulationError(m) => "Simulation error: "@ + m@,
            TileError::ManufacturingError(m) => "Manufacturing error: "@ + m@,
        }
    }

    /// The message carried by the error, without its prefix.
    pub open spec fn message(self) -> Seq<char> {
        match self {
            TileError::MaterialError(m) => m@,
            TileError::GeometryError(m) => m@,
            TileError::BondingError(m) => m@,
            TileError::IdentificationError(m) => m@,
            TileError::AuditError(m) => m@,
            TileError::TestError(m) => m@,
            TileError::SimulationError(m) => m@,
            TileError::ManufacturingError(m) => m@,
        }
    }

    /// Renders the error as text (subsystem prefix followed by the message).
    pub fn to_string(&self) -> (s: String)
        ensures
            s@ == self.display(),
    {
        let (prefix, m) = match self {
            TileError::MaterialError(m) => ("Material error: ", m),
            TileError::GeometryError(m) => ("Geometry error: ", m),
            TileError::BondingError(m) => ("Bonding error: ", m),
            TileError::IdentificationError(m) => ("Identification error: ", m),
            TileError::AuditError(m) => ("Audit failure: ", m),
            TileError::TestError(m) => ("Test failure: ", m),
            TileError::SimulationError(m) => ("Simulation error: ", m),
            TileError::ManufacturingError(m) => ("Manufacturing error: ", m),
        };
        let mut s = String::from_str(prefix);
        s.append(m.as_str());
        s
    }
}

/// A moment in time as seconds and nanoseconds since the Unix epoch.
#[derive(Debug, Clone, Copy, PartialEq, Eq, Hash)]
pub struct Timestamp {
    pub secs: i64,
    pub nanos: u32,
}

/// Reads the system clock (`chrono::Utc::now`); nothing is claimed of the moment it reports.
#[verifier::external_body]
pub(crate) fn now() -> Timestamp {
    let t = chrono::Utc::now();
    Timestamp { secs: t.timestamp(), nanos: t.timestamp_subsec_nanos() }
}

#[derive(Debug, Clone, Copy, PartialEq, Eq)]
pub enum TileShape {
    Flat,
    Contoured,
    Custom { complexity: u8 },
}

#[derive(Debug, Clone, PartialEq, Eq, Hash)]
pub enum TileSurface {
    NoseCap,
    WingLeadingEdge,
    FuselageTop,
    FuselageBottom,
    VerticalStabilizer,
    OmsPod,
    EjectionSeat,
    Custom(String),
}

/// A surface as a mathematical value.
pub enum SurfaceModel {
    NoseCap,
    WingLeadingEdge,
    FuselageTop,
    FuselageBottom,
    VerticalStabilizer,
    OmsPod,
    EjectionSeat,
    Custom(Seq<char>),
}

impl View for TileSurface {
    type V = SurfaceModel;

    open spec fn view(&self) -> SurfaceModel {
        match self {
            TileSurface::NoseCap => SurfaceModel::NoseCap,
            TileSurface::WingLeadingEdge => SurfaceModel::WingLeadingEdge,
            TileSurface::FuselageTop => SurfaceModel::FuselageTop,
            TileSurface::FuselageBottom => SurfaceModel::FuselageBottom,
            TileSurface::VerticalStabilizer => SurfaceModel::VerticalStabilizer,
            TileSurface::OmsPod => SurfaceModel::OmsPod,
            TileSurface::EjectionSeat => SurfaceModel::EjectionSeat,
            TileSurface::Custom(s) => SurfaceModel::Custom(s@),
        }
    }
}

/// The part of a tile's identity that comes from its production batch.
#[derive(Debug, Clone, PartialEq, Eq, Hash)]
pub struct TileBatch {
    pub batch_code: String,
    pub production_date: Timestamp,
    pub oven_id: String,
    pub operator_id: String,
}

pub struct BatchModel {
    pub batch_code: Seq<char>,
    pub production_date: Timestamp,
    pub oven_id: Seq<char>,
    pub operator_id: Seq<char>,
}

impl View for TileBatch {
    type V = BatchModel;

    open spec fn view(&self) -> BatchModel {
        BatchModel {
            batch_code: self.batch_code@,
            production_date: self.production_date,
            oven_id: self.oven_id@,
            operator_id: self.operator_id@,
        }
    }
}

/// Where a tile sits on the orbiter.
#[derive(Debug, Clone, PartialEq, Eq, Hash)]
pub struct TileLocation {
    pub orbiter_id: String,
    pub surface: TileSurface,
    pub panel_id: String,
    pub row: u8,
    pub column: u8,
}

pub struct LocationModel {
    pub orbiter_id: Seq<char>,
    pub surface: SurfaceModel,
    pub panel_id: Seq<char>,
    pub row: u8,
    pub column: u8,
}

impl View for TileLocation {
    type V = LocationModel;

    open spec fn view(&self) -> LocationModel {
        LocationModel {
            orbiter_id: self.orbiter_id@,
            surface: self.surface@,
            panel_id: self.panel_id@,
            row: self.row,
            column: self.column,
        }
    }
}

/// A tile identifier: its text and the fields it was made from.
#[derive(Debug, Clone, PartialEq, Eq, Hash)]
pub struct TileId {
    pub raw: String,
    pub batch: TileBatch,
    pub location: TileLocation,
    pub sequence: u32,
    pub checksum: u8,
}

pub struct IdModel {
    pub raw: Seq<char>,
    pub batch: BatchModel,
    pub location: LocationModel,
    pub sequence: u32,
    pub checksum: u8,
}

impl View for TileId {
    type V = IdModel;

    open spec fn view(&self) -> IdModel {
        IdModel {
            raw: self.raw@,
            batch: self.batch@,
            location: self.location@,
            sequence: self.sequence,
            checksum: self.checksum,
        }
    }
}

/// The layout of identifier text: four fields of fixed byte widths joined by a delimiter.
#[derive(Debug, Clone, PartialEq)]
pub struct IdSchema {
    pub format: String,
    pub batch_code_length: usize,
    pub location_code_length: usize,
    pub sequence_length: usize,
    pub checksum_length: usize,
    pub delimiter: char,
}

/// The shape a schema gives identifier text: delimiter and field widths in bytes.
pub struct Layout {
    pub delimiter: char,
    pub batch: nat,
    pub location: nat,
    pub sequence: nat,
    pub checksum: nat,
}

impl IdSchema {
    pub open spec fn layout(self) -> Layout {
        Layout {
            delimiter: self.delimiter,
            batch: self.batch_code_length as nat,
            location: self.location_code_length as nat,
            sequence: self.sequence_length as nat,
            checksum: self.checksum_length as nat,
        }
    }
}

/// `-` and widths 6, 8, 4 and 2.
pub open spec fn standard_layout() -> Layout {
    Layout { delimiter: '-', batch: 6, location: 8, sequence: 4, checksum: 2 }
}

/// The standard layout `BATCH-LOC-SEQ-CHECK` with widths 6, 8, 4 and 2.
pub open spec fn is_default_schema(s: IdSchema) -> bool {
    &&& s.format@ == "BATCH-LOC-SEQ-CHECK"@
    &&& s.batch_code_length == 6
    &&& s.location_code_length == 8
    &&& s.sequence_length == 4
    &&& s.checksum_length == 2
    &&& s.delimiter == '-'
}

impl Default for IdSchema {
    fn default() -> (s: Self)
        ensures
            is_default_schema(s),
    {
        IdSchema {
            format: String::from_str("BATCH-LOC-SEQ-CHECK"),
            batch_code_length: 6,
            location_code_length: 8,
            sequence_length: 4,
            checksum_length: 2,
            delimiter: '-',
        }
    }
}

/// An identifier as physically applied to a tile, with its digital record.
#[derive(Debug, Clone, PartialEq)]
pub struct AppliedId {
    pub id: TileId,
    pub application_method: String,
    pub application_timestamp: Timestamp,
    pub operator_id: String,
    pub physical_reading: String,
    pub digital_record: String,
}

#[derive(Debug, Clone, PartialEq)]
pub struct IdAuditResult {
    pub status: AuditStatus,
    pub findings: Vec<AuditFinding>,
    pub summary: String,
    pub audited_id: String,
    pub timestamp: Timestamp,
}

#[derive(Debug, Clone, Copy, PartialEq, Eq, Structural)]
pub enum AuditStatus {
    Pass,
    Warn,
    Fail,
}

#[derive(Debug, Clone, PartialEq)]
pub struct AuditFinding {
    pub category: FindingCategory,
    pub severity: FindingSeverity,
    pub message: String,
    pub expected: Option<String>,
    pub actual: Option<String>,
}

pub struct FindingModel {
    pub category: FindingCategory,
    pub severity: FindingSeverity,
    pub message: Seq<char>,
    pub expected: Option<Seq<char>>,
    pub actual: Option<Seq<char>>,
}

pub open spec fn opt_view(o: Option<String>) -> Option<Seq<char>> {
    match o {
        Some(s) => Some(s@),
        None => None,
    }
}

impl View for AuditFinding {
    type V = FindingModel;

    open spec fn view(&self) -> FindingModel {
        FindingModel {
            category: self.category,
            severity: self.severity,
            message: self.message@,
            expected: opt_view(self.expected),
            actual: opt_view(self.actual),
        }
    }
}

#[derive(Debug, Clone, Copy, PartialEq, Eq, Structural)]
pub enum FindingCategory {
    SchemaCompliance,
    ChecksumValidity,
    BatchConsistency,
    LocationConsistency,
    DuplicateDetection,
    ApplicationCorrectness,
    SerializationIntegrity,
    HumanReadability,
}

#[derive(Debug, Clone, Copy, PartialEq, Eq, Structural)]
pub enum FindingSeverity {
    Info,
    Warning,
    Critical,
}

/// One recorded step of manufacturing.
#[derive(Debug, Clone, PartialEq)]
pub struct ManufacturingStep {
    pub name: String,
    pub step_number: u32,
    pub timestamp: Timestamp,
    pub operator_id: String,
    pub parameters: HashMap<String, String>,
    pub result: StepResult,
}

pub struct StepModel {
    pub name: Seq<char>,
    pub step_number: u32,
    pub timestamp: Timestamp,
    pub operator_id: Seq<char>,
    pub parameters: Map<String, String>,
    pub result: ResultModel,
}

impl View for ManufacturingStep {
    type V = StepModel;

    open spec fn view(&self) -> StepModel {
        StepModel {
            name: self.name@,
            step_number: self.step_number,
            timestamp: self.timestamp,
            operator_id: self.operator_id@,
            parameters: self.parameters@,
            result: self.result@,
        }
    }
}

#[derive(Debug, Clone, PartialEq)]
pub enum StepResult {
    Success,
    Warning(String),
    Failure(String),
}

pub enum ResultModel {
    Success,
    Warning(Seq<char>),
    Failure(Seq<char>),
}

impl View for StepResult {
    type V = ResultModel;

    open spec fn view(&self) -> ResultModel {
        match self {
            StepResult::Success => ResultModel::Success,
            StepResult::Warning(m) => ResultModel::Warning(m@),
            StepResult::Failure(m) => ResultModel::Failure(m@),
        }
    }
}

/// The manufacturing record of one tile. The components a tile is built from are recorded by
/// whether they have been applied; their properties are kept alongside, by the caller.
#[derive(Debug, Clone, PartialEq)]
pub struct TileState {
    pub id: Option<TileId>,
    pub has_material: bool,
    pub has_geometry: bool,
    pub has_coating: bool,
    pub has_strain_isolation_pad: bool,
    pub has_adhesive: bool,
    pub applied_id: Option<AppliedId>,
    pub manufacturing_steps: Vec<ManufacturingStep>,
    pub audit_results: Vec<IdAuditResult>,
    pub defects: Vec<Defect>,
    pub created_at: Timestamp,
    pub current_stage: ManufacturingStage,
}

#[derive(Debug, Clone, Copy, PartialEq, Eq, Structural)]
pub enum ManufacturingStage {
    RawMaterial,
    SlurryFormation,
    MoldCasting,
    Drying,
    Sintering,
    CncMachining,
    Coating,
    Bonding,
    Identification,
    Testing,
    Complete,
    Rejected,
}

#[derive(Debug, Clone, Copy, PartialEq, Eq, Structural)]
pub enum TestType {
    Thermal,
    Mechanical,
    Adhesion,
    Visual,
    Dimensional,
}

#[derive(Debug, Clone, Copy, PartialEq, Eq, Structural)]
pub enum TestOutcome {
    Pass,
    Fail,
    Inconclusive,
}

#[derive(Debug, Clone, PartialEq)]
pub struct Defect {
    pub category: DefectCategory,
    pub description: String,
    pub severity: DefectSeverity,
    pub detected_at: ManufacturingStage,
    pub timestamp: Timestamp,
}

#[derive(Debug, Clone, Copy, PartialEq, Eq, Structural)]
pub enum DefectCategory {
    Material,
    Geometry,
    Coating,
    Bonding,
    Identification,
    Thermal,
    Mechanical,
}

#[derive(Debug, Clone, Copy, PartialEq, Eq, Structural)]
pub enum DefectSeverity {
    Minor,
    Major,
    Critical,
}

#[derive(Debug, Clone, Copy, PartialEq, Eq, Structural)]
pub enum DegradationState {
    Nominal,
    Slight,
    Moderate,
    Severe,
    Failed,
}

#[derive(Debug, Clone, PartialEq)]
pub struct ManufacturingSummary {
    pub total_steps: usize,
    pub steps_completed: usize,
    pub steps_with_warnings: usize,
    pub steps_with_failures: usize,
    pub final_stage: ManufacturingStage,
}

/// How many tests were run and how each came out.
#[derive(Debug, Clone, Copy, PartialEq, Eq, Structural)]
pub struct TestCounts {
    pub total_tests: usize,
    pub passed: usize,
    pub failed: usize,
    pub inconclusive: usize,
}

#[derive(Debug, Clone, PartialEq)]
pub struct AuditSummary {
    pub total_audits: usize,
    pub passed: usize,
    pub warned: usize,
    pub failed: usize,
    pub findings: Vec<AuditFinding>,
}

/// What a report shows of a simulation, its two measured quantities already written with one
/// decimal.
#[derive(Debug, Clone, PartialEq)]
pub struct SimulationOverview {
    pub cycles_simulated: u32,
    pub final_degradation: DegradationState,
    pub coating_wear_percent: String,
    pub max_temp_seen_c: String,
    pub estimated_service_life_cycles: u32,
}

/// Everything the text of a tile report shows.
#[derive(Debug, Clone, PartialEq)]
pub struct ReportOverview {
    pub tile_id: Option<String>,
    pub batch_code: Option<String>,
    pub location: Option<TileLocation>,
    pub manufacturing_summary: ManufacturingSummary,
    pub test_counts: TestCounts,
    pub audit_summary: AuditSummary,
    pub simulation: SimulationOverview,
    pub defects: Vec<Defect>,
    pub overall_status: OverallStatus,
}

/// The run of a seeded simulation.
#[derive(Debug, Clone, Copy, PartialEq, Eq, Structural)]
pub struct SimulationConfig {
    pub seed: u64,
}

#[derive(Debug, Clone, Copy, PartialEq, Eq, Structural)]
pub enum OverallStatus {
    Accepted,
    AcceptedWithNotes,
    Rejected,
    Pending,
}

} // verus!
