//! Identifier audits: a battery of checks on a tile identifier, each reporting findings, and
//! a record of the identifiers already seen so that duplicates are caught.
use vstd::prelude::*;
use vstd::hash_set::StringHashSet;
use crate::identification::{
    checksum_check_ok, checksum_of, encode_id, encoded_id, encoding_ok, fields_readable,
    generated_id, generated_raw, generation_ok, human_location, human_readable, last_dash,
    law_generated_checksum_validates, law_generated_id_encodes_to_its_text,
    law_generated_id_reads_back, parse_id, parse_ok, parse_outcome, schema_ok, to_human_readable,
    validate_checksum, validate_schema,
};
use crate::text::{
    chars_equal, chars_of, contains_exec, contains_text, cut_ok, debug_str, decimal, decimal_exec,
    fit_width, fit_width_exec, head, head_exec, join, join_exec, padded_decimal,
    padded_decimal_exec, str_debug, string_from_chars,
};
use crate::{
    AppliedId, AuditFinding, AuditStatus, BatchModel, FindingCategory, FindingModel,
    FindingSeverity, IdAuditResult, IdModel, IdSchema, LocationModel, SurfaceModel, TileBatch,
    TileId, TileLocation, TileSurface, standard_layout,
};

verus! {

/// Checks tile identifiers and remembers every identifier it has found unique.
pub struct AuditEngine {
    pub seen_ids: StringHashSet,
}

impl View for AuditEngine {
    type V = Set<Seq<char>>;

    open spec fn view(&self) -> Set<Seq<char>> {
        self.seen_ids@
    }
}

pub open spec fn finding(
    category: FindingCategory,
    severity: FindingSeverity,
    message: Seq<char>,
    expected: Option<Seq<char>>,
    actual: Option<Seq<char>>,
) -> FindingModel {
    FindingModel { category, severity, message, expected, actual }
}

/// The findings of a list, as values.
pub open spec fn models(v: Seq<AuditFinding>) -> Seq<FindingModel> {
    v.map_values(|f: AuditFinding| f@)
}

/// What the schema check reports of identifier text.
pub open spec fn schema_findings(raw: Seq<char>) -> Seq<FindingModel> {
    if schema_ok(raw, standard_layout()) {
        seq![
            finding(
                FindingCategory::SchemaCompliance,
                FindingSeverity::Info,
                "Schema validation passed"@,
                Some("BATCH-LOC-SEQ-CHECK"@),
                Some(raw),
            ),
        ]
    } else {
        seq![
            finding(
                FindingCategory::SchemaCompliance,
                FindingSeverity::Critical,
                "Schema validation failed: format does not match BATCH-LOC-SEQ-CHECK"@,
                Some("BATCH-LOC-SEQ-CHECK"@),
                Some(raw),
            ),
        ]
    }
}

/// What the checksum check reports of an identifier.
pub open spec fn checksum_findings(id: IdModel) -> Seq<FindingModel> {
    let shown = padded_decimal(id.checksum as nat, 2);
    match last_dash(id.raw) {
        None => seq![
            finding(
                FindingCategory::ChecksumValidity,
                FindingSeverity::Critical,
                "Checksum validation error: "@ + "Identification error: "@ + "No delimiter found"@,
                Some("valid checksum"@),
                Some(shown),
            ),
        ],
        Some(i) => if id.checksum == checksum_of(id.raw.subrange(0, i)) {
            seq![
                finding(
                    FindingCategory::ChecksumValidity,
                    FindingSeverity::Info,
                    "Checksum valid"@,
                    Some(shown),
                    Some(shown),
                ),
            ]
        } else {
            seq![
                finding(
                    FindingCategory::ChecksumValidity,
                    FindingSeverity::Critical,
                    "Checksum mismatch"@,
                    Some("valid checksum for "@ + id.raw),
                    Some(shown),
                ),
            ]
        },
    }
}

/// What the batch check reports, comparing six-byte batch codes.
pub open spec fn batch_findings(id: IdModel, expected: Seq<char>) -> Seq<FindingModel> {
    let e = fit_width(expected, 6);
    let a = fit_width(id.batch.batch_code, 6);
    if a == e {
        seq![
            finding(
                FindingCategory::BatchConsistency,
                FindingSeverity::Info,
                "Batch code matches expected"@,
                Some(e),
                Some(a),
            ),
        ]
    } else {
        seq![
            finding(
                FindingCategory::BatchConsistency,
                FindingSeverity::Critical,
                "Batch code mismatch"@,
                Some(e),
                Some(a),
            ),
        ]
    }
}

/// What the duplicate check reports, given the identifiers seen before.
pub open spec fn duplicate_findings(seen: Set<Seq<char>>, raw: Seq<char>) -> Seq<FindingModel> {
    if seen.contains(raw) {
        seq![
            finding(
                FindingCategory::DuplicateDetection,
                FindingSeverity::Critical,
                "Duplicate ID detected"@,
                Some("unique ID"@),
                Some(raw),
            ),
        ]
    } else {
        seq![
            finding(
                FindingCategory::DuplicateDetection,
                FindingSeverity::Info,
                "ID is unique"@,
                Some("unique ID"@),
                Some(raw),
            ),
        ]
    }
}

/// A number standing for the variant of a surface (custom surfaces share one).
pub open spec fn surface_kind(s: SurfaceModel) -> int {
    match s {
        SurfaceModel::NoseCap => 0,
        SurfaceModel::WingLeadingEdge => 1,
        SurfaceModel::FuselageTop => 2,
        SurfaceModel::FuselageBottom => 3,
        SurfaceModel::VerticalStabilizer => 4,
        SurfaceModel::OmsPod => 5,
        SurfaceModel::EjectionSeat => 6,
        SurfaceModel::Custom(_) => 7,
    }
}

/// The derived `Debug` text of a surface.
pub open spec fn surface_debug(s: SurfaceModel) -> Seq<char> {
    match s {
        SurfaceModel::NoseCap => "NoseCap"@,
        SurfaceModel::WingLeadingEdge => "WingLeadingEdge"@,
        SurfaceModel::FuselageTop => "FuselageTop"@,
        SurfaceModel::FuselageBottom => "FuselageBottom"@,
        SurfaceModel::VerticalStabilizer => "VerticalStabilizer"@,
        SurfaceModel::OmsPod => "OmsPod"@,
        SurfaceModel::EjectionSeat => "EjectionSeat"@,
        SurfaceModel::Custom(c) => "Custom("@ + str_debug(c) + ")"@,
    }
}

/// The derived `Debug` text of a location.
pub open spec fn location_debug(l: LocationModel) -> Seq<char> {
    "TileLocation { orbiter_id: "@ + str_debug(l.orbiter_id) + ", surface: "@ + surface_debug(
        l.surface,
    ) + ", panel_id: "@ + str_debug(l.panel_id) + ", row: "@ + decimal(l.row as nat)
        + ", column: "@ + decimal(l.column as nat) + " }"@
}

/// `[name]` when a field does not match, nothing when it does.
pub open spec fn unless(matched: bool, name: Seq<char>) -> Seq<Seq<char>> {
    if matched {
        Seq::empty()
    } else {
        seq![name]
    }
}

/// What the location check reports: orbiter and panel compared on their first two bytes,
/// surfaces by variant, row and column exactly.
pub open spec fn location_findings(actual: LocationModel, expected: LocationModel) -> Seq<
    FindingModel,
> {
    let orbiter = head(actual.orbiter_id, 2) == head(expected.orbiter_id, 2);
    let panel = head(actual.panel_id, 2) == head(expected.panel_id, 2);
    let row = actual.row == expected.row;
    let column = actual.column == expected.column;
    let surface = surface_kind(actual.surface) == surface_kind(expected.surface);
    let e = Some(location_debug(expected));
    let a = Some(location_debug(actual));
    if orbiter && panel && row && column && surface {
        seq![
            finding(
                FindingCategory::LocationConsistency,
                FindingSeverity::Info,
                "Location matches expected"@,
                e,
                a,
            ),
        ]
    } else {
        let names = unless(orbiter, "orbiter"@) + unless(surface, "surface"@) + unless(
            panel,
            "panel"@,
        ) + unless(row, "row"@) + unless(column, "column"@);
        seq![
            finding(
                FindingCategory::LocationConsistency,
                FindingSeverity::Critical,
                "Location mismatch: "@ + join(names, ", "@),
                e,
                a,
            ),
        ]
    }
}

/// The location fields that the location check slices can be cut at their second byte.
pub open spec fn location_comparable(l: LocationModel) -> bool {
    cut_ok(l.orbiter_id, 2) && cut_ok(l.panel_id, 2)
}

/// What the application check reports: the physical reading against the digital record,
/// then the digital record against the identifier written in the standard schema.
pub open spec fn application_findings(physical: Seq<char>, digital: Seq<char>, id: IdModel) -> Seq<
    FindingModel,
> {
    let enc = encoded_id(id, standard_layout());
    let first = if physical == digital {
        finding(
            FindingCategory::ApplicationCorrectness,
            FindingSeverity::Info,
            "Physical reading matches digital record"@,
            Some(digital),
            Some(physical),
        )
    } else {
        finding(
            FindingCategory::ApplicationCorrectness,
            FindingSeverity::Critical,
            "Physical reading does not match digital record"@,
            Some(digital),
            Some(physical),
        )
    };
    let second = if digital == enc {
        finding(
            FindingCategory::ApplicationCorrectness,
            FindingSeverity::Info,
            "Digital record matches encoded ID"@,
            Some(enc),
            Some(digital),
        )
    } else {
        finding(
            FindingCategory::ApplicationCorrectness,
            FindingSeverity::Warning,
            "Digital record does not match encoded ID"@,
            Some(enc),
            Some(digital),
        )
    };
    seq![first, second]
}

/// What the round-trip check reports: the identifier is written in the standard schema and
/// read back; sequence, checksum and text must survive.
pub open spec fn serialization_findings(id: IdModel) -> Seq<FindingModel> {
    let enc = encoded_id(id, standard_layout());
    match parse_outcome(enc, standard_layout()) {
        Ok((_, _, sequence, checksum)) => if sequence == id.sequence && checksum == id.checksum
            && enc == id.raw {
            seq![
                finding(
                    FindingCategory::SerializationIntegrity,
                    FindingSeverity::Info,
                    "Encode/decode roundtrip successful"@,
                    Some(id.raw),
                    Some(enc),
                ),
            ]
        } else {
            seq![
                finding(
                    FindingCategory::SerializationIntegrity,
                    FindingSeverity::Critical,
                    "Encode/decode roundtrip data mismatch"@,
                    Some(id.raw),
                    Some(enc),
                ),
            ]
        },
        Err(m) => seq![
            finding(
                FindingCategory::SerializationIntegrity,
                FindingSeverity::Critical,
                "Encode/decode roundtrip failed: "@ + ("Identification error: "@ + m),
                Some(id.raw),
                Some(enc),
            ),
        ],
    }
}

/// What the readability check reports: whether the human-readable text shows the batch
/// code, the four-digit sequence and the two-digit checksum.
pub open spec fn human_findings(id: IdModel) -> Seq<FindingModel> {
    let hr = human_readable(id);
    let batch = contains_text(hr, id.batch.batch_code);
    let sequence = contains_text(hr, padded_decimal(id.sequence as nat, 4));
    let checksum = contains_text(hr, padded_decimal(id.checksum as nat, 2));
    let expected = Some("batch, sequence, checksum present"@);
    if batch && sequence && checksum {
        seq![
            finding(
                FindingCategory::HumanReadability,
                FindingSeverity::Info,
                "Human-readable format contains all required fields"@,
                expected,
                Some(hr),
            ),
        ]
    } else {
        let names = unless(batch, "batch"@) + unless(sequence, "sequence"@) + unless(
            checksum,
            "checksum"@,
        );
        seq![
            finding(
                FindingCategory::HumanReadability,
                FindingSeverity::Warning,
                "Human-readable format missing fields: "@ + join(names, ", "@),
                expected,
                Some(hr),
            ),
        ]
    }
}

/// Some finding has the given severity.
pub open spec fn has_severity(fs: Seq<FindingModel>, sev: FindingSeverity) -> bool {
    exists|i: int| 0 <= i < fs.len() && #[trigger] fs[i].severity == sev
}

/// `Fail` when some finding is critical, else `Warn` when some is a warning, else `Pass`.
pub open spec fn status_of(fs: Seq<FindingModel>) -> AuditStatus {
    if has_severity(fs, FindingSeverity::Critical) {
        AuditStatus::Fail
    } else if has_severity(fs, FindingSeverity::Warning) {
        AuditStatus::Warn
    } else {
        AuditStatus::Pass
    }
}

/// How many findings have the given severity.
pub open spec fn count_severity(fs: Seq<FindingModel>, sev: FindingSeverity) -> nat
    decreases fs.len(),
{
    if fs.len() == 0 {
        0
    } else {
        count_severity(fs.drop_last(), sev) + if fs.last().severity == sev {
            1nat
        } else {
            0nat
        }
    }
}

pub open spec fn status_debug(s: AuditStatus) -> Seq<char> {
    match s {
        AuditStatus::Pass => "Pass"@,
        AuditStatus::Warn => "Warn"@,
        AuditStatus::Fail => "Fail"@,
    }
}

/// `Audit <status>: <n> info, <n> warnings, <n> critical findings`.
pub open spec fn summary_text(fs: Seq<FindingModel>, status: AuditStatus) -> Seq<char> {
    "Audit "@ + status_debug(status) + ": "@ + decimal(count_severity(fs, FindingSeverity::Info))
        + " info, "@ + decimal(count_severity(fs, FindingSeverity::Warning)) + " warnings, "@
        + decimal(count_severity(fs, FindingSeverity::Critical)) + " critical findings"@
}

/// Every finding of a full audit, in the order the checks run.
pub open spec fn id_findings(
    seen: Set<Seq<char>>,
    id: IdModel,
    expected_batch_code: Seq<char>,
    expected_location: LocationModel,
) -> Seq<FindingModel> {
    schema_findings(id.raw) + checksum_findings(id) + batch_findings(id, expected_batch_code)
        + location_findings(id.location, expected_location) + duplicate_findings(seen, id.raw)
        + serialization_findings(id) + human_findings(id)
}

/// Everything the full audit needs of its inputs: the checksum sum fits and no field is
/// sliced inside a character.
pub open spec fn auditable(id: IdModel, expected_batch_code: Seq<char>, expected_location: LocationModel) -> bool {
    &&& checksum_check_ok(id.raw)
    &&& cut_ok(expected_batch_code, 6)
    &&& location_comparable(id.location)
    &&& location_comparable(expected_location)
    &&& encoding_ok(id, standard_layout())
    &&& parse_ok(encoded_id(id, standard_layout()), standard_layout())
}

fn text(lit: &str) -> (s: String)
    ensures
        s@ == lit@,
{
    String::from_str(lit)
}

fn single(f: AuditFinding) -> (v: Vec<AuditFinding>)
    ensures
        models(v@) == seq![f@],
{
    let mut v = Vec::new();
    v.push(f);
    assert(models(v@) =~= seq![f@]);
    v
}

fn checksum_shown(c: u8) -> (s: String)
    ensures
        s@ == padded_decimal(c as nat, 2),
{
    let v = padded_decimal_exec(c as u64, 2);
    string_from_chars(v.as_slice())
}

fn surface_kind_exec(s: &TileSurface) -> (k: u8)
    ensures
        k == surface_kind(s@),
{
    match s {
        TileSurface::NoseCap => 0,
        TileSurface::WingLeadingEdge => 1,
        TileSurface::FuselageTop => 2,
        TileSurface::FuselageBottom => 3,
        TileSurface::VerticalStabilizer => 4,
        TileSurface::OmsPod => 5,
        TileSurface::EjectionSeat => 6,
        TileSurface::Custom(_) => 7,
    }
}

fn push_text(v: &mut Vec<char>, lit: &str)
    ensures
        final(v)@ == old(v)@ + lit@,
{
    let mut add = chars_of(lit);
    v.append(&mut add);
}

fn push_debug(v: &mut Vec<char>, s: &str)
    ensures
        final(v)@ == old(v)@ + str_debug(s@),
{
    let d = debug_str(s);
    push_text(v, d.as_str());
}

/// `format!("{:?}", location)`.
fn location_debug_exec(l: &TileLocation) -> (s: String)
    ensures
        s@ == location_debug(l@),
{
    let mut v: Vec<char> = Vec::new();
    push_text(&mut v, "TileLocation { orbiter_id: ");
    push_debug(&mut v, l.orbiter_id.as_str());
    push_text(&mut v, ", surface: ");
    match &l.surface {
        TileSurface::NoseCap => push_text(&mut v, "NoseCap"),
        TileSurface::WingLeadingEdge => push_text(&mut v, "WingLeadingEdge"),
        TileSurface::FuselageTop => push_text(&mut v, "FuselageTop"),
        TileSurface::FuselageBottom => push_text(&mut v, "FuselageBottom"),
        TileSurface::VerticalStabilizer => push_text(&mut v, "VerticalStabilizer"),
        TileSurface::OmsPod => push_text(&mut v, "OmsPod"),
        TileSurface::EjectionSeat => push_text(&mut v, "EjectionSeat"),
        TileSurface::Custom(c) => {
            push_text(&mut v, "Custom(");
            push_debug(&mut v, c.as_str());
            push_text(&mut v, ")");
        },
    }
    push_text(&mut v, ", panel_id: ");
    push_debug(&mut v, l.panel_id.as_str());
    push_text(&mut v, ", row: ");
    let mut row = decimal_exec(l.row as u64);
    v.append(&mut row);
    push_text(&mut v, ", column: ");
    let mut col = decimal_exec(l.column as u64);
    v.append(&mut col);
    push_text(&mut v, " }");
    assert(v@ =~= location_debug(l@));
    string_from_chars(v.as_slice())
}

fn push_unless(names: &mut Vec<Vec<char>>, matched: bool, name: &str)
    ensures
        final(names)@.map_values(|p: Vec<char>| p@) == old(names)@.map_values(|p: Vec<char>| p@)
            + unless(matched, name@),
{
    if !matched {
        names.push(chars_of(name));
        assert(final(names)@.map_values(|p: Vec<char>| p@) =~= old(names)@.map_values(
            |p: Vec<char>| p@,
        ) + unless(matched, name@));
    } else {
        assert(old(names)@.map_values(|p: Vec<char>| p@) + unless(matched, name@) =~= old(
            names,
        )@.map_values(|p: Vec<char>| p@));
    }
}

fn equal_text(a: &String, b: &String) -> (r: bool)
    ensures
        r == (a@ == b@),
{
    let x = chars_of(a.as_str());
    let y = chars_of(b.as_str());
    chars_equal(x.as_slice(), y.as_slice())
}

fn contains_str(hay: &String, needle: &[char]) -> (r: bool)
    ensures
        r == contains_text(hay@, needle@),
{
    let h = chars_of(hay.as_str());
    contains_exec(h.as_slice(), needle)
}

/// Appends the findings of `more` to `all`.
fn extend(all: &mut Vec<AuditFinding>, more: Vec<AuditFinding>)
    ensures
        models(final(all)@) == models(old(all)@) + models(more@),
{
    let mut m = more;
    all.append(&mut m);
    assert(models(final(all)@) =~= models(old(all)@) + models(more@));
}

fn count_exec(findings: &[AuditFinding], sev: FindingSeverity) -> (n: usize)
    ensures
        n == count_severity(models(findings@), sev),
{
    let ghost fs = models(findings@);
    let mut n: usize = 0;
    let mut i: usize = 0;
    while i < findings.len()
        invariant
            i <= findings@.len(),
            fs == models(findings@),
            n <= i,
            n == count_severity(fs.subrange(0, i as int), sev),
        decreases findings@.len() - i,
    {
        assert(fs.subrange(0, i + 1).drop_last() =~= fs.subrange(0, i as int));
        if findings[i].severity == sev {
            n = n + 1;
        }
        i = i + 1;
    }
    assert(fs.subrange(0, findings@.len() as int) =~= fs);
    n
}

impl AuditEngine {
    /// `Fail` on a critical finding, else `Warn` on a warning, else `Pass`.
    fn compute_status(findings: &[AuditFinding]) -> (s: AuditStatus)
        ensures
            s == status_of(models(findings@)),
    {
        let ghost fs = models(findings@);
        let mut critical = false;
        let mut warning = false;
        let mut i: usize = 0;
        while i < findings.len()
            invariant
                i <= findings@.len(),
                fs == models(findings@),
                critical == (exists|j: int| 0 <= j < i && #[trigger] fs[j].severity
                    == FindingSeverity::Critical),
                warning == (exists|j: int| 0 <= j < i && #[trigger] fs[j].severity
                    == FindingSeverity::Warning),
            decreases findings@.len() - i,
        {
            assert(fs[i as int].severity == findings@[i as int].severity);
            match findings[i].severity {
                FindingSeverity::Critical => {
                    critical = true;
                },
                FindingSeverity::Warning => {
                    warning = true;
                },
                FindingSeverity::Info => {},
            }
            i = i + 1;
        }
        if critical {
            AuditStatus::Fail
        } else if warning {
            AuditStatus::Warn
        } else {
            AuditStatus::Pass
        }
    }

    /// `Audit <status>: <n> info, <n> warnings, <n> critical findings`.
    fn build_summary(findings: &[AuditFinding], status: &AuditStatus) -> (s: String)
        ensures
            s@ == summary_text(models(findings@), *status),
    {
        let mut v: Vec<char> = Vec::new();
        push_text(&mut v, "Audit ");
        match *status {
            AuditStatus::Pass => push_text(&mut v, "Pass"),
            AuditStatus::Warn => push_text(&mut v, "Warn"),
            AuditStatus::Fail => push_text(&mut v, "Fail"),
        }
        push_text(&mut v, ": ");
        let mut a = decimal_exec(count_exec(findings, FindingSeverity::Info) as u64);
        v.append(&mut a);
        push_text(&mut v, " info, ");
        let mut b = decimal_exec(count_exec(findings, FindingSeverity::Warning) as u64);
        v.append(&mut b);
        push_text(&mut v, " warnings, ");
        let mut c = decimal_exec(count_exec(findings, FindingSeverity::Critical) as u64);
        v.append(&mut c);
        push_text(&mut v, " critical findings");
        assert(v@ =~= summary_text(models(findings@), *status));
        string_from_chars(v.as_slice())
    }

    /// An engine that has seen no identifier.
    pub fn new() -> (e: Self)
        ensures
            e@ == Set::<Seq<char>>::empty(),
    {
        AuditEngine { seen_ids: StringHashSet::new() }
    }

    /// Checks identifier text against the standard schema.
    pub fn audit_schema_compliance(&self, raw: &str) -> (r: Vec<AuditFinding>)
        ensures
            models(r@) == schema_findings(raw@),
    {
        let schema = IdSchema::default();
        let f = match validate_schema(raw, &schema) {
            Ok(true) => AuditFinding {
                category: FindingCategory::SchemaCompliance,
                severity: FindingSeverity::Info,
                message: text("Schema validation passed"),
                expected: Some(schema.format.clone()),
                actual: Some(String::from_str(raw)),
            },
            Ok(false) => AuditFinding {
                category: FindingCategory::SchemaCompliance,
                severity: FindingSeverity::Critical,
                message: text("Schema validation failed: format does not match BATCH-LOC-SEQ-CHECK"),
                expected: Some(schema.format.clone()),
                actual: Some(String::from_str(raw)),
            },
            Err(e) => {
                let mut m = text("Schema validation error: ");
                m.append(e.to_string().as_str());
                AuditFinding {
                    category: FindingCategory::SchemaCompliance,
                    severity: FindingSeverity::Critical,
                    message: m,
                    expected: Some(schema.format.clone()),
                    actual: Some(String::from_str(raw)),
                }
            },
        };
        single(f)
    }

    /// Checks that the identifier's checksum matches its text.
    pub fn audit_checksum(&self, id: &TileId) -> (r: Vec<AuditFinding>)
        requires
            checksum_check_ok(id.raw@),
        ensures
            models(r@) == checksum_findings(id@),
    {
        let f = match validate_checksum(id) {
            Ok(true) => AuditFinding {
                category: FindingCategory::ChecksumValidity,
                severity: FindingSeverity::Info,
                message: text("Checksum valid"),
                expected: Some(checksum_shown(id.checksum)),
                actual: Some(checksum_shown(id.checksum)),
            },
            Ok(false) => {
                let mut e = text("valid checksum for ");
                e.append(id.raw.as_str());
                AuditFinding {
                    category: FindingCategory::ChecksumValidity,
                    severity: FindingSeverity::Critical,
                    message: text("Checksum mismatch"),
                    expected: Some(e),
                    actual: Some(checksum_shown(id.checksum)),
                }
            },
            Err(e) => {
                let mut m = text("Checksum validation error: ");
                m.append(e.to_string().as_str());
                proof {
                    let lit = "Checksum validation error: "@;
                    let pre = "Identification error: "@;
                    let msg = "No delimiter found"@;
                    assert(lit + (pre + msg) =~= lit + pre + msg);
                }
                AuditFinding {
                    category: FindingCategory::ChecksumValidity,
                    severity: FindingSeverity::Critical,
                    message: m,
                    expected: Some(text("valid checksum")),
                    actual: Some(checksum_shown(id.checksum)),
                }
            },
        };
        single(f)
    }

    /// Compares the identifier's batch code with the expected one, both cut or padded to
    /// six bytes.
    pub fn audit_batch_consistency(&self, id: &TileId, expected: &TileBatch) -> (r: Vec<
        AuditFinding,
    >)
        requires
            cut_ok(expected.batch_code@, 6),
            cut_ok(id.batch.batch_code@, 6),
        ensures
            models(r@) == batch_findings(id@, expected.batch_code@),
    {
        let e = fit_width_exec(expected.batch_code.as_str(), 6);
        let a = fit_width_exec(id.batch.batch_code.as_str(), 6);
        let same = chars_equal(a.as_slice(), e.as_slice());
        let f = if same {
            AuditFinding {
                category: FindingCategory::BatchConsistency,
                severity: FindingSeverity::Info,
                message: text("Batch code matches expected"),
                expected: Some(string_from_chars(e.as_slice())),
                actual: Some(string_from_chars(a.as_slice())),
            }
        } else {
            AuditFinding {
                category: FindingCategory::BatchConsistency,
                severity: FindingSeverity::Critical,
                message: text("Batch code mismatch"),
                expected: Some(string_from_chars(e.as_slice())),
                actual: Some(string_from_chars(a.as_slice())),
            }
        };
        single(f)
    }

    /// Compares the identifier's location with the expected one.
    pub fn audit_location_consistency(&self, id: &TileId, expected: &TileLocation) -> (r: Vec<
        AuditFinding,
    >)
        requires
            location_comparable(id.location@),
            location_comparable(expected@),
        ensures
            models(r@) == location_findings(id.location@, expected@),
    {
        let ao = head_exec(id.location.orbiter_id.as_str(), 2);
        let eo = head_exec(expected.orbiter_id.as_str(), 2);
        let orbiter = chars_equal(ao.as_slice(), eo.as_slice());
        let ap = head_exec(id.location.panel_id.as_str(), 2);
        let ep = head_exec(expected.panel_id.as_str(), 2);
        let panel = chars_equal(ap.as_slice(), ep.as_slice());
        let row = id.location.row == expected.row;
        let column = id.location.column == expected.column;
        let surface = surface_kind_exec(&id.location.surface) == surface_kind_exec(
            &expected.surface,
        );
        let f = if orbiter && panel && row && column && surface {
            AuditFinding {
                category: FindingCategory::LocationConsistency,
                severity: FindingSeverity::Info,
                message: text("Location matches expected"),
                expected: Some(location_debug_exec(expected)),
                actual: Some(location_debug_exec(&id.location)),
            }
        } else {
            let mut names: Vec<Vec<char>> = Vec::new();
            push_unless(&mut names, orbiter, "orbiter");
            push_unless(&mut names, surface, "surface");
            push_unless(&mut names, panel, "panel");
            push_unless(&mut names, row, "row");
            push_unless(&mut names, column, "column");
            let sep = chars_of(", ");
            let joined = join_exec(&names, sep.as_slice());
            let mut m = chars_of("Location mismatch: ");
            let mut j = joined;
            m.append(&mut j);
            AuditFinding {
                category: FindingCategory::LocationConsistency,
                severity: FindingSeverity::Critical,
                message: string_from_chars(m.as_slice()),
                expected: Some(location_debug_exec(expected)),
                actual: Some(location_debug_exec(&id.location)),
            }
        };
        single(f)
    }

    /// Reports whether the identifier was seen before, and remembers it.
    pub fn audit_duplicate(&mut self, id: &TileId) -> (r: Vec<AuditFinding>)
        ensures
            models(r@) == duplicate_findings(old(self)@, id.raw@),
            final(self)@ == old(self)@.insert(id.raw@),
    {
        let f = if self.seen_ids.contains(id.raw.as_str()) {
            proof {
                assert(old(self)@.insert(id.raw@) =~= old(self)@);
            }
            AuditFinding {
                category: FindingCategory::DuplicateDetection,
                severity: FindingSeverity::Critical,
                message: text("Duplicate ID detected"),
                expected: Some(text("unique ID")),
                actual: Some(id.raw.clone()),
            }
        } else {
            let f = AuditFinding {
                category: FindingCategory::DuplicateDetection,
                severity: FindingSeverity::Info,
                message: text("ID is unique"),
                expected: Some(text("unique ID")),
                actual: Some(id.raw.clone()),
            };
            self.seen_ids.insert(id.raw.clone());
            f
        };
        single(f)
    }

    /// Compares an applied identifier's physical reading with its digital record, and the
    /// record with the identifier written in the standard schema.
    pub fn audit_application(&self, applied: &AppliedId) -> (r: Vec<AuditFinding>)
        requires
            encoding_ok(applied.id@, standard_layout()),
        ensures
            models(r@) == application_findings(
                applied.physical_reading@,
                applied.digital_record@,
                applied.id@,
            ),
    {
        let mut v: Vec<AuditFinding> = Vec::new();
        if equal_text(&applied.physical_reading, &applied.digital_record) {
            v.push(
                AuditFinding {
                    category: FindingCategory::ApplicationCorrectness,
                    severity: FindingSeverity::Info,
                    message: text("Physical reading matches digital record"),
                    expected: Some(applied.digital_record.clone()),
                    actual: Some(applied.physical_reading.clone()),
                },
            );
        } else {
            v.push(
                AuditFinding {
                    category: FindingCategory::ApplicationCorrectness,
                    severity: FindingSeverity::Critical,
                    message: text("Physical reading does not match digital record"),
                    expected: Some(applied.digital_record.clone()),
                    actual: Some(applied.physical_reading.clone()),
                },
            );
        }
        let schema = IdSchema::default();
        let id_raw = encode_id(&applied.id, &schema);
        if equal_text(&applied.digital_record, &id_raw) {
            v.push(
                AuditFinding {
                    category: FindingCategory::ApplicationCorrectness,
                    severity: FindingSeverity::Info,
                    message: text("Digital record matches encoded ID"),
                    expected: Some(id_raw),
                    actual: Some(applied.digital_record.clone()),
                },
            );
        } else {
            v.push(
                AuditFinding {
                    category: FindingCategory::ApplicationCorrectness,
                    severity: FindingSeverity::Warning,
                    message: text("Digital record does not match encoded ID"),
                    expected: Some(id_raw),
                    actual: Some(applied.digital_record.clone()),
                },
            );
        }
        assert(models(v@) =~= application_findings(
            applied.physical_reading@,
            applied.digital_record@,
            applied.id@,
        ));
        v
    }

    /// Writes the identifier in the standard schema, reads it back, and checks that the
    /// sequence, checksum and text survived.
    pub fn audit_serialization(&self, id: &TileId) -> (r: Vec<AuditFinding>)
        requires
            encoding_ok(id@, standard_layout()),
            parse_ok(encoded_id(id@, standard_layout()), standard_layout()),
        ensures
            models(r@) == serialization_findings(id@),
    {
        let schema = IdSchema::default();
        let encoded = encode_id(id, &schema);
        let f = match parse_id(encoded.as_str(), &schema) {
            Ok(parsed) => {
                if parsed.sequence == id.sequence && parsed.checksum == id.checksum
                    && equal_text(&parsed.raw, &id.raw) {
                    AuditFinding {
                        category: FindingCategory::SerializationIntegrity,
                        severity: FindingSeverity::Info,
                        message: text("Encode/decode roundtrip successful"),
                        expected: Some(id.raw.clone()),
                        actual: Some(parsed.raw),
                    }
                } else {
                    AuditFinding {
                        category: FindingCategory::SerializationIntegrity,
                        severity: FindingSeverity::Critical,
                        message: text("Encode/decode roundtrip data mismatch"),
                        expected: Some(id.raw.clone()),
                        actual: Some(parsed.raw),
                    }
                }
            },
            Err(e) => {
                let mut m = text("Encode/decode roundtrip failed: ");
                m.append(e.to_string().as_str());
                AuditFinding {
                    category: FindingCategory::SerializationIntegrity,
                    severity: FindingSeverity::Critical,
                    message: m,
                    expected: Some(id.raw.clone()),
                    actual: Some(encoded),
                }
            },
        };
        single(f)
    }

    /// Checks that the human-readable text shows the batch code, sequence and checksum.
    pub fn audit_human_readable(&self, id: &TileId) -> (r: Vec<AuditFinding>)
        ensures
            models(r@) == human_findings(id@),
    {
        let hr = to_human_readable(id);
        let batch_chars = chars_of(id.batch.batch_code.as_str());
        let contains_batch = contains_str(&hr, batch_chars.as_slice());
        let seq_chars = padded_decimal_exec(id.sequence as u64, 4);
        let contains_seq = contains_str(&hr, seq_chars.as_slice());
        let cs_chars = padded_decimal_exec(id.checksum as u64, 2);
        let contains_checksum = contains_str(&hr, cs_chars.as_slice());
        let f = if contains_batch && contains_seq && contains_checksum {
            AuditFinding {
                category: FindingCategory::HumanReadability,
                severity: FindingSeverity::Info,
                message: text("Human-readable format contains all required fields"),
                expected: Some(text("batch, sequence, checksum present")),
                actual: Some(hr),
            }
        } else {
            let mut names: Vec<Vec<char>> = Vec::new();
            push_unless(&mut names, contains_batch, "batch");
            push_unless(&mut names, contains_seq, "sequence");
            push_unless(&mut names, contains_checksum, "checksum");
            let sep = chars_of(", ");
            let mut joined = join_exec(&names, sep.as_slice());
            let mut m = chars_of("Human-readable format missing fields: ");
            m.append(&mut joined);
            AuditFinding {
                category: FindingCategory::HumanReadability,
                severity: FindingSeverity::Warning,
                message: string_from_chars(m.as_slice()),
                expected: Some(text("batch, sequence, checksum present")),
                actual: Some(hr),
            }
        };
        single(f)
    }

    /// Runs every check on an identifier, in order: schema, checksum, batch, location,
    /// duplicate (which remembers the identifier), round trip, readability; then rates the
    /// findings and summarises them.
    pub fn audit_id(
        &mut self,
        id: &TileId,
        expected_batch: &TileBatch,
        expected_location: &TileLocation,
    ) -> (r: IdAuditResult)
        requires
            auditable(id@, expected_batch.batch_code@, expected_location@),
        ensures
            models(r.findings@) == id_findings(
                old(self)@,
                id@,
                expected_batch.batch_code@,
                expected_location@,
            ),
            r.status == status_of(models(r.findings@)),
            r.summary@ == summary_text(models(r.findings@), r.status),
            r.audited_id@ == id.raw@,
            final(self)@ == old(self)@.insert(id.raw@),
    {
        let mut findings: Vec<AuditFinding> = Vec::new();
        extend(&mut findings, self.audit_schema_compliance(id.raw.as_str()));
        extend(&mut findings, self.audit_checksum(id));
        extend(&mut findings, self.audit_batch_consistency(id, expected_batch));
        extend(&mut findings, self.audit_location_consistency(id, expected_location));
        extend(&mut findings, self.audit_duplicate(id));
        extend(&mut findings, self.audit_serialization(id));
        extend(&mut findings, self.audit_human_readable(id));
        assert(models(findings@) =~= id_findings(
            old(self)@,
            id@,
            expected_batch.batch_code@,
            expected_location@,
        ));
        let status = Self::compute_status(findings.as_slice());
        let summary = Self::build_summary(findings.as_slice(), &status);
        IdAuditResult {
            status,
            findings,
            summary,
            audited_id: id.raw.clone(),
            timestamp: crate::now(),
        }
    }
}

impl Default for AuditEngine {
    fn default() -> (e: Self)
        ensures
            e@ == Set::<Seq<char>>::empty(),
    {
        Self::new()
    }
}

// ---------------------------------------------------------------------------------------------
// Laws
// ---------------------------------------------------------------------------------------------

proof fn lemma_contains_end(a: Seq<char>, x: Seq<char>)
    ensures
        contains_text(a + x, x),
{
    assert((a + x).subrange(a.len() as int, (a.len() + x.len()) as int) =~= x);
}

proof fn lemma_contains_more(a: Seq<char>, b: Seq<char>, x: Seq<char>)
    requires
        contains_text(a, x),
    ensures
        contains_text(a + b, x),
{
    let i = choose|i: int| 0 <= i && i + x.len() <= a.len() && #[trigger] a.subrange(i, i + x.len()) == x;
    assert((a + b).subrange(i, i + x.len()) =~= a.subrange(i, i + x.len()));
}

/// Law: the human-readable text of every identifier shows its batch code, its four-digit
/// sequence and its two-digit checksum, so the readability check always reports one `Info`
/// finding.
pub proof fn law_human_readable_is_complete(id: IdModel)
    ensures
        human_findings(id).len() == 1,
        human_findings(id)[0].severity == FindingSeverity::Info,
{
    let batch = id.batch.batch_code;
    let sq = padded_decimal(id.sequence as nat, 4);
    let cs = padded_decimal(id.checksum as nat, 2);
    let a = "Batch "@ + batch;
    let b = a + human_location(id);
    let c = b + ", Sequence "@;
    let d = c + sq;
    let e = d + ", Checksum "@;
    lemma_contains_end("Batch "@, batch);
    lemma_contains_more(a, human_location(id), batch);
    lemma_contains_more(b, ", Sequence "@, batch);
    lemma_contains_more(c, sq, batch);
    lemma_contains_more(d, ", Checksum "@, batch);
    lemma_contains_more(e, cs, batch);
    lemma_contains_end(c, sq);
    lemma_contains_more(d, ", Checksum "@, sq);
    lemma_contains_more(e, cs, sq);
    lemma_contains_end(e, cs);
}

/// Law: once the duplicate check has seen an identifier, checking it again reports a
/// critical duplicate; the first sighting of an identifier reports `Info`.
pub proof fn law_second_sighting_is_duplicate(seen: Set<Seq<char>>, raw: Seq<char>)
    ensures
        !seen.contains(raw) ==> duplicate_findings(seen, raw)[0].severity == FindingSeverity::Info,
        duplicate_findings(seen.insert(raw), raw)[0].severity == FindingSeverity::Critical,
        duplicate_findings(seen.insert(raw), raw)[0].category
            == FindingCategory::DuplicateDetection,
{
}

/// Law: an audit fails exactly when some finding is critical, warns exactly when none is
/// critical and some is a warning, and passes exactly when every finding is `Info`.
pub proof fn law_status_is_worst_severity(fs: Seq<FindingModel>)
    ensures
        status_of(fs) == AuditStatus::Fail <==> has_severity(fs, FindingSeverity::Critical),
        status_of(fs) == AuditStatus::Warn <==> (!has_severity(fs, FindingSeverity::Critical)
            && has_severity(fs, FindingSeverity::Warning)),
        status_of(fs) == AuditStatus::Pass <==> (forall|i: int|
            0 <= i < fs.len() ==> #[trigger] fs[i].severity == FindingSeverity::Info),
{
    if forall|i: int| 0 <= i < fs.len() ==> #[trigger] fs[i].severity == FindingSeverity::Info {
        assert(!has_severity(fs, FindingSeverity::Critical));
        assert(!has_severity(fs, FindingSeverity::Warning));
    }
    if status_of(fs) == AuditStatus::Pass {
        assert forall|i: int| 0 <= i < fs.len() implies #[trigger] fs[i].severity
            == FindingSeverity::Info by {
            match fs[i].severity {
                FindingSeverity::Info => {},
                FindingSeverity::Warning => {
                    assert(has_severity(fs, FindingSeverity::Warning));
                },
                FindingSeverity::Critical => {
                    assert(has_severity(fs, FindingSeverity::Critical));
                },
            }
        }
    }
}

/// Law: the summary counts every finding once: its info, warning and critical counts add up
/// to the number of findings.
pub proof fn law_summary_counts_every_finding(fs: Seq<FindingModel>)
    ensures
        count_severity(fs, FindingSeverity::Info) + count_severity(fs, FindingSeverity::Warning)
            + count_severity(fs, FindingSeverity::Critical) == fs.len(),
    decreases fs.len(),
{
    if fs.len() > 0 {
        law_summary_counts_every_finding(fs.drop_last());
    }
}

/// One finding, of severity `Info`.
pub open spec fn single_info(fs: Seq<FindingModel>) -> bool {
    fs.len() == 1 && fs[0].severity == FindingSeverity::Info
}

proof fn lemma_generated_schema_passes(b: BatchModel, l: LocationModel, sequence: nat)
    requires
        sequence <= 9999,
        generation_ok(b, l),
        fields_readable(b, l),
    ensures
        single_info(schema_findings(generated_raw(b, l, sequence))),
        parse_ok(generated_raw(b, l, sequence), standard_layout()),
{
    law_generated_id_reads_back(b, l, sequence);
}

proof fn lemma_generated_checksum_passes(b: BatchModel, l: LocationModel, sequence: nat)
    requires
        sequence <= 9999,
        generation_ok(b, l),
    ensures
        single_info(checksum_findings(generated_id(b, l, sequence))),
        checksum_check_ok(generated_raw(b, l, sequence)),
{
    law_generated_checksum_validates(b, l, sequence);
}

proof fn lemma_generated_round_trip_passes(b: BatchModel, l: LocationModel, sequence: nat)
    requires
        sequence <= 9999,
        generation_ok(b, l),
        fields_readable(b, l),
    ensures
        single_info(serialization_findings(generated_id(b, l, sequence))),
        encoding_ok(generated_id(b, l, sequence), standard_layout()),
        parse_ok(
            encoded_id(generated_id(b, l, sequence), standard_layout()),
            standard_layout(),
        ),
{
    law_generated_id_reads_back(b, l, sequence);
    law_generated_id_encodes_to_its_text(b, l, sequence);
    assert(encoded_id(generated_id(b, l, sequence), standard_layout()) == generated_raw(b, l, sequence));
}

proof fn lemma_own_fields_pass(seen: Set<Seq<char>>, id: IdModel)
    requires
        !seen.contains(id.raw),
    ensures
        single_info(batch_findings(id, id.batch.batch_code)),
        single_info(location_findings(id.location, id.location)),
        single_info(duplicate_findings(seen, id.raw)),
{
}

proof fn lemma_all_info_passes(
    s1: Seq<FindingModel>,
    s2: Seq<FindingModel>,
    s3: Seq<FindingModel>,
    s4: Seq<FindingModel>,
    s5: Seq<FindingModel>,
    s6: Seq<FindingModel>,
    s7: Seq<FindingModel>,
)
    requires
        single_info(s1),
        single_info(s2),
        single_info(s3),
        single_info(s4),
        single_info(s5),
        single_info(s6),
        single_info(s7),
    ensures
        status_of(s1 + s2 + s3 + s4 + s5 + s6 + s7) == AuditStatus::Pass,
{
    let fs = s1 + s2 + s3 + s4 + s5 + s6 + s7;
    assert(fs =~= seq![s1[0], s2[0], s3[0], s4[0], s5[0], s6[0], s7[0]]);
    assert forall|i: int| 0 <= i < fs.len() implies #[trigger] fs[i].severity
        == FindingSeverity::Info by {}
    law_status_is_worst_severity(fs);
}

/// Law: a freshly generated identifier, audited against the batch and location it was made
/// from by an engine that has not seen it, meets every requirement of the audit and passes
/// it, whenever its fields can be told apart when read back (`fields_readable`).
pub proof fn law_generated_id_passes_audit(
    seen: Set<Seq<char>>,
    b: BatchModel,
    l: LocationModel,
    sequence: nat,
)
    requires
        sequence <= 9999,
        generation_ok(b, l),
        fields_readable(b, l),
        !seen.contains(generated_raw(b, l, sequence)),
    ensures
        auditable(generated_id(b, l, sequence), b.batch_code, l),
        status_of(id_findings(seen, generated_id(b, l, sequence), b.batch_code, l))
            == AuditStatus::Pass,
{
    let id = generated_id(b, l, sequence);
    lemma_generated_schema_passes(b, l, sequence);
    lemma_generated_checksum_passes(b, l, sequence);
    lemma_generated_round_trip_passes(b, l, sequence);
    law_human_readable_is_complete(id);
    lemma_own_fields_pass(seen, id);
    lemma_all_info_passes(
        schema_findings(id.raw),
        checksum_findings(id),
        batch_findings(id, b.batch_code),
        location_findings(id.location, l),
        duplicate_findings(seen, id.raw),
        serialization_findings(id),
        human_findings(id),
    );
}

/// Law: auditing an identifier the engine has already seen always fails: the duplicate
/// check reports it as critical, whatever the other checks find.
pub proof fn law_repeat_audit_fails(
    seen: Set<Seq<char>>,
    id: IdModel,
    expected_batch_code: Seq<char>,
    expected_location: LocationModel,
)
    requires
        seen.contains(id.raw),
    ensures
        status_of(id_findings(seen, id, expected_batch_code, expected_location))
            == AuditStatus::Fail,
{
    let fs = id_findings(seen, id, expected_batch_code, expected_location);
    let front = schema_findings(id.raw) + checksum_findings(id) + batch_findings(
        id,
        expected_batch_code,
    ) + location_findings(id.location, expected_location);
    assert(front.len() == 4);
    let dup = duplicate_findings(seen, id.raw);
    assert(fs == front + dup + serialization_findings(id) + human_findings(id));
    assert(fs[4] == dup[0]);
    assert(fs.len() > 4);
    assert(fs[4].severity == FindingSeverity::Critical);
    assert(has_severity(fs, FindingSeverity::Critical));
}

/// Two locations as the location check compares them: orbiter and panel by their first two
/// bytes, surfaces by variant, row and column exactly.
pub open spec fn same_place(a: LocationModel, b: LocationModel) -> bool {
    &&& head(a.orbiter_id, 2) == head(b.orbiter_id, 2)
    &&& head(a.panel_id, 2) == head(b.panel_id, 2)
    &&& surface_kind(a.surface) == surface_kind(b.surface)
    &&& a.row == b.row
    &&& a.column == b.column
}

/// Law: the location check gives exactly one finding; it is critical when the locations
/// differ in orbiter, panel, surface, row or column, and informational when they agree, and
/// it shows both locations. A location that differs only in its column is reported as
/// "Location mismatch: column".
pub proof fn law_location_mismatch_is_critical(actual: LocationModel, expected: LocationModel)
    ensures
        location_findings(actual, expected).len() == 1,
        location_findings(actual, expected)[0].category == FindingCategory::LocationConsistency,
        location_findings(actual, expected)[0].expected == Some(location_debug(expected)),
        location_findings(actual, expected)[0].actual == Some(location_debug(actual)),
        !same_place(actual, expected) ==> location_findings(actual, expected)[0].severity
            == FindingSeverity::Critical,
        same_place(actual, expected) ==> location_findings(actual, expected)[0].severity
            == FindingSeverity::Info,
        ({
            let only_column = LocationModel { column: expected.column, ..actual };
            same_place(only_column, expected) && actual.column != expected.column
        }) ==> location_findings(actual, expected)[0].message == "Location mismatch: column"@,
{
    let only_column = LocationModel { column: expected.column, ..actual };
    if same_place(only_column, expected) && actual.column != expected.column {
        let names = unless(true, "orbiter"@) + unless(true, "surface"@) + unless(true, "panel"@)
            + unless(true, "row"@) + unless(false, "column"@);
        assert(names =~= seq!["column"@]);
        assert(join(names, ", "@) == "column"@);
        reveal_strlit("Location mismatch: ");
        reveal_strlit("column");
        reveal_strlit("Location mismatch: column");
        assert("Location mismatch: "@ + "column"@ =~= "Location mismatch: column"@);
    }
}

/// Law: a full audit of an identifier whose location is not the expected one (in orbiter,
/// panel, surface, row or column) fails, whatever the other checks find.
pub proof fn law_location_mismatch_fails_audit(
    seen: Set<Seq<char>>,
    id: IdModel,
    expected_batch_code: Seq<char>,
    expected_location: LocationModel,
)
    requires
        !same_place(id.location, expected_location),
    ensures
        status_of(id_findings(seen, id, expected_batch_code, expected_location))
            == AuditStatus::Fail,
{
    let fs = id_findings(seen, id, expected_batch_code, expected_location);
    law_location_mismatch_is_critical(id.location, expected_location);
    let front = schema_findings(id.raw) + checksum_findings(id) + batch_findings(
        id,
        expected_batch_code,
    );
    assert(front.len() == 3);
    let loc = location_findings(id.location, expected_location);
    assert(fs == front + loc + duplicate_findings(seen, id.raw) + serialization_findings(id)
        + human_findings(id));
    assert(fs[3] == loc[0]);
    assert(fs[3].severity == FindingSeverity::Critical);
    assert(has_severity(fs, FindingSeverity::Critical));
}

} // verus!
