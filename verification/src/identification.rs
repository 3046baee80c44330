//! Tile identifiers: the text `BATCH-LOCATION-SEQUENCE-CHECKSUM`, its Luhn-style
//! checksum, and the encoding of a tile's location as eight characters.
use vstd::prelude::*;
use vstd::utf8::*;
use vstd::string::*;
use crate::text::{
    all_digits, all_digits_exec, byte_len, byte_len_exec, chars_of, cut_ok, decimal, digit_char,
    digit_value, digits_value, fit_width, fit_width_exec, free_of, is_digit, lemma_ascii_byte_len,
    lemma_boundary_concat, lemma_decimal_len, lemma_digit_char, lemma_encode_concat,
    lemma_fit_two_bytes, lemma_fit_width_len, lemma_padded_decimal, lemma_split_concat,
    lemma_split_free, lemma_split_join, lemma_digits_ascii, padded_decimal, padded_decimal_exec,
    parse_decimal, pow10, split_exec, split_on, string_from_chars, join,
};
use crate::{
    BatchModel, IdModel, IdSchema, Layout, LocationModel, SurfaceModel, TileBatch, TileError,
    TileId, TileLocation, TileSurface, standard_layout,
};

verus! {

broadcast use vstd::utf8::group_utf8_lib;

// ---------------------------------------------------------------------------------------------
// Checksum
// ---------------------------------------------------------------------------------------------

/// The decimal digits occurring in `s`, in order, as numbers.
pub open spec fn digits_of(s: Seq<char>) -> Seq<u8>
    decreases s.len(),
{
    if s.len() == 0 {
        Seq::empty()
    } else if is_digit(s.last()) {
        digits_of(s.drop_last()).push(digit_value(s.last()) as u8)
    } else {
        digits_of(s.drop_last())
    }
}

/// A digit's contribution to the Luhn sum: doubled (minus 9 above 9) when `double`.
pub open spec fn luhn_term(d: u8, double: bool) -> nat {
    if double {
        if 2 * d > 9 {
            (2 * d - 9) as nat
        } else {
            (2 * d) as nat
        }
    } else {
        d as nat
    }
}

/// Luhn sum of the digits from index `i` on; the last digit is not doubled, the one
/// before it is, and so on alternately.
pub open spec fn luhn_from(d: Seq<u8>, i: int) -> nat
    decreases d.len() - i,
{
    if i < 0 || i >= d.len() {
        0
    } else {
        luhn_term(d[i], (d.len() - 1 - i) % 2 == 1) + luhn_from(d, i + 1)
    }
}

pub open spec fn luhn_sum(d: Seq<u8>) -> nat {
    luhn_from(d, 0)
}

/// The two-digit check value for a digit sequence.
pub open spec fn check_value(d: Seq<u8>) -> u8 {
    ((100 - luhn_sum(d) % 100) % 100) as u8
}

/// The checksum of a text: the check value of its decimal digits.
pub open spec fn checksum_of(s: Seq<char>) -> u8 {
    check_value(digits_of(s))
}

/// The Luhn sum of the digits of `s` fits the byte-sized accumulator of the checksum.
pub open spec fn checksum_fits(s: Seq<char>) -> bool {
    luhn_sum(digits_of(s)) <= 255
}

pub open spec fn all_small(d: Seq<u8>) -> bool {
    forall|i: int| 0 <= i < d.len() ==> #[trigger] d[i] <= 9
}

proof fn lemma_digits_of_props(s: Seq<char>)
    ensures
        digits_of(s).len() <= s.len(),
        all_small(digits_of(s)),
    decreases s.len(),
{
    if s.len() > 0 {
        lemma_digits_of_props(s.drop_last());
    }
}

proof fn lemma_luhn_bound(d: Seq<u8>, i: int)
    requires
        all_small(d),
        0 <= i <= d.len(),
    ensures
        luhn_from(d, i) <= 9 * (d.len() - i),
    decreases d.len() - i,
{
    if i < d.len() {
        lemma_luhn_bound(d, i + 1);
    }
}

proof fn lemma_luhn_mono(d: Seq<u8>, i: int, j: int)
    requires
        0 <= i <= j,
    ensures
        luhn_from(d, j) <= luhn_from(d, i),
    decreases j - i,
{
    if i < j {
        lemma_luhn_mono(d, i + 1, j);
    }
}

proof fn lemma_luhn_term_injective(a: u8, b: u8, double: bool)
    requires
        a <= 9,
        b <= 9,
        a != b,
    ensures
        luhn_term(a, double) != luhn_term(b, double),
        luhn_term(a, double) <= 9,
        luhn_term(b, double) <= 9,
{
}

/// Two digit sequences that differ at index `k` alone: their Luhn sums from `i` on differ by
/// the difference of the two terms at `k` when `i <= k`, and agree when `i > k`.
proof fn lemma_luhn_one_change(d1: Seq<u8>, d2: Seq<u8>, k: int, i: int)
    requires
        d1.len() == d2.len(),
        0 <= k < d1.len(),
        forall|m: int| 0 <= m < d1.len() && m != k ==> d1[m] == d2[m],
        0 <= i <= d1.len(),
    ensures
        i > k ==> luhn_from(d1, i) == luhn_from(d2, i),
        i <= k ==> luhn_from(d1, i) - luhn_from(d2, i) == luhn_term(
            d1[k],
            (d1.len() - 1 - k) % 2 == 1,
        ) - luhn_term(d2[k], (d1.len() - 1 - k) % 2 == 1),
    decreases d1.len() - i,
{
    if i < d1.len() {
        lemma_luhn_one_change(d1, d2, k, i + 1);
    }
}

/// The digits of two texts that differ in one position, holding a digit in both: the digit
/// sequences differ at one index alone, the returned one.
proof fn lemma_digits_one_change(s1: Seq<char>, s2: Seq<char>, j: int) -> (k: int)
    requires
        s1.len() == s2.len(),
        0 <= j < s1.len(),
        is_digit(s1[j]),
        is_digit(s2[j]),
        s1[j] != s2[j],
        forall|i: int| 0 <= i < s1.len() && i != j ==> s1[i] == s2[i],
    ensures
        digits_of(s1).len() == digits_of(s2).len(),
        0 <= k < digits_of(s1).len(),
        digits_of(s1)[k] != digits_of(s2)[k],
        forall|m: int| 0 <= m < digits_of(s1).len() && m != k ==> digits_of(s1)[m] == digits_of(s2)[m],
    decreases s1.len(),
{
    let n = s1.len();
    if j == n - 1 {
        assert(s1.drop_last() =~= s2.drop_last());
        digits_of(s1.drop_last()).len() as int
    } else {
        assert forall|i: int| 0 <= i < n - 1 && i != j implies s1.drop_last()[i] == s2.drop_last()[i] by {
            assert(s1[i] == s2[i]);
        }
        let k = lemma_digits_one_change(s1.drop_last(), s2.drop_last(), j);
        assert(s1.last() == s2.last());
        k
    }
}

/// Law: changing one digit of a text, leaving every other character alone, changes its
/// checksum: the Luhn check value catches every single-digit error.
pub proof fn law_one_digit_change_changes_checksum(s1: Seq<char>, s2: Seq<char>, j: int)
    requires
        s1.len() == s2.len(),
        0 <= j < s1.len(),
        is_digit(s1[j]),
        is_digit(s2[j]),
        s1[j] != s2[j],
        forall|i: int| 0 <= i < s1.len() && i != j ==> s1[i] == s2[i],
    ensures
        checksum_of(s1) != checksum_of(s2),
{
    let k = lemma_digits_one_change(s1, s2, j);
    let d1 = digits_of(s1);
    let d2 = digits_of(s2);
    lemma_digits_of_props(s1);
    lemma_digits_of_props(s2);
    let double = (d1.len() - 1 - k) % 2 == 1;
    lemma_luhn_term_injective(d1[k], d2[k], double);
    lemma_luhn_one_change(d1, d2, k, 0);
    let a = luhn_sum(d1);
    let b = luhn_sum(d2);
    assert(a != b);
    assert(a - b <= 9 && b - a <= 9);
    assert(a % 100 != b % 100);
}

/// A text with at most 28 characters always has a checksum that fits.
pub proof fn lemma_checksum_fits_short(s: Seq<char>)
    requires
        s.len() <= 28,
    ensures
        checksum_fits(s),
{
    lemma_digits_of_props(s);
    lemma_luhn_bound(digits_of(s), 0);
}

/// The decimal digits of `s`, as numbers.
fn extract_digits(s: &[char]) -> (r: Vec<u8>)
    ensures
        r@ == digits_of(s@),
{
    let mut r: Vec<u8> = Vec::new();
    let mut i: usize = 0;
    while i < s.len()
        invariant
            i <= s@.len(),
            r@ == digits_of(s@.subrange(0, i as int)),
        decreases s@.len() - i,
    {
        proof {
            assert(s@.subrange(0, i + 1).drop_last() =~= s@.subrange(0, i as int));
        }
        let c = s[i];
        if '0' <= c && c <= '9' {
            r.push((c as u32 - '0' as u32) as u8);
        }
        i = i + 1;
    }
    assert(s@.subrange(0, s@.len() as int) =~= s@);
    r
}

/// Luhn check value of a digit sequence.
fn luhn_checksum(digits: &[u8]) -> (r: u8)
    requires
        all_small(digits@),
        luhn_sum(digits@) <= 255,
    ensures
        r == check_value(digits@),
{
    let n = digits.len();
    let mut sum: u8 = 0;
    let mut double = false;
    let mut i: usize = n;
    while i > 0
        invariant
            n == digits@.len(),
            i <= n,
            all_small(digits@),
            luhn_sum(digits@) <= 255,
            sum as nat == luhn_from(digits@, i as int),
            double == ((n - i) % 2 == 1),
        decreases i,
    {
        i = i - 1;
        let d = digits[i];
        let mut value = d;
        if double {
            value = value * 2;
            if value > 9 {
                value = value - 9;
            }
        }
        proof {
            lemma_luhn_mono(digits@, 0, i as int);
            assert(luhn_from(digits@, i as int) == luhn_term(d, double) + luhn_from(digits@, i + 1));
        }
        sum = sum + value;
        double = !double;
    }
    (100 - (sum % 100)) % 100
}

/// The checksum of a text: the Luhn check value of its decimal digits.
pub fn calculate_checksum_str(s: &str) -> (r: u8)
    requires
        checksum_fits(s@),
    ensures
        r == checksum_of(s@),
{
    let chars = chars_of(s);
    let digits = extract_digits(chars.as_slice());
    proof {
        lemma_digits_of_props(s@);
    }
    luhn_checksum(digits.as_slice())
}

// ---------------------------------------------------------------------------------------------
// Location codes
// ---------------------------------------------------------------------------------------------

/// The two-character code of a surface in a location code.
pub open spec fn surface_code(s: SurfaceModel) -> Seq<char> {
    match s {
        SurfaceModel::NoseCap => seq!['N', 'C'],
        SurfaceModel::WingLeadingEdge => seq!['W', 'L'],
        SurfaceModel::FuselageTop => seq!['F', 'T'],
        SurfaceModel::FuselageBottom => seq!['F', 'B'],
        SurfaceModel::VerticalStabilizer => seq!['V', 'S'],
        SurfaceModel::OmsPod => seq!['O', 'M'],
        SurfaceModel::EjectionSeat => seq!['E', 'S'],
        SurfaceModel::Custom(c) => fit_width(c, 2),
    }
}

/// The surface a two-character code stands for.
pub open spec fn surface_from_code(c: Seq<char>) -> SurfaceModel {
    if c == seq!['N', 'C'] {
        SurfaceModel::NoseCap
    } else if c == seq!['W', 'L'] {
        SurfaceModel::WingLeadingEdge
    } else if c == seq!['F', 'T'] {
        SurfaceModel::FuselageTop
    } else if c == seq!['F', 'B'] {
        SurfaceModel::FuselageBottom
    } else if c == seq!['V', 'S'] {
        SurfaceModel::VerticalStabilizer
    } else if c == seq!['O', 'M'] {
        SurfaceModel::OmsPod
    } else if c == seq!['E', 'S'] {
        SurfaceModel::EjectionSeat
    } else {
        SurfaceModel::Custom(c)
    }
}

/// A row or column as one digit; values above 9 are written as `9`.
pub open spec fn grid_char(v: u8) -> char {
    if v <= 9 {
        digit_char(v as nat)
    } else {
        '9'
    }
}

/// The location code: orbiter (2), surface (2), panel (2), row (1), column (1).
pub open spec fn location_code(l: LocationModel) -> Seq<char> {
    fit_width(l.orbiter_id, 2) + surface_code(l.surface) + fit_width(l.panel_id, 2) + seq![
        grid_char(l.row),
        grid_char(l.column),
    ]
}

/// Cutting the location's text fields to two bytes splits no character.
pub open spec fn location_encodable(l: LocationModel) -> bool {
    &&& cut_ok(l.orbiter_id, 2)
    &&& cut_ok(l.panel_id, 2)
    &&& (l.surface matches SurfaceModel::Custom(c) ==> cut_ok(c, 2))
}

fn append_literal(v: &mut Vec<char>, lit: &str)
    ensures
        final(v)@ == old(v)@ + lit@,
{
    let mut add = chars_of(lit);
    v.append(&mut add);
}

fn grid_char_exec(v: u8) -> (c: char)
    ensures
        c == grid_char(v),
{
    if v <= 9 {
        crate::text::digit_char_exec(v as u64)
    } else {
        '9'
    }
}

/// The eight-character code of a location.
pub fn encode_location(location: &TileLocation) -> (r: String)
    requires
        location_encodable(location@),
    ensures
        r@ == location_code(location@),
{
    let mut v = fit_width_exec(location.orbiter_id.as_str(), 2);
    match &location.surface {
        TileSurface::NoseCap => append_literal(&mut v, "NC"),
        TileSurface::WingLeadingEdge => append_literal(&mut v, "WL"),
        TileSurface::FuselageTop => append_literal(&mut v, "FT"),
        TileSurface::FuselageBottom => append_literal(&mut v, "FB"),
        TileSurface::VerticalStabilizer => append_literal(&mut v, "VS"),
        TileSurface::OmsPod => append_literal(&mut v, "OM"),
        TileSurface::EjectionSeat => append_literal(&mut v, "ES"),
        TileSurface::Custom(s) => {
            let mut c = fit_width_exec(s.as_str(), 2);
            v.append(&mut c);
        },
    }
    let mut p = fit_width_exec(location.panel_id.as_str(), 2);
    v.append(&mut p);
    v.push(grid_char_exec(location.row));
    v.push(grid_char_exec(location.column));
    proof {
        reveal_strlit("NC");
        reveal_strlit("WL");
        reveal_strlit("FT");
        reveal_strlit("FB");
        reveal_strlit("VS");
        reveal_strlit("OM");
        reveal_strlit("ES");
        assert(v@ =~= location_code(location@));
    }
    string_from_chars(v.as_slice())
}

pub open spec fn is_digit_byte(b: u8) -> bool {
    48 <= b <= 57
}

/// Slicing an eight-byte location code at bytes 2, 4 and 6 splits no character.
pub open spec fn decode_ok(code: Seq<char>) -> bool {
    let b = encode_utf8(code);
    b.len() == 8 ==> is_char_boundary(b, 2) && is_char_boundary(b, 4) && is_char_boundary(b, 6)
}

/// The location an eight-byte code stands for, or the reason it stands for none.
pub open spec fn decoded_location(code: Seq<char>) -> Result<LocationModel, Seq<char>> {
    let b = encode_utf8(code);
    if b.len() != 8 {
        Err("Location code must be 8 characters"@)
    } else if !(is_digit_byte(b[6]) && is_digit_byte(b[7])) {
        Err("Invalid row or column in location code"@)
    } else {
        Ok(
            LocationModel {
                orbiter_id: decode_utf8(b.subrange(0, 2)) + seq!['0', '0'],
                surface: surface_from_code(decode_utf8(b.subrange(2, 4))),
                panel_id: decode_utf8(b.subrange(4, 6)),
                row: (b[6] - 48) as u8,
                column: (b[7] - 48) as u8,
            },
        )
    }
}

fn is_pair(c: &Vec<char>, x: char, y: char) -> (r: bool)
    ensures
        r == (c@ == seq![x, y]),
{
    if c.len() == 2 && c[0] == x && c[1] == y {
        assert(c@ =~= seq![x, y]);
        true
    } else {
        false
    }
}

fn surface_from_chars(c: &Vec<char>) -> (s: TileSurface)
    ensures
        s@ == surface_from_code(c@),
{
    if is_pair(c, 'N', 'C') {
        TileSurface::NoseCap
    } else if is_pair(c, 'W', 'L') {
        TileSurface::WingLeadingEdge
    } else if is_pair(c, 'F', 'T') {
        TileSurface::FuselageTop
    } else if is_pair(c, 'F', 'B') {
        TileSurface::FuselageBottom
    } else if is_pair(c, 'V', 'S') {
        TileSurface::VerticalStabilizer
    } else if is_pair(c, 'O', 'M') {
        TileSurface::OmsPod
    } else if is_pair(c, 'E', 'S') {
        TileSurface::EjectionSeat
    } else {
        TileSurface::Custom(string_from_chars(c.as_slice()))
    }
}

fn identification_error(msg: &str) -> (e: TileError)
    ensures
        e matches TileError::IdentificationError(m) && m@ == msg@,
{
    TileError::IdentificationError(String::from_str(msg))
}

/// Reads a location back from its eight-byte code. The orbiter comes back as its two
/// code characters followed by `00`.
pub fn decode_location(code: &str) -> (r: Result<TileLocation, TileError>)
    requires
        decode_ok(code@),
    ensures
        match decoded_location(code@) {
            Ok(m) => r matches Ok(l) && l@ == m,
            Err(msg) => r matches Err(TileError::IdentificationError(e)) && e@ == msg,
        },
{
    let bytes = code.as_bytes();
    if bytes.len() != 8 {
        return Err(identification_error("Location code must be 8 characters"));
    }
    let ghost b = encode_utf8(code@);
    proof {
        crate::text::lemma_boundary_in_suffix(b, 2, 4);
        crate::text::lemma_boundary_in_suffix(b, 4, 6);
        assert(b.subrange(2, 8).subrange(2, 6) =~= b.subrange(4, 8));
    }
    let (orb, rest1) = code.split_at(2);
    assert(rest1.spec_bytes() =~= b.subrange(2, 8));
    let (sur, rest2) = rest1.split_at(2);
    assert(rest2.spec_bytes() =~= b.subrange(4, 8));
    proof {
        assert(b.subrange(4, 8).subrange(0, 2) =~= b.subrange(4, 6));
        crate::text::lemma_boundary_in_suffix(b, 4, 6);
    }
    let (pan, _rest3) = rest2.split_at(2);
    let row_b = bytes[6];
    let col_b = bytes[7];
    if !(48 <= row_b && row_b <= 57 && 48 <= col_b && col_b <= 57) {
        return Err(identification_error("Invalid row or column in location code"));
    }
    proof {
        assert(orb@ == decode_utf8(encode_utf8(orb@)));
        assert(sur@ == decode_utf8(encode_utf8(sur@)));
        assert(pan@ == decode_utf8(encode_utf8(pan@)));
        assert(sur.spec_bytes() =~= b.subrange(2, 4));
        assert(pan.spec_bytes() =~= b.subrange(4, 6));
    }
    let mut orbiter = chars_of(orb);
    orbiter.push('0');
    orbiter.push('0');
    let surface_chars = chars_of(sur);
    let panel_chars = chars_of(pan);
    let location = TileLocation {
        orbiter_id: string_from_chars(orbiter.as_slice()),
        surface: surface_from_chars(&surface_chars),
        panel_id: string_from_chars(panel_chars.as_slice()),
        row: row_b - 48,
        column: col_b - 48,
    };
    assert(location@.orbiter_id =~= decode_utf8(b.subrange(0, 2)) + seq!['0', '0']);
    Ok(location)
}

// ---------------------------------------------------------------------------------------------
// Identifier text
// ---------------------------------------------------------------------------------------------

/// `raw` splits at the schema's delimiter into exactly four fields of the schema's byte widths,
/// the last two made of decimal digits.
pub open spec fn schema_ok(raw: Seq<char>, lay: Layout) -> bool {
    let parts = split_on(raw, lay.delimiter);
    &&& parts.len() == 4
    &&& byte_len(parts[0]) == lay.batch
    &&& byte_len(parts[1]) == lay.location
    &&& byte_len(parts[2]) == lay.sequence
    &&& byte_len(parts[3]) == lay.checksum
    &&& all_digits(parts[2])
    &&& all_digits(parts[3])
}

/// Checks identifier text against a schema; the answer is always `Ok`.
pub fn validate_schema(raw: &str, schema: &IdSchema) -> (r: Result<bool, TileError>)
    ensures
        r matches Ok(b) && b == schema_ok(raw@, schema.layout()),
{
    let chars = chars_of(raw);
    let parts = split_exec(&chars, schema.delimiter);
    if parts.len() != 4 {
        return Ok(false);
    }
    if byte_len_exec(parts[0].as_slice()) != schema.batch_code_length {
        return Ok(false);
    }
    if byte_len_exec(parts[1].as_slice()) != schema.location_code_length {
        return Ok(false);
    }
    if byte_len_exec(parts[2].as_slice()) != schema.sequence_length {
        return Ok(false);
    }
    if byte_len_exec(parts[3].as_slice()) != schema.checksum_length {
        return Ok(false);
    }
    if !all_digits_exec(parts[2].as_slice()) {
        return Ok(false);
    }
    if !all_digits_exec(parts[3].as_slice()) {
        return Ok(false);
    }
    Ok(true)
}

/// The text before the checksum of a generated identifier.
pub open spec fn generated_prefix(b: BatchModel, l: LocationModel, sequence: nat) -> Seq<char> {
    fit_width(b.batch_code, 6) + seq!['-'] + location_code(l) + seq!['-'] + padded_decimal(sequence, 4)
}

/// The text of a generated identifier.
pub open spec fn generated_raw(b: BatchModel, l: LocationModel, sequence: nat) -> Seq<char> {
    let p = generated_prefix(b, l, sequence);
    p + seq!['-'] + padded_decimal(checksum_of(p) as nat, 2)
}

/// The identifier `generate_id` makes from a batch, a location and a sequence number.
pub open spec fn generated_id(b: BatchModel, l: LocationModel, sequence: nat) -> IdModel {
    IdModel {
        raw: generated_raw(b, l, sequence),
        batch: b,
        location: l,
        sequence: sequence as u32,
        checksum: checksum_of(generated_prefix(b, l, sequence)),
    }
}

/// The batch code and the location can be cut to their field widths without splitting a
/// character.
pub open spec fn generation_ok(b: BatchModel, l: LocationModel) -> bool {
    cut_ok(b.batch_code, 6) && location_encodable(l)
}

proof fn lemma_location_code_len(l: LocationModel)
    requires
        location_encodable(l),
    ensures
        location_code(l).len() <= 8,
{
    lemma_fit_width_len(l.orbiter_id, 2);
    lemma_fit_width_len(l.panel_id, 2);
    if let SurfaceModel::Custom(c) = l.surface {
        lemma_fit_width_len(c, 2);
    }
}

proof fn lemma_generated_prefix_fits(b: BatchModel, l: LocationModel, sequence: nat)
    requires
        generation_ok(b, l),
        sequence <= 9999,
    ensures
        generated_prefix(b, l, sequence).len() <= 20,
        checksum_fits(generated_prefix(b, l, sequence)),
{
    lemma_fit_width_len(b.batch_code, 6);
    lemma_location_code_len(l);
    assert(pow10(4) == 10000) by {
        reveal_with_fuel(pow10, 5);
    }
    lemma_decimal_len(sequence, 4);
    lemma_checksum_fits_short(generated_prefix(b, l, sequence));
}

fn copy_surface(s: &TileSurface) -> (r: TileSurface)
    ensures
        r@ == s@,
{
    match s {
        TileSurface::NoseCap => TileSurface::NoseCap,
        TileSurface::WingLeadingEdge => TileSurface::WingLeadingEdge,
        TileSurface::FuselageTop => TileSurface::FuselageTop,
        TileSurface::FuselageBottom => TileSurface::FuselageBottom,
        TileSurface::VerticalStabilizer => TileSurface::VerticalStabilizer,
        TileSurface::OmsPod => TileSurface::OmsPod,
        TileSurface::EjectionSeat => TileSurface::EjectionSeat,
        TileSurface::Custom(c) => TileSurface::Custom(c.clone()),
    }
}

pub(crate) fn copy_location(l: &TileLocation) -> (r: TileLocation)
    ensures
        r@ == l@,
{
    TileLocation {
        orbiter_id: l.orbiter_id.clone(),
        surface: copy_surface(&l.surface),
        panel_id: l.panel_id.clone(),
        row: l.row,
        column: l.column,
    }
}

pub(crate) fn copy_batch(b: &TileBatch) -> (r: TileBatch)
    ensures
        r@ == b@,
{
    TileBatch {
        batch_code: b.batch_code.clone(),
        production_date: b.production_date,
        oven_id: b.oven_id.clone(),
        operator_id: b.operator_id.clone(),
    }
}

pub(crate) fn copy_id(id: &TileId) -> (r: TileId)
    ensures
        r@ == id@,
{
    TileId {
        raw: id.raw.clone(),
        batch: copy_batch(&id.batch),
        location: copy_location(&id.location),
        sequence: id.sequence,
        checksum: id.checksum,
    }
}

/// Makes the identifier of a tile from its batch, its location and a sequence number of at
/// most four digits.
pub fn generate_id(batch: &TileBatch, location: &TileLocation, sequence: u32) -> (r: Result<
    TileId,
    TileError,
>)
    requires
        sequence <= 9999 ==> generation_ok(batch@, location@),
    ensures
        sequence > 9999 ==> (r matches Err(TileError::IdentificationError(m)) && m@
            == "Sequence must be 4 digits or less"@),
        sequence <= 9999 ==> (r matches Ok(id) && id@ == (IdModel {
            raw: generated_raw(batch@, location@, sequence as nat),
            batch: batch@,
            location: location@,
            sequence,
            checksum: checksum_of(generated_prefix(batch@, location@, sequence as nat)),
        })),
{
    if sequence > 9999 {
        return Err(identification_error("Sequence must be 4 digits or less"));
    }
    proof {
        lemma_generated_prefix_fits(batch@, location@, sequence as nat);
    }
    let mut prefix = fit_width_exec(batch.batch_code.as_str(), 6);
    prefix.push('-');
    let loc_code = encode_location(location);
    let mut loc_chars = chars_of(loc_code.as_str());
    prefix.append(&mut loc_chars);
    prefix.push('-');
    let mut seq_chars = padded_decimal_exec(sequence as u64, 4);
    prefix.append(&mut seq_chars);
    assert(prefix@ =~= generated_prefix(batch@, location@, sequence as nat));
    let checksum = calculate_checksum_str(string_from_chars(prefix.as_slice()).as_str());
    let mut raw = prefix;
    raw.push('-');
    let mut cs_chars = padded_decimal_exec(checksum as u64, 2);
    raw.append(&mut cs_chars);
    assert(raw@ =~= generated_raw(batch@, location@, sequence as nat));
    Ok(
        TileId {
            raw: string_from_chars(raw.as_slice()),
            batch: copy_batch(batch),
            location: copy_location(location),
            sequence,
            checksum,
        },
    )
}

/// The text before the checksum when an identifier is written in a schema.
pub open spec fn encoded_prefix(id: IdModel, lay: Layout) -> Seq<char> {
    fit_width(id.batch.batch_code, lay.batch) + seq![lay.delimiter]
        + fit_width(location_code(id.location), lay.location) + seq![
        lay.delimiter,
    ] + padded_decimal(id.sequence as nat, lay.sequence)
}

/// The text of an identifier written in a schema.
pub open spec fn encoded_id(id: IdModel, lay: Layout) -> Seq<char> {
    let p = encoded_prefix(id, lay);
    p + seq![lay.delimiter] + padded_decimal(
        checksum_of(p) as nat,
        lay.checksum,
    )
}

/// Writing `id` in `schema` cuts no character apart and its checksum fits.
pub open spec fn encoding_ok(id: IdModel, lay: Layout) -> bool {
    &&& cut_ok(id.batch.batch_code, lay.batch)
    &&& location_encodable(id.location)
    &&& cut_ok(location_code(id.location), lay.location)
    &&& checksum_fits(encoded_prefix(id, lay))
}

/// Writes an identifier in a schema, recomputing its checksum.
pub fn encode_id(id: &TileId, schema: &IdSchema) -> (r: String)
    requires
        encoding_ok(id@, schema.layout()),
    ensures
        r@ == encoded_id(id@, schema.layout()),
{
    let mut prefix = fit_width_exec(id.batch.batch_code.as_str(), schema.batch_code_length);
    prefix.push(schema.delimiter);
    let loc_code = encode_location(&id.location);
    let mut loc_chars = fit_width_exec(loc_code.as_str(), schema.location_code_length);
    prefix.append(&mut loc_chars);
    prefix.push(schema.delimiter);
    let mut seq_chars = padded_decimal_exec(id.sequence as u64, schema.sequence_length);
    prefix.append(&mut seq_chars);
    assert(prefix@ =~= encoded_prefix(id@, schema.layout()));
    let checksum = calculate_checksum_str(string_from_chars(prefix.as_slice()).as_str());
    let mut out = prefix;
    out.push(schema.delimiter);
    let mut cs_chars = padded_decimal_exec(checksum as u64, schema.checksum_length);
    out.append(&mut cs_chars);
    assert(out@ =~= encoded_id(id@, schema.layout()));
    string_from_chars(out.as_slice())
}

/// Index of the last `-` in `s`.
pub open spec fn last_dash(s: Seq<char>) -> Option<int>
    decreases s.len(),
{
    if s.len() == 0 {
        None
    } else if s.last() == '-' {
        Some(s.len() - 1)
    } else {
        last_dash(s.drop_last())
    }
}

proof fn lemma_last_dash_range(s: Seq<char>)
    ensures
        last_dash(s) matches Some(i) ==> 0 <= i < s.len(),
    decreases s.len(),
{
    if s.len() > 0 {
        lemma_last_dash_range(s.drop_last());
    }
}

/// The checksum of an identifier's text holds when the text has a `-` whose prefix's
/// checksum fits.
pub open spec fn checksum_check_ok(raw: Seq<char>) -> bool {
    last_dash(raw) matches Some(i) ==> checksum_fits(raw.subrange(0, i))
}

/// Whether the identifier's checksum matches the text before the last `-` of its text.
pub fn validate_checksum(id: &TileId) -> (r: Result<bool, TileError>)
    requires
        checksum_check_ok(id.raw@),
    ensures
        last_dash(id.raw@) is None ==> (r matches Err(TileError::IdentificationError(m)) && m@
            == "No delimiter found"@),
        last_dash(id.raw@) matches Some(i) ==> (r matches Ok(b) && b == (id.checksum
            == checksum_of(id.raw@.subrange(0, i)))),
{
    let chars = chars_of(id.raw.as_str());
    let mut i: usize = chars.len();
    assert(chars@.subrange(0, chars@.len() as int) =~= chars@);
    while i > 0
        invariant
            i <= chars@.len(),
            chars@ == id.raw@,
            checksum_check_ok(id.raw@),
            last_dash(id.raw@) == last_dash(chars@.subrange(0, i as int)),
        decreases i,
    {
        assert(chars@.subrange(0, i as int).drop_last() =~= chars@.subrange(0, i - 1));
        if chars[i - 1] == '-' {
            let mut prefix = chars;
            prefix.truncate(i - 1);
            assert(prefix@ =~= id.raw@.subrange(0, i - 1));
            let expected = calculate_checksum_str(string_from_chars(prefix.as_slice()).as_str());
            return Ok(id.checksum == expected);
        }
        i = i - 1;
    }
    assert(chars@.subrange(0, 0) =~= Seq::<char>::empty());
    Err(identification_error("No delimiter found"))
}

/// The text a parsed identifier's checksum covers: its first three fields with delimiters.
pub open spec fn parts_prefix(parts: Seq<Seq<char>>, d: char) -> Seq<char> {
    parts[0] + seq![d] + parts[1] + seq![d] + parts[2]
}

/// What reading identifier text yields: its batch code, location, sequence number and
/// checksum, or the message of the first check it fails.
pub open spec fn parse_outcome(raw: Seq<char>, lay: Layout) -> Result<
    (Seq<char>, LocationModel, u32, u8),
    Seq<char>,
> {
    let parts = split_on(raw, lay.delimiter);
    if !schema_ok(raw, lay) {
        Err("Schema validation failed"@)
    } else if !(parts[2].len() > 0 && digits_value(parts[2]) <= u32::MAX) {
        Err("Invalid sequence number"@)
    } else if !(parts[3].len() > 0 && digits_value(parts[3]) <= 255) {
        Err("Invalid checksum"@)
    } else if digits_value(parts[3]) != checksum_of(parts_prefix(parts, lay.delimiter)) {
        Err("Checksum mismatch"@)
    } else {
        match decoded_location(parts[1]) {
            Err(m) => Err(m),
            Ok(l) => Ok((parts[0], l, digits_value(parts[2]) as u32, digits_value(parts[3]) as u8)),
        }
    }
}

/// Reading `raw` neither overflows the checksum sum nor slices a location code inside a
/// character.
pub open spec fn parse_ok(raw: Seq<char>, lay: Layout) -> bool {
    let parts = split_on(raw, lay.delimiter);
    (schema_ok(raw, lay) && parts[2].len() > 0 && digits_value(parts[2]) <= u32::MAX
        && parts[3].len() > 0 && digits_value(parts[3]) <= 255) ==> {
        &&& checksum_fits(parts_prefix(parts, lay.delimiter))
        &&& decode_ok(parts[1])
    }
}

/// Reads identifier text written in a schema. The batch's production date is the moment of
/// reading and its oven and operator are empty.
pub fn parse_id(raw: &str, schema: &IdSchema) -> (r: Result<TileId, TileError>)
    requires
        parse_ok(raw@, schema.layout()),
    ensures
        match parse_outcome(raw@, schema.layout()) {
            Ok((batch_code, location, sequence, checksum)) => r matches Ok(id) && {
                &&& id.raw@ == raw@
                &&& id.batch.batch_code@ == batch_code
                &&& id.batch.oven_id@ == Seq::<char>::empty()
                &&& id.batch.operator_id@ == Seq::<char>::empty()
                &&& id.location@ == location
                &&& id.sequence == sequence
                &&& id.checksum == checksum
            },
            Err(m) => r matches Err(TileError::IdentificationError(e)) && e@ == m,
        },
{
    match validate_schema(raw, schema) {
        Ok(true) => {},
        _ => {
            return Err(identification_error("Schema validation failed"));
        },
    }
    let chars = chars_of(raw);
    let parts = split_exec(&chars, schema.delimiter);
    if parts.len() != 4 {
        return Err(identification_error("Invalid ID format"));
    }
    let sequence = match parse_decimal(&parts[2], 4294967295) {
        Some(v) => v as u32,
        None => {
            return Err(identification_error("Invalid sequence number"));
        },
    };
    let checksum = match parse_decimal(&parts[3], 255) {
        Some(v) => v as u8,
        None => {
            return Err(identification_error("Invalid checksum"));
        },
    };
    let mut prefix: Vec<char> = Vec::new();
    let mut p0 = parts[0].clone();
    let mut p1 = parts[1].clone();
    let mut p2 = parts[2].clone();
    prefix.append(&mut p0);
    prefix.push(schema.delimiter);
    prefix.append(&mut p1);
    prefix.push(schema.delimiter);
    prefix.append(&mut p2);
    let ghost sparts = split_on(raw@, schema.delimiter);
    assert(prefix@ =~= parts_prefix(sparts, schema.delimiter));
    let expected_checksum = calculate_checksum_str(string_from_chars(prefix.as_slice()).as_str());
    if checksum != expected_checksum {
        return Err(identification_error("Checksum mismatch"));
    }
    let loc_code = string_from_chars(parts[1].as_slice());
    let location = match decode_location(loc_code.as_str()) {
        Ok(l) => l,
        Err(e) => {
            return Err(e);
        },
    };
    let batch = TileBatch {
        batch_code: string_from_chars(parts[0].as_slice()),
        production_date: crate::now(),
        oven_id: String::new(),
        operator_id: String::new(),
    };
    Ok(TileId { raw: String::from_str(raw), batch, location, sequence, checksum })
}

/// How a surface is written in human-readable text.
pub open spec fn surface_display(s: SurfaceModel) -> Seq<char> {
    match s {
        SurfaceModel::NoseCap => seq!['N', 'C'],
        SurfaceModel::WingLeadingEdge => seq!['W', 'L', 'E'],
        SurfaceModel::FuselageTop => seq!['F', 'T'],
        SurfaceModel::FuselageBottom => seq!['F', 'B'],
        SurfaceModel::VerticalStabilizer => seq!['V', 'S'],
        SurfaceModel::OmsPod => seq!['O', 'M', 'S'],
        SurfaceModel::EjectionSeat => seq!['E', 'S'],
        SurfaceModel::Custom(c) => c,
    }
}

/// The location as human-readable text shows it: `, Location orbiter-surface-panel-row-column`.
pub open spec fn human_location(id: IdModel) -> Seq<char> {
    ", Location "@ + id.location.orbiter_id + seq!['-'] + surface_display(id.location.surface)
        + seq!['-'] + id.location.panel_id + seq!['-'] + decimal(id.location.row as nat) + seq![
        '-',
    ] + decimal(id.location.column as nat)
}

/// The human-readable rendering of an identifier.
pub open spec fn human_readable(id: IdModel) -> Seq<char> {
    "Batch "@ + id.batch.batch_code + human_location(id) + ", Sequence "@ + padded_decimal(
        id.sequence as nat,
        4,
    ) + ", Checksum "@ + padded_decimal(id.checksum as nat, 2)
}

/// Appends the text a surface shows.
pub fn push_surface_display(v: &mut Vec<char>, s: &TileSurface)
    ensures
        final(v)@ == old(v)@ + surface_display(s@),
{
    proof {
        reveal_strlit("NC");
        reveal_strlit("WLE");
        reveal_strlit("FT");
        reveal_strlit("FB");
        reveal_strlit("VS");
        reveal_strlit("OMS");
        reveal_strlit("ES");
    }
    match s {
        TileSurface::NoseCap => append_literal(v, "NC"),
        TileSurface::WingLeadingEdge => append_literal(v, "WLE"),
        TileSurface::FuselageTop => append_literal(v, "FT"),
        TileSurface::FuselageBottom => append_literal(v, "FB"),
        TileSurface::VerticalStabilizer => append_literal(v, "VS"),
        TileSurface::OmsPod => append_literal(v, "OMS"),
        TileSurface::EjectionSeat => append_literal(v, "ES"),
        TileSurface::Custom(c) => append_literal(v, c.as_str()),
    }
}

/// `Batch …, Location orbiter-surface-panel-row-column, Sequence NNNN, Checksum NN`.
pub fn to_human_readable(id: &TileId) -> (r: String)
    ensures
        r@ == human_readable(id@),
{
    let mut v: Vec<char> = Vec::new();
    append_literal(&mut v, "Batch ");
    append_literal(&mut v, id.batch.batch_code.as_str());
    append_literal(&mut v, ", Location ");
    append_literal(&mut v, id.location.orbiter_id.as_str());
    v.push('-');
    push_surface_display(&mut v, &id.location.surface);
    v.push('-');
    append_literal(&mut v, id.location.panel_id.as_str());
    v.push('-');
    let mut row = crate::text::decimal_exec(id.location.row as u64);
    v.append(&mut row);
    v.push('-');
    let mut col = crate::text::decimal_exec(id.location.column as u64);
    v.append(&mut col);
    append_literal(&mut v, ", Sequence ");
    let mut sq = padded_decimal_exec(id.sequence as u64, 4);
    v.append(&mut sq);
    append_literal(&mut v, ", Checksum ");
    let mut cs = padded_decimal_exec(id.checksum as u64, 2);
    v.append(&mut cs);
    assert(v@ =~= human_readable(id@));
    string_from_chars(v.as_slice())
}

/// An ASCII letter or digit.
pub open spec fn ascii_alphanumeric(c: char) -> bool {
    ('0' <= c && c <= '9') || ('a' <= c && c <= 'z') || ('A' <= c && c <= 'Z')
}

/// Whether `char::is_alphanumeric` holds of a character (Unicode letters and numbers).
pub uninterp spec fn char_is_alphanumeric(c: char) -> bool;

/// `char::is_alphanumeric`. Its result is named `char_is_alphanumeric`; for ASCII
/// characters it holds exactly of the letters and the digits. Which other characters are
/// letters or numbers follows the Unicode tables and is not stated.
#[verifier::external_body]
fn is_alphanumeric(c: char) -> (r: bool)
    ensures
        r == char_is_alphanumeric(c),
        (c as u32) < 128 ==> (r <==> ascii_alphanumeric(c)),
{
    c.is_alphanumeric()
}

/// The letters and numbers of `s`, in order.
pub open spec fn alphanumerics(s: Seq<char>) -> Seq<char>
    decreases s.len(),
{
    if s.len() == 0 {
        Seq::empty()
    } else if char_is_alphanumeric(s.last()) {
        alphanumerics(s.drop_last()).push(s.last())
    } else {
        alphanumerics(s.drop_last())
    }
}

/// The identifier's text with everything but letters and numbers removed.
pub fn to_machine_readable(id: &TileId) -> (r: String)
    ensures
        r@ == alphanumerics(id.raw@),
        forall|i: int|
            0 <= i < r@.len() && (r@[i] as u32) < 128 ==> ascii_alphanumeric(#[trigger] r@[i]),
{
    let chars = chars_of(id.raw.as_str());
    let mut out: Vec<char> = Vec::new();
    let mut i: usize = 0;
    while i < chars.len()
        invariant
            i <= chars@.len(),
            out@ == alphanumerics(chars@.subrange(0, i as int)),
            forall|k: int|
                0 <= k < out@.len() && (out@[k] as u32) < 128 ==> ascii_alphanumeric(
                    #[trigger] out@[k],
                ),
        decreases chars@.len() - i,
    {
        assert(chars@.subrange(0, i + 1).drop_last() =~= chars@.subrange(0, i as int));
        if is_alphanumeric(chars[i]) {
            out.push(chars[i]);
        }
        i = i + 1;
    }
    assert(chars@.subrange(0, chars@.len() as int) =~= chars@);
    string_from_chars(out.as_slice())
}

/// Every location code takes eight bytes and can be sliced at bytes 2, 4 and 6.
#[verifier::rlimit(40)]
pub proof fn lemma_location_code_bytes(l: LocationModel)
    requires
        location_encodable(l),
    ensures
        byte_len(location_code(l)) == 8,
        decode_ok(location_code(l)),
{
    let o = fit_width(l.orbiter_id, 2);
    let s = surface_code(l.surface);
    let p = fit_width(l.panel_id, 2);
    let g = seq![grid_char(l.row), grid_char(l.column)];
    lemma_fit_two_bytes(l.orbiter_id);
    lemma_fit_two_bytes(l.panel_id);
    match l.surface {
        SurfaceModel::Custom(c) => {
            lemma_fit_two_bytes(c);
        },
        _ => {
            assert(is_ascii_chars(s));
            lemma_ascii_byte_len(s);
        },
    }
    if l.row <= 9 {
        lemma_digit_char(l.row as nat);
    }
    if l.column <= 9 {
        lemma_digit_char(l.column as nat);
    }
    assert(is_ascii_chars(g));
    lemma_ascii_byte_len(g);
    let lc = location_code(l);
    assert(lc =~= o + (s + (p + g)));
    assert(lc =~= (o + s) + (p + g));
    assert(lc =~= (o + s + p) + g);
    lemma_encode_concat(o, s + (p + g));
    lemma_encode_concat(s, p + g);
    lemma_encode_concat(p, g);
    lemma_encode_concat(o, s);
    lemma_encode_concat(o + s, p);
    lemma_boundary_concat(o, s + (p + g));
    lemma_boundary_concat(o + s, p + g);
    lemma_boundary_concat(o + s + p, g);
}

/// The smaller of a grid value and 9.
pub open spec fn clamp_grid(v: u8) -> u8 {
    if v <= 9 {
        v
    } else {
        9
    }
}

/// Law: reading back a location's code gives the location as the code keeps it: the first
/// two bytes of the orbiter followed by `00`, the surface its code stands for (the surface
/// itself, unless it is a custom one), the panel cut or padded to two bytes, and row and
/// column capped at 9.
pub proof fn law_location_code_reads_back(l: LocationModel)
    requires
        location_encodable(l),
    ensures
        decoded_location(location_code(l)) matches Ok(d) && {
            &&& d.orbiter_id == fit_width(l.orbiter_id, 2) + seq!['0', '0']
            &&& d.surface == surface_from_code(surface_code(l.surface))
            &&& (!(l.surface is Custom) ==> d.surface == l.surface)
            &&& d.panel_id == fit_width(l.panel_id, 2)
            &&& d.row == clamp_grid(l.row)
            &&& d.column == clamp_grid(l.column)
        },
{
    let o = fit_width(l.orbiter_id, 2);
    let s = surface_code(l.surface);
    let p = fit_width(l.panel_id, 2);
    let g = seq![grid_char(l.row), grid_char(l.column)];
    let lc = location_code(l);
    lemma_location_code_bytes(l);
    lemma_location_code_grid_bytes(l);
    lemma_fit_two_bytes(l.orbiter_id);
    lemma_fit_two_bytes(l.panel_id);
    match l.surface {
        SurfaceModel::Custom(c) => {
            lemma_fit_two_bytes(c);
        },
        _ => {
            assert(is_ascii_chars(s));
            lemma_ascii_byte_len(s);
        },
    }
    if l.row <= 9 {
        lemma_digit_char(l.row as nat);
    }
    if l.column <= 9 {
        lemma_digit_char(l.column as nat);
    }
    assert(is_ascii_chars(g));
    lemma_ascii_byte_len(g);
    assert(lc =~= o + (s + (p + g)));
    lemma_encode_concat(o, s + (p + g));
    lemma_encode_concat(s, p + g);
    lemma_encode_concat(p, g);
    let b = encode_utf8(lc);
    assert(b =~= encode_utf8(o) + (encode_utf8(s) + (encode_utf8(p) + encode_utf8(g))));
    assert(b.subrange(0, 2) =~= encode_utf8(o));
    assert(b.subrange(2, 4) =~= encode_utf8(s));
    assert(b.subrange(4, 6) =~= encode_utf8(p));
    assert(b[6] == encode_utf8(g)[0]);
    assert(b[7] == encode_utf8(g)[1]);
    assert(decode_utf8(encode_utf8(o)) == o);
    assert(decode_utf8(encode_utf8(s)) == s);
    assert(decode_utf8(encode_utf8(p)) == p);
}

// ---------------------------------------------------------------------------------------------
// Reading back what was generated
// ---------------------------------------------------------------------------------------------

/// The fields of a generated identifier can be told apart when read back: the batch field
/// and the location code hold no `-`, and the batch field takes 6 bytes.
pub open spec fn fields_readable(b: BatchModel, l: LocationModel) -> bool {
    let bp = fit_width(b.batch_code, 6);
    let lc = location_code(l);
    &&& free_of(bp, '-')
    &&& free_of(lc, '-')
    &&& byte_len(bp) == 6
}

proof fn lemma_location_code_grid_bytes(l: LocationModel)
    requires
        byte_len(location_code(l)) == 8,
    ensures
        is_digit_byte(encode_utf8(location_code(l))[6]),
        is_digit_byte(encode_utf8(location_code(l))[7]),
{
    let lc = location_code(l);
    let head = fit_width(l.orbiter_id, 2) + surface_code(l.surface) + fit_width(l.panel_id, 2);
    let tail = seq![grid_char(l.row), grid_char(l.column)];
    assert(lc =~= head + tail);
    lemma_encode_concat(head, tail);
    if l.row <= 9 {
        lemma_digit_char(l.row as nat);
    }
    if l.column <= 9 {
        lemma_digit_char(l.column as nat);
    }
    assert(is_ascii_chars(tail));
    lemma_ascii_byte_len(tail);
    assert(encode_utf8(lc)[6] == encode_utf8(tail)[0]);
    assert(encode_utf8(lc)[7] == encode_utf8(tail)[1]);
}

/// Law: an identifier made by `generate_id` reads back under the standard schema with the
/// batch field, the location (as its code keeps it, see `law_location_code_reads_back`), the
/// sequence number and the checksum it was made with, whenever its fields can be told apart
/// (`fields_readable`); reading it neither overflows nor slices inside a character.
pub proof fn law_generated_id_reads_back(
    b: BatchModel,
    l: LocationModel,
    sequence: nat,
)
    requires
        sequence <= 9999,
        generation_ok(b, l),
        fields_readable(b, l),
    ensures
        parse_ok(generated_raw(b, l, sequence), standard_layout()),
        parse_outcome(generated_raw(b, l, sequence), standard_layout()) matches Ok((bc, loc, sq, cs)) && {
            &&& bc == fit_width(b.batch_code, 6)
            &&& decoded_location(location_code(l)) == Ok::<LocationModel, Seq<char>>(loc)
            &&& sq == sequence
            &&& cs == checksum_of(generated_prefix(b, l, sequence))
        },
{
    let bp = fit_width(b.batch_code, 6);
    let lc = location_code(l);
    let sp = padded_decimal(sequence, 4);
    let prefix = generated_prefix(b, l, sequence);
    let cs = checksum_of(prefix);
    let cp = padded_decimal(cs as nat, 2);
    let raw = generated_raw(b, l, sequence);
    assert(crate::text::pow10(4) == 10000) by {
        reveal_with_fuel(crate::text::pow10, 5);
    }
    assert(crate::text::pow10(2) == 100) by {
        reveal_with_fuel(crate::text::pow10, 3);
    }
    lemma_padded_decimal(sequence, 4);
    lemma_padded_decimal(cs as nat, 2);
    lemma_generated_prefix_fits(b, l, sequence);
    lemma_location_code_bytes(l);
    // the four fields
    assert(free_of(sp, '-')) by {
        assert forall|i: int| 0 <= i < sp.len() implies #[trigger] sp[i] != '-' by {
            assert(is_digit(sp[i]));
        }
    }
    assert(free_of(cp, '-')) by {
        assert forall|i: int| 0 <= i < cp.len() implies #[trigger] cp[i] != '-' by {
            assert(is_digit(cp[i]));
        }
    }
    assert(raw =~= bp + seq!['-'] + (lc + seq!['-'] + (sp + seq!['-'] + cp)));
    lemma_split_concat(bp, lc + seq!['-'] + (sp + seq!['-'] + cp), '-');
    lemma_split_concat(lc, sp + seq!['-'] + cp, '-');
    lemma_split_concat(sp, cp, '-');
    lemma_split_free(bp, '-');
    lemma_split_free(lc, '-');
    lemma_split_free(sp, '-');
    lemma_split_free(cp, '-');
    let parts = split_on(raw, '-');
    assert(parts =~= seq![bp, lc, sp, cp]);
    assert(schema_ok(raw, standard_layout()));
    assert(parts_prefix(parts, '-') =~= prefix);
    lemma_location_code_bytes(l);
    lemma_location_code_grid_bytes(l);
}

proof fn lemma_last_dash_concat(a: Seq<char>, b: Seq<char>)
    requires
        free_of(b, '-'),
    ensures
        last_dash(a + seq!['-'] + b) == Some(a.len() as int),
    decreases b.len(),
{
    if b.len() == 0 {
        assert((a + seq!['-'] + b).last() == '-');
    } else {
        assert((a + seq!['-'] + b).drop_last() =~= a + seq!['-'] + b.drop_last());
        lemma_last_dash_concat(a, b.drop_last());
    }
}

/// A run of `k` decimal digits writes a number below `10^k`.
proof fn lemma_digits_value_below(s: Seq<char>)
    requires
        all_digits(s),
    ensures
        digits_value(s) < pow10(s.len()),
    decreases s.len(),
{
    if s.len() > 0 {
        assert(all_digits(s.drop_last()));
        lemma_digits_value_below(s.drop_last());
        assert(is_digit(s.last()));
    }
}

/// Four dash-separated fields, the last made of digits: the last `-` of the text closes
/// the first three fields and opens the fourth.
proof fn lemma_checksum_field(raw: Seq<char>)
    requires
        split_on(raw, '-').len() == 4,
        all_digits(split_on(raw, '-')[3]),
    ensures
        ({
            let parts = split_on(raw, '-');
            let i = parts_prefix(parts, '-').len() as int;
            &&& last_dash(raw) == Some(i)
            &&& raw.subrange(0, i) == parts_prefix(parts, '-')
            &&& raw.subrange(i + 1, raw.len() as int) == parts[3]
        }),
{
    let parts = split_on(raw, '-');
    let prefix = parts_prefix(parts, '-');
    lemma_split_join(raw, '-');
    let d = seq!['-'];
    let p1 = seq![parts[0]];
    let p2 = seq![parts[0], parts[1]];
    let p3 = seq![parts[0], parts[1], parts[2]];
    assert(p2.drop_last() =~= p1);
    assert(p3.drop_last() =~= p2);
    assert(parts.drop_last() =~= p3);
    assert(join(p1, d) == parts[0]);
    assert(join(p2, d) == parts[0] + d + parts[1]);
    assert(join(p3, d) == parts[0] + d + parts[1] + d + parts[2]);
    assert(join(p3, d) =~= prefix);
    assert(raw =~= prefix + seq!['-'] + parts[3]);
    assert(free_of(parts[3], '-')) by {
        assert forall|k: int| 0 <= k < parts[3].len() implies #[trigger] parts[3][k] != '-' by {
            assert(is_digit(parts[3][k]));
        }
    }
    lemma_last_dash_concat(prefix, parts[3]);
    assert(raw.subrange(0, prefix.len() as int) =~= prefix);
    assert(raw.subrange(prefix.len() as int + 1, raw.len() as int) =~= parts[3]);
}

/// Law: identifier text is read only when the number after its last `-` is the checksum of
/// the text before it; the checksum read is that number.
pub proof fn law_parse_checks_checksum(raw: Seq<char>, lay: Layout)
    requires
        lay.delimiter == '-',
    ensures
        parse_outcome(raw, lay) matches Ok((_batch, _location, _sequence, cs)) ==> {
            &&& last_dash(raw) matches Some(i)
            &&& cs == checksum_of(raw.subrange(0, i))
            &&& cs as nat == digits_value(raw.subrange(i + 1, raw.len() as int))
        },
{
    if parse_outcome(raw, lay) is Ok {
        lemma_checksum_field(raw);
    }
}

/// Law: text in the standard schema whose number after the last `-` is not the checksum of
/// the text before it is refused with "Checksum mismatch".
pub proof fn law_checksum_mismatch_is_refused(raw: Seq<char>)
    requires
        schema_ok(raw, standard_layout()),
        last_dash(raw) matches Some(i) && digits_value(raw.subrange(i + 1, raw.len() as int))
            != checksum_of(raw.subrange(0, i)),
    ensures
        parse_outcome(raw, standard_layout()) == Err::<(Seq<char>, LocationModel, u32, u8), Seq<
            char,
        >>("Checksum mismatch"@),
{
    let parts = split_on(raw, '-');
    lemma_checksum_field(raw);
    lemma_digits_ascii(parts[2]);
    lemma_ascii_byte_len(parts[2]);
    lemma_digits_ascii(parts[3]);
    lemma_ascii_byte_len(parts[3]);
    lemma_digits_value_below(parts[2]);
    lemma_digits_value_below(parts[3]);
    assert(pow10(4) == 10000 && pow10(2) == 100) by {
        reveal_with_fuel(pow10, 5);
    }
}

/// Law: the checksum of a generated identifier always validates: its text has a last `-`,
/// and the text before it has the checksum the identifier carries.
pub proof fn law_generated_checksum_validates(b: BatchModel, l: LocationModel, sequence: nat)
    requires
        sequence <= 9999,
        generation_ok(b, l),
    ensures
        checksum_check_ok(generated_raw(b, l, sequence)),
        last_dash(generated_raw(b, l, sequence)) matches Some(i) && checksum_of(
            generated_raw(b, l, sequence).subrange(0, i),
        ) == checksum_of(generated_prefix(b, l, sequence)),
{
    let prefix = generated_prefix(b, l, sequence);
    let cs = checksum_of(prefix);
    let cp = padded_decimal(cs as nat, 2);
    assert(crate::text::pow10(2) == 100) by {
        reveal_with_fuel(crate::text::pow10, 3);
    }
    lemma_padded_decimal(cs as nat, 2);
    assert(free_of(cp, '-')) by {
        assert forall|i: int| 0 <= i < cp.len() implies #[trigger] cp[i] != '-' by {
            assert(is_digit(cp[i]));
        }
    }
    lemma_last_dash_concat(prefix, cp);
    let raw = generated_raw(b, l, sequence);
    assert(raw.subrange(0, prefix.len() as int) =~= prefix);
    lemma_generated_prefix_fits(b, l, sequence);
}

/// Law: writing a generated identifier in the standard schema gives back its text.
pub proof fn law_generated_id_encodes_to_its_text(
    b: BatchModel,
    l: LocationModel,
    sequence: nat,
)
    requires
        sequence <= 9999,
        generation_ok(b, l),
    ensures
        ({
            let id = IdModel {
                raw: generated_raw(b, l, sequence),
                batch: b,
                location: l,
                sequence: sequence as u32,
                checksum: checksum_of(generated_prefix(b, l, sequence)),
            };
            encoding_ok(id, standard_layout()) && encoded_id(id, standard_layout()) == generated_raw(b, l, sequence)
        }),
{
    let lc = location_code(l);
    lemma_location_code_bytes(l);
    vstd::utf8::is_char_boundary_start_end_of_seq(encode_utf8(lc));
    assert(encode_utf8(lc).subrange(0, 8) =~= encode_utf8(lc));
    assert(fit_width(lc, 8) == lc);
    let id = IdModel {
        raw: generated_raw(b, l, sequence),
        batch: b,
        location: l,
        sequence: sequence as u32,
        checksum: checksum_of(generated_prefix(b, l, sequence)),
    };
    assert(encoded_prefix(id, standard_layout()) =~= generated_prefix(b, l, sequence));
    lemma_generated_prefix_fits(b, l, sequence);
}

} // verus!
