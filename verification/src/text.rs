//! Character-level building blocks shared by the identifier code: widths measured in
//! UTF-8 bytes, zero padding, decimal rendering and parsing, splitting and searching.
use vstd::prelude::*;
use vstd::utf8::*;
use vstd::string::*;

verus! {

broadcast use vstd::utf8::group_utf8_lib;

/// Number of bytes in the UTF-8 encoding of `s` (what `str::len` reports).
pub open spec fn byte_len(s: Seq<char>) -> nat {
    encode_utf8(s).len()
}

/// `n` copies of the character `'0'`.
pub open spec fn zeros(n: nat) -> Seq<char> {
    Seq::new(n, |i: int| '0')
}

/// A field forced to width `n`: the first `n` bytes when the text has at least `n` bytes,
/// otherwise the text padded on the right with `'0'` up to `n` characters.
pub open spec fn fit_width(s: Seq<char>, n: nat) -> Seq<char> {
    if byte_len(s) >= n {
        decode_utf8(encode_utf8(s).subrange(0, n as int))
    } else {
        s + zeros((n - s.len()) as nat)
    }
}

/// Cutting `s` to its first `n` bytes does not split a character.
pub open spec fn cut_ok(s: Seq<char>, n: nat) -> bool {
    byte_len(s) >= n ==> is_char_boundary(encode_utf8(s), n as int)
}

pub open spec fn is_digit(c: char) -> bool {
    '0' <= c && c <= '9'
}

pub open spec fn all_digits(s: Seq<char>) -> bool {
    forall|i: int| 0 <= i < s.len() ==> is_digit(#[trigger] s[i])
}

pub open spec fn digit_value(c: char) -> nat {
    (c as int - '0' as int) as nat
}

pub open spec fn digit_char(d: nat) -> char {
    ((d + 48) as u32) as char
}

/// The number written by a string of decimal digits.
pub open spec fn digits_value(s: Seq<char>) -> nat
    decreases s.len(),
{
    if s.len() == 0 {
        0
    } else {
        digits_value(s.drop_last()) * 10 + digit_value(s.last())
    }
}

/// Decimal rendering of `n` without leading zeros.
pub open spec fn decimal(n: nat) -> Seq<char>
    decreases n,
{
    if n < 10 {
        seq![digit_char(n)]
    } else {
        decimal(n / 10).push(digit_char(n % 10))
    }
}

/// `s` padded on the left with `'0'` to at least `w` characters.
pub open spec fn zero_pad(s: Seq<char>, w: nat) -> Seq<char> {
    if s.len() < w {
        zeros((w - s.len()) as nat) + s
    } else {
        s
    }
}

/// What `format!("{:0w$}", n)` produces.
pub open spec fn padded_decimal(n: nat, w: nat) -> Seq<char> {
    zero_pad(decimal(n), w)
}

pub proof fn lemma_char_len_le_byte_len(s: Seq<char>)
    ensures
        s.len() <= byte_len(s),
    decreases s.len(),
{
    if s.len() > 0 {
        lemma_char_len_le_byte_len(s.drop_first());
    }
}

pub proof fn lemma_encode_concat(a: Seq<char>, b: Seq<char>)
    ensures
        encode_utf8(a + b) == encode_utf8(a) + encode_utf8(b),
    decreases a.len(),
{
    if a.len() == 0 {
        assert(a + b =~= b);
        assert(encode_utf8(a) + encode_utf8(b) =~= encode_utf8(b));
    } else {
        assert((a + b).drop_first() =~= a.drop_first() + b);
        lemma_encode_concat(a.drop_first(), b);
        assert((a + b)[0] == a[0]);
        assert(encode_utf8(a + b) =~= encode_scalar(a[0] as u32) + encode_utf8(a.drop_first() + b));
        assert(encode_utf8(a) + encode_utf8(b) =~= encode_scalar(a[0] as u32) + (encode_utf8(a.drop_first()) + encode_utf8(b)));
    }
}

/// The characters of `s`.
pub fn chars_of(s: &str) -> (r: Vec<char>)
    ensures
        r@ == s@,
{
    let n = s.unicode_len();
    let mut r: Vec<char> = Vec::new();
    let mut i: usize = 0;
    while i < n
        invariant
            n == s@.len(),
            i <= n,
            r@ == s@.subrange(0, i as int),
        decreases n - i,
    {
        let c = s.get_char(i);
        r.push(c);
        i = i + 1;
        assert(r@ =~= s@.subrange(0, i as int));
    }
    assert(r@ =~= s@);
    r
}

/// Appends one character to a string (`String::push`).
#[verifier::external_body]
fn push_char(s: &mut String, c: char)
    ensures
        final(s)@ == old(s)@.push(c),
{
    s.push(c);
}

/// A string holding exactly the given characters.
pub fn string_from_chars(v: &[char]) -> (r: String)
    ensures
        r@ == v@,
{
    let mut r = String::new();
    let mut i: usize = 0;
    while i < v.len()
        invariant
            i <= v@.len(),
            r@ == v@.subrange(0, i as int),
        decreases v@.len() - i,
    {
        push_char(&mut r, v[i]);
        i = i + 1;
        assert(r@ =~= v@.subrange(0, i as int));
    }
    assert(r@ =~= v@);
    r
}

pub fn digit_char_exec(d: u64) -> (c: char)
    requires
        d < 10,
    ensures
        c == digit_char(d as nat),
{
    ((d as u8) + 48) as char
}

/// Decimal rendering of `n`.
pub fn decimal_exec(n: u64) -> (r: Vec<char>)
    ensures
        r@ == decimal(n as nat),
    decreases n,
{
    if n < 10 {
        let mut v = Vec::new();
        v.push(digit_char_exec(n));
        v
    } else {
        let mut v = decimal_exec(n / 10);
        v.push(digit_char_exec(n % 10));
        v
    }
}

/// What `format!("{:0w$}", n)` produces.
pub fn padded_decimal_exec(n: u64, w: usize) -> (r: Vec<char>)
    ensures
        r@ == padded_decimal(n as nat, w as nat),
{
    let d = decimal_exec(n);
    if d.len() < w {
        let mut r: Vec<char> = Vec::new();
        let k = w - d.len();
        let mut i: usize = 0;
        while i < k
            invariant
                i <= k,
                r@ == zeros(i as nat),
            decreases k - i,
        {
            r.push('0');
            i = i + 1;
            assert(r@ =~= zeros(i as nat));
        }
        let mut j: usize = 0;
        while j < d.len()
            invariant
                j <= d@.len(),
                r@ == zeros(k as nat) + d@.subrange(0, j as int),
            decreases d@.len() - j,
        {
            r.push(d[j]);
            j = j + 1;
            assert(r@ =~= zeros(k as nat) + d@.subrange(0, j as int));
        }
        assert(d@.subrange(0, d@.len() as int) =~= d@);
        r
    } else {
        d
    }
}


/// What cutting or padding `s` to width `n` produces (see `fit_width`).
pub fn fit_width_exec(s: &str, n: usize) -> (r: Vec<char>)
    requires
        cut_ok(s@, n as nat),
    ensures
        r@ == fit_width(s@, n as nat),
{
    let blen = s.as_bytes().len();
    if blen >= n {
        let (head, _tail) = s.split_at(n);
        proof {
            assert(head.spec_bytes() == encode_utf8(head@));
            assert(decode_utf8(encode_utf8(head@)) == head@);
            assert(head@ == decode_utf8(encode_utf8(s@).subrange(0, n as int)));
        }
        chars_of(head)
    } else {
        let mut r = chars_of(s);
        proof {
            lemma_char_len_le_byte_len(s@);
        }
        let k = n - r.len();
        let mut i: usize = 0;
        while i < k
            invariant
                i <= k,
                k == n - s@.len(),
                r@ == s@ + zeros(i as nat),
            decreases k - i,
        {
            r.push('0');
            i = i + 1;
            assert(r@ =~= s@ + zeros(i as nat));
        }
        r
    }
}

/// The first `n` bytes of `s`, or all of `s` when it is shorter.
pub open spec fn head(s: Seq<char>, n: nat) -> Seq<char> {
    if byte_len(s) >= n {
        decode_utf8(encode_utf8(s).subrange(0, n as int))
    } else {
        s
    }
}

/// What slicing `s` to its first `min(n, len)` bytes produces (see `head`).
pub fn head_exec(s: &str, n: usize) -> (r: Vec<char>)
    requires
        cut_ok(s@, n as nat),
    ensures
        r@ == head(s@, n as nat),
{
    if s.as_bytes().len() >= n {
        let (first, _rest) = s.split_at(n);
        proof {
            assert(first.spec_bytes() == encode_utf8(first@));
            assert(decode_utf8(encode_utf8(first@)) == first@);
        }
        chars_of(first)
    } else {
        chars_of(s)
    }
}

/// The pieces of `s` between occurrences of `d`, as `str::split` yields them.
pub open spec fn split_on(s: Seq<char>, d: char) -> Seq<Seq<char>>
    decreases s.len(),
{
    if s.len() == 0 {
        seq![Seq::<char>::empty()]
    } else {
        let p = split_on(s.drop_last(), d);
        if s.last() == d {
            p.push(Seq::<char>::empty())
        } else {
            p.update(p.len() - 1, p.last().push(s.last()))
        }
    }
}

pub proof fn lemma_split_nonempty(s: Seq<char>, d: char)
    ensures
        split_on(s, d).len() >= 1,
    decreases s.len(),
{
    if s.len() > 0 {
        lemma_split_nonempty(s.drop_last(), d);
    }
}

/// Joining the pieces of `s` between occurrences of `d` with `d` gives `s` back.
pub proof fn lemma_split_join(s: Seq<char>, d: char)
    ensures
        join(split_on(s, d), seq![d]) == s,
    decreases s.len(),
{
    if s.len() == 0 {
        assert(join(split_on(s, d), seq![d]) =~= s);
    } else {
        let p = split_on(s.drop_last(), d);
        lemma_split_join(s.drop_last(), d);
        lemma_split_nonempty(s.drop_last(), d);
        let c = s.last();
        if c == d {
            let q = p.push(Seq::<char>::empty());
            assert(q.drop_last() =~= p);
            assert(join(q, seq![d]) =~= s);
        } else {
            let q = p.update(p.len() - 1, p.last().push(c));
            if p.len() == 1 {
                assert(join(q, seq![d]) =~= s);
            } else {
                assert(q.drop_last() =~= p.drop_last());
                assert(join(q, seq![d]) =~= join(p, seq![d]).push(c));
                assert(join(q, seq![d]) =~= s);
            }
        }
    }
}

/// The pieces of `s` between occurrences of `d`.
pub fn split_exec(s: &Vec<char>, d: char) -> (r: Vec<Vec<char>>)
    ensures
        r@.len() == split_on(s@, d).len(),
        forall|i: int| 0 <= i < r@.len() ==> #[trigger] r@[i]@ == split_on(s@, d)[i],
{
    let mut r: Vec<Vec<char>> = Vec::new();
    let mut cur: Vec<char> = Vec::new();
    let mut i: usize = 0;
    while i < s.len()
        invariant
            i <= s@.len(),
            r@.len() + 1 == split_on(s@.subrange(0, i as int), d).len(),
            forall|j: int| 0 <= j < r@.len() ==> #[trigger] r@[j]@ == split_on(s@.subrange(0, i as int), d)[j],
            cur@ == split_on(s@.subrange(0, i as int), d).last(),
        decreases s@.len() - i,
    {
        proof {
            lemma_split_nonempty(s@.subrange(0, i as int), d);
            assert(s@.subrange(0, i + 1).drop_last() =~= s@.subrange(0, i as int));
        }
        let c = s[i];
        if c == d {
            let done = cur;
            r.push(done);
            cur = Vec::new();
        } else {
            cur.push(c);
        }
        i = i + 1;
    }
    assert(s@.subrange(0, s@.len() as int) =~= s@);
    r.push(cur);
    r
}

/// The number written by `s` when it is a non-empty run of decimal digits no larger than `max`.
pub fn parse_decimal(s: &Vec<char>, max: u64) -> (r: Option<u64>)
    ensures
        r matches Some(v) ==> s@.len() > 0 && all_digits(s@) && v == digits_value(s@) && v <= max,
        r is None ==> !(s@.len() > 0 && all_digits(s@) && digits_value(s@) <= max),
{
    if s.len() == 0 {
        return None;
    }
    let mut v: u64 = 0;
    let mut i: usize = 0;
    while i < s.len()
        invariant
            i <= s@.len(),
            all_digits(s@.subrange(0, i as int)),
            v == digits_value(s@.subrange(0, i as int)),
            v <= max,
        decreases s@.len() - i,
    {
        proof {
            assert(s@.subrange(0, i + 1).drop_last() =~= s@.subrange(0, i as int));
        }
        let c = s[i];
        if !('0' <= c && c <= '9') {
            proof {
                assert(!all_digits(s@));
            }
            return None;
        }
        let dv = (c as u32 - '0' as u32) as u64;
        if (v as u128) * 10 + (dv as u128) > max as u128 {
            proof {
                lemma_digits_value_prefix_le(s@, i as int + 1);
            }
            return None;
        }
        v = v * 10 + dv;
        i = i + 1;
        assert(all_digits(s@.subrange(0, i as int)));
    }
    assert(s@.subrange(0, s@.len() as int) =~= s@);
    Some(v)
}

/// A prefix of a digit string never writes a larger number than the whole.
pub proof fn lemma_digits_value_prefix_le(s: Seq<char>, k: int)
    requires
        0 <= k <= s.len(),
    ensures
        digits_value(s.subrange(0, k)) <= digits_value(s),
    decreases s.len() - k,
{
    if k < s.len() {
        lemma_digits_value_prefix_le(s, k + 1);
        assert(s.subrange(0, k + 1).drop_last() =~= s.subrange(0, k));
    } else {
        assert(s.subrange(0, k) =~= s);
    }
}

/// Character boundaries of a valid encoding stay boundaries in a suffix that starts at one.
pub proof fn lemma_boundary_in_suffix(b: Seq<u8>, i: int, j: int)
    requires
        valid_utf8(b),
        is_char_boundary(b, i),
        is_char_boundary(b, j),
        0 <= i <= j <= b.len(),
    ensures
        valid_utf8(b.subrange(i, b.len() as int)),
        is_char_boundary(b.subrange(i, b.len() as int), j - i),
{
    let t = b.subrange(i, b.len() as int);
    valid_utf8_split(b, i);
    if j < b.len() {
        is_char_boundary_iff_not_is_continuation_byte(b, j);
        is_char_boundary_iff_not_is_continuation_byte(t, j - i);
        assert(t[j - i] == b[j]);
    } else {
        is_char_boundary_start_end_of_seq(t);
    }
}

/// `fit_width` yields at most `n` characters.
pub proof fn lemma_fit_width_len(s: Seq<char>, n: nat)
    requires
        cut_ok(s, n),
    ensures
        fit_width(s, n).len() <= n,
        byte_len(s) < n ==> fit_width(s, n).len() == n,
{
    if byte_len(s) >= n {
        let t = encode_utf8(s).subrange(0, n as int);
        valid_utf8_split(encode_utf8(s), n as int);
        decode_utf8_encode_utf8(t);
        lemma_char_len_le_byte_len(decode_utf8(t));
    } else {
        lemma_char_len_le_byte_len(s);
    }
}

pub open spec fn pow10(k: nat) -> nat
    decreases k,
{
    if k == 0 {
        1
    } else {
        10 * pow10((k - 1) as nat)
    }
}

/// A number below `10^k` has at most `k` decimal digits.
pub proof fn lemma_decimal_len(n: nat, k: nat)
    requires
        k >= 1,
        n < pow10(k),
    ensures
        decimal(n).len() <= k,
    decreases k,
{
    if n >= 10 {
        if k == 1 {
            assert(pow10(1) == 10) by {
                reveal_with_fuel(pow10, 2);
            }
        } else {
            let m = pow10((k - 1) as nat);
            assert(n / 10 < m) by (nonlinear_arith)
                requires
                    n < 10 * m,
            ;
            lemma_decimal_len(n / 10, (k - 1) as nat);
        }
    }
}

pub proof fn lemma_digit_char(d: nat)
    requires
        d < 10,
    ensures
        is_digit(digit_char(d)),
        digit_value(digit_char(d)) == d,
        digit_char(d) as u32 == d + 48,
{
    let u = (d + 48) as u32;
    assert(vstd::utf8::is_scalar(u));
    assert((u as char) as u32 == u);
}

/// Decimal renderings consist of digits and read back as the number rendered.
pub proof fn lemma_decimal_digits(n: nat)
    ensures
        all_digits(decimal(n)),
        digits_value(decimal(n)) == n,
        decimal(n).len() >= 1,
    decreases n,
{
    if n < 10 {
        lemma_digit_char(n);
        assert(decimal(n).drop_last() =~= Seq::<char>::empty());
        assert(digits_value(Seq::<char>::empty()) == 0);
        assert(digits_value(decimal(n)) == n);
    } else {
        lemma_digit_char(n % 10);
        lemma_decimal_digits(n / 10);
        assert(decimal(n).drop_last() =~= decimal(n / 10));
        assert((n / 10) * 10 + n % 10 == n) by (nonlinear_arith);
        assert(decimal(n).last() == digit_char(n % 10));
        assert(digits_value(decimal(n)) == digits_value(decimal(n / 10)) * 10 + digit_value(digit_char(n % 10)));
    }
}

/// Leading zeros change neither digit-ness nor value.
pub proof fn lemma_zero_pad_digits(s: Seq<char>, w: nat)
    requires
        all_digits(s),
    ensures
        all_digits(zero_pad(s, w)),
        digits_value(zero_pad(s, w)) == digits_value(s),
{
    if s.len() < w {
        lemma_leading_zeros_value(s, (w - s.len()) as nat);
    }
}

pub proof fn lemma_leading_zeros_value(s: Seq<char>, k: nat)
    requires
        all_digits(s),
    ensures
        all_digits(zeros(k) + s),
        digits_value(zeros(k) + s) == digits_value(s),
    decreases s.len(),
{
    if s.len() == 0 {
        lemma_zeros_value(k);
        assert(zeros(k) + s =~= zeros(k));
    } else {
        lemma_leading_zeros_value(s.drop_last(), k);
        assert((zeros(k) + s).drop_last() =~= zeros(k) + s.drop_last());
    }
}

pub proof fn lemma_zeros_value(k: nat)
    ensures
        all_digits(zeros(k)),
        digits_value(zeros(k)) == 0,
    decreases k,
{
    if k > 0 {
        lemma_zeros_value((k - 1) as nat);
        assert(zeros(k).drop_last() =~= zeros((k - 1) as nat));
    }
}

/// Byte length of a text that was built from characters, as `str::len` reports it.
pub fn byte_len_exec(v: &[char]) -> (r: usize)
    ensures
        r == byte_len(v@),
{
    let s = string_from_chars(v);
    s.as_str().as_bytes().len()
}

pub fn all_digits_exec(v: &[char]) -> (r: bool)
    ensures
        r == all_digits(v@),
{
    let mut i: usize = 0;
    while i < v.len()
        invariant
            i <= v@.len(),
            forall|j: int| 0 <= j < i ==> is_digit(#[trigger] v@[j]),
        decreases v@.len() - i,
    {
        if !('0' <= v[i] && v[i] <= '9') {
            return false;
        }
        i = i + 1;
    }
    true
}

/// `s` does not contain `d`.
pub open spec fn free_of(s: Seq<char>, d: char) -> bool {
    forall|i: int| 0 <= i < s.len() ==> #[trigger] s[i] != d
}

/// A text without the delimiter is a single piece.
pub proof fn lemma_split_free(s: Seq<char>, d: char)
    requires
        free_of(s, d),
    ensures
        split_on(s, d) == seq![s],
    decreases s.len(),
{
    if s.len() == 0 {
        assert(s =~= Seq::<char>::empty());
        assert(split_on(s, d) =~= seq![s]);
    } else {
        lemma_split_free(s.drop_last(), d);
        assert(s.drop_last().push(s.last()) =~= s);
        assert(split_on(s, d) =~= seq![s]);
    }
}

/// Splitting around one delimiter splits each side separately.
pub proof fn lemma_split_concat(a: Seq<char>, b: Seq<char>, d: char)
    ensures
        split_on(a + seq![d] + b, d) == split_on(a, d) + split_on(b, d),
    decreases b.len(),
{
    let s = a + seq![d] + b;
    if b.len() == 0 {
        assert(s.drop_last() =~= a);
        assert(split_on(s, d) =~= split_on(a, d) + split_on(b, d));
    } else {
        let b1 = b.drop_last();
        assert(s.drop_last() =~= a + seq![d] + b1);
        lemma_split_concat(a, b1, d);
        lemma_split_nonempty(b1, d);
        lemma_split_nonempty(a, d);
        assert(s.last() == b.last());
        if b.last() == d {
            assert(split_on(s, d) =~= split_on(a, d) + split_on(b, d));
        } else {
            let pa = split_on(a, d);
            let pb = split_on(b1, d);
            assert((pa + pb).last() == pb.last());
            assert((pa + pb).update((pa + pb).len() - 1, pb.last().push(b.last())) =~= pa + pb.update(
                pb.len() - 1,
                pb.last().push(b.last()),
            ));
            assert(split_on(s, d) =~= split_on(a, d) + split_on(b, d));
        }
    }
}

/// ASCII text takes one byte per character.
pub proof fn lemma_ascii_byte_len(s: Seq<char>)
    requires
        is_ascii_chars(s),
    ensures
        byte_len(s) == s.len(),
        forall|i: int| 0 <= i < s.len() ==> #[trigger] encode_utf8(s)[i] == s[i] as u8,
{
    is_ascii_chars_encode_utf8(s);
}

/// Digit strings are ASCII.
pub proof fn lemma_digits_ascii(s: Seq<char>)
    requires
        all_digits(s),
    ensures
        is_ascii_chars(s),
{
    assert forall|i| 0 <= i < s.len() implies '\0' <= #[trigger] s[i] <= '\u{7f}' by {
        assert(is_digit(s[i]));
    }
}

/// `format!("{:0w$}", n)` for `n < 10^w`: exactly `w` digits that read back as `n`.
pub proof fn lemma_padded_decimal(n: nat, w: nat)
    requires
        w >= 1,
        n < pow10(w),
    ensures
        padded_decimal(n, w).len() == w,
        all_digits(padded_decimal(n, w)),
        digits_value(padded_decimal(n, w)) == n,
        is_ascii_chars(padded_decimal(n, w)),
        byte_len(padded_decimal(n, w)) == w,
{
    lemma_decimal_len(n, w);
    lemma_decimal_digits(n);
    lemma_zero_pad_digits(decimal(n), w);
    lemma_digits_ascii(padded_decimal(n, w));
    lemma_ascii_byte_len(padded_decimal(n, w));
}

/// The point where two encodings meet is a character boundary.
pub proof fn lemma_boundary_concat(a: Seq<char>, b: Seq<char>)
    ensures
        is_char_boundary(encode_utf8(a + b), byte_len(a) as int),
    decreases a.len(),
{
    if a.len() > 0 {
        let bytes = encode_utf8(a + b);
        lemma_encode_concat(a, b);
        encode_utf8_first_scalar(a + b);
        assert((a + b).drop_first() =~= a.drop_first() + b);
        assert((a + b)[0] == a[0]);
        assert(pop_first_scalar(bytes) =~= encode_utf8(a.drop_first() + b));
        lemma_boundary_concat(a.drop_first(), b);
        lemma_encode_concat(a.drop_first(), b);
    }
}

/// Padding with zeros adds one byte per zero.
pub proof fn lemma_zeros_bytes(s: Seq<char>, k: nat)
    ensures
        byte_len(s + zeros(k)) == byte_len(s) + k,
{
    lemma_encode_concat(s, zeros(k));
    assert(is_ascii_chars(zeros(k)));
    lemma_ascii_byte_len(zeros(k));
}

/// A two-byte field always takes exactly two bytes.
pub proof fn lemma_fit_two_bytes(s: Seq<char>)
    requires
        cut_ok(s, 2),
    ensures
        byte_len(fit_width(s, 2)) == 2,
{
    if byte_len(s) >= 2 {
        let t = encode_utf8(s).subrange(0, 2);
        valid_utf8_split(encode_utf8(s), 2);
        decode_utf8_encode_utf8(t);
    } else {
        lemma_char_len_le_byte_len(s);
        if s.len() == 1 {
            lemma_char_len_le_byte_len(s.drop_first());
            assert(byte_len(s) >= 1) by {
                assert(encode_utf8(s) =~= encode_scalar(s[0] as u32) + encode_utf8(s.drop_first()));
            }
        }
        lemma_zeros_bytes(s, (2 - s.len()) as nat);
    }
}

/// The pieces joined with `sep` between consecutive ones.
pub open spec fn join(parts: Seq<Seq<char>>, sep: Seq<char>) -> Seq<char>
    decreases parts.len(),
{
    if parts.len() == 0 {
        Seq::empty()
    } else if parts.len() == 1 {
        parts[0]
    } else {
        join(parts.drop_last(), sep) + sep + parts.last()
    }
}

/// Joins pieces with a separator.
pub fn join_exec(parts: &Vec<Vec<char>>, sep: &[char]) -> (r: Vec<char>)
    ensures
        r@ == join(parts@.map_values(|p: Vec<char>| p@), sep@),
{
    let ghost views = parts@.map_values(|p: Vec<char>| p@);
    let mut r: Vec<char> = Vec::new();
    let mut i: usize = 0;
    while i < parts.len()
        invariant
            i <= parts@.len(),
            views == parts@.map_values(|p: Vec<char>| p@),
            r@ == join(views.subrange(0, i as int), sep@),
        decreases parts@.len() - i,
    {
        assert(views.subrange(0, i + 1).drop_last() =~= views.subrange(0, i as int));
        if i > 0 {
            let mut s: Vec<char> = Vec::new();
            let mut k: usize = 0;
            while k < sep.len()
                invariant
                    k <= sep@.len(),
                    s@ == sep@.subrange(0, k as int),
                decreases sep@.len() - k,
            {
                s.push(sep[k]);
                k = k + 1;
                assert(s@ =~= sep@.subrange(0, k as int));
            }
            assert(sep@.subrange(0, sep@.len() as int) =~= sep@);
            r.append(&mut s);
        }
        let mut p = parts[i].clone();
        assert(p@ =~= views[i as int]);
        r.append(&mut p);
        i = i + 1;
        proof {
            if i == 1 {
                assert(views.subrange(0, 1) =~= seq![views[0]]);
                assert(r@ =~= join(views.subrange(0, i as int), sep@));
            } else {
                assert(r@ =~= join(views.subrange(0, i as int), sep@));
            }
        }
    }
    assert(views.subrange(0, parts@.len() as int) =~= views);
    r
}

/// Whether two character sequences are equal.
pub fn chars_equal(a: &[char], b: &[char]) -> (r: bool)
    ensures
        r == (a@ == b@),
{
    if a.len() != b.len() {
        return false;
    }
    let mut k: usize = 0;
    while k < a.len()
        invariant
            a@.len() == b@.len(),
            k <= a@.len(),
            forall|m: int| 0 <= m < k ==> a@[m] == b@[m],
        decreases a@.len() - k,
    {
        if a[k] != b[k] {
            return false;
        }
        k = k + 1;
    }
    assert(a@ =~= b@);
    true
}

/// `needle` occurs in `hay` as a contiguous piece.
pub open spec fn contains_text(hay: Seq<char>, needle: Seq<char>) -> bool {
    exists|i: int| 0 <= i && i + needle.len() <= hay.len() && #[trigger] hay.subrange(i, i + needle.len()) == needle
}

/// Whether `needle` occurs in `hay`.
pub fn contains_exec(hay: &[char], needle: &[char]) -> (r: bool)
    ensures
        r == contains_text(hay@, needle@),
{
    if needle.len() > hay.len() {
        return false;
    }
    let hl = hay.len();
    let last = hl - needle.len();
    let mut i: usize = 0;
    loop
        invariant
            i <= last,
            last == hay@.len() - needle@.len(),
            needle@.len() <= hay@.len(),
            hl == hay@.len(),
            forall|j: int| 0 <= j < i ==> #[trigger] hay@.subrange(j, j + needle@.len()) != needle@,
        decreases last - i,
    {
        let mut k: usize = 0;
        let mut same = true;
        while k < needle.len()
            invariant
                i <= last,
                last == hay@.len() - needle@.len(),
                needle@.len() <= hay@.len(),
                i + needle@.len() <= hay@.len(),
                hl == hay@.len(),
                k <= needle@.len(),
                same == (forall|m: int| 0 <= m < k ==> hay@[i + m] == needle@[m]),
            decreases needle@.len() - k,
        {
            if hay[i + k] != needle[k] {
                same = false;
            }
            k = k + 1;
        }
        if same {
            assert(hay@.subrange(i as int, i + needle@.len()) =~= needle@);
            return true;
        }
        assert(hay@.subrange(i as int, i + needle@.len()) != needle@) by {
            let m = choose|m: int| 0 <= m < needle@.len() && hay@[i + m] != needle@[m];
            assert(hay@.subrange(i as int, i + needle@.len())[m] != needle@[m]);
        }
        if i == last {
            return false;
        }
        i = i + 1;
    }
}

/// What `format!("{:?}", s)` shows of a string slice: the text in double quotes with
/// quotes, backslashes and non-printable characters escaped.
pub uninterp spec fn str_debug(s: Seq<char>) -> Seq<char>;

/// `<str as Debug>::fmt`, through `format!("{:?}", s)`. Its result is named `str_debug`: it
/// depends on the characters of `s` alone. Which characters are escaped, and how, follows
/// std's Unicode tables and is not stated.
#[verifier::external_body]
pub(crate) fn debug_str(s: &str) -> (r: String)
    ensures
        r@ == str_debug(s@),
{
    format!("{:?}", s)
}

} // verus!
