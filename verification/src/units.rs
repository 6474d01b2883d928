//! Human amounts to mint base units and back.
//!
//! Every amount this library takes is in base units, and USDC has six
//! decimals. An integrator who scales twice turns an intended 50 USDC into
//! 50,000,000 of allowance, and nothing downstream rejects it. Owning the
//! conversion removes that error class.
//!
//! Decimal strings, not floats: `0.1` is not representable in binary
//! floating point, and a payment library that rounds cannot be audited.

use vstd::arithmetic::div_mod::{lemma_fundamental_div_mod, lemma_mod_breakdown};
use vstd::prelude::*;

use crate::text::{chars_of, push_char, push_str};

verus! {

/// Why a decimal string is not an amount at a mint's scale.
#[derive(Debug, Clone, Copy, PartialEq, Eq)]
pub enum UnitsError {
    /// Nothing but whitespace.
    Empty,
    /// Not a plain decimal number: a sign, an exponent, a separator, a
    /// second point, or no digits at all.
    NotANumber,
    /// More digits after the point than the mint has decimals, so the value
    /// cannot be represented without discarding some of what was asked for.
    TooPrecise { decimals: u8, given: usize },
    /// The amount does not fit in a u64 at this mint's scale.
    Overflow,
}

// ---------------------------------------------------------------------------
// The model: decimal digit strings and their values.

/// Ten to the `n`.
pub open spec fn pow10(n: nat) -> nat
    decreases n,
{
    if n == 0 {
        1
    } else {
        10 * pow10((n - 1) as nat)
    }
}

/// Unicode `White_Space`, the set `str::trim` strips.
pub open spec fn is_white_space(c: char) -> bool {
    let n = c as u32;
    ||| 0x09 <= n <= 0x0d
    ||| n == 0x20
    ||| n == 0x85
    ||| n == 0xa0
    ||| n == 0x1680
    ||| 0x2000 <= n <= 0x200a
    ||| n == 0x2028
    ||| n == 0x2029
    ||| n == 0x202f
    ||| n == 0x205f
    ||| n == 0x3000
}

/// `cs` without its leading whitespace.
pub open spec fn trim_start(cs: Seq<char>) -> Seq<char>
    decreases cs.len(),
{
    if cs.len() > 0 && is_white_space(cs[0]) {
        trim_start(cs.drop_first())
    } else {
        cs
    }
}

/// `cs` without its trailing whitespace.
pub open spec fn trim_end(cs: Seq<char>) -> Seq<char>
    decreases cs.len(),
{
    if cs.len() > 0 && is_white_space(cs.last()) {
        trim_end(cs.drop_last())
    } else {
        cs
    }
}

/// `cs` without leading or trailing whitespace.
pub open spec fn trim(cs: Seq<char>) -> Seq<char> {
    trim_end(trim_start(cs))
}

/// An ASCII decimal digit.
pub open spec fn is_digit(c: char) -> bool {
    '0' <= c <= '9'
}

pub open spec fn all_digits(cs: Seq<char>) -> bool {
    forall|i: int| 0 <= i < cs.len() ==> is_digit(#[trigger] cs[i])
}

/// The character for a digit value below ten.
pub open spec fn digit(n: nat) -> char {
    (48 + n) as char
}

/// The number a string of decimal digits spells, most significant first.
pub open spec fn digits_value(cs: Seq<char>) -> nat
    decreases cs.len(),
{
    if cs.len() == 0 {
        0
    } else {
        digits_value(cs.drop_last()) * 10 + ((cs.last() as int - 48) as nat)
    }
}

/// The position of the first `.` in `cs`.
pub open spec fn first_point(cs: Seq<char>) -> Option<int>
    decreases cs.len(),
{
    if cs.len() == 0 {
        None
    } else if cs[0] == '.' {
        Some(0)
    } else {
        match first_point(cs.drop_first()) {
            Some(i) => Some(i + 1),
            None => None,
        }
    }
}

/// The part of a trimmed amount before the point (all of it if it has no
/// point).
pub open spec fn whole_part(t: Seq<char>) -> Seq<char> {
    match first_point(t) {
        Some(i) => t.take(i),
        None => t,
    }
}

/// The part of a trimmed amount after the first point (empty if it has
/// none).
pub open spec fn frac_part(t: Seq<char>) -> Seq<char> {
    match first_point(t) {
        Some(i) => t.skip(i + 1),
        None => Seq::empty(),
    }
}

/// What `to_base_units` makes of an amount: trimmed, split at the first
/// point, digits only on both sides, no more fractional digits than the mint
/// has, and the value scaled to base units if it fits in a u64.
pub open spec fn amount_units(amount: Seq<char>, decimals: u8) -> Result<u64, UnitsError> {
    let t = trim(amount);
    let w = whole_part(t);
    let f = frac_part(t);
    if t.len() == 0 {
        Err(UnitsError::Empty)
    } else if f.contains('.') {
        Err(UnitsError::NotANumber)
    } else if w.len() == 0 && f.len() == 0 {
        Err(UnitsError::NotANumber)
    } else if !all_digits(w) || !all_digits(f) {
        Err(UnitsError::NotANumber)
    } else if f.len() > decimals {
        Err(UnitsError::TooPrecise { decimals, given: f.len() as usize })
    } else {
        scaled_units(w + f, (decimals - f.len()) as nat)
    }
}

/// The digits `ds` followed by `pad` zeros, as a u64 if it fits.
pub open spec fn scaled_units(ds: Seq<char>, pad: nat) -> Result<u64, UnitsError> {
    if digits_value(ds) * pow10(pad) > u64::MAX {
        Err(UnitsError::Overflow)
    } else {
        Ok((digits_value(ds) * pow10(pad)) as u64)
    }
}

/// The shortest decimal digits of `n`: `"0"` for zero, no leading zeros.
pub open spec fn decimal(n: nat) -> Seq<char>
    decreases n,
{
    if n < 10 {
        seq![digit(n)]
    } else {
        decimal(n / 10).push(digit(n % 10))
    }
}

/// The last `w` decimal digits of `n`, zero-padded on the left.
pub open spec fn fixed_digits(n: nat, w: nat) -> Seq<char>
    decreases w,
{
    if w == 0 {
        Seq::empty()
    } else {
        fixed_digits(n / 10, (w - 1) as nat).push(digit(n % 10))
    }
}

/// `cs` without its trailing `'0'`s.
pub open spec fn strip_zeros(cs: Seq<char>) -> Seq<char>
    decreases cs.len(),
{
    if cs.len() > 0 && cs.last() == '0' {
        strip_zeros(cs.drop_last())
    } else {
        cs
    }
}

/// The decimal text of `units` base units at `decimals`: the whole part,
/// then, only if the fraction is not zero, a point and the fraction's
/// digits without trailing zeros.
pub open spec fn units_text(units: u64, decimals: u8) -> Seq<char> {
    if decimals == 0 {
        decimal(units as nat)
    } else {
        let scale = pow10(decimals as nat);
        let whole = units as nat / scale;
        let frac = units as nat % scale;
        if frac == 0 {
            decimal(whole)
        } else {
            decimal(whole) + seq!['.'] + strip_zeros(fixed_digits(frac, decimals as nat))
        }
    }
}

// ---------------------------------------------------------------------------
// Facts about the model.

proof fn lemma_pow10_positive(n: nat)
    ensures
        pow10(n) >= 1,
    decreases n,
{
    if n > 0 {
        lemma_pow10_positive((n - 1) as nat);
    }
}

proof fn lemma_pow10_add(a: nat, b: nat)
    ensures
        pow10(a + b) == pow10(a) * pow10(b),
    decreases b,
{
    if b > 0 {
        let b1 = (b - 1) as nat;
        lemma_pow10_add(a, b1);
        assert((a + b - 1) as nat == a + b1);
        assert(pow10(a + b) == 10 * pow10(a + b1));
        assert(pow10(b) == 10 * pow10(b1));
        let pa = pow10(a);
        let pb1 = pow10(b1);
        assert(pa * (10 * pb1) == 10 * (pa * pb1)) by (nonlinear_arith);
    } else {
        assert(a + b == a);
        assert(pow10(b) == 1);
        assert(pow10(a) * 1 == pow10(a));
    }
}

proof fn lemma_pow10_monotone(a: nat, b: nat)
    requires
        a <= b,
    ensures
        pow10(a) <= pow10(b),
    decreases b,
{
    if a < b {
        lemma_pow10_monotone(a, (b - 1) as nat);
        lemma_pow10_positive((b - 1) as nat);
    }
}

proof fn lemma_pow10_19()
    ensures
        pow10(19) == 10000000000000000000,
{
    reveal_with_fuel(pow10, 20);
}

/// `x * y >= x` for `y >= 1`.
proof fn lemma_mul_at_least(x: nat, y: nat)
    requires
        y >= 1,
    ensures
        x * y >= x,
{
    assert(x * y >= x * 1) by (nonlinear_arith)
        requires
            y >= 1,
    ;
}

/// The value of two digit strings written one after the other.
proof fn lemma_digits_value_concat(a: Seq<char>, b: Seq<char>)
    ensures
        digits_value(a + b) == digits_value(a) * pow10(b.len()) + digits_value(b),
    decreases b.len(),
{
    if b.len() == 0 {
        assert(a + b =~= a);
        assert(pow10(0) == 1);
        assert(digits_value(a) * 1 == digits_value(a));
    } else {
        let bl = b.drop_last();
        lemma_digits_value_concat(a, bl);
        assert((a + b).drop_last() =~= a + bl);
        assert((a + b).last() == b.last());
        let da = digits_value(a);
        let db = digits_value(bl);
        let p = pow10(bl.len());
        let c = (b.last() as int - 48) as nat;
        assert(pow10(b.len()) == 10 * p);
        assert(digits_value(a + b) == digits_value(a + bl) * 10 + c);
        assert(digits_value(b) == db * 10 + c);
        assert(digits_value(a + bl) == da * p + db);
        assert((da * p + db) * 10 == da * (10 * p) + db * 10) by (nonlinear_arith);
    }
}

proof fn lemma_digits_value_push(a: Seq<char>, c: char)
    ensures
        digits_value(a.push(c)) == digits_value(a) * 10 + ((c as int - 48) as nat),
{
    assert(a.push(c).drop_last() =~= a);
}

proof fn lemma_decimal(n: nat)
    ensures
        decimal(n).len() >= 1,
        all_digits(decimal(n)),
        digits_value(decimal(n)) == n,
        is_digit(decimal(n)[0]),
    decreases n,
{
    if n < 10 {
        assert(digits_value(seq![digit(n)]) == digits_value(Seq::<char>::empty()) * 10 + n) by {
            assert(seq![digit(n)].drop_last() =~= Seq::<char>::empty());
        }
    } else {
        lemma_decimal(n / 10);
        lemma_digits_value_push(decimal(n / 10), digit(n % 10));
        assert(n == (n / 10) * 10 + n % 10);
        assert(decimal(n)[0] == decimal(n / 10)[0]);
    }
}

proof fn lemma_fixed_digits(n: nat, w: nat)
    ensures
        fixed_digits(n, w).len() == w,
        all_digits(fixed_digits(n, w)),
        digits_value(fixed_digits(n, w)) == n % pow10(w),
    decreases w,
{
    if w > 0 {
        lemma_fixed_digits(n / 10, (w - 1) as nat);
        lemma_digits_value_push(fixed_digits(n / 10, (w - 1) as nat), digit(n % 10));
        let p = pow10((w - 1) as nat);
        lemma_pow10_positive((w - 1) as nat);
        lemma_mod_breakdown(n as int, 10, p as int);
        assert(pow10(w) == 10 * p);
        assert(10 * p == 10 * p);
    }
}

proof fn lemma_strip_zeros(cs: Seq<char>)
    requires
        all_digits(cs),
    ensures
        strip_zeros(cs).len() <= cs.len(),
        strip_zeros(cs) =~= cs.take(strip_zeros(cs).len() as int),
        all_digits(strip_zeros(cs)),
        digits_value(strip_zeros(cs)) * pow10((cs.len() - strip_zeros(cs).len()) as nat)
            == digits_value(cs),
        strip_zeros(cs).len() > 0 ==> strip_zeros(cs).last() != '0',
    decreases cs.len(),
{
    if cs.len() > 0 && cs.last() == '0' {
        let dl = cs.drop_last();
        lemma_strip_zeros(dl);
        let s = strip_zeros(dl);
        let k = (dl.len() - s.len()) as nat;
        assert(strip_zeros(cs) == s);
        assert(digits_value(cs) == digits_value(dl) * 10);
        assert((cs.len() - s.len()) as nat == k + 1);
        assert(pow10(k + 1) == 10 * pow10(k));
        let ds = digits_value(s);
        let pk = pow10(k);
        assert(ds * (10 * pk) == (ds * pk) * 10) by (nonlinear_arith);
        assert(s =~= cs.take(s.len() as int));
    } else {
        assert(cs.take(cs.len() as int) =~= cs);
        assert(pow10(0) == 1);
        assert(digits_value(cs) * 1 == digits_value(cs));
    }
}

proof fn lemma_first_point_none(cs: Seq<char>)
    requires
        all_digits(cs),
    ensures
        first_point(cs) is None,
        !cs.contains('.'),
    decreases cs.len(),
{
    if cs.len() > 0 {
        assert forall|i: int| 0 <= i < cs.drop_first().len() implies is_digit(
            #[trigger] cs.drop_first()[i],
        ) by {
            assert(cs.drop_first()[i] == cs[i + 1]);
        }
        lemma_first_point_none(cs.drop_first());
    }
    if cs.contains('.') {
        let i = choose|i: int| 0 <= i < cs.len() && cs[i] == '.';
        assert(is_digit(cs[i]));
    }
}

proof fn lemma_first_point_after(a: Seq<char>, b: Seq<char>)
    requires
        all_digits(a),
    ensures
        first_point(a + seq!['.'] + b) == Some(a.len() as int),
    decreases a.len(),
{
    let t = a + seq!['.'] + b;
    if a.len() == 0 {
        assert(t[0] == '.');
    } else {
        let a1 = a.drop_first();
        assert forall|i: int| 0 <= i < a1.len() implies is_digit(#[trigger] a1[i]) by {
            assert(a1[i] == a[i + 1]);
        }
        lemma_first_point_after(a1, b);
        assert(t.drop_first() =~= a1 + seq!['.'] + b);
        assert(t[0] == a[0]);
        assert(is_digit(a[0]));
    }
}

proof fn lemma_trim_unchanged(cs: Seq<char>)
    requires
        cs.len() > 0,
        !is_white_space(cs[0]),
        !is_white_space(cs.last()),
    ensures
        trim(cs) == cs,
{
}

/// An amount rendered by `from_base_units` reads back through
/// `to_base_units` at the same scale as exactly the same number of base
/// units.
pub proof fn lemma_units_round_trip(units: u64, decimals: u8)
    requires
        decimals <= 19,
    ensures
        amount_units(units_text(units, decimals), decimals) == Ok::<u64, UnitsError>(units),
{
    let d = decimals as nat;
    let u = units as nat;
    let t = units_text(units, decimals);
    let scale = pow10(d);
    lemma_pow10_positive(d);
    let whole = u / scale;
    let frac = u % scale;
    lemma_fundamental_div_mod(u as int, scale as int);
    lemma_decimal(whole);
    lemma_decimal(u);
    if d == 0 || frac == 0 {
        let w = if d == 0 { decimal(u) } else { decimal(whole) };
        assert(t == w);
        lemma_first_point_none(w);
        lemma_trim_unchanged(w);
        assert(whole_part(t) == w);
        assert(frac_part(t) =~= Seq::<char>::empty());
        assert(w + Seq::<char>::empty() =~= w);
        if d == 0 {
            assert(pow10(0) == 1);
            assert(digits_value(w) * pow10(0) == u);
        } else {
            assert(u == scale * whole);
            assert(digits_value(w) * pow10(d) == u) by (nonlinear_arith)
                requires
                    digits_value(w) == whole,
                    pow10(d) == scale,
                    u == scale * whole,
            ;
        }
    } else {
        let w = decimal(whole);
        let fx = fixed_digits(frac, d);
        lemma_fixed_digits(frac, d);
        let z = strip_zeros(fx);
        lemma_strip_zeros(fx);
        let k = z.len();
        assert(frac % scale == frac) by {
            vstd::arithmetic::div_mod::lemma_small_mod(frac, scale);
        }
        // The fraction is not zero, so some digit of it survives stripping.
        if k == 0 {
            assert(digits_value(z) == 0);
            assert(digits_value(fx) == 0) by (nonlinear_arith)
                requires
                    digits_value(z) * pow10((fx.len() - z.len()) as nat) == digits_value(fx),
                    digits_value(z) == 0,
            ;
        }
        assert(t == w + seq!['.'] + z);
        assert(is_digit(z[k - 1]));
        lemma_trim_unchanged(t);
        lemma_first_point_after(w, z);
        assert(whole_part(t) =~= w);
        assert(frac_part(t) =~= z);
        lemma_first_point_none(z);
        lemma_digits_value_concat(w, z);
        let m = (d - k) as nat;
        lemma_pow10_add(k, m);
        assert(k + m == d);
        let dz = digits_value(z);
        assert(dz * pow10(m) == frac);
        assert((whole * pow10(k) + dz) * pow10(m) == whole * (pow10(k) * pow10(m)) + dz * pow10(
            m,
        )) by (nonlinear_arith);
        assert(u == scale * whole + frac);
        assert(digits_value(w + z) * pow10(m) == u) by (nonlinear_arith)
            requires
                digits_value(w + z) == whole * pow10(k) + dz,
                (whole * pow10(k) + dz) * pow10(m) == whole * (pow10(k) * pow10(m)) + dz * pow10(
                    m,
                ),
                pow10(k) * pow10(m) == scale,
                dz * pow10(m) == frac,
                u == scale * whole + frac,
        ;
    }
}

// ---------------------------------------------------------------------------
// The code.

/// Whether `c` has the Unicode `White_Space` property.
fn is_white_space_char(c: char) -> (r: bool)
    ensures
        r == is_white_space(c),
{
    let n = c as u32;
    (0x09 <= n && n <= 0x0d) || n == 0x20 || n == 0x85 || n == 0xa0 || n == 0x1680 || (0x2000
        <= n && n <= 0x200a) || n == 0x2028 || n == 0x2029 || n == 0x202f || n == 0x205f || n
        == 0x3000
}

fn is_digit_char(c: char) -> (r: bool)
    ensures
        r == is_digit(c),
{
    '0' <= c && c <= '9'
}

fn digit_char(v: u64) -> (c: char)
    requires
        v < 10,
    ensures
        c == digit(v as nat),
        is_digit(c),
{
    ((48u8 + v as u8) as char)
}

proof fn lemma_trim_start_at(cs: Seq<char>, i: int)
    requires
        0 <= i <= cs.len(),
        forall|j: int| 0 <= j < i ==> is_white_space(#[trigger] cs[j]),
    ensures
        trim_start(cs) == trim_start(cs.skip(i)),
    decreases i,
{
    if i > 0 {
        let rest = cs.drop_first();
        assert forall|j: int| 0 <= j < i - 1 implies is_white_space(#[trigger] rest[j]) by {
            assert(rest[j] == cs[j + 1]);
        }
        lemma_trim_start_at(rest, i - 1);
        assert(rest.skip(i - 1) =~= cs.skip(i));
    } else {
        assert(cs.skip(0) =~= cs);
    }
}

proof fn lemma_trim_end_at(cs: Seq<char>, i: int)
    requires
        0 <= i <= cs.len(),
        forall|j: int| i <= j < cs.len() ==> is_white_space(#[trigger] cs[j]),
    ensures
        trim_end(cs) == trim_end(cs.take(i)),
    decreases cs.len() - i,
{
    if i < cs.len() {
        let rest = cs.drop_last();
        assert forall|j: int| i <= j < rest.len() implies is_white_space(#[trigger] rest[j]) by {
            assert(rest[j] == cs[j]);
        }
        lemma_trim_end_at(rest, i);
        assert(rest.take(i) =~= cs.take(i));
        assert(is_white_space(cs.last()));
    } else {
        assert(cs.take(i) =~= cs);
    }
}

proof fn lemma_first_point_at(cs: Seq<char>, i: int)
    requires
        0 <= i <= cs.len(),
        forall|j: int| 0 <= j < i ==> #[trigger] cs[j] != '.',
    ensures
        i < cs.len() && cs[i] == '.' ==> first_point(cs) == Some(i),
        i == cs.len() ==> first_point(cs) is None,
    decreases i,
{
    if i > 0 {
        let rest = cs.drop_first();
        assert forall|j: int| 0 <= j < i - 1 implies #[trigger] rest[j] != '.' by {
            assert(rest[j] == cs[j + 1]);
        }
        lemma_first_point_at(rest, i - 1);
    }
}

/// `t` with its leading and trailing whitespace removed.
fn trimmed(cs: &Vec<char>) -> (t: Vec<char>)
    ensures
        t@ == trim(cs@),
{
    let n = cs.len();
    let mut start: usize = 0;
    while start < n && is_white_space_char(cs[start])
        invariant
            start <= n,
            n == cs@.len(),
            forall|j: int| 0 <= j < start ==> is_white_space(#[trigger] cs@[j]),
        decreases n - start,
    {
        start = start + 1;
    }
    let mut end: usize = n;
    while end > start && is_white_space_char(cs[end - 1])
        invariant
            start <= end <= n,
            n == cs@.len(),
            forall|j: int| end <= j < n ==> is_white_space(#[trigger] cs@[j]),
        decreases end - start,
    {
        end = end - 1;
    }
    let t = copy_range(cs, start, end);
    proof {
        lemma_trim_start_at(cs@, start as int);
        let s1 = cs@.skip(start as int);
        assert(start == n || !is_white_space(s1[0]));
        assert(trim_start(s1) == s1);
        assert forall|j: int| end - start <= j < s1.len() implies is_white_space(
            #[trigger] s1[j],
        ) by {
            assert(s1[j] == cs@[j + start]);
        }
        lemma_trim_end_at(s1, end - start);
        assert(s1.take(end - start) =~= t@);
        assert(end == start || !is_white_space(t@.last()));
    }
    t
}

/// The characters of `cs` from `lo` up to `hi`.
fn copy_range(cs: &Vec<char>, lo: usize, hi: usize) -> (r: Vec<char>)
    requires
        lo <= hi <= cs@.len(),
    ensures
        r@ == cs@.subrange(lo as int, hi as int),
{
    let mut r: Vec<char> = Vec::new();
    let mut i: usize = lo;
    while i < hi
        invariant
            lo <= i <= hi <= cs@.len(),
            r@ == cs@.subrange(lo as int, i as int),
        decreases hi - i,
    {
        r.push(cs[i]);
        assert(r@ =~= cs@.subrange(lo as int, i + 1));
        i = i + 1;
    }
    r
}

/// The position of the first point in `cs`, or its length if it has none.
fn point_position(cs: &Vec<char>) -> (p: usize)
    ensures
        p <= cs@.len(),
        p < cs@.len() ==> first_point(cs@) == Some(p as int),
        p < cs@.len() ==> cs@[p as int] == '.',
        p == cs@.len() ==> first_point(cs@) is None,
        p == cs@.len() ==> !cs@.contains('.'),
{
    let mut p: usize = 0;
    while p < cs.len() && cs[p] != '.'
        invariant
            p <= cs@.len(),
            forall|j: int| 0 <= j < p ==> #[trigger] cs@[j] != '.',
        decreases cs@.len() - p,
    {
        p = p + 1;
    }
    proof {
        lemma_first_point_at(cs@, p as int);
    }
    p
}

/// Whether every character of `cs` is an ASCII digit.
fn all_digit_chars(cs: &Vec<char>) -> (r: bool)
    ensures
        r == all_digits(cs@),
{
    let mut i: usize = 0;
    while i < cs.len()
        invariant
            i <= cs@.len(),
            forall|j: int| 0 <= j < i ==> is_digit(#[trigger] cs@[j]),
        decreases cs@.len() - i,
    {
        if !is_digit_char(cs[i]) {
            return false;
        }
        i = i + 1;
    }
    true
}

/// The value of the digits `ds` with `pad` zeros after them, or `Overflow`
/// if it does not fit in a u64. Refuses as soon as a partial value is too
/// large, which is exactly when the whole one is.
fn scale_digits(ds: &Vec<char>, pad: usize) -> (r: Result<u64, UnitsError>)
    requires
        all_digits(ds@),
    ensures
        r == scaled_units(ds@, pad as nat),
{
    let ghost all = ds@;
    proof {
        lemma_pow10_positive(pad as nat);
    }
    let mut units: u64 = 0;
    let mut k: usize = 0;
    assert(all.take(0) =~= Seq::<char>::empty());
    while k < ds.len()
        invariant
            k <= all.len(),
            ds@ == all,
            all_digits(all),
            units == digits_value(all.take(k as int)),
            pow10(pad as nat) >= 1,
        decreases all.len() - k,
    {
        let c = ds[k];
        assert(is_digit(all[k as int]));
        let dv = (c as u32 - 48) as u64;
        assert(all.take(k + 1) =~= all.take(k as int).push(c));
        proof {
            lemma_digits_value_push(all.take(k as int), c);
        }
        let next = match units.checked_mul(10) {
            Some(x) => x.checked_add(dv),
            None => None,
        };
        match next {
            Some(x) => {
                units = x;
            },
            None => {
                proof {
                    let head = all.take(k + 1);
                    let tail = all.skip(k + 1);
                    assert(all =~= head + tail);
                    lemma_digits_value_concat(head, tail);
                    lemma_pow10_positive(tail.len());
                    lemma_mul_at_least(digits_value(head), pow10(tail.len()));
                    lemma_mul_at_least(digits_value(all), pow10(pad as nat));
                }
                return Err(UnitsError::Overflow);
            },
        }
        k = k + 1;
    }
    assert(all.take(all.len() as int) =~= all);
    let mut j: usize = 0;
    while j < pad
        invariant
            j <= pad,
            ds@ == all,
            units == digits_value(all) * pow10(j as nat),
        decreases pad - j,
    {
        proof {
            assert(pow10((j + 1) as nat) == 10 * pow10(j as nat));
            lemma_pow10_monotone((j + 1) as nat, pad as nat);
            assert(digits_value(all) * pow10((j + 1) as nat) <= digits_value(all) * pow10(
                pad as nat,
            )) by (nonlinear_arith)
                requires
                    pow10((j + 1) as nat) <= pow10(pad as nat),
            ;
            assert(digits_value(all) * pow10((j + 1) as nat) == (digits_value(all) * pow10(
                j as nat,
            )) * 10) by (nonlinear_arith)
                requires
                    pow10((j + 1) as nat) == 10 * pow10(j as nat),
            ;
        }
        match units.checked_mul(10) {
            Some(x) => {
                units = x;
            },
            None => {
                assert(digits_value(all) * pow10(pad as nat) > u64::MAX);
                return Err(UnitsError::Overflow);
            },
        }
        j = j + 1;
    }
    Ok(units)
}

/// Parse a decimal amount into base units at a mint's scale.
///
/// Accepts `"12"`, `"12.5"`, `"0.000001"`, `".5"`, `"12."`, with surrounding
/// whitespace. Rejects anything with a sign, an exponent, separators, or
/// more precision than the mint can hold: rounding someone's money is not
/// this function's business.
pub fn to_base_units(amount: &str, decimals: u8) -> (r: Result<u64, UnitsError>)
    ensures
        r == amount_units(amount@, decimals),
{
    let cs = chars_of(amount);
    let t = trimmed(&cs);
    if t.len() == 0 {
        return Err(UnitsError::Empty);
    }
    let p = point_position(&t);
    let (w, f) = if p < t.len() {
        (copy_range(&t, 0, p), copy_range(&t, p + 1, t.len()))
    } else {
        (copy_range(&t, 0, p), Vec::new())
    };
    assert(w@ =~= whole_part(t@));
    assert(f@ =~= frac_part(t@));
    let q = point_position(&f);
    if q < f.len() {
        assert(f@[q as int] == '.');
        return Err(UnitsError::NotANumber);
    }
    if w.len() == 0 && f.len() == 0 {
        return Err(UnitsError::NotANumber);
    }
    if !all_digit_chars(&w) || !all_digit_chars(&f) {
        return Err(UnitsError::NotANumber);
    }
    let flen = f.len();
    if flen > decimals as usize {
        return Err(UnitsError::TooPrecise { decimals, given: flen });
    }
    let mut ds = w;
    let mut i: usize = 0;
    while i < f.len()
        invariant
            i <= f@.len(),
            ds@ == whole_part(t@) + f@.take(i as int),
        decreases f@.len() - i,
    {
        ds.push(f[i]);
        assert(f@.take(i + 1) =~= f@.take(i as int).push(f@[i as int]));
        i = i + 1;
    }
    assert(f@.take(f@.len() as int) =~= f@);
    assert(all_digits(ds@));
    scale_digits(&ds, decimals as usize - flen)
}

/// Ten to the `d`, for `d` up to 19 (the largest that fits in a u64).
fn pow10_u64(d: u8) -> (r: u64)
    requires
        d <= 19,
    ensures
        r == pow10(d as nat),
        r >= 1,
{
    proof {
        lemma_pow10_positive(d as nat);
    }
    let mut r: u64 = 1;
    let mut i: u8 = 0;
    while i < d
        invariant
            i <= d <= 19,
            r == pow10(i as nat),
        decreases d - i,
    {
        proof {
            lemma_pow10_monotone((i + 1) as nat, 19);
            lemma_pow10_19();
        }
        r = r * 10;
        i = i + 1;
    }
    r
}

/// Appends the shortest decimal digits of `n`.
pub(crate) fn push_decimal(out: &mut String, n: u64)
    ensures
        final(out)@ == old(out)@ + decimal(n as nat),
    decreases n,
{
    if n >= 10 {
        push_decimal(out, n / 10);
    }
    push_char(out, digit_char(n % 10));
    assert(final(out)@ =~= old(out)@ + decimal(n as nat));
}

/// Appends the last `w` digits of `n`, zero-padded.
fn push_fixed(out: &mut String, n: u64, w: u64)
    ensures
        final(out)@ == old(out)@ + fixed_digits(n as nat, w as nat),
    decreases w,
{
    if w > 0 {
        push_fixed(out, n / 10, w - 1);
        push_char(out, digit_char(n % 10));
    }
    assert(final(out)@ =~= old(out)@ + fixed_digits(n as nat, w as nat));
}

/// Render base units as a decimal string, without trailing zeros.
///
/// `from_base_units(1_500_000, 6)` is `"1.5"`, not `"1.500000"`, and
/// `from_base_units(1_000_000, 6)` is `"1"`. Every output reads back through
/// [`to_base_units`] at the same scale as the same number; see
/// [`lemma_units_round_trip`].
pub fn from_base_units(units: u64, decimals: u8) -> (r: String)
    requires
        decimals <= 19,
    ensures
        r@ == units_text(units, decimals),
{
    let mut out = String::new();
    if decimals == 0 {
        push_decimal(&mut out, units);
        return out;
    }
    let scale = pow10_u64(decimals);
    let whole = units / scale;
    let frac = units % scale;
    push_decimal(&mut out, whole);
    if frac == 0 {
        return out;
    }
    push_char(&mut out, '.');
    let mut f: u64 = frac;
    let mut w: u64 = decimals as u64;
    proof {
        lemma_fixed_digits(frac as nat, w as nat);
    }
    while f % 10 == 0
        invariant
            f != 0,
            (f as nat) < pow10(w as nat),
            w <= 19,
            strip_zeros(fixed_digits(f as nat, w as nat)) == strip_zeros(
                fixed_digits(frac as nat, decimals as nat),
            ),
        decreases w,
    {
        assert(w > 0) by {
            if w == 0 {
                assert(pow10(0) == 1);
            }
        }
        assert(fixed_digits(f as nat, w as nat).drop_last() == fixed_digits(
            (f / 10) as nat,
            (w - 1) as nat,
        ));
        assert(f / 10 < pow10((w - 1) as nat));
        f = f / 10;
        w = w - 1;
    }
    assert(w > 0) by {
        if w == 0 {
            assert(pow10(0) == 1);
        }
    }
    assert(strip_zeros(fixed_digits(f as nat, w as nat)) == fixed_digits(f as nat, w as nat));
    push_fixed(&mut out, f, w);
    out
}

/// What [`UnitsError::message`] says.
pub open spec fn units_error_text(e: UnitsError) -> Seq<char> {
    match e {
        UnitsError::Empty => "amount is empty"@,
        UnitsError::NotANumber => "amount is not a decimal number"@,
        UnitsError::TooPrecise { decimals, given } => "amount has "@ + decimal(given as nat)
            + " decimal places, the mint has "@ + decimal(decimals as nat),
        UnitsError::Overflow => "amount does not fit in u64 base units"@,
    }
}

impl UnitsError {
    /// The error in words.
    pub fn message(&self) -> (r: String)
        ensures
            r@ == units_error_text(*self),
    {
        let mut out = String::new();
        match self {
            UnitsError::Empty => push_str(&mut out, "amount is empty"),
            UnitsError::NotANumber => push_str(&mut out, "amount is not a decimal number"),
            UnitsError::TooPrecise { decimals, given } => {
                push_str(&mut out, "amount has ");
                push_decimal(&mut out, *given as u64);
                push_str(&mut out, " decimal places, the mint has ");
                push_decimal(&mut out, *decimals as u64);
            },
            UnitsError::Overflow => push_str(&mut out, "amount does not fit in u64 base units"),
        }
        out
    }
}

} // verus!
