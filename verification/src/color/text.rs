//! The text in which a colour is stored.
//!
//! A colour is written as `rgba(r,g,b,a)`. Each of the four components is a
//! decimal number: an optional minus sign, one or more digits, and
//! optionally a point with one or more digits after it. The first three
//! digits after the point count; any further ones are dropped.

use crate::color::GameColor;
use vstd::prelude::*;
use vstd::slice::slice_subrange;

verus! {

/// The bytes that the text of a colour is made of.
pub const ZERO: u8 = 48;

pub const NINE: u8 = 57;

pub const POINT: u8 = 46;

pub const MINUS: u8 = 45;

pub const COMMA: u8 = 44;

pub const OPEN: u8 = 40;

pub const CLOSE: u8 = 41;

pub const LETTER_R: u8 = 114;

pub const LETTER_G: u8 = 103;

pub const LETTER_B: u8 = 98;

pub const LETTER_A: u8 = 97;

/// Why a text is not a colour.
#[derive(Debug, Clone, Copy, PartialEq, Eq, Structural)]
pub enum ColorFormatError {
    /// The text does not start with `rgba(` and end with `)`.
    MissingWrapper,
    /// Between the brackets there are not exactly four components.
    WrongComponentCount,
    /// A component is not a decimal number, or is too large for a scalar.
    InvalidNumber,
}

/// Whether `b` is one of the ten digits.
pub open spec fn is_digit(b: u8) -> bool {
    ZERO <= b <= NINE
}

/// Whether `s` holds digits only.
pub open spec fn all_digits(s: Seq<u8>) -> bool {
    forall|i: int| 0 <= i < s.len() ==> is_digit(#[trigger] s[i])
}

/// The number that a run of digits denotes.
pub open spec fn digits_value(s: Seq<u8>) -> int
    decreases s.len(),
{
    if s.len() == 0 {
        0
    } else {
        digits_value(s.drop_last()) * 10 + (s.last() - ZERO)
    }
}

/// The digit at place `i` after the point, and 0 where the digits end
/// before it.
pub open spec fn digit_at(s: Seq<u8>, i: int) -> int {
    if i < s.len() {
        s[i] - ZERO
    } else {
        0
    }
}

/// The thousandths that the digits after the point denote.
pub open spec fn thousandths(frac: Seq<u8>) -> int {
    digit_at(frac, 0) * 100 + digit_at(frac, 1) * 10 + digit_at(frac, 2)
}

/// Where `b` first occurs in `s`, and the length of `s` where it does not.
pub open spec fn first_at(s: Seq<u8>, b: u8) -> int
    decreases s.len(),
{
    if s.len() == 0 || s[0] == b {
        0
    } else {
        1 + first_at(s.drop_first(), b)
    }
}

/// The count of thousandths that an unsigned decimal number denotes, if
/// `s` is one.
pub open spec fn unsigned_of(s: Seq<u8>) -> Option<int> {
    let dot = first_at(s, POINT);
    let whole = s.take(dot);
    if whole.len() == 0 || !all_digits(whole) {
        None
    } else if dot == s.len() {
        Some(digits_value(whole) * 1000)
    } else {
        let frac = s.skip(dot + 1);
        if frac.len() == 0 || !all_digits(frac) {
            None
        } else {
            Some(digits_value(whole) * 1000 + thousandths(frac))
        }
    }
}

/// The scalar that a decimal number denotes, if `s` is one and the scalar
/// exists.
pub open spec fn scalar_of(s: Seq<u8>) -> Option<i32> {
    let negative = s.len() > 0 && s[0] == MINUS;
    let body = if negative {
        s.skip(1)
    } else {
        s
    };
    match unsigned_of(body) {
        None => None,
        Some(m) => {
            let v = if negative {
                -m
            } else {
                m
            };
            if i32::MIN <= v <= i32::MAX {
                Some(v as i32)
            } else {
                None
            }
        },
    }
}

/// The pieces of `s` between its commas.
pub open spec fn fields(s: Seq<u8>) -> Seq<Seq<u8>>
    decreases s.len(),
{
    let k = first_at(s, COMMA);
    if k >= s.len() {
        seq![s]
    } else {
        proof {
            lemma_first_at(s, COMMA);
        }
        seq![s.take(k)] + fields(s.skip(k + 1))
    }
}

/// Whether `text` starts with `rgba(` and ends with `)`.
pub open spec fn wrapped(text: Seq<u8>) -> bool {
    &&& text.len() >= 6
    &&& text[0] == LETTER_R
    &&& text[1] == LETTER_G
    &&& text[2] == LETTER_B
    &&& text[3] == LETTER_A
    &&& text[4] == OPEN
    &&& text[text.len() - 1] == CLOSE
}

/// The colour that `text` denotes, or why it denotes none.
pub open spec fn parsed(text: Seq<u8>) -> Result<GameColor, ColorFormatError> {
    if !wrapped(text) {
        Err(ColorFormatError::MissingWrapper)
    } else {
        let parts = fields(text.subrange(5, text.len() - 1));
        if parts.len() != 4 {
            Err(ColorFormatError::WrongComponentCount)
        } else {
            match (scalar_of(parts[0]), scalar_of(parts[1]), scalar_of(parts[2]), scalar_of(parts[3])) {
                (Some(r), Some(g), Some(b), Some(a)) => Ok(GameColor { r, g, b, a }),
                _ => Err(ColorFormatError::InvalidNumber),
            }
        }
    }
}

/// The digits of `n`, without leading zeros.
pub open spec fn digits_of(n: nat) -> Seq<u8>
    decreases n,
{
    if n < 10 {
        seq![(ZERO + n) as u8]
    } else {
        digits_of(n / 10).push((ZERO + n % 10) as u8)
    }
}

/// The point and the digits after it for `f` thousandths, without trailing
/// zeros; nothing at all for zero.
pub open spec fn frac_text(f: nat) -> Seq<u8>
    recommends
        f < 1000,
{
    let d0 = (ZERO + f / 100) as u8;
    let d1 = (ZERO + (f / 10) % 10) as u8;
    let d2 = (ZERO + f % 10) as u8;
    if f == 0 {
        Seq::empty()
    } else if f % 10 != 0 {
        seq![POINT, d0, d1, d2]
    } else if (f / 10) % 10 != 0 {
        seq![POINT, d0, d1]
    } else {
        seq![POINT, d0]
    }
}

/// The decimal number that is written for a scalar.
pub open spec fn scalar_text(v: i32) -> Seq<u8> {
    let m: nat = if v < 0 {
        (-v) as nat
    } else {
        v as nat
    };
    let sign: Seq<u8> = if v < 0 {
        seq![MINUS]
    } else {
        Seq::empty()
    };
    sign + digits_of(m / 1000) + frac_text(m % 1000)
}

/// The text that is written for a colour.
pub open spec fn text_of(c: GameColor) -> Seq<u8> {
    seq![LETTER_R, LETTER_G, LETTER_B, LETTER_A, OPEN] + scalar_text(c.r) + seq![COMMA] + scalar_text(c.g) + seq![
        COMMA,
    ] + scalar_text(c.b) + seq![COMMA] + scalar_text(c.a) + seq![CLOSE]
}

/// `first_at` finds the first occurrence: before it no byte is `b`, and it
/// is the only place of which that and `s[k] == b` hold.
pub proof fn lemma_first_at(s: Seq<u8>, b: u8)
    ensures
        0 <= first_at(s, b) <= s.len(),
        first_at(s, b) < s.len() ==> s[first_at(s, b)] == b,
        forall|i: int| 0 <= i < first_at(s, b) ==> s[i] != b,
    decreases s.len(),
{
    if s.len() != 0 && s[0] != b {
        let rest = s.drop_first();
        lemma_first_at(rest, b);
        assert forall|i: int| 0 <= i < first_at(s, b) implies s[i] != b by {
            if i > 0 {
                assert(s[i] == rest[i - 1]);
            }
        }
    }
}

/// A place before which no byte is `b`, and which holds `b` or is the end,
/// is where `first_at` points.
pub proof fn lemma_first_at_is(s: Seq<u8>, b: u8, k: int)
    requires
        0 <= k <= s.len(),
        forall|i: int| 0 <= i < k ==> s[i] != b,
        k < s.len() ==> s[k] == b,
    ensures
        first_at(s, b) == k,
    decreases s.len(),
{
    if k > 0 {
        let rest = s.drop_first();
        assert(s[0] != b);
        assert forall|i: int| 0 <= i < k - 1 implies rest[i] != b by {
            assert(rest[i] == s[i + 1]);
        }
        lemma_first_at_is(rest, b, k - 1);
    }
}

/// The value of a run of digits does not shrink when digits are added.
proof fn lemma_digits_value_grows(s: Seq<u8>, k: int)
    requires
        all_digits(s),
        0 <= k <= s.len(),
    ensures
        0 <= digits_value(s.take(k)) <= digits_value(s),
    decreases s.len() - k,
{
    lemma_digits_value_nonneg(s.take(k));
    if k < s.len() {
        lemma_digits_value_grows(s, k + 1);
        assert(s.take(k + 1).drop_last() =~= s.take(k));
        assert(is_digit(s[k]));
    } else {
        assert(s.take(k) =~= s);
    }
}

proof fn lemma_digits_value_nonneg(s: Seq<u8>)
    requires
        all_digits(s),
    ensures
        digits_value(s) >= 0,
    decreases s.len(),
{
    if s.len() > 0 {
        assert(is_digit(s.last()));
        lemma_digits_value_nonneg(s.drop_last());
    }
}

/// Where `b` first occurs in `s`.
fn find_byte(s: &[u8], b: u8) -> (k: usize)
    ensures
        k == first_at(s@, b),
{
    let n: usize = s.len();
    let mut i: usize = 0;
    while i < n && s[i] != b
        invariant
            i <= n,
            n == s@.len(),
            forall|j: int| 0 <= j < i ==> s@[j] != b,
        decreases n - i,
    {
        i += 1;
    }
    proof {
        lemma_first_at_is(s@, b, i as int);
    }
    i
}

fn all_digit_bytes(s: &[u8]) -> (r: bool)
    ensures
        r == all_digits(s@),
{
    let n: usize = s.len();
    let mut i: usize = 0;
    while i < n
        invariant
            i <= n,
            n == s@.len(),
            forall|j: int| 0 <= j < i ==> is_digit(#[trigger] s@[j]),
        decreases n - i,
    {
        if s[i] < ZERO || s[i] > NINE {
            assert(!is_digit(s@[i as int]));
            return false;
        }
        i += 1;
    }
    true
}

/// The value of a run of digits, unless `s` is empty, holds another byte,
/// or denotes more than `limit`.
fn parse_digits(s: &[u8], limit: i64) -> (r: Option<i64>)
    requires
        0 <= limit <= 0x1_0000_0000,
    ensures
        r matches Some(v) ==> s@.len() > 0 && all_digits(s@) && v == digits_value(s@) && 0 <= v
            <= limit,
        r is None ==> s@.len() == 0 || !all_digits(s@) || digits_value(s@) > limit,
{
    let n: usize = s.len();
    if n == 0 {
        return None;
    }
    let mut acc: i64 = 0;
    let mut i: usize = 0;
    while i < n
        invariant
            i <= n,
            n == s@.len(),
            0 <= limit <= 0x1_0000_0000,
            all_digits(s@.take(i as int)),
            acc == digits_value(s@.take(i as int)),
            0 <= acc <= limit,
        decreases n - i,
    {
        let b: u8 = s[i];
        if b < ZERO || b > NINE {
            assert(!is_digit(s@[i as int]));
            return None;
        }
        proof {
            assert(s@.take(i + 1).drop_last() =~= s@.take(i as int));
            assert(s@.take(i + 1).last() == b);
            assert forall|j: int| 0 <= j < i + 1 implies is_digit(#[trigger] s@.take(i + 1)[j]) by {
                if j < i {
                    assert(s@.take(i as int)[j] == s@[j]);
                }
            }
        }
        acc = acc * 10 + (b - ZERO) as i64;
        if acc > limit {
            proof {
                if all_digits(s@) {
                    lemma_digits_value_grows(s@, i + 1);
                }
            }
            return None;
        }
        i += 1;
    }
    assert(s@.take(n as int) =~= s@);
    Some(acc)
}

/// The largest whole part that a scalar can have.
const MAX_WHOLE: i64 = 2147483;

/// The count of thousandths of an unsigned decimal number, unless `s` is
/// none or denotes more than any scalar.
fn parse_unsigned(s: &[u8]) -> (r: Option<i64>)
    ensures
        r matches Some(m) ==> unsigned_of(s@) == Some(m as int) && 0 <= m <= 2147483999,
        r is None ==> unsigned_of(s@) is None || unsigned_of(s@)->0 > 2147483999,
{
    let n: usize = s.len();
    let dot: usize = find_byte(s, POINT);
    proof {
        lemma_first_at(s@, POINT);
    }
    let whole = slice_subrange(s, 0, dot);
    assert(whole@ =~= s@.take(dot as int));
    let units: i64 = match parse_digits(whole, MAX_WHOLE) {
        Some(v) => v,
        None => {
            proof {
                if whole@.len() > 0 && all_digits(whole@) {
                    if dot < n {
                        let frac = s@.skip(dot + 1);
                        if frac.len() > 0 && all_digits(frac) {
                            assert(thousandths(frac) >= 0) by {
                                if frac.len() > 0 {
                                    assert(is_digit(frac[0]));
                                }
                                if frac.len() > 1 {
                                    assert(is_digit(frac[1]));
                                }
                                if frac.len() > 2 {
                                    assert(is_digit(frac[2]));
                                }
                            }
                        }
                    }
                }
            }
            return None;
        },
    };
    if dot == n {
        return Some(units * 1000);
    }
    let frac = slice_subrange(s, dot + 1, n);
    assert(frac@ =~= s@.skip(dot + 1));
    if frac.len() == 0 || !all_digit_bytes(frac) {
        return None;
    }
    let mut part: i64 = ((frac[0] - ZERO) as i64) * 100;
    assert(is_digit(frac@[0]));
    if frac.len() > 1 {
        assert(is_digit(frac@[1]));
        part = part + ((frac[1] - ZERO) as i64) * 10;
    }
    if frac.len() > 2 {
        assert(is_digit(frac@[2]));
        part = part + (frac[2] - ZERO) as i64;
    }
    assert(part == thousandths(frac@));
    Some(units * 1000 + part)
}

/// The scalar that a decimal number denotes.
fn parse_scalar(s: &[u8]) -> (r: Option<i32>)
    ensures
        r == scalar_of(s@),
{
    let n: usize = s.len();
    let negative: bool = n > 0 && s[0] == MINUS;
    let body = if negative {
        slice_subrange(s, 1, n)
    } else {
        s
    };
    assert(negative ==> body@ =~= s@.skip(1));
    match parse_unsigned(body) {
        None => None,
        Some(m) => {
            if negative {
                if m <= 2147483648 {
                    Some((-m) as i32)
                } else {
                    None
                }
            } else {
                if m <= 2147483647 {
                    Some(m as i32)
                } else {
                    None
                }
            }
        },
    }
}

/// A comma leaves at least one field before it and one after it.
proof fn lemma_fields_count(s: Seq<u8>)
    ensures
        fields(s).len() >= 1,
        first_at(s, COMMA) < s.len() ==> fields(s).len() == 1 + fields(
            s.skip(first_at(s, COMMA) + 1),
        ).len(),
        first_at(s, COMMA) < s.len() ==> fields(s)[0] == s.take(first_at(s, COMMA)),
        first_at(s, COMMA) < s.len() ==> forall|i: int|
            1 <= i < fields(s).len() ==> fields(s)[i] == fields(s.skip(first_at(s, COMMA) + 1))[i
                - 1],
        first_at(s, COMMA) >= s.len() ==> fields(s) == seq![s],
    decreases s.len(),
{
    lemma_first_at(s, COMMA);
    let k = first_at(s, COMMA);
    if k < s.len() {
        lemma_fields_count(s.skip(k + 1));
    }
}

/// A byte that is a digit, a point or a minus sign: what a written scalar
/// is made of.
pub open spec fn is_scalar_byte(b: u8) -> bool {
    is_digit(b) || b == POINT || b == MINUS
}

/// The digits of a number are digits, and denote the number.
proof fn lemma_digits_of(n: nat)
    ensures
        digits_of(n).len() >= 1,
        all_digits(digits_of(n)),
        digits_value(digits_of(n)) == n,
    decreases n,
{
    if n < 10 {
        let s = digits_of(n);
        assert(s.drop_last() =~= Seq::<u8>::empty());
        assert(digits_value(s.drop_last()) == 0);
    } else {
        lemma_digits_of(n / 10);
        let front = digits_of(n / 10);
        let s = digits_of(n);
        assert(s.drop_last() =~= front);
        assert forall|i: int| 0 <= i < s.len() implies is_digit(#[trigger] s[i]) by {
            if i < front.len() {
                assert(s[i] == front[i]);
            }
        }
    }
}

/// What is written after the whole part denotes the thousandths.
proof fn lemma_frac_text(f: nat)
    requires
        f < 1000,
    ensures
        f == 0 ==> frac_text(f).len() == 0,
        f > 0 ==> frac_text(f).len() >= 2 && frac_text(f)[0] == POINT && all_digits(
            frac_text(f).skip(1),
        ) && thousandths(frac_text(f).skip(1)) == f,
{
    if f > 0 {
        let t = frac_text(f);
        let digits = t.skip(1);
        assert forall|i: int| 0 <= i < digits.len() implies is_digit(#[trigger] digits[i]) by {
            assert(digits[i] == t[i + 1]);
        }
        assert(digits[0] == t[1]);
        if digits.len() > 1 {
            assert(digits[1] == t[2]);
        }
        if digits.len() > 2 {
            assert(digits[2] == t[3]);
        }
    }
}

/// Reading what is written for `m` thousandths gives `m`.
proof fn lemma_unsigned_round_trip(m: nat)
    ensures
        unsigned_of(digits_of(m / 1000) + frac_text(m % 1000)) == Some(m as int),
        forall|i: int|
            0 <= i < (digits_of(m / 1000) + frac_text(m % 1000)).len() ==> is_scalar_byte(
                #[trigger] (digits_of(m / 1000) + frac_text(m % 1000))[i],
            ),
        (digits_of(m / 1000) + frac_text(m % 1000)).len() >= 1,
        is_digit((digits_of(m / 1000) + frac_text(m % 1000))[0]),
{
    let whole = digits_of(m / 1000);
    let tail = frac_text(m % 1000);
    let s = whole + tail;
    lemma_digits_of(m / 1000);
    lemma_frac_text(m % 1000);
    assert(s[0] == whole[0]);
    assert forall|i: int| 0 <= i < s.len() implies is_scalar_byte(#[trigger] s[i]) by {
        if i < whole.len() {
            assert(s[i] == whole[i]);
            assert(is_digit(whole[i]));
        } else if i == whole.len() {
            assert(s[i] == tail[0]);
        } else {
            assert(s[i] == tail.skip(1)[i - whole.len() - 1]);
        }
    }
    assert forall|i: int| 0 <= i < whole.len() implies s[i] != POINT by {
        assert(s[i] == whole[i]);
        assert(is_digit(whole[i]));
    }
    if tail.len() > 0 {
        assert(s[whole.len() as int] == tail[0]);
    }
    lemma_first_at_is(s, POINT, whole.len() as int);
    assert(s.take(whole.len() as int) =~= whole);
    if tail.len() > 0 {
        assert(s.skip(whole.len() as int + 1) =~= tail.skip(1));
    }
}

/// Reading what is written for a scalar gives the scalar, and what is
/// written holds no comma.
pub proof fn lemma_scalar_round_trip(v: i32)
    ensures
        scalar_of(scalar_text(v)) == Some(v),
        forall|i: int| 0 <= i < scalar_text(v).len() ==> #[trigger] scalar_text(v)[i] != COMMA,
{
    let m: nat = if v < 0 {
        (-v) as nat
    } else {
        v as nat
    };
    let body = digits_of(m / 1000) + frac_text(m % 1000);
    lemma_unsigned_round_trip(m);
    let s = scalar_text(v);
    if v < 0 {
        assert(s =~= seq![MINUS] + body);
        assert(s[0] == MINUS);
        assert(s.skip(1) =~= body);
        assert forall|i: int| 0 <= i < s.len() implies #[trigger] s[i] != COMMA by {
            if i > 0 {
                assert(s[i] == body[i - 1]);
                assert(is_scalar_byte(body[i - 1]));
            }
        }
    } else {
        assert(s =~= body);
        assert(is_digit(s[0]));
        assert forall|i: int| 0 <= i < s.len() implies #[trigger] s[i] != COMMA by {
            assert(is_scalar_byte(body[i]));
        }
    }
}

/// A piece without a comma, a comma, and more text: the piece is the first
/// field, and the fields of the rest follow.
proof fn lemma_fields_of_joined(a: Seq<u8>, rest: Seq<u8>)
    requires
        forall|i: int| 0 <= i < a.len() ==> a[i] != COMMA,
    ensures
        fields(a + seq![COMMA] + rest) == seq![a] + fields(rest),
{
    let s = a + seq![COMMA] + rest;
    assert forall|i: int| 0 <= i < a.len() implies s[i] != COMMA by {
        assert(s[i] == a[i]);
    }
    assert(s[a.len() as int] == COMMA);
    lemma_first_at_is(s, COMMA, a.len() as int);
    assert(s.take(a.len() as int) =~= a);
    assert(s.skip(a.len() as int + 1) =~= rest);
}

/// A piece without a comma is its own single field.
proof fn lemma_fields_of_single(a: Seq<u8>)
    requires
        forall|i: int| 0 <= i < a.len() ==> a[i] != COMMA,
    ensures
        fields(a) == seq![a],
{
    lemma_first_at_is(a, COMMA, a.len() as int);
}

/// Reading the text that is written for a colour gives the colour back.
pub proof fn lemma_text_round_trip(c: GameColor)
    ensures
        parsed(text_of(c)) == Ok::<GameColor, ColorFormatError>(c),
{
    let r = scalar_text(c.r);
    let g = scalar_text(c.g);
    let b = scalar_text(c.b);
    let a = scalar_text(c.a);
    lemma_scalar_round_trip(c.r);
    lemma_scalar_round_trip(c.g);
    lemma_scalar_round_trip(c.b);
    lemma_scalar_round_trip(c.a);
    let text = text_of(c);
    let inner = text.subrange(5, text.len() - 1);
    let rest3 = a;
    let rest2 = b + seq![COMMA] + rest3;
    let rest1 = g + seq![COMMA] + rest2;
    assert(inner =~= r + seq![COMMA] + rest1);
    lemma_fields_of_joined(r, rest1);
    lemma_fields_of_joined(g, rest2);
    lemma_fields_of_joined(b, rest3);
    lemma_fields_of_single(a);
    let parts = fields(inner);
    assert(parts =~= seq![r, g, b, a]);
    assert(wrapped(text));
}

fn push_digits(out: &mut Vec<u8>, n: u32)
    ensures
        final(out)@ == old(out)@ + digits_of(n as nat),
    decreases n,
{
    if n >= 10 {
        push_digits(out, n / 10);
    }
    out.push(ZERO + (n % 10) as u8);
    assert(out@ =~= old(out)@ + digits_of(n as nat));
}

fn push_scalar(out: &mut Vec<u8>, v: i32)
    ensures
        final(out)@ == old(out)@ + scalar_text(v),
{
    let m: u32 = if v < 0 {
        out.push(MINUS);
        (-(v as i64)) as u32
    } else {
        v as u32
    };
    push_digits(out, m / 1000);
    let f: u32 = m % 1000;
    if f != 0 {
        out.push(POINT);
        out.push(ZERO + (f / 100) as u8);
        if f % 10 != 0 {
            out.push(ZERO + ((f / 10) % 10) as u8);
            out.push(ZERO + (f % 10) as u8);
        } else if (f / 10) % 10 != 0 {
            out.push(ZERO + ((f / 10) % 10) as u8);
        }
    }
    assert(out@ =~= old(out)@ + scalar_text(v));
}

impl GameColor {
    /// Reads a colour from its text.
    pub fn parse(text: &[u8]) -> (r: Result<GameColor, ColorFormatError>)
        ensures
            r == parsed(text@),
    {
        let n: usize = text.len();
        if n < 6 || text[0] != LETTER_R || text[1] != LETTER_G || text[2] != LETTER_B || text[3]
            != LETTER_A || text[4] != OPEN || text[n - 1] != CLOSE {
            return Err(ColorFormatError::MissingWrapper);
        }
        let inner = slice_subrange(text, 5, n - 1);
        let len0: usize = inner.len();
        let k1: usize = find_byte(inner, COMMA);
        proof {
            lemma_fields_count(inner@);
        }
        if k1 >= len0 {
            return Err(ColorFormatError::WrongComponentCount);
        }
        let first = slice_subrange(inner, 0, k1);
        let rest1 = slice_subrange(inner, k1 + 1, len0);
        assert(first@ =~= inner@.take(k1 as int));
        assert(rest1@ =~= inner@.skip(k1 + 1));
        let len1: usize = rest1.len();
        let k2: usize = find_byte(rest1, COMMA);
        proof {
            lemma_fields_count(rest1@);
        }
        if k2 >= len1 {
            return Err(ColorFormatError::WrongComponentCount);
        }
        let second = slice_subrange(rest1, 0, k2);
        let rest2 = slice_subrange(rest1, k2 + 1, len1);
        assert(second@ =~= rest1@.take(k2 as int));
        assert(rest2@ =~= rest1@.skip(k2 + 1));
        let len2: usize = rest2.len();
        let k3: usize = find_byte(rest2, COMMA);
        proof {
            lemma_fields_count(rest2@);
        }
        if k3 >= len2 {
            return Err(ColorFormatError::WrongComponentCount);
        }
        let third = slice_subrange(rest2, 0, k3);
        let fourth = slice_subrange(rest2, k3 + 1, len2);
        assert(third@ =~= rest2@.take(k3 as int));
        assert(fourth@ =~= rest2@.skip(k3 + 1));
        let k4: usize = find_byte(fourth, COMMA);
        proof {
            lemma_fields_count(fourth@);
            if k4 < fourth@.len() {
                lemma_fields_count(fourth@.skip(k4 + 1));
            }
        }
        if k4 < fourth.len() {
            return Err(ColorFormatError::WrongComponentCount);
        }
        proof {
            let parts = fields(inner@);
            assert(parts.len() == 4);
            assert(parts[0] == first@);
            assert(parts[1] == fields(rest1@)[0]);
            assert(parts[2] == fields(rest1@)[1]);
            assert(fields(rest1@)[1] == fields(rest2@)[0]);
            assert(parts[3] == fields(rest1@)[2]);
            assert(fields(rest1@)[2] == fields(rest2@)[1]);
            assert(fields(rest2@)[1] == fields(fourth@)[0]);
        }
        let r = parse_scalar(first);
        let g = parse_scalar(second);
        let b = parse_scalar(third);
        let a = parse_scalar(fourth);
        match (r, g, b, a) {
            (Some(r), Some(g), Some(b), Some(a)) => Ok(GameColor { r, g, b, a }),
            _ => Err(ColorFormatError::InvalidNumber),
        }
    }

    /// Writes the colour as text.
    pub fn to_text(&self) -> (text: Vec<u8>)
        ensures
            text@ == text_of(*self),
    {
        let mut text: Vec<u8> = Vec::new();
        text.push(LETTER_R);
        text.push(LETTER_G);
        text.push(LETTER_B);
        text.push(LETTER_A);
        text.push(OPEN);
        push_scalar(&mut text, self.r);
        text.push(COMMA);
        push_scalar(&mut text, self.g);
        text.push(COMMA);
        push_scalar(&mut text, self.b);
        text.push(COMMA);
        push_scalar(&mut text, self.a);
        text.push(CLOSE);
        assert(text@ =~= text_of(*self));
        text
    }
}

} // verus!
