//! Floating-point numbers as plain values.
//!
//! The language carries a floating-point number from the text or from a bound
//! parameter to the engine and does no arithmetic on it. A [`Real`] holds what
//! the language reads of it: the bits of its binary64 form and the two texts it
//! is printed with.

use vstd::prelude::*;
use crate::scan::{int_order, Order};
use crate::text::{chars_of, cat2, text_between};

verus! {

/// A binary64 number: its bits, its shortest decimal text, and its text in
/// JSON.
#[derive(Debug)]
pub struct Real {
    pub bits: u64,
    pub shown: String,
    pub json: String,
}

/// The mathematical view of a [`Real`].
pub struct RealV {
    pub bits: u64,
    pub shown: Seq<char>,
    pub json: Seq<char>,
}

impl DeepView for Real {
    type V = RealV;

    open spec fn deep_view(&self) -> RealV {
        RealV { bits: self.bits, shown: self.shown@, json: self.json@ }
    }
}

/// Two to the power `n`.
pub open spec fn two(n: nat) -> nat
    decreases n,
{
    if n == 0 {
        1
    } else {
        2 * two((n - 1) as nat)
    }
}

pub open spec fn exponent_field(bits: u64) -> int {
    (bits as int / 0x10_0000_0000_0000) % 2048
}

pub open spec fn fraction_field(bits: u64) -> int {
    bits as int % 0x10_0000_0000_0000
}

/// Whether the sign bit is set.
pub open spec fn is_negative(bits: u64) -> bool {
    bits >= 0x8000_0000_0000_0000
}

/// Neither infinite nor a NaN.
pub open spec fn finite(bits: u64) -> bool {
    exponent_field(bits) != 2047
}

pub open spec fn is_nan(bits: u64) -> bool {
    !finite(bits) && fraction_field(bits) != 0
}

/// The magnitude of a finite number is `mantissa * 2^scale`.
pub open spec fn mantissa(bits: u64) -> nat {
    if exponent_field(bits) == 0 {
        fraction_field(bits) as nat
    } else {
        (fraction_field(bits) + 0x10_0000_0000_0000) as nat
    }
}

pub open spec fn scale(bits: u64) -> int {
    (if exponent_field(bits) == 0 {
        1
    } else {
        exponent_field(bits)
    }) - 1075
}

/// The magnitude of a finite number, cut to a whole number.
pub open spec fn magnitude(bits: u64) -> nat {
    if scale(bits) >= 0 {
        mantissa(bits) * two(scale(bits) as nat)
    } else {
        mantissa(bits) / two((-scale(bits)) as nat)
    }
}

/// Whether a number is finite and has no fraction.
pub open spec fn is_whole(bits: u64) -> bool {
    finite(bits) && (scale(bits) >= 0 || mantissa(bits) % two((-scale(bits)) as nat) == 0)
}

/// A finite number, cut toward zero.
pub open spec fn truncated(bits: u64) -> int {
    if is_negative(bits) {
        -(magnitude(bits) as int)
    } else {
        magnitude(bits) as int
    }
}

/// The stored integer nearest to a number after its fraction is cut: a NaN is
/// zero, and what does not fit takes the nearer end of the range.
pub open spec fn saturated(bits: u64) -> int {
    if is_nan(bits) {
        0
    } else if !finite(bits) || magnitude(bits) >= 0x8000_0000_0000_0000 {
        if is_negative(bits) {
            i64::MIN as int
        } else {
            i64::MAX as int
        }
    } else {
        truncated(bits)
    }
}

proof fn two_grows(a: nat, b: nat)
    requires
        a <= b,
    ensures
        1 <= two(a) <= two(b),
    decreases b,
{
    if a < b {
        two_grows(a, (b - 1) as nat);
    } else if a > 0 {
        two_grows((a - 1) as nat, (b - 1) as nat);
    }
}

proof fn two_values()
    ensures
        two(10) == 1024,
        two(11) == 2048,
        two(52) == 0x10_0000_0000_0000,
        two(53) == 0x20_0000_0000_0000,
        two(62) == 0x4000_0000_0000_0000,
        two(64) == 0x1_0000_0000_0000_0000,
{
    assert(two(2) == 4 && two(4) == 16 && two(10) == 1024 && two(11) == 2048) by {
        reveal_with_fuel(two, 12);
    }
    two_sum(10, 10);
    assert(two(20) == 0x10_0000);
    two_sum(20, 20);
    assert(two(40) == 0x100_0000_0000);
    two_sum(10, 40);
    assert(two(50) == 0x4_0000_0000_0000);
    two_sum(2, 50);
    two_sum(1, 52);
    assert(two(1) == 2) by {
        reveal_with_fuel(two, 2);
    }
    two_sum(10, 50);
    assert(two(60) == 0x1000_0000_0000_0000);
    two_sum(2, 60);
    two_sum(4, 60);
}

fn power(n: u64) -> (r: u64)
    requires
        n <= 62,
    ensures
        r == two(n as nat),
{
    let mut r: u64 = 1;
    let mut i: u64 = 0;
    while i < n
        invariant
            i <= n <= 62,
            r == two(i as nat),
        decreases n - i,
    {
        proof {
            two_grows((i + 1) as nat, 62);
            two_values();
        }
        r = r * 2;
        i = i + 1;
    }
    r
}

pub fn has_sign(bits: u64) -> (r: bool)
    ensures
        r == is_negative(bits),
{
    bits >= 0x8000_0000_0000_0000
}

pub fn is_finite(bits: u64) -> (r: bool)
    ensures
        r == finite(bits),
{
    (bits / 0x10_0000_0000_0000) % 2048 != 2047
}

/// The magnitude of a finite number, where it is below `2^63`, and whether
/// nothing was cut.
fn cut(bits: u64) -> (r: Option<(u64, bool)>)
    requires
        finite(bits),
    ensures
        match r {
            Some((m, whole)) => m == magnitude(bits) && m < 0x8000_0000_0000_0000 && whole
                == is_whole(bits),
            None => magnitude(bits) >= 0x8000_0000_0000_0000,
        },
{
    let field: u64 = (bits / 0x10_0000_0000_0000) % 2048;
    let fraction: u64 = bits % 0x10_0000_0000_0000;
    let m: u64 = if field == 0 {
        fraction
    } else {
        fraction + 0x10_0000_0000_0000
    };
    let place: u64 = if field == 0 {
        1
    } else {
        field
    };
    proof {
        two_values();
    }
    if place >= 1075 {
        let up: u64 = place - 1075;
        if up >= 11 {
            proof {
                two_grows(11, up as nat);
                assert(m * two(up as nat) >= 0x10_0000_0000_0000 * 2048) by (nonlinear_arith)
                    requires
                        m >= 0x10_0000_0000_0000,
                        two(up as nat) >= 2048,
                ;
            }
            None
        } else {
            let p = power(up);
            proof {
                two_grows(up as nat, 10);
                assert(m * p < 0x20_0000_0000_0000 * 1024) by (nonlinear_arith)
                    requires
                        m < 0x20_0000_0000_0000,
                        1 <= p <= 1024,
                ;
            }
            Some((m * p, true))
        }
    } else {
        let down: u64 = 1075 - place;
        if down >= 53 {
            proof {
                two_grows(53, down as nat);
                assert(m as int / two(down as nat) as int == 0 && m as int % two(down as nat) as int
                    == m) by (nonlinear_arith)
                    requires
                        0 <= m < two(down as nat),
                ;
            }
            Some((0, m == 0))
        } else {
            let p = power(down);
            proof {
                two_grows(0, down as nat);
                assert(m as int / p as int <= m) by (nonlinear_arith)
                    requires
                        p >= 1,
                        m >= 0,
                ;
            }
            Some((m / p, m % p == 0))
        }
    }
}

/// The stored integer that a number is cut to.
pub fn to_i64(bits: u64) -> (r: i64)
    ensures
        r == saturated(bits),
{
    if !is_finite(bits) {
        return if bits % 0x10_0000_0000_0000 != 0 {
            0
        } else if has_sign(bits) {
            i64::MIN
        } else {
            i64::MAX
        };
    }
    match cut(bits) {
        None => if has_sign(bits) {
            i64::MIN
        } else {
            i64::MAX
        },
        Some((m, _)) => if has_sign(bits) {
            0 - (m as i64)
        } else {
            m as i64
        },
    }
}

/// The size that a number is cut to: a NaN and a negative number are zero, and
/// what does not fit is the largest size.
pub open spec fn saturated_size(bits: u64) -> int {
    if is_nan(bits) || is_negative(bits) {
        0
    } else if !finite(bits) || magnitude(bits) > usize::MAX {
        usize::MAX as int
    } else {
        magnitude(bits) as int
    }
}

/// The size that a number is cut to.
pub fn to_size(bits: u64) -> (r: usize)
    ensures
        r == saturated_size(bits),
{
    if has_sign(bits) {
        return 0;
    }
    if !is_finite(bits) {
        return if bits % 0x10_0000_0000_0000 != 0 {
            0
        } else {
            usize::MAX
        };
    }
    match cut(bits) {
        Some((m, _)) => if m as u128 > usize::MAX as u128 {
            usize::MAX
        } else {
            m as usize
        },
        None => {
            let field: u64 = (bits / 0x10_0000_0000_0000) % 2048;
            let m: u64 = (bits % 0x10_0000_0000_0000) + 0x10_0000_0000_0000;
            proof {
                two_values();
                cut_large(bits);
            }
            if field == 1086 {
                let all: u128 = (m as u128) * 2048;
                assert(magnitude(bits) == all);
                if all > usize::MAX as u128 {
                    usize::MAX
                } else {
                    all as usize
                }
            } else {
                proof {
                    if field < 1086 {
                        two_grows((field - 1075) as nat, 10);
                        assert(m * two((field - 1075) as nat) < 0x20_0000_0000_0000 * 1024)
                            by (nonlinear_arith)
                            requires
                                m < 0x20_0000_0000_0000,
                                1 <= two((field - 1075) as nat) <= 1024,
                        ;
                    } else {
                        two_grows(12, (field - 1075) as nat);
                        assert(m * two((field - 1075) as nat) >= 0x10_0000_0000_0000 * 4096)
                            by (nonlinear_arith)
                            requires
                                m >= 0x10_0000_0000_0000,
                                two((field - 1075) as nat) >= 4096,
                        ;
                    }
                }
                usize::MAX
            }
        },
    }
}

/// Whether a number is finite and has no fraction.
pub fn whole(bits: u64) -> (r: bool)
    ensures
        r == is_whole(bits),
{
    if !is_finite(bits) {
        return false;
    }
    match cut(bits) {
        None => {
            proof {
                cut_large(bits);
            }
            true
        },
        Some((_, w)) => w,
    }
}

proof fn cut_large(bits: u64)
    requires
        magnitude(bits) >= 0x8000_0000_0000_0000,
    ensures
        scale(bits) >= 0,
{
    if scale(bits) < 0 {
        two_grows(0, (-scale(bits)) as nat);
        let m = mantissa(bits) as int;
        let p = two((-scale(bits)) as nat) as int;
        assert(m / p <= m) by (nonlinear_arith)
            requires
                p >= 1,
                m >= 0,
        ;
    }
}

/// The largest magnitude, exclusive, that a written whole number is kept
/// exact for.
pub const EXACT_BOUND: u64 = 9_000_000_000_000_000_000;

/// The whole number a written number is, where it is one and below the bound.
pub open spec fn exact_whole(bits: u64) -> Option<i64> {
    if is_whole(bits) && magnitude(bits) < EXACT_BOUND {
        Some(truncated(bits) as i64)
    } else {
        None
    }
}

pub fn whole_i64(bits: u64) -> (r: Option<i64>)
    ensures
        r == exact_whole(bits),
{
    if !is_finite(bits) {
        return None;
    }
    match cut(bits) {
        None => None,
        Some((m, w)) => if w && m < EXACT_BOUND {
            if has_sign(bits) {
                Some(0 - (m as i64))
            } else {
                Some(m as i64)
            }
        } else {
            None
        },
    }
}

// ── order ────────────────────────────────────────────────────────────────

/// The place of a number that is not a NaN in the order of such numbers; the
/// two zeros share one.
pub open spec fn rank(bits: u64) -> int {
    if is_negative(bits) {
        -(bits as int - 0x8000_0000_0000_0000)
    } else {
        bits as int
    }
}

/// The order of two numbers; a NaN has none.
pub open spec fn real_order(a: u64, b: u64) -> Option<Order> {
    if is_nan(a) || is_nan(b) {
        None
    } else {
        Some(int_order(rank(a), rank(b)))
    }
}

fn not_a_number(bits: u64) -> (r: bool)
    ensures
        r == is_nan(bits),
{
    !is_finite(bits) && bits % 0x10_0000_0000_0000 != 0
}

fn rank_of(bits: u64) -> (r: i64)
    ensures
        r == rank(bits),
{
    if has_sign(bits) {
        0 - ((bits - 0x8000_0000_0000_0000) as i64)
    } else {
        bits as i64
    }
}

pub fn order_real(a: u64, b: u64) -> (r: Option<Order>)
    ensures
        r == real_order(a, b),
{
    if not_a_number(a) || not_a_number(b) {
        None
    } else {
        Some(crate::scan::order_i64(rank_of(a), rank_of(b)))
    }
}

/// How many binary digits `n` has.
pub open spec fn bit_length(n: nat) -> nat
    decreases n,
{
    if n == 0 {
        0
    } else {
        1 + bit_length(n / 2)
    }
}

/// The bits of the binary64 number nearest to `n`, the even one of two that
/// are equally near.
pub open spec fn nearest_bits(n: int) -> int {
    let m: nat = if n < 0 {
        (-n) as nat
    } else {
        n as nat
    };
    let sign: int = if n < 0 {
        0x8000_0000_0000_0000
    } else {
        0
    };
    let length = bit_length(m);
    if m == 0 {
        0
    } else if length <= 53 {
        sign + (length + 1021) * 0x10_0000_0000_0000 + m * two((53 - length) as nat)
    } else {
        let drop = (length - 53) as nat;
        let kept = m / two(drop);
        let rest = m % two(drop);
        let half = two((drop - 1) as nat);
        let up: int = if rest > half || (rest == half && kept % 2 == 1) {
            1
        } else {
            0
        };
        sign + (length + 1021) * 0x10_0000_0000_0000 + kept + up
    }
}

proof fn bit_length_bounds(n: nat)
    requires
        n > 0,
    ensures
        bit_length(n) > 0,
        two((bit_length(n) - 1) as nat) <= n < two(bit_length(n)),
    decreases n,
{
    if n > 1 {
        bit_length_bounds(n / 2);
    } else {
        reveal_with_fuel(bit_length, 3);
        reveal_with_fuel(two, 3);
    }
}

proof fn two_sum(a: nat, b: nat)
    ensures
        two(a + b) == two(a) * two(b),
    decreases a,
{
    if a > 0 {
        two_sum((a - 1) as nat, b);
        assert(two(a + b) == 2 * two((a - 1 + b) as nat));
        assert(two(a) * two(b) == 2 * (two((a - 1) as nat) * two(b))) by (nonlinear_arith)
            requires
                two(a) == 2 * two((a - 1) as nat),
        ;
    } else {
        assert(two(0) * two(b) == two(b)) by (nonlinear_arith)
            requires
                two(0) == 1,
        ;
    }
}

proof fn bit_length_fits(n: nat)
    requires
        n < 0x1_0000_0000_0000_0000,
    ensures
        bit_length(n) <= 64,
{
    if n > 0 {
        bit_length_bounds(n);
        two_values();
        if bit_length(n) > 64 {
            two_grows(64, (bit_length(n) - 1) as nat);
        }
    }
}

fn length_of(n: u64) -> (r: u64)
    ensures
        r == bit_length(n as nat),
        r <= 64,
{
    let mut left: u64 = n;
    let mut r: u64 = 0;
    proof {
        bit_length_fits(n as nat);
    }
    while left > 0
        invariant
            r + bit_length(left as nat) == bit_length(n as nat),
            bit_length(n as nat) <= 64,
        decreases left,
    {
        left = left / 2;
        r = r + 1;
    }
    r
}

/// The bits of the binary64 number nearest to a stored integer.
pub fn int_bits(n: i64) -> (r: u64)
    ensures
        r == nearest_bits(n as int),
{
    let m: u64 = if n == i64::MIN {
        0x8000_0000_0000_0000
    } else if n < 0 {
        (0 - n) as u64
    } else {
        n as u64
    };
    let sign: u64 = if n < 0 {
        0x8000_0000_0000_0000
    } else {
        0
    };
    if m == 0 {
        return 0;
    }
    let length = length_of(m);
    proof {
        bit_length_bounds(m as nat);
        two_values();
    }
    if length <= 53 {
        let p = power(53 - length);
        proof {
            two_sum(length as nat, (53 - length) as nat);
            two_grows(0, (53 - length) as nat);
            assert(m * p < two(length as nat) * p) by (nonlinear_arith)
                requires
                    m < two(length as nat),
                    p >= 1,
            ;
        }
        sign + (length + 1021) * 0x10_0000_0000_0000 + m * p
    } else {
        let drop: u64 = length - 53;
        let p = power(drop);
        let half = power(drop - 1);
        proof {
            two_grows(0, drop as nat);
        }
        let kept: u64 = m / p;
        let rest: u64 = m % p;
        proof {
            two_sum(53, drop as nat);
            assert(kept < 0x20_0000_0000_0000) by (nonlinear_arith)
                requires
                    kept == m / p,
                    p >= 1,
                    m < 0x20_0000_0000_0000 * p,
            ;
        }
        let up: u64 = if rest > half || (rest == half && kept % 2 == 1) {
            1
        } else {
            0
        };
        sign + (length + 1021) * 0x10_0000_0000_0000 + kept + up
    }
}

// ── sign ─────────────────────────────────────────────────────────────────

/// A printed number with its sign changed.
pub open spec fn negated_text(t: Seq<char>) -> Seq<char> {
    if t.len() > 0 && t[0] == '-' {
        t.drop_first()
    } else {
        "-"@ + t
    }
}

/// The number with its sign changed.
pub open spec fn negated(n: RealV) -> RealV {
    RealV {
        bits: if is_negative(n.bits) {
            (n.bits - 0x8000_0000_0000_0000) as u64
        } else {
            (n.bits + 0x8000_0000_0000_0000) as u64
        },
        shown: negated_text(n.shown),
        json: negated_text(n.json),
    }
}

fn negate_text(t: &str) -> (r: String)
    ensures
        r@ == negated_text(t@),
{
    let chars = chars_of(t);
    if chars.len() > 0 && chars[0] == '-' {
        assert(t@.drop_first() =~= chars@.subrange(1, chars@.len() as int));
        text_between(&chars, 1, chars.len())
    } else {
        cat2("-", t)
    }
}

impl Real {
    /// The number with its sign changed.
    pub fn negate(&self) -> (r: Real)
        ensures
            r.deep_view() == negated(self.deep_view()),
    {
        Real {
            bits: if has_sign(self.bits) {
                self.bits - 0x8000_0000_0000_0000
            } else {
                self.bits + 0x8000_0000_0000_0000
            },
            shown: negate_text(self.shown.as_str()),
            json: negate_text(self.json.as_str()),
        }
    }

    /// A copy.
    pub fn dup(&self) -> (r: Real)
        ensures
            r.deep_view() == self.deep_view(),
    {
        Real { bits: self.bits, shown: self.shown.clone(), json: self.json.clone() }
    }
}

} // verus!
