use vstd::prelude::*;
use crate::timer::Progress;

verus! {

/// The back-easing overshoot constant `C2 = 1.70158 * 1.525`, as the fraction
/// `EASE_C2_NUM / EASE_SCALE`.
pub const EASE_C2_NUM: i128 = 25949095;

/// Denominator of the easing constant.
pub const EASE_SCALE: i128 = 10000000;

/// A signed fraction `num / den` with `den > 0`.
#[derive(Clone, Copy, Debug, PartialEq, Eq, Structural)]
pub struct Ratio {
    pub num: i128,
    pub den: i128,
}

impl Ratio {
    pub open spec fn wf(self) -> bool {
        self.den > 0
    }
}

/// Numerator of `ease_in_out_back(n / d)` over the denominator `ease_den(d)`.
///
/// With `t = n / d`, `C2 = a / b` and `m = n - d`, the curve
/// `((2t)^2 * ((C2 + 1) * 2t - C2)) / 2` for `t < 1/2` equals
/// `2 n^2 (2 (a + b) n - a d) / (b d^3)`, and the curve
/// `((2t - 2)^2 * ((C2 + 1) * (2t - 2) + C2) + 2) / 2` for `t >= 1/2` equals
/// `(2 m^2 (2 (a + b) m + a d) + b d^3) / (b d^3)`.
pub open spec fn ease_num(n: int, d: int) -> int {
    let a = EASE_C2_NUM as int;
    let b = EASE_SCALE as int;
    if 2 * n < d {
        2 * n * n * (2 * (a + b) * n - a * d)
    } else {
        let m = n - d;
        2 * m * m * (2 * (a + b) * m + a * d) + b * d * d * d
    }
}

/// Denominator of `ease_in_out_back(n / d)`.
pub open spec fn ease_den(d: int) -> int {
    EASE_SCALE as int * d * d * d
}

proof fn lemma_cube_bound(d: int)
    requires
        0 < d <= u32::MAX,
    ensures
        0 < d * d <= 0x1_0000_0000_0000_0000,
        0 < d * d * d <= 0x1_0000_0000_0000_0000_0000_0000,
{
    assert(0 < d * d <= 0x1_0000_0000_0000_0000) by (nonlinear_arith)
        requires
            0 < d <= 0x1_0000_0000,
    ;
    assert(0 < d * d * d <= 0x1_0000_0000_0000_0000_0000_0000) by (nonlinear_arith)
        requires
            0 < d <= 0x1_0000_0000,
            0 < d * d <= 0x1_0000_0000_0000_0000,
    ;
}

proof fn lemma_product_bound(s: int, x: int)
    requires
        0 <= s <= 0x2_0000_0000_0000_0000,
        -0x1000_0000_0000_0000 <= x <= 0x1000_0000_0000_0000,
    ensures
        -0x2000_0000_0000_0000_0000_0000_0000_0000 <= s * x <= 0x2000_0000_0000_0000_0000_0000_0000_0000,
{
    assert(-0x2000_0000_0000_0000_0000_0000_0000_0000 <= s * x
        <= 0x2000_0000_0000_0000_0000_0000_0000_0000) by (nonlinear_arith)
        requires
            0 <= s <= 0x2_0000_0000_0000_0000,
            -0x1000_0000_0000_0000 <= x <= 0x1000_0000_0000_0000,
    ;
}

/// The back easing curve in-and-out, evaluated exactly at the fraction `t`.
/// The result dips below zero shortly after the start and rises above one
/// shortly before the end.
pub fn ease_in_out_back(t: Progress) -> (r: Ratio)
    requires
        t.wf(),
    ensures
        r.num == ease_num(t.num as int, t.den as int),
        r.den == ease_den(t.den as int),
        r.wf(),
{
    let a: i128 = EASE_C2_NUM;
    let b: i128 = EASE_SCALE;
    let n: i128 = t.num as i128;
    let d: i128 = t.den as i128;
    proof {
        lemma_cube_bound(d as int);
    }
    let d3: i128 = d * d * d;
    let den: i128 = b * d3;
    let k: i128 = 2 * (a + b);
    proof {
        assert(den == b * d * d * d) by (nonlinear_arith)
            requires
                den == b * d3,
                d3 == d * d * d,
        ;
        assert(0 <= k * d <= 0x1000_0000_0000_0000 && 0 <= a * d <= 0x1000_0000_0000_0000)
            by (nonlinear_arith)
            requires
                0 < d <= 0x1_0000_0000,
                k == 71898190,
                a == 25949095,
        ;
        assert(-k * d <= k * (n - d) <= 0) by (nonlinear_arith)
            requires
                0 <= n <= d,
                k == 71898190,
        ;
        assert(0 <= k * n <= k * d) by (nonlinear_arith)
            requires
                0 <= n <= d,
                k == 71898190,
        ;
    }
    if 2 * n < d {
        let inner: i128 = k * n - a * d;
        proof {
            assert(0 <= n * n <= d * d) by (nonlinear_arith)
                requires
                    0 <= n <= d,
            ;
        }
        let sq: i128 = 2 * (n * n);
        proof {
            lemma_product_bound(sq as int, inner as int);
            assert(sq * inner == 2 * n * n * (k * n - a * d)) by (nonlinear_arith)
                requires
                    sq == 2 * (n * n),
                    inner == k * n - a * d,
            ;
        }
        Ratio { num: sq * inner, den }
    } else {
        let m: i128 = n - d;
        let inner: i128 = k * m + a * d;
        proof {
            assert(0 <= m * m <= d * d) by (nonlinear_arith)
                requires
                    -d <= m <= 0,
            ;
        }
        let sq: i128 = 2 * (m * m);
        proof {
            lemma_product_bound(sq as int, inner as int);
            assert(sq * inner == 2 * m * m * (k * m + a * d)) by (nonlinear_arith)
                requires
                    sq == 2 * (m * m),
                    inner == k * m + a * d,
            ;
        }
        Ratio { num: sq * inner + den, den }
    }
}

} // verus!
