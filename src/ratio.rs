use vstd::prelude::*;

verus! {

/// A fraction `part / whole` of a quantity, held exactly as two integers.
///
/// A well-formed ratio lies in `[0, 1]`: `whole` is positive and `part`
/// does not exceed it.
#[derive(Clone, Copy, Debug)]
pub struct Ratio {
    pub part: u64,
    pub whole: u64,
}

impl Ratio {
    pub open spec fn wf(self) -> bool {
        0 < self.whole && self.part <= self.whole
    }

    /// The whole-percent value of the ratio, rounded down.
    pub open spec fn whole_percent(self) -> int {
        (self.part * 100) / (self.whole as int)
    }

    /// Whether `self` and `other` denote the same rational number.
    pub open spec fn same_value(self, other: Ratio) -> bool {
        self.part * other.whole == other.part * self.whole
    }

    /// Whether `self` is strictly smaller than `other` as rational numbers.
    pub open spec fn lt(self, other: Ratio) -> bool {
        self.part * other.whole < other.part * self.whole
    }

    /// Whether `self` is strictly smaller than `other` as rational numbers.
    pub fn is_below(&self, other: &Ratio) -> (r: bool)
        ensures
            r == self.lt(*other),
    {
        proof {
            lemma_product_fits(self.part, other.whole);
            lemma_product_fits(other.part, self.whole);
        }
        (self.part as u128) * (other.whole as u128) < (other.part as u128) * (self.whole as u128)
    }

    /// The whole-percent value of the ratio, rounded down.
    pub fn percent_floor(&self) -> (r: u64)
        requires
            self.wf(),
        ensures
            r as int == self.whole_percent(),
            r <= 100,
    {
        let scaled: u128 = (self.part as u128) * 100;
        let q: u128 = scaled / (self.whole as u128);
        assert(q <= 100) by (nonlinear_arith)
            requires
                q == scaled / (self.whole as u128),
                scaled == self.part * 100,
                self.part <= self.whole,
                0 < self.whole,
        ;
        q as u64
    }
}

/// Fractions that denote the same numbers are ordered alike.
pub proof fn lemma_same_value_same_order(a1: Ratio, b1: Ratio, a2: Ratio, b2: Ratio)
    requires
        a1.wf(),
        b1.wf(),
        a2.wf(),
        b2.wf(),
        a1.same_value(a2),
        b1.same_value(b2),
    ensures
        a1.lt(b1) == a2.lt(b2),
{
    let (x1, y1, u1, v1) = (a1.part as int, a1.whole as int, b1.part as int, b1.whole as int);
    let (x2, y2, u2, v2) = (a2.part as int, a2.whole as int, b2.part as int, b2.whole as int);
    assert((x1 * v1 < u1 * y1) == (x2 * v2 < u2 * y2)) by (nonlinear_arith)
        requires
            0 < y1,
            0 < v1,
            0 < y2,
            0 < v2,
            x1 * y2 == x2 * y1,
            u1 * v2 == u2 * v1,
    {
        // Scale both comparisons by the positive product y1 * y2 * v1 * v2.
        assert(x1 * v1 * (y2 * v2) == x2 * v2 * (y1 * v1));
        assert(u1 * y1 * (y2 * v2) == u2 * y2 * (y1 * v1));
        assert(0 < y2 * v2);
        assert(0 < y1 * v1);
    }
}

/// Fractions that denote the same number have the same whole-percent value.
pub proof fn lemma_same_value_same_percent(a: Ratio, b: Ratio)
    requires
        a.wf(),
        b.wf(),
        a.same_value(b),
    ensures
        a.whole_percent() == b.whole_percent(),
{
    let (x, y, u, v) = (a.part as int, a.whole as int, b.part as int, b.whole as int);
    let q = (x * 100) / y;
    assert(q * y <= x * 100 < (q + 1) * y) by (nonlinear_arith)
        requires
            0 < y,
            q == (x * 100) / y,
    ;
    // Multiplying through by v and using x * v == u * y, then dividing by y.
    assert(q * v <= u * 100 < (q + 1) * v) by (nonlinear_arith)
        requires
            0 < y,
            0 < v,
            x * v == u * y,
            q * y <= x * 100,
            x * 100 < (q + 1) * y,
    {
        assert(q * y * v <= x * 100 * v);
        assert(x * 100 * v == u * 100 * y);
        assert(x * 100 * v < (q + 1) * y * v);
    }
    assert((u * 100) / v == q) by (nonlinear_arith)
        requires
            0 < v,
            q * v <= u * 100,
            u * 100 < (q + 1) * v,
    ;
}

/// The product of two `u64` values fits in a `u128`.
pub proof fn lemma_product_fits(a: u64, b: u64)
    ensures
        a * b <= u128::MAX,
{
    assert(a * b <= u64::MAX * u64::MAX) by (nonlinear_arith)
        requires
            a <= u64::MAX,
            b <= u64::MAX,
    ;
}

} // verus!
