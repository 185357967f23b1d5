//! Exact non-negative rational quantities.
//!
//! Masses and nutrient amounts are fractions of unsigned integers with a
//! positive denominator, kept reduced by a greatest common divisor after
//! every operation. Arithmetic is checked: an operation whose intermediate
//! products would exceed the machine range reports failure instead of
//! wrapping.

use vstd::prelude::*;
use vstd::arithmetic::div_mod::{lemma_fundamental_div_mod, lemma_mod_multiples_vanish};

verus! {

/// Mathematical model of a quantity: a fraction of naturals.
pub struct Frac {
    pub num: nat,
    pub den: nat,
}

/// A fraction is well formed when its denominator is positive.
pub open spec fn frac_wf(f: Frac) -> bool {
    f.den >= 1
}

/// Two fractions denote the same rational number.
pub open spec fn frac_eq(a: Frac, b: Frac) -> bool {
    a.num * b.den == b.num * a.den
}

/// Greatest common divisor by Euclid's rule.
pub open spec fn gcd(a: nat, b: nat) -> nat
    decreases b,
{
    if b == 0 {
        a
    } else {
        gcd(b, a % b)
    }
}

/// The reduced form of the fraction num/den.
pub open spec fn norm(num: nat, den: nat) -> Frac
    recommends
        den >= 1,
{
    Frac { num: num / gcd(num, den), den: den / gcd(num, den) }
}

/// The greatest common divisor of `a` and a positive `b` is positive and at
/// most `b`.
pub proof fn lemma_gcd_pos_le(a: nat, b: nat)
    requires
        b >= 1,
    ensures
        1 <= gcd(a, b) <= b,
    decreases b,
{
    if a % b == 0 {
        assert(gcd(a, b) == gcd(b, a % b));
        assert(gcd(b, 0) == b);
    } else {
        lemma_gcd_pos_le(b, a % b);
    }
}

/// The greatest common divisor divides both of its arguments.
pub proof fn lemma_gcd_divides(a: nat, b: nat)
    requires
        b >= 1,
    ensures
        gcd(a, b) >= 1,
        a % gcd(a, b) == 0,
        b % gcd(a, b) == 0,
    decreases b,
{
    lemma_gcd_pos_le(a, b);
    let g = gcd(a, b);
    if a % b == 0 {
        assert(gcd(a, b) == gcd(b, 0));
        assert(gcd(b, 0) == b);
        assert(b % b == 0) by {
            lemma_mod_multiples_vanish(1, 0, b as int);
        }
    } else {
        lemma_gcd_divides(b, a % b);
        assert(g == gcd(b, a % b));
        lemma_fundamental_div_mod(a as int, b as int);
        let q = a as int / b as int;
        let k = b as int / g as int;
        lemma_fundamental_div_mod(b as int, g as int);
        assert(b as int == g * k);
        assert(a as int == b * q + (a % b));
        assert(a as int == g * (k * q) + (a % b)) by (nonlinear_arith)
            requires
                a as int == b * q + (a % b),
                b as int == g * k,
        ;
        lemma_mod_multiples_vanish(k * q, (a % b) as int, g as int);
        assert(a as int % g as int == (a % b) as int % g as int);
    }
}

/// Reducing a fraction does not change the rational number it denotes.
pub proof fn lemma_norm_value(num: nat, den: nat)
    requires
        den >= 1,
    ensures
        frac_wf(norm(num, den)),
        frac_eq(norm(num, den), Frac { num, den }),
{
    let g = gcd(num, den);
    lemma_gcd_divides(num, den);
    lemma_fundamental_div_mod(num as int, g as int);
    lemma_fundamental_div_mod(den as int, g as int);
    let nn = num / g;
    let dd = den / g;
    assert(num == g * nn);
    assert(den == g * dd);
    assert(dd >= 1) by (nonlinear_arith)
        requires
            den == g * dd,
            den >= 1,
            dd >= 0,
    ;
    assert(nn * den == num * dd) by (nonlinear_arith)
        requires
            num == g * nn,
            den == g * dd,
    ;
}

/// The reduced sum denotes exactly the rational sum of its operands.
pub proof fn lemma_add_frac_value(a: Frac, b: Frac)
    requires
        frac_wf(a),
        frac_wf(b),
    ensures
        frac_wf(add_frac(a, b)),
        frac_eq(add_frac(a, b), Frac { num: a.num * b.den + b.num * a.den, den: a.den * b.den }),
{
    assert(a.den * b.den >= 1) by (nonlinear_arith)
        requires
            a.den >= 1,
            b.den >= 1,
    ;
    lemma_norm_value(a.num * b.den + b.num * a.den, a.den * b.den);
}

/// The reduced product denotes exactly the rational product of its operands.
pub proof fn lemma_mul_frac_value(a: Frac, b: Frac)
    requires
        frac_wf(a),
        frac_wf(b),
    ensures
        frac_wf(mul_frac(a, b)),
        frac_eq(mul_frac(a, b), Frac { num: a.num * b.num, den: a.den * b.den }),
{
    assert(a.den * b.den >= 1) by (nonlinear_arith)
        requires
            a.den >= 1,
            b.den >= 1,
    ;
    lemma_norm_value(a.num * b.num, a.den * b.den);
}

/// Addition of quantities is commutative, so the order in which
/// contributions are accumulated cannot change a total.
pub proof fn lemma_add_frac_commutes(a: Frac, b: Frac)
    ensures
        add_frac(a, b) == add_frac(b, a),
{
    assert(a.num * b.den + b.num * a.den == b.num * a.den + a.num * b.den);
    assert(a.den * b.den == b.den * a.den) by (nonlinear_arith);
}

/// Whether the cross products of an addition stay in machine range.
pub open spec fn add_fits(a: Frac, b: Frac) -> bool {
    &&& a.num * b.den <= u128::MAX
    &&& b.num * a.den <= u128::MAX
    &&& a.num * b.den + b.num * a.den <= u128::MAX
    &&& a.den * b.den <= u128::MAX
}

/// The reduced sum of two fractions.
pub open spec fn add_frac(a: Frac, b: Frac) -> Frac {
    norm(a.num * b.den + b.num * a.den, a.den * b.den)
}

/// Checked addition: the sum when it fits the machine range.
pub open spec fn checked_add_frac(a: Frac, b: Frac) -> Option<Frac> {
    if add_fits(a, b) {
        Some(add_frac(a, b))
    } else {
        None
    }
}

/// Whether the products of a multiplication stay in machine range.
pub open spec fn mul_fits(a: Frac, b: Frac) -> bool {
    &&& a.num * b.num <= u128::MAX
    &&& a.den * b.den <= u128::MAX
}

/// The reduced product of two fractions.
pub open spec fn mul_frac(a: Frac, b: Frac) -> Frac {
    norm(a.num * b.num, a.den * b.den)
}

/// Checked multiplication: the product when it fits the machine range.
pub open spec fn checked_mul_frac(a: Frac, b: Frac) -> Option<Frac> {
    if mul_fits(a, b) {
        Some(mul_frac(a, b))
    } else {
        None
    }
}

/// The reciprocal of a positive fraction.
pub open spec fn recip(a: Frac) -> Frac
    recommends
        a.num >= 1,
{
    Frac { num: a.den, den: a.num }
}

/// Checked division: multiplication by the reciprocal of the divisor.
pub open spec fn checked_div_frac(a: Frac, b: Frac) -> Option<Frac>
    recommends
        b.num >= 1,
{
    checked_mul_frac(a, recip(b))
}

/// An exact non-negative quantity, as a reduced fraction.
#[derive(Clone, Copy, Debug, PartialEq, Eq)]
pub struct Amount {
    pub num: u128,
    pub den: u128,
}

impl View for Amount {
    type V = Frac;

    open spec fn view(&self) -> Frac {
        Frac { num: self.num as nat, den: self.den as nat }
    }
}

/// The model of an optional quantity.
pub open spec fn oview(o: Option<Amount>) -> Option<Frac> {
    match o {
        Option::None => Option::None,
        Option::Some(a) => Option::Some(a@),
    }
}

fn gcd_exec(a: u128, b: u128) -> (g: u128)
    ensures
        g as nat == gcd(a as nat, b as nat),
        b >= 1 ==> 1 <= g <= b,
{
    let mut x: u128 = a;
    let mut y: u128 = b;
    while y != 0
        invariant
            gcd(x as nat, y as nat) == gcd(a as nat, b as nat),
        decreases y,
    {
        let r: u128 = x % y;
        assert(gcd(x as nat, y as nat) == gcd(y as nat, r as nat));
        x = y;
        y = r;
    }
    proof {
        if b >= 1 {
            lemma_gcd_pos_le(a as nat, b as nat);
        }
    }
    x
}

/// Build the reduced fraction num/den.
fn reduce(num: u128, den: u128) -> (r: Amount)
    requires
        den >= 1,
    ensures
        r@ == norm(num as nat, den as nat),
        frac_wf(r@),
{
    let g = gcd_exec(num, den);
    proof {
        lemma_gcd_divides(num as nat, den as nat);
        lemma_fundamental_div_mod(den as int, g as int);
        assert(den as int / g as int >= 1) by (nonlinear_arith)
            requires
                1 <= g as int <= den as int,
                den as int == g as int * (den as int / g as int) + den as int % g as int,
                0 <= den as int % g as int,
                (den as int % g as int) < (g as int),
        ;
    }
    Amount { num: num / g, den: den / g }
}

impl Amount {
    /// Whether this quantity is well formed.
    pub open spec fn wf(&self) -> bool {
        frac_wf(self@)
    }

    /// The reduced quantity num/den.
    pub fn new(num: u128, den: u128) -> (r: Amount)
        requires
            den >= 1,
        ensures
            r@ == norm(num as nat, den as nat),
            r.wf(),
            frac_eq(r@, Frac { num: num as nat, den: den as nat }),
    {
        proof {
            lemma_norm_value(num as nat, den as nat);
        }
        reduce(num, den)
    }

    /// The whole quantity n.
    pub fn from_int(n: u128) -> (r: Amount)
        ensures
            r@ == (Frac { num: n as nat, den: 1nat }),
            r.wf(),
    {
        Amount { num: n, den: 1 }
    }

    /// The zero quantity.
    pub fn zero() -> (r: Amount)
        ensures
            r@ == (Frac { num: 0nat, den: 1nat }),
            r.wf(),
    {
        Amount { num: 0, den: 1 }
    }

    /// Whether this quantity is zero.
    pub fn is_zero(&self) -> (r: bool)
        requires
            self.wf(),
        ensures
            r == (self@.num == 0),
    {
        self.num == 0
    }

    /// Checked sum of two quantities.
    pub fn checked_add(&self, other: &Amount) -> (r: Option<Amount>)
        requires
            self.wf(),
            other.wf(),
        ensures
            oview(r) == checked_add_frac(self@, other@),
            r matches Some(c) ==> c.wf(),
    {
        let x1 = match self.num.checked_mul(other.den) {
            Some(v) => v,
            None => {
                return None;
            },
        };
        let x2 = match other.num.checked_mul(self.den) {
            Some(v) => v,
            None => {
                return None;
            },
        };
        let s = match x1.checked_add(x2) {
            Some(v) => v,
            None => {
                return None;
            },
        };
        let dd = match self.den.checked_mul(other.den) {
            Some(v) => v,
            None => {
                return None;
            },
        };
        proof {
            assert(dd >= 1) by (nonlinear_arith)
                requires
                    dd as int == self.den as int * other.den as int,
                    self.den >= 1,
                    other.den >= 1,
            ;
        }
        Some(reduce(s, dd))
    }

    /// Checked product of two quantities.
    pub fn checked_mul(&self, other: &Amount) -> (r: Option<Amount>)
        requires
            self.wf(),
            other.wf(),
        ensures
            oview(r) == checked_mul_frac(self@, other@),
            r matches Some(c) ==> c.wf(),
    {
        let nn = match self.num.checked_mul(other.num) {
            Some(v) => v,
            None => {
                return None;
            },
        };
        let dd = match self.den.checked_mul(other.den) {
            Some(v) => v,
            None => {
                return None;
            },
        };
        proof {
            assert(dd >= 1) by (nonlinear_arith)
                requires
                    dd as int == self.den as int * other.den as int,
                    self.den >= 1,
                    other.den >= 1,
            ;
        }
        Some(reduce(nn, dd))
    }

    /// Checked quotient of two quantities; the divisor must be positive.
    pub fn checked_div(&self, other: &Amount) -> (r: Option<Amount>)
        requires
            self.wf(),
            other.wf(),
            other@.num >= 1,
        ensures
            oview(r) == checked_div_frac(self@, other@),
            r matches Some(c) ==> c.wf(),
    {
        let flipped = Amount { num: other.den, den: other.num };
        self.checked_mul(&flipped)
    }
}

} // verus!
