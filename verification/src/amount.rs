use vstd::prelude::*;

verus! {

/// One more than the largest representable quantity: 2^256.
pub open spec fn limit256() -> nat {
    0x10000000000000000000000000000000000000000000000000000000000000000int as nat
}

/// A non-negative 256-bit quantity of an asset's smallest unit, stored as
/// four 64-bit limbs, least significant first. Arithmetic on amounts
/// detects overflow rather than wrapping.
#[derive(Clone, Copy, Debug, PartialEq, Eq, Structural)]
pub struct Amount {
    pub limb0: u64,
    pub limb1: u64,
    pub limb2: u64,
    pub limb3: u64,
}

/// The numeric values of a sequence of amounts.
pub open spec fn nats_of(s: Seq<Amount>) -> Seq<nat> {
    s.map_values(|a: Amount| a.as_nat())
}

impl Amount {
    /// The mathematical value of this amount.
    pub open spec fn as_nat(self) -> nat {
        (self.limb0
            + self.limb1 * 0x10000000000000000
            + self.limb2 * (0x10000000000000000 * 0x10000000000000000)
            + self.limb3 * (0x10000000000000000 * 0x10000000000000000 * 0x10000000000000000))
            as nat
    }

    pub proof fn lemma_bound(self)
        ensures
            self.as_nat() < limit256(),
    {
        assert(0 <= self.limb0 + self.limb1 * 0x10000000000000000 + self.limb2 * (
        0x10000000000000000 * 0x10000000000000000) + self.limb3 * (0x10000000000000000
            * 0x10000000000000000 * 0x10000000000000000) && self.limb0 + self.limb1
            * 0x10000000000000000 + self.limb2 * (0x10000000000000000 * 0x10000000000000000)
            + self.limb3 * (0x10000000000000000 * 0x10000000000000000 * 0x10000000000000000)
            < 0x10000000000000000000000000000000000000000000000000000000000000000int)
            by (nonlinear_arith)
            requires
                self.limb0 <= 0xffffffffffffffffu64,
                self.limb1 <= 0xffffffffffffffffu64,
                self.limb2 <= 0xffffffffffffffffu64,
                self.limb3 <= 0xffffffffffffffffu64,
        ;
    }

    /// Limbwise lexicographic dominance implies numeric order.
    proof fn lemma_lex_lt(a: Amount, b: Amount)
        requires
            a.limb3 < b.limb3 || (a.limb3 == b.limb3 && a.limb2 < b.limb2) || (a.limb3 == b.limb3
                && a.limb2 == b.limb2 && a.limb1 < b.limb1) || (a.limb3 == b.limb3 && a.limb2
                == b.limb2 && a.limb1 == b.limb1 && a.limb0 < b.limb0),
        ensures
            a.as_nat() < b.as_nat(),
    {
        assert(0 <= a.limb0 + a.limb1 * 0x10000000000000000 + a.limb2 * (0x10000000000000000
            * 0x10000000000000000) + a.limb3 * (0x10000000000000000 * 0x10000000000000000
            * 0x10000000000000000) && 0 <= b.limb0 + b.limb1 * 0x10000000000000000 + b.limb2 * (
        0x10000000000000000 * 0x10000000000000000) + b.limb3 * (0x10000000000000000
            * 0x10000000000000000 * 0x10000000000000000) && a.limb0 + a.limb1 * 0x10000000000000000
            + a.limb2 * (0x10000000000000000 * 0x10000000000000000) + a.limb3 * (
        0x10000000000000000 * 0x10000000000000000 * 0x10000000000000000) < b.limb0 + b.limb1
            * 0x10000000000000000 + b.limb2 * (0x10000000000000000 * 0x10000000000000000) + b.limb3
            * (0x10000000000000000 * 0x10000000000000000 * 0x10000000000000000))
            by (nonlinear_arith)
            requires
                a.limb0 <= 0xffffffffffffffffu64,
                a.limb1 <= 0xffffffffffffffffu64,
                a.limb2 <= 0xffffffffffffffffu64,
                a.limb3 <= 0xffffffffffffffffu64,
                a.limb3 < b.limb3 || (a.limb3 == b.limb3 && a.limb2 < b.limb2) || (a.limb3
                    == b.limb3 && a.limb2 == b.limb2 && a.limb1 < b.limb1) || (a.limb3 == b.limb3
                    && a.limb2 == b.limb2 && a.limb1 == b.limb1 && a.limb0 < b.limb0),
        ;
    }

    /// The value is zero exactly when every limb is zero.
    proof fn lemma_zero(self)
        ensures
            (self.as_nat() == 0) == (self.limb0 == 0 && self.limb1 == 0 && self.limb2 == 0
                && self.limb3 == 0),
    {
        assert((self.limb0 + self.limb1 * 0x10000000000000000 + self.limb2 * (0x10000000000000000
            * 0x10000000000000000) + self.limb3 * (0x10000000000000000 * 0x10000000000000000
            * 0x10000000000000000) == 0) == (self.limb0 == 0 && self.limb1 == 0 && self.limb2 == 0
            && self.limb3 == 0) && 0 <= self.limb0 + self.limb1 * 0x10000000000000000 + self.limb2
            * (0x10000000000000000 * 0x10000000000000000) + self.limb3 * (0x10000000000000000
            * 0x10000000000000000 * 0x10000000000000000)) by (nonlinear_arith);
    }

    pub fn zero() -> (r: Amount)
        ensures
            r.as_nat() == 0,
    {
        Amount { limb0: 0, limb1: 0, limb2: 0, limb3: 0 }
    }

    pub fn from_u64(x: u64) -> (r: Amount)
        ensures
            r.as_nat() == x,
    {
        Amount { limb0: x, limb1: 0, limb2: 0, limb3: 0 }
    }

    pub fn is_zero(&self) -> (r: bool)
        ensures
            r == (self.as_nat() == 0),
    {
        proof {
            self.lemma_zero();
        }
        self.limb0 == 0 && self.limb1 == 0 && self.limb2 == 0 && self.limb3 == 0
    }

    /// Strict comparison of the mathematical values.
    pub fn lt(&self, other: &Amount) -> (r: bool)
        ensures
            r == (self.as_nat() < other.as_nat()),
    {
        proof {
            if self.limb3 < other.limb3 || (self.limb3 == other.limb3 && self.limb2 < other.limb2)
                || (self.limb3 == other.limb3 && self.limb2 == other.limb2 && self.limb1
                < other.limb1) || (self.limb3 == other.limb3 && self.limb2 == other.limb2
                && self.limb1 == other.limb1 && self.limb0 < other.limb0) {
                Amount::lemma_lex_lt(*self, *other);
            }
            if other.limb3 < self.limb3 || (other.limb3 == self.limb3 && other.limb2 < self.limb2)
                || (other.limb3 == self.limb3 && other.limb2 == self.limb2 && other.limb1
                < self.limb1) || (other.limb3 == self.limb3 && other.limb2 == self.limb2
                && other.limb1 == self.limb1 && other.limb0 < self.limb0) {
                Amount::lemma_lex_lt(*other, *self);
            }
        }
        if self.limb3 != other.limb3 {
            self.limb3 < other.limb3
        } else if self.limb2 != other.limb2 {
            self.limb2 < other.limb2
        } else if self.limb1 != other.limb1 {
            self.limb1 < other.limb1
        } else {
            self.limb0 < other.limb0
        }
    }

    /// Relies on alloy's `U256::checked_mul`: the exact product of the two
    /// values when it fits in 256 bits, `None` otherwise.
    #[verifier::external_body]
    pub(crate) fn checked_mul(&self, other: &Amount) -> (r: Option<Amount>)
        ensures
            r is Some <==> self.as_nat() * other.as_nat() < limit256(),
            r is Some ==> r.unwrap().as_nat() == self.as_nat() * other.as_nat(),
    {
        let a = alloy::primitives::U256::from_limbs([self.limb0, self.limb1, self.limb2, self.limb3]);
        let b = alloy::primitives::U256::from_limbs([other.limb0, other.limb1, other.limb2, other.limb3]);
        a.checked_mul(b).map(|p| {
            let l = p.into_limbs();
            Amount { limb0: l[0], limb1: l[1], limb2: l[2], limb3: l[3] }
        })
    }

    /// Relies on alloy's `U256::checked_add`: the exact sum of the two
    /// values when it fits in 256 bits, `None` otherwise.
    #[verifier::external_body]
    pub(crate) fn checked_add(&self, other: &Amount) -> (r: Option<Amount>)
        ensures
            r is Some <==> self.as_nat() + other.as_nat() < limit256(),
            r is Some ==> r.unwrap().as_nat() == self.as_nat() + other.as_nat(),
    {
        let a = alloy::primitives::U256::from_limbs([self.limb0, self.limb1, self.limb2, self.limb3]);
        let b = alloy::primitives::U256::from_limbs([other.limb0, other.limb1, other.limb2, other.limb3]);
        a.checked_add(b).map(|s| {
            let l = s.into_limbs();
            Amount { limb0: l[0], limb1: l[1], limb2: l[2], limb3: l[3] }
        })
    }

    /// Relies on alloy's `U256::checked_div`: the quotient, rounded toward
    /// zero, unless the divisor is zero.
    #[verifier::external_body]
    pub(crate) fn checked_div(&self, other: &Amount) -> (r: Option<Amount>)
        ensures
            r is Some <==> other.as_nat() != 0,
            r is Some ==> r.unwrap().as_nat() == self.as_nat() / other.as_nat(),
    {
        let a = alloy::primitives::U256::from_limbs([self.limb0, self.limb1, self.limb2, self.limb3]);
        let b = alloy::primitives::U256::from_limbs([other.limb0, other.limb1, other.limb2, other.limb3]);
        a.checked_div(b).map(|q| {
            let l = q.into_limbs();
            Amount { limb0: l[0], limb1: l[1], limb2: l[2], limb3: l[3] }
        })
    }
}

} // verus!
