//! Arithmetic in the field of integers modulo the Stark prime.
use vstd::arithmetic::div_mod::{
    lemma_add_mod_noop, lemma_mod_multiples_vanish, lemma_mul_mod_noop_general, lemma_small_mod,
};
use vstd::prelude::*;

verus! {

/// 2^128: a field element is held as two halves of 128 bits.
pub open spec fn radix() -> nat {
    0x1_0000_0000_0000_0000_0000_0000_0000_0000nat
}

/// The upper half of the prime.
pub const PRIME_HIGH: u128 = 0x0800_0000_0000_0011_0000_0000_0000_0000;

/// The lower half of the prime.
pub const PRIME_LOW: u128 = 1;

/// The number whose upper and lower halves are `high` and `low`.
pub open spec fn join(high: u128, low: u128) -> nat {
    high as nat * radix() + low as nat
}

/// The Stark prime, 2^251 + 17 * 2^192 + 1.
pub open spec fn prime() -> nat {
    join(PRIME_HIGH, PRIME_LOW)
}

/// The prime, written out.
pub proof fn lemma_prime()
    ensures
        prime()
            == 0x800_0000_0000_0011_0000_0000_0000_0000_0000_0000_0000_0000_0000_0000_0000_0001nat,
{
    assert(0x0800_0000_0000_0011_0000_0000_0000_0000nat
        * 0x1_0000_0000_0000_0000_0000_0000_0000_0000nat + 1
        == 0x800_0000_0000_0011_0000_0000_0000_0000_0000_0000_0000_0000_0000_0000_0000_0001nat)
        by (nonlinear_arith);
}

/// The sum of `a` and `b` in the field.
pub open spec fn field_add(a: nat, b: nat) -> nat {
    (a + b) % prime()
}

/// The difference of `a` and `b` in the field.
pub open spec fn field_sub(a: nat, b: nat) -> nat {
    ((a as int - b as int) % (prime() as int)) as nat
}

/// The product of `a` and `b` in the field.
pub open spec fn field_mul(a: nat, b: nat) -> nat {
    (a * b) % prime()
}

/// An element of the field: a number below the prime.
#[derive(Clone, Copy, Debug, PartialEq, Eq)]
pub struct FieldElement {
    high: u128,
    low: u128,
}

impl View for FieldElement {
    type V = nat;

    closed spec fn view(&self) -> nat {
        join(self.high, self.low)
    }
}

/// Whether the number of the halves `high` and `low` is below the prime.
fn below_prime(high: u128, low: u128) -> (below: bool)
    ensures
        below == (join(high, low) < prime()),
{
    high < PRIME_HIGH || (high == PRIME_HIGH && low < PRIME_LOW)
}

impl FieldElement {
    #[verifier::type_invariant]
    spec fn wf(self) -> bool {
        join(self.high, self.low) < prime()
    }

    /// The element 0.
    pub fn zero() -> (e: FieldElement)
        ensures
            e@ == 0,
    {
        FieldElement { high: 0, low: 0 }
    }

    /// The element that `high * 2^128 + low` stands for: its remainder
    /// modulo the prime.
    pub fn from_halves(high: u128, low: u128) -> (e: FieldElement)
        ensures
            e@ == join(high, low) % prime(),
    {
        let mut h: u128 = high;
        let mut l: u128 = low;
        let ghost mut k: nat = 0;
        while !below_prime(h, l)
            invariant
                join(h, l) + k * prime() == join(high, low),
            decreases join(h, l),
        {
            if l >= PRIME_LOW {
                l = l - PRIME_LOW;
                h = h - PRIME_HIGH;
            } else {
                l = u128::MAX;
                h = h - PRIME_HIGH - 1;
            }
            proof {
                assert((k + 1) * prime() == k * prime() + prime()) by (nonlinear_arith);
                k = k + 1;
            }
        }
        proof {
            lemma_mod_multiples_vanish(k as int, join(h, l) as int, prime() as int);
            lemma_small_mod(join(h, l), prime());
            assert(prime() * k == k * prime()) by (nonlinear_arith);
        }
        FieldElement { high: h, low: l }
    }

    /// The two halves of the number.
    pub fn halves(&self) -> (halves: (u128, u128))
        ensures
            join(halves.0, halves.1) == self@,
            self@ < prime(),
    {
        proof {
            use_type_invariant(self);
        }
        (self.high, self.low)
    }

    /// The sum in the field.
    pub fn plus(&self, other: &FieldElement) -> (sum: FieldElement)
        ensures
            sum@ == field_add(self@, other@),
    {
        proof {
            use_type_invariant(self);
            use_type_invariant(other);
        }
        let (low, carry): (u128, u128) = if self.low > u128::MAX - other.low {
            (self.low - (u128::MAX - other.low) - 1, 1)
        } else {
            (self.low + other.low, 0)
        };
        let high: u128 = self.high + other.high + carry;
        assert(join(high, low) == self@ + other@);
        if below_prime(high, low) {
            proof {
                lemma_small_mod(join(high, low), prime());
            }
            FieldElement { high, low }
        } else {
            let (h, l): (u128, u128) = if low >= PRIME_LOW {
                (high - PRIME_HIGH, low - PRIME_LOW)
            } else {
                (high - PRIME_HIGH - 1, u128::MAX)
            };
            proof {
                assert(join(h, l) + prime() == self@ + other@);
                lemma_mod_multiples_vanish(1, join(h, l) as int, prime() as int);
                lemma_small_mod(join(h, l), prime());
            }
            FieldElement { high: h, low: l }
        }
    }

    /// The difference in the field.
    pub fn minus(&self, other: &FieldElement) -> (difference: FieldElement)
        ensures
            difference@ == field_sub(self@, other@),
    {
        proof {
            use_type_invariant(self);
            use_type_invariant(other);
        }
        // Add the prime first where the difference would be negative.
        let negative = self.high < other.high || (self.high == other.high && self.low
            < other.low);
        let (high, low): (u128, u128) = if negative {
            if self.low > u128::MAX - PRIME_LOW {
                (self.high + PRIME_HIGH + 1, self.low - (u128::MAX - PRIME_LOW) - 1)
            } else {
                (self.high + PRIME_HIGH, self.low + PRIME_LOW)
            }
        } else {
            (self.high, self.low)
        };
        let (h, l): (u128, u128) = if low >= other.low {
            (high - other.high, low - other.low)
        } else {
            (high - other.high - 1, low + (u128::MAX - other.low) + 1)
        };
        proof {
            let d = join(h, l) as int;
            if negative {
                assert(d == self@ - other@ + prime());
                lemma_mod_multiples_vanish(-1, d, prime() as int);
            } else {
                assert(d == self@ - other@);
            }
            lemma_small_mod(join(h, l), prime());
        }
        FieldElement { high: h, low: l }
    }

    /// The product in the field.
    pub fn times(&self, other: &FieldElement) -> (product: FieldElement)
        ensures
            product@ == field_mul(self@, other@),
    {
        proof {
            use_type_invariant(self);
            use_type_invariant(other);
        }
        // Double and add: `acc + x * y` stays the product, modulo the prime.
        let mut acc = FieldElement::zero();
        let mut x = *self;
        let mut high: u128 = other.high;
        let mut low: u128 = other.low;
        proof {
            lemma_small_mod(self@, prime());
        }
        while high > 0 || low > 0
            invariant
                (acc@ + x@ * join(high, low)) % prime() == field_mul(self@, other@),
            decreases join(high, low),
        {
            let ghost y = join(high, low);
            let ghost a0 = acc@;
            let ghost x0 = x@;
            let odd = low % 2 == 1;
            proof {
                use_type_invariant(&acc);
                lemma_small_mod(a0, prime());
                assert(1 * x0 == x0 && 0 * x0 == 0) by (nonlinear_arith);
            }
            if odd {
                acc = acc.plus(&x);
            }
            x = x.plus(&x);
            low = low / 2 + (high % 2) * 0x8000_0000_0000_0000_0000_0000_0000_0000;
            high = high / 2;
            proof {
                let q = join(high, low);
                let r: nat = if odd {
                    1
                } else {
                    0
                };
                assert(y == 2 * q + r);
                lemma_step(a0, x0, q, r, acc@, x@);
            }
        }
        proof {
            use_type_invariant(&acc);
            assert(x@ * 0 == 0) by (nonlinear_arith);
            lemma_small_mod(acc@, prime());
        }
        acc
    }
}

/// One step of doubling and adding keeps `acc + x * y` what it is modulo the
/// prime.
proof fn lemma_step(acc: nat, x: nat, q: nat, r: nat, acc2: nat, x2: nat)
    requires
        acc2 == (acc + r * x) % prime(),
        x2 == (x + x) % prime(),
    ensures
        (acc2 + x2 * q) % prime() == (acc + x * (2 * q + r)) % prime(),
{
    let p = prime() as int;
    let a = (acc + r * x) as int;
    let d = (x + x) as int;
    // (a % p + (d % p) * q) % p == (a + d * q) % p
    lemma_mul_mod_noop_general(d, q as int, p);
    lemma_add_mod_noop(a, d * q, p);
    lemma_add_mod_noop(a % p, (d % p) * q, p);
    lemma_small_mod((a % p) as nat, p as nat);
    assert(a + d * q == acc + x * (2 * q + r)) by (nonlinear_arith)
        requires
            a == acc + r * x,
            d == x + x,
    ;
}

} // verus!
