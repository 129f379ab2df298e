//! The Poseidon permutation over the Stark field, on a state of three elements.
//!
//! A round adds the round's keys to the state, cubes the state, and
//! multiplies it by a fixed matrix. A full round cubes all three elements, a
//! partial round only the last. The permutation is four full rounds, 83
//! partial rounds, and four full rounds again.
use crate::field::{field_add, field_mul, field_sub, join, prime, FieldElement};
use crate::poseidon::keys::{
    COMPRESSED_KEYS_HIGH, COMPRESSED_KEYS_LOW, ROUND_KEYS_HIGH, ROUND_KEYS_LOW,
};
use vstd::arithmetic::div_mod::{
    lemma_add_mod_noop, lemma_add_mod_noop_right, lemma_sub_mod_noop,
};
use vstd::prelude::*;

pub mod equivalence;
pub mod folding;
pub mod keys;

verus! {

pub type PoseidonState = [FieldElement; 3];

/// How many rounds cube the whole state: half of them before the partial
/// rounds, half after.
pub const FULL_ROUNDS: usize = 8;

/// How many rounds cube the last element only.
pub const PARTIAL_ROUNDS: usize = 83;

/// A state as specifications see it: three numbers below the prime.
pub struct Lanes {
    pub a: nat,
    pub b: nat,
    pub c: nat,
}

/// What `state` holds.
pub open spec fn lanes(state: PoseidonState) -> Lanes {
    Lanes { a: state@[0]@, b: state@[1]@, c: state@[2]@ }
}

/// Key `i` of the rounds.
pub open spec fn round_key(i: int) -> nat {
    join(ROUND_KEYS_HIGH@[i], ROUND_KEYS_LOW@[i]) % prime()
}

/// Key `i` of the rounds in compressed form.
pub open spec fn compressed_key(i: int) -> nat {
    join(COMPRESSED_KEYS_HIGH@[i], COMPRESSED_KEYS_LOW@[i]) % prime()
}

/// The third power in the field.
pub open spec fn cube(x: nat) -> nat {
    field_mul(field_mul(x, x), x)
}

/// The state multiplied by the matrix ((3, 1, 1), (1, -1, 1), (1, 1, -2)).
pub open spec fn mixed(s: Lanes) -> Lanes {
    Lanes {
        a: (3 * s.a + s.b + s.c) % prime(),
        b: ((s.a - s.b + s.c) % (prime() as int)) as nat,
        c: ((s.a + s.b - 2 * s.c) % (prime() as int)) as nat,
    }
}

/// The state after the round whose keys start at `idx`.
pub open spec fn after_round(s: Lanes, idx: int, full: bool) -> Lanes {
    let a = field_add(s.a, round_key(idx));
    let b = field_add(s.b, round_key(idx + 1));
    let c = cube(field_add(s.c, round_key(idx + 2)));
    if full {
        mixed(Lanes { a: cube(a), b: cube(b), c })
    } else {
        mixed(Lanes { a, b, c })
    }
}

/// The state after `n` rounds of one kind, the keys of the first of which
/// start at `idx`.
pub open spec fn after_rounds(s: Lanes, idx: int, n: nat, full: bool) -> Lanes
    decreases n,
{
    if n == 0 {
        s
    } else {
        after_round(after_rounds(s, idx, (n - 1) as nat, full), idx + 3 * (n - 1), full)
    }
}

/// The permutation of `s`.
pub open spec fn permuted(s: Lanes) -> Lanes {
    let first = after_rounds(s, 0, 4, true);
    let middle = after_rounds(first, 12, 83, false);
    after_rounds(middle, 261, 4, true)
}

/// The state after the round whose compressed keys start at `idx`: a
/// partial round has one key, for the last element.
pub open spec fn after_round_comp(s: Lanes, idx: int, full: bool) -> Lanes {
    if full {
        mixed(
            Lanes {
                a: cube(field_add(s.a, compressed_key(idx))),
                b: cube(field_add(s.b, compressed_key(idx + 1))),
                c: cube(field_add(s.c, compressed_key(idx + 2))),
            },
        )
    } else {
        mixed(Lanes { a: s.a, b: s.b, c: cube(field_add(s.c, compressed_key(idx))) })
    }
}

/// The state after `n` rounds of one kind on compressed keys, the keys of
/// the first of which start at `idx`.
pub open spec fn after_rounds_comp(s: Lanes, idx: int, n: nat, full: bool) -> Lanes
    decreases n,
{
    if n == 0 {
        s
    } else {
        let before = after_rounds_comp(s, idx, (n - 1) as nat, full);
        if full {
            after_round_comp(before, idx + 3 * (n - 1), full)
        } else {
            after_round_comp(before, idx + (n - 1), full)
        }
    }
}

/// What the rounds on compressed keys make of `s`.
pub open spec fn permuted_comp(s: Lanes) -> Lanes {
    let first = after_rounds_comp(s, 0, 4, true);
    let middle = after_rounds_comp(first, 12, 83, false);
    after_rounds_comp(middle, 95, 4, true)
}

/// The sums and differences by which the matrix is applied give its product.
proof fn lemma_mixed(s: Lanes)
    ensures
        ({
            let t = field_add(field_add(s.a, s.b), s.c);
            &&& field_add(t, field_add(s.a, s.a)) == mixed(s).a
            &&& field_sub(t, field_add(s.b, s.b)) == mixed(s).b
            &&& field_sub(t, field_add(field_add(s.c, s.c), s.c)) == mixed(s).c
        }),
{
    let p = prime() as int;
    let (a, b, c) = (s.a as int, s.b as int, s.c as int);
    let sum = a + b + c;
    let t = field_add(field_add(s.a, s.b), s.c) as int;
    assert(t == sum % p) by {
        lemma_add_mod_noop_right(c, a + b, p);
    }
    assert((t + (a + a) % p) % p == (3 * a + b + c) % p) by {
        lemma_add_mod_noop(sum, a + a, p);
    }
    assert((t - (b + b) % p) % p == (a - b + c) % p) by {
        lemma_sub_mod_noop(sum, b + b, p);
    }
    assert(field_add(field_add(s.c, s.c), s.c) == (c + c + c) % p) by {
        lemma_add_mod_noop_right(c, c + c, p);
    }
    assert((t - (c + c + c) % p) % p == (a + b - 2 * c) % p) by {
        lemma_sub_mod_noop(sum, c + c + c, p);
    }
}

/// Key `i` of the rounds.
fn key(i: usize) -> (k: FieldElement)
    requires
        i < 273,
    ensures
        k@ == round_key(i as int),
{
    FieldElement::from_halves(ROUND_KEYS_HIGH[i], ROUND_KEYS_LOW[i])
}

/// Key `i` of the rounds in compressed form.
fn key_comp(i: usize) -> (k: FieldElement)
    requires
        i < 107,
    ensures
        k@ == compressed_key(i as int),
{
    FieldElement::from_halves(COMPRESSED_KEYS_HIGH[i], COMPRESSED_KEYS_LOW[i])
}

/// The third power.
fn cubed(x: &FieldElement) -> (y: FieldElement)
    ensures
        y@ == cube(x@),
{
    x.times(x).times(x)
}

/// Linear layer for MDS matrix M = ((3,1,1), (1,-1,1), (1,1,-2))
/// Given state vector x, it returns Mx, optimized by precomputing t.
fn mix(state: &mut PoseidonState)
    ensures
        lanes(*final(state)) == mixed(lanes(*old(state))),
{
    let (a, b, c) = (state[0], state[1], state[2]);
    let t = a.plus(&b).plus(&c);
    proof {
        lemma_mixed(lanes(*state));
    }
    *state = [t.plus(&a.plus(&a)), t.minus(&b.plus(&b)), t.minus(&c.plus(&c).plus(&c))];
}

/// Poseidon round function, consist of AddRoundConstants, SubWords and MixLayer
///   - AddRoundConstants adds the round's keys
///   - SubWords is the cube function
///   - MixLayer multiplies the state with fixed matrix
fn round(state: &mut PoseidonState, idx: usize, full: bool)
    requires
        idx + 2 < 273,
    ensures
        lanes(*final(state)) == after_round(lanes(*old(state)), idx as int, full),
{
    let a = state[0].plus(&key(idx));
    let b = state[1].plus(&key(idx + 1));
    let c = cubed(&state[2].plus(&key(idx + 2)));
    if full {
        *state = [cubed(&a), cubed(&b), c];
    } else {
        *state = [a, b, c];
    }
    mix(state);
}

/// Poseidon permutation function
pub fn permute(state: &mut PoseidonState)
    ensures
        lanes(*final(state)) == permuted(lanes(*old(state))),
{
    let ghost start = lanes(*state);
    let mut idx: usize = 0;
    let mut i: usize = 0;
    // Full rounds
    while i < FULL_ROUNDS / 2
        invariant
            i <= 4,
            idx == 3 * i,
            lanes(*state) == after_rounds(start, 0, i as nat, true),
        decreases 4 - i,
    {
        round(state, idx, true);
        idx += 3;
        i += 1;
    }
    let ghost first = lanes(*state);
    i = 0;
    // Partial rounds
    while i < PARTIAL_ROUNDS
        invariant
            i <= 83,
            idx == 12 + 3 * i,
            lanes(*state) == after_rounds(first, 12, i as nat, false),
        decreases 83 - i,
    {
        round(state, idx, false);
        idx += 3;
        i += 1;
    }
    let ghost middle = lanes(*state);
    i = 0;
    // Full rounds
    while i < FULL_ROUNDS / 2
        invariant
            i <= 4,
            idx == 261 + 3 * i,
            lanes(*state) == after_rounds(middle, 261, i as nat, true),
        decreases 4 - i,
    {
        round(state, idx, true);
        idx += 3;
        i += 1;
    }
}

/// The round function on compressed keys: a partial round adds one key, to
/// the last element.
fn round_comp(state: &mut PoseidonState, idx: usize, full: bool)
    requires
        full ==> idx + 2 < 107,
        idx < 107,
    ensures
        lanes(*final(state)) == after_round_comp(lanes(*old(state)), idx as int, full),
{
    if full {
        let a = cubed(&state[0].plus(&key_comp(idx)));
        let b = cubed(&state[1].plus(&key_comp(idx + 1)));
        let c = cubed(&state[2].plus(&key_comp(idx + 2)));
        *state = [a, b, c];
    } else {
        let c = cubed(&state[2].plus(&key_comp(idx)));
        *state = [state[0], state[1], c];
    }
    mix(state);
}

/// Poseidon permutation function, on the keys in compressed form. It gives
/// what [`permute`] gives, with fewer additions.
pub fn permute_comp(state: &mut PoseidonState)
    ensures
        lanes(*final(state)) == permuted_comp(lanes(*old(state))),
        lanes(*final(state)) == permuted(lanes(*old(state))),
{
    let ghost start = lanes(*state);
    proof {
        equivalence::lemma_compressed_rounds_permute(start);
    }
    let mut idx: usize = 0;
    let mut i: usize = 0;
    // Full rounds
    while i < FULL_ROUNDS / 2
        invariant
            i <= 4,
            idx == 3 * i,
            lanes(*state) == after_rounds_comp(start, 0, i as nat, true),
        decreases 4 - i,
    {
        round_comp(state, idx, true);
        idx += 3;
        i += 1;
    }
    let ghost first = lanes(*state);
    i = 0;
    // Partial rounds
    while i < PARTIAL_ROUNDS
        invariant
            i <= 83,
            idx == 12 + i,
            lanes(*state) == after_rounds_comp(first, 12, i as nat, false),
        decreases 83 - i,
    {
        round_comp(state, idx, false);
        idx += 1;
        i += 1;
    }
    let ghost middle = lanes(*state);
    i = 0;
    // Full rounds
    while i < FULL_ROUNDS / 2
        invariant
            i <= 4,
            idx == 95 + 3 * i,
            lanes(*state) == after_rounds_comp(middle, 95, i as nat, true),
        decreases 4 - i,
    {
        round_comp(state, idx, true);
        idx += 3;
        i += 1;
    }
}

} // verus!
