//! Both forms of the permutation are one.
//!
//! The rounds on compressed keys save additions in the partial rounds. They
//! give the same state as the rounds on the keys as they are: in the partial
//! rounds the one state stays ahead of the other by what has been put off,
//! and the first full round after them makes up for it.
use crate::field::{field_add, prime};
use crate::poseidon::folding::{deferred, lemma_partial_key, lemma_same_key, lemma_turn_keys};
use crate::poseidon::{
    after_round, after_round_comp, after_rounds, after_rounds_comp, compressed_key, cube, mixed,
    permuted, permuted_comp, round_key, Lanes,
};
use vstd::arithmetic::div_mod::{
    lemma_add_mod_noop, lemma_add_mod_noop_right, lemma_fundamental_div_mod,
    lemma_mod_bound, lemma_mod_multiples_vanish, lemma_mod_pos_bound,
    lemma_small_mod,
};
use vstd::prelude::*;

verus! {

/// Whether `plain` is `comp` with `d` added, element by element.
pub open spec fn ahead(plain: Lanes, comp: Lanes, d: Lanes) -> bool {
    &&& plain.a == field_add(comp.a, d.a)
    &&& plain.b == field_add(comp.b, d.b)
    &&& plain.c == field_add(comp.c, d.c)
}

/// Whether every element of `s` is below the prime.
pub open spec fn reduced(s: Lanes) -> bool {
    s.a < prime() && s.b < prime() && s.c < prime()
}

/// Sums in the field can be regrouped.
proof fn lemma_regroup(c: nat, d: nat, k: nat)
    ensures
        field_add(field_add(c, d), k) == field_add(c, field_add(d, k)),
{
    let p = prime() as int;
    lemma_add_mod_noop_right(k as int, (c + d) as int, p);
    lemma_add_mod_noop_right(c as int, (d + k) as int, p);
}

/// By how many primes a sum in the field that is regrouped without its
/// first reduction differs.
proof fn lemma_shift(c: nat, d: nat, k: nat) -> (q: int)
    ensures
        field_add(field_add(c, d), k) == c + field_add(d, k) + q * prime(),
{
    let p = prime() as int;
    let r = field_add(c, d) as int;
    lemma_fundamental_div_mod((c + d) as int, p);
    lemma_fundamental_div_mod(r + k, p);
    lemma_fundamental_div_mod((d + k) as int, p);
    let q1 = (c + d) as int / p;
    let q2 = (r + k) / p;
    let q3 = (d + k) as int / p;
    let q = q3 - q1 - q2;
    assert(q * p == q3 * p - q1 * p - q2 * p) by (nonlinear_arith)
        requires
            q == q3 - q1 - q2,
    ;
    assert(p * q1 == q1 * p && p * q2 == q2 * p && p * q3 == q3 * p) by (nonlinear_arith);
    q
}

/// What the matrix makes of a state is below the prime.
proof fn lemma_mixed_reduced(s: Lanes)
    ensures
        reduced(mixed(s)),
{
    let p = prime() as int;
    lemma_mod_pos_bound((3 * s.a + s.b + s.c) as int, p);
    lemma_mod_bound(s.a - s.b + s.c, p);
    lemma_mod_bound(s.a + s.b - 2 * s.c, p);
}

/// The matrix takes a sum to the sum of what it makes of the summands, and
/// primes that are added change nothing.
proof fn lemma_mixed_sum(x: Lanes, u: Lanes, v: Lanes, q: (int, int, int))
    requires
        x.a == u.a + v.a + q.0 * prime(),
        x.b == u.b + v.b + q.1 * prime(),
        x.c == u.c + v.c + q.2 * prime(),
    ensures
        ahead(mixed(x), mixed(u), mixed(v)),
{
    let p = prime() as int;
    lemma_mixed_reduced(u);
    lemma_mixed_reduced(v);
    // First row.
    let (ua, va) = ((3 * u.a + u.b + u.c) as int, (3 * v.a + v.b + v.c) as int);
    let ka = 3 * q.0 + q.1 + q.2;
    assert(3 * x.a + x.b + x.c == p * ka + (ua + va)) by (nonlinear_arith)
        requires
            x.a == u.a + v.a + q.0 * p,
            x.b == u.b + v.b + q.1 * p,
            x.c == u.c + v.c + q.2 * p,
            ua == 3 * u.a + u.b + u.c,
            va == 3 * v.a + v.b + v.c,
            ka == 3 * q.0 + q.1 + q.2,
    ;
    lemma_mod_multiples_vanish(ka, ua + va, p);
    lemma_add_mod_noop(ua, va, p);
    // Second row.
    let (ub, vb) = (u.a - u.b + u.c, v.a - v.b + v.c);
    let kb = q.0 - q.1 + q.2;
    assert(x.a - x.b + x.c == p * kb + (ub + vb)) by (nonlinear_arith)
        requires
            x.a == u.a + v.a + q.0 * p,
            x.b == u.b + v.b + q.1 * p,
            x.c == u.c + v.c + q.2 * p,
            ub == u.a - u.b + u.c,
            vb == v.a - v.b + v.c,
            kb == q.0 - q.1 + q.2,
    ;
    lemma_mod_multiples_vanish(kb, ub + vb, p);
    lemma_add_mod_noop(ub, vb, p);
    // Third row.
    let (uc, vc) = (u.a + u.b - 2 * u.c, v.a + v.b - 2 * v.c);
    let kc = q.0 + q.1 - 2 * q.2;
    assert(x.a + x.b - 2 * x.c == p * kc + (uc + vc)) by (nonlinear_arith)
        requires
            x.a == u.a + v.a + q.0 * p,
            x.b == u.b + v.b + q.1 * p,
            x.c == u.c + v.c + q.2 * p,
            uc == u.a + u.b - 2 * u.c,
            vc == v.a + v.b - 2 * v.c,
            kc == q.0 + q.1 - 2 * q.2,
    ;
    lemma_mod_multiples_vanish(kc, uc + vc, p);
    lemma_add_mod_noop(uc, vc, p);
}

/// A full round is the same in both forms where its keys are.
proof fn lemma_full_round(s: Lanes, c: int, r: int)
    requires
        compressed_key(c) == round_key(r),
        compressed_key(c + 1) == round_key(r + 1),
        compressed_key(c + 2) == round_key(r + 2),
    ensures
        after_round_comp(s, c, true) == after_round(s, r, true),
{
}

/// The full rounds before the partial rounds are the same in both forms.
proof fn lemma_first_rounds(s: Lanes, n: nat)
    requires
        n <= 4,
    ensures
        after_rounds_comp(s, 0, n, true) == after_rounds(s, 0, n, true),
    decreases n,
{
    if n > 0 {
        lemma_first_rounds(s, (n - 1) as nat);
        let k = 3 * (n - 1);
        lemma_same_key(k, k);
        lemma_same_key(k + 1, k + 1);
        lemma_same_key(k + 2, k + 2);
        lemma_full_round(after_rounds(s, 0, (n - 1) as nat, true), k, k);
    }
}

/// A partial round keeps the one state ahead of the other by what is put
/// off.
proof fn lemma_partial_round(plain: Lanes, comp: Lanes, i: int)
    requires
        0 <= i < 83,
        ahead(plain, comp, deferred(i as nat)),
    ensures
        ahead(
            after_round(plain, 12 + 3 * i, false),
            after_round_comp(comp, 12 + i, false),
            deferred((i + 1) as nat),
        ),
{
    let d = deferred(i as nat);
    let k = 12 + 3 * i;
    lemma_partial_key(i);
    // The last element is the same in both before it is cubed.
    lemma_regroup(comp.c, d.c, round_key(k + 2));
    let y = cube(field_add(plain.c, round_key(k + 2)));
    let x = Lanes { a: field_add(plain.a, round_key(k)), b: field_add(plain.b, round_key(k + 1)), c: y };
    let u = Lanes { a: comp.a, b: comp.b, c: y };
    let v = Lanes { a: field_add(d.a, round_key(k)), b: field_add(d.b, round_key(k + 1)), c: 0 };
    let qa = lemma_shift(comp.a, d.a, round_key(k));
    let qb = lemma_shift(comp.b, d.b, round_key(k + 1));
    assert(0 * prime() == 0) by (nonlinear_arith);
    lemma_mixed_sum(x, u, v, (qa, qb, 0));
    assert(after_round(plain, k, false) == mixed(x));
    assert(after_round_comp(comp, 12 + i, false) == mixed(u));
    assert(deferred((i + 1) as nat) == mixed(v));
}

/// Through the partial rounds the one state stays ahead of the other by
/// what has been put off.
proof fn lemma_partial_rounds(start: Lanes, n: nat)
    requires
        n <= 83,
        reduced(start),
    ensures
        ahead(
            after_rounds(start, 12, n, false),
            after_rounds_comp(start, 12, n, false),
            deferred(n),
        ),
    decreases n,
{
    if n == 0 {
        lemma_small_mod(start.a, prime());
        lemma_small_mod(start.b, prime());
        lemma_small_mod(start.c, prime());
    } else {
        lemma_partial_rounds(start, (n - 1) as nat);
        lemma_partial_round(
            after_rounds(start, 12, (n - 1) as nat, false),
            after_rounds_comp(start, 12, (n - 1) as nat, false),
            n - 1,
        );
    }
}

/// The first full round after the partial rounds takes up what was put off:
/// after it the states are one.
proof fn lemma_turn(plain: Lanes, comp: Lanes)
    requires
        ahead(plain, comp, deferred(83)),
    ensures
        after_round(plain, 261, true) == after_round_comp(comp, 95, true),
{
    let d = deferred(83);
    lemma_turn_keys();
    lemma_regroup(comp.a, d.a, round_key(261));
    lemma_regroup(comp.b, d.b, round_key(262));
    lemma_regroup(comp.c, d.c, round_key(263));
}

/// The full rounds after the partial rounds are the same in both forms, from
/// states that the first of them makes one.
proof fn lemma_last_rounds(plain: Lanes, comp: Lanes, n: nat)
    requires
        1 <= n <= 4,
        after_round(plain, 261, true) == after_round_comp(comp, 95, true),
    ensures
        after_rounds(plain, 261, n, true) == after_rounds_comp(comp, 95, n, true),
    decreases n,
{
    if n == 1 {
        assert(after_rounds(plain, 261, 0, true) == plain);
        assert(after_rounds_comp(comp, 95, 0, true) == comp);
    } else {
        lemma_last_rounds(plain, comp, (n - 1) as nat);
        let c = 95 + 3 * (n - 1);
        let r = 261 + 3 * (n - 1);
        lemma_same_key(c, r);
        lemma_same_key(c + 1, r + 1);
        lemma_same_key(c + 2, r + 2);
        lemma_full_round(after_rounds(plain, 261, (n - 1) as nat, true), c, r);
    }
}

/// The rounds on compressed keys give the state that the permutation gives.
pub proof fn lemma_compressed_rounds_permute(s: Lanes)
    ensures
        permuted_comp(s) == permuted(s),
{
    lemma_first_rounds(s, 4);
    let start = after_rounds(s, 0, 4, true);
    assert(reduced(start)) by {
        let before = after_rounds(s, 0, 3, true);
        let a = cube(field_add(before.a, round_key(9)));
        let b = cube(field_add(before.b, round_key(10)));
        let c = cube(field_add(before.c, round_key(11)));
        lemma_mixed_reduced(Lanes { a, b, c });
    }
    lemma_partial_rounds(start, 83);
    let plain = after_rounds(start, 12, 83, false);
    let comp = after_rounds_comp(start, 12, 83, false);
    lemma_turn(plain, comp);
    lemma_last_rounds(plain, comp, 4);
}

} // verus!
