//! The algebraic guarantees of the engine, proved over the same spec
//! functions its contracts use.

use crate::zkp::{mod_sub_spec, proof_accepted};
use vstd::arithmetic::div_mod::{
    lemma_div_pos_is_pos, lemma_fundamental_div_mod, lemma_mod_equivalence,
    lemma_mod_multiples_vanish, lemma_mod_twice, lemma_mul_mod_noop_general, lemma_small_mod,
};
use vstd::arithmetic::mul::lemma_mul_is_commutative;
use vstd::arithmetic::power::{lemma1_pow, lemma_pow_adds, lemma_pow_mod_noop,
    lemma_pow_multiplies, pow};
use vstd::prelude::*;

verus! {

/// Law: the two-branch subtraction is congruent to `a - b` modulo `m`, for
/// operands of arbitrary magnitude, and its result never exceeds `m`.
pub proof fn lemma_mod_sub_congruent(a: nat, b: nat, m: nat)
    requires
        m > 0,
    ensures
        mod_sub_spec(a, b, m) as int % m as int == (a as int - b as int) % m as int,
        mod_sub_spec(a, b, m) <= m,
{
    let mi = m as int;
    let d = (b as int - a as int) % mi;
    if a >= b {
        lemma_mod_twice(a as int - b as int, mi);
    } else {
        // mod_sub_spec(a, b, m) == m - d, and a - b == -m + (m - d) plus a
        // multiple of m, so both sides reduce alike.
        lemma_fundamental_div_mod(b as int - a as int, mi);
        let quot = (b as int - a as int) / mi;
        assert(a as int - b as int == mi * (-quot - 1) + (mi - d)) by {
            assert(mi * (-quot - 1) == -(mi * quot) - mi) by (nonlinear_arith);
        };
        lemma_mod_multiples_vanish(-quot - 1, mi - d, mi);
        if d == 0 {
            assert((mi - d) % mi == 0) by {
                lemma_mod_multiples_vanish(1, 0, mi);
            };
        } else {
            lemma_small_mod((mi - d) as nat, m);
        }
    }
}

/// Law: the result of the two-branch subtraction lies in `[0, m)` whenever
/// `a >= b`, or `b - a` is not a multiple of `m`. (On the remaining inputs,
/// such as `a = 0`, `b = 1`, `m = 1`, it equals `m` itself.)
pub proof fn lemma_mod_sub_in_range(a: nat, b: nat, m: nat)
    requires
        m > 0,
        a >= b || (b as int - a as int) % m as int != 0,
    ensures
        mod_sub_spec(a, b, m) < m,
{
}

/// The core of the happy-path law, for a single generator: when the
/// response is computed as `(r - c*x) mod q` and the generator's order
/// divides `q`, the verifier's product reconstructs the commitment.
proof fn lemma_response_rebuilds_commitment(g: nat, p: nat, q: nat, x: nat, r: nat, c: nat)
    requires
        p > 1,
        q > 0,
        x < q,
        r < q,
        c < q,
        pow(g as int, q) % p as int == 1,
    ensures
        (pow(g as int, mod_sub_spec(r, c * x, q)) * pow(pow(g as int, x) % p as int, c))
            % p as int == pow(g as int, r) % p as int,
{
    let gi = g as int;
    let pi = p as int;
    let qi = q as int;
    let cx = c * x;
    let s = mod_sub_spec(r, cx, q);
    let si = s as int;
    let ri = r as int;
    let cxi = cx as int;

    // There is a k >= 0 with s + c*x == r + k*q.
    lemma_mod_sub_congruent(r, cx, q);
    lemma_mod_equivalence(si, ri - cxi, qi);
    let t = si + cxi - ri;
    assert(t % qi == 0);
    if r >= cx {
        lemma_small_mod((r - cx) as nat, q);
        assert(t == 0);
    }
    assert(t >= 0);
    lemma_fundamental_div_mod(t, qi);
    lemma_div_pos_is_pos(t, qi);
    let k = (t / qi) as nat;
    assert(t == qi * (t / qi));
    assert(si + cxi == ri + qi * (k as int));
    assert(s + cx == r + k * q) by {
        lemma_mul_is_commutative(qi, k as int);
    };

    // The verifier's product, reduced step by step.
    let y1 = pow(gi, x) % pi;
    lemma_pow_mod_noop(pow(gi, x), c, pi);
    lemma_mul_mod_noop_general(pow(gi, s), pow(y1, c), pi);
    lemma_mul_mod_noop_general(pow(gi, s), pow(pow(gi, x), c), pi);
    lemma_pow_multiplies(gi, x, c);
    lemma_mul_is_commutative(x as int, c as int);
    assert(x * c == cx);
    lemma_pow_adds(gi, s, cx);
    assert((pow(gi, s) * pow(y1, c)) % pi == pow(gi, s + cx) % pi);

    lemma_pow_adds(gi, r, k * q);
    lemma_pow_multiplies(gi, q, k);
    lemma_mul_is_commutative(qi, k as int);
    assert(q * k == k * q);
    assert(pow(gi, s + cx) == pow(gi, r) * pow(pow(gi, q), k));
    lemma_mul_mod_noop_general(pow(gi, r), pow(pow(gi, q), k), pi);
    lemma_pow_mod_noop(pow(gi, q), k, pi);
    lemma1_pow(k);
    lemma_small_mod(1, p);
    assert(pow(pow(gi, q), k) % pi == 1);
    assert(pow(gi, s + cx) % pi == (pow(gi, r) * 1) % pi);
    lemma_mul_mod_noop_general(pow(gi, r), 1, pi);
    lemma_mod_twice(pow(gi, r), pi);
}

/// Law: the happy path always verifies. For any secret `x`, nonce `r` and
/// challenge `c` below the subgroup order, with public keys
/// `y1 = g^x mod p`, `y2 = h^x mod p`, commitments `t1 = g^r mod p`,
/// `t2 = h^r mod p`, and response `s = (r - c*x) mod q`, the verification
/// equation accepts the transcript, provided both generators' orders divide
/// `q` (as they do in a prime-order subgroup generated by `g` and `h`).
pub proof fn lemma_honest_proof_accepted(g: nat, h: nat, p: nat, q: nat, x: nat, r: nat, c: nat)
    requires
        p > 1,
        q > 0,
        x < q,
        r < q,
        c < q,
        pow(g as int, q) % p as int == 1,
        pow(h as int, q) % p as int == 1,
    ensures
        proof_accepted(
            g,
            h,
            p,
            (pow(g as int, r) % p as int) as nat,
            (pow(h as int, r) % p as int) as nat,
            (pow(g as int, x) % p as int) as nat,
            (pow(h as int, x) % p as int) as nat,
            c,
            mod_sub_spec(r, c * x, q),
        ),
{
    lemma_response_rebuilds_commitment(g, p, q, x, r, c);
    lemma_response_rebuilds_commitment(h, p, q, x, r, c);
}

} // verus!
