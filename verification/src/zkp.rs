//! The Chaum-Pedersen proof engine.
//!
//! A prover who knows `x` with `y1 = g^x mod p` and `y2 = h^x mod p` commits
//! to a fresh nonce `r` as `(t1, t2) = (g^r, h^r) mod p`, receives a
//! challenge `c`, and answers `s = (r - c*x) mod q`. The verifier accepts iff
//! `t1 == g^s * y1^c mod p` and `t2 == h^s * y2^c mod p`. All exponent
//! arithmetic is modulo the subgroup order `q`; all group arithmetic is
//! modulo the prime `p`.

use crate::bignum::{
    big_add, big_eq, big_from_u64, big_ge, big_modpow, big_mul, big_random_below, big_rem,
    big_sub, nat_of,
};
use num_bigint::BigUint;
use rand::Rng;
use vstd::arithmetic::div_mod::lemma_mul_mod_noop_general;
use vstd::arithmetic::power::pow;
use vstd::prelude::*;

verus! {

/// The domain parameters: a prime modulus `p`, the order `q` of a subgroup
/// of `(Z/pZ)*`, and two generators `g` and `h` of that subgroup.
pub struct ChaumPedersenZKP {
    pub generator_g: BigUint,
    pub generator_h: BigUint,
    pub modulus_p: BigUint,
    pub subgroup_order_q: BigUint,
}

/// `(a - b) mod m` over non-negative integers, in the two-branch form the
/// engine computes: the reduced difference when `a >= b`, and otherwise the
/// modulus minus the reduced opposite difference. The result lies in
/// `[0, m]`; it equals `m` exactly when `a < b` and `m` divides `b - a`.
pub open spec fn mod_sub_spec(a: nat, b: nat, m: nat) -> nat
    recommends
        m > 0,
{
    if a >= b {
        ((a - b) % m as int) as nat
    } else {
        (m - (b - a) % m as int) as nat
    }
}

/// The verification equation on a full transcript: both commitments must
/// equal the group products rebuilt from the response and the challenge.
pub open spec fn proof_accepted(
    g: nat,
    h: nat,
    p: nat,
    t1: nat,
    t2: nat,
    y1: nat,
    y2: nat,
    c: nat,
    s: nat,
) -> bool {
    &&& t1 == (pow(g as int, s) * pow(y1 as int, c)) % p as int
    &&& t2 == (pow(h as int, s) * pow(y2 as int, c)) % p as int
}

/// The standard 1024-bit MODP group generator.
pub open spec fn standard_generator_g() -> nat {
    0xA4D1CBD5C3FD34126765A442EFB99905F8104DD258AC507FD6406CFF14266D31266FEA1E5C41564B777E690F5504F213160217B4B01B886A5E91547F9E2749F4D7FBD7D3B9A92EE1909D0D2263F80A76A6A24C087A091F531DBF0A0169B6A28AD662A4D18E73AFA32D779D5918D08BC8858F4DCEF97C2A24855E6EEB22B3B2E5nat
}

/// The standard 1024-bit prime modulus.
pub open spec fn standard_modulus_p() -> nat {
    0xB10B8F96A080E01DDE92DE5EAE5D54EC52C99FBCFB06A3C69A6A9DCA52D23B616073E28675A23D189838EF1E2EE652C013ECB4AEA906112324975C3CD49B83BFACCBDD7D90C4BD7098488E9C219A73724EFFD6FAE5644738FAA31A4FF55BCCC0A151AF5F0DC8B4BD45BF37DF365C1A65E68CFDA76D4DA708DF1FB2BC2E4A4371nat
}

/// The 160-bit prime order of the subgroup.
pub open spec fn standard_subgroup_q() -> nat {
    0xF518AA8781A8DF278ABA4E7D64B7CB9D49462353nat
}

/// The fixed public exponent that derives the second generator from the
/// first.
pub open spec fn standard_h_exponent() -> nat {
    0x266D31266FEA1E5C41564B777E69nat
}

/// The second generator: `g` raised to the fixed public exponent, modulo
/// `p`.
pub open spec fn standard_generator_h() -> nat {
    (pow(standard_generator_g() as int, standard_h_exponent()) % standard_modulus_p() as int)
        as nat
}

/// Extends a value by one 64-bit big-endian limb.
fn append_limb64(acc: &BigUint, limb: u64) -> (r: BigUint)
    ensures
        nat_of(r) == nat_of(*acc) * 0x10000000000000000 + limb as nat,
{
    let half = big_from_u64(0x100000000);
    let base = big_mul(&half, &half);
    assert(nat_of(base) == 0x10000000000000000) by (nonlinear_arith)
        requires
            nat_of(base) == 0x100000000nat * 0x100000000nat,
    ;
    big_add(&big_mul(acc, &base), &big_from_u64(limb))
}

/// Extends a value by one 32-bit big-endian limb.
fn append_limb32(acc: &BigUint, limb: u32) -> (r: BigUint)
    ensures
        nat_of(r) == nat_of(*acc) * 0x100000000 + limb as nat,
{
    let base = big_from_u64(0x100000000);
    big_add(&big_mul(acc, &base), &big_from_u64(limb as u64))
}

/// Whether a character is an ASCII digit, upper-case letter or lower-case
/// letter.
pub open spec fn is_alphanumeric_char(c: char) -> bool {
    ||| 48 <= c as u32 && c as u32 <= 57
    ||| 65 <= c as u32 && c as u32 <= 90
    ||| 97 <= c as u32 && c as u32 <= 122
}

/// Whether every character of a string is an ASCII letter or digit.
pub open spec fn is_alphanumeric_string(s: Seq<char>) -> bool {
    forall|i: int| 0 <= i < s.len() ==> is_alphanumeric_char(#[trigger] s[i])
}

/// Relies on `rand::Rng::sample_iter` over the `Alphanumeric` distribution:
/// each sample is drawn from the 62 ASCII letters and digits, so taking
/// `length` of them yields a string of exactly `length` alphanumeric
/// characters. Which characters come back is not claimed.
#[verifier::external_body]
fn random_alphanumeric_raw(length: usize) -> (r: String)
    ensures
        r@.len() == length as nat,
        is_alphanumeric_string(r@),
{
    rand::thread_rng()
        .sample_iter(rand::distributions::Alphanumeric)
        .take(length)
        .map(char::from)
        .collect()
}

impl ChaumPedersenZKP {
    /// `base ^ exponent mod modulus`, exact over arbitrary-precision
    /// non-negative integers. The modulus must be non-zero.
    pub fn mod_exp(base: &BigUint, exponent: &BigUint, modulus: &BigUint) -> (r: BigUint)
        requires
            nat_of(*modulus) > 0,
        ensures
            nat_of(r) == pow(nat_of(*base) as int, nat_of(*exponent)) % nat_of(*modulus) as int,
    {
        big_modpow(base, exponent, modulus)
    }

    /// A value drawn uniformly from `[0, bound)`. The bound must be
    /// non-zero.
    pub fn random_biguint_below(bound: &BigUint) -> (r: BigUint)
        requires
            nat_of(*bound) > 0,
        ensures
            nat_of(r) < nat_of(*bound),
    {
        big_random_below(bound)
    }

    /// `(a - b) mod modulus` over non-negative integers, without underflow:
    /// the reduced difference when `a >= b`, else the modulus minus the
    /// reduced opposite difference. Correct for differences of arbitrary
    /// magnitude, not only single-modulus-width ones.
    pub fn mod_sub(a: &BigUint, b: &BigUint, modulus: &BigUint) -> (r: BigUint)
        requires
            nat_of(*modulus) > 0,
        ensures
            nat_of(r) == mod_sub_spec(nat_of(*a), nat_of(*b), nat_of(*modulus)),
    {
        if big_ge(a, b) {
            big_rem(&big_sub(a, b), modulus)
        } else {
            big_sub(modulus, &big_rem(&big_sub(b, a), modulus))
        }
    }

    /// The prover's commitment to a fresh nonce: `(g^nonce, h^nonce) mod p`.
    /// The nonce must be kept secret and used for a single attempt.
    pub fn compute_commitment(&self, nonce_r: &BigUint) -> (r: (BigUint, BigUint))
        requires
            nat_of(self.modulus_p) > 0,
        ensures
            nat_of(r.0) == pow(nat_of(self.generator_g) as int, nat_of(*nonce_r))
                % nat_of(self.modulus_p) as int,
            nat_of(r.1) == pow(nat_of(self.generator_h) as int, nat_of(*nonce_r))
                % nat_of(self.modulus_p) as int,
    {
        (
            big_modpow(&self.generator_g, nonce_r, &self.modulus_p),
            big_modpow(&self.generator_h, nonce_r, &self.modulus_p),
        )
    }

    /// The prover's answer to a challenge:
    /// `s = (nonce_r - challenge_c * secret_x) mod q`. The product is not
    /// pre-reduced, so the subtraction must handle differences far larger
    /// than `q`.
    pub fn compute_response(
        &self,
        nonce_r: &BigUint,
        challenge_c: &BigUint,
        secret_x: &BigUint,
    ) -> (r: BigUint)
        requires
            nat_of(self.subgroup_order_q) > 0,
        ensures
            nat_of(r) == mod_sub_spec(
                nat_of(*nonce_r),
                nat_of(*challenge_c) * nat_of(*secret_x),
                nat_of(self.subgroup_order_q),
            ),
    {
        let cx = big_mul(challenge_c, secret_x);
        Self::mod_sub(nonce_r, &cx, &self.subgroup_order_q)
    }

    /// Checks a transcript:
    /// `t1 == (g^s * y1^c) mod p` and `t2 == (h^s * y2^c) mod p`.
    ///
    /// The argument order is fixed: commitments, then public keys, then the
    /// challenge, then the response. Every call site, prover and verifier
    /// alike, must keep this order; transposing `challenge_c` and
    /// `response_s` silently changes the equation being checked.
    pub fn verify_proof(
        &self,
        commitment_t1: &BigUint,
        commitment_t2: &BigUint,
        public_y1: &BigUint,
        public_y2: &BigUint,
        challenge_c: &BigUint,
        response_s: &BigUint,
    ) -> (r: bool)
        requires
            nat_of(self.modulus_p) > 0,
        ensures
            r == proof_accepted(
                nat_of(self.generator_g),
                nat_of(self.generator_h),
                nat_of(self.modulus_p),
                nat_of(*commitment_t1),
                nat_of(*commitment_t2),
                nat_of(*public_y1),
                nat_of(*public_y2),
                nat_of(*challenge_c),
                nat_of(*response_s),
            ),
    {
        let ghost p = nat_of(self.modulus_p) as int;
        let pow_g_s = big_modpow(&self.generator_g, response_s, &self.modulus_p);
        let pow_y1_c = big_modpow(public_y1, challenge_c, &self.modulus_p);
        let rhs_one = big_rem(&big_mul(&pow_g_s, &pow_y1_c), &self.modulus_p);
        let pow_h_s = big_modpow(&self.generator_h, response_s, &self.modulus_p);
        let pow_y2_c = big_modpow(public_y2, challenge_c, &self.modulus_p);
        let rhs_two = big_rem(&big_mul(&pow_h_s, &pow_y2_c), &self.modulus_p);
        proof {
            lemma_mul_mod_noop_general(
                pow(nat_of(self.generator_g) as int, nat_of(*response_s)),
                pow(nat_of(*public_y1) as int, nat_of(*challenge_c)),
                p,
            );
            lemma_mul_mod_noop_general(
                pow(nat_of(self.generator_h) as int, nat_of(*response_s)),
                pow(nat_of(*public_y2) as int, nat_of(*challenge_c)),
                p,
            );
        }
        let first = big_eq(commitment_t1, &rhs_one);
        let second = big_eq(commitment_t2, &rhs_two);
        first && second
    }

    /// The fixed 1024-bit group description, as `(g, h, p, q)`: the standard
    /// generator, the derived second generator, the prime modulus and the
    /// subgroup order. Deterministic, no randomness.
    pub fn get_standard_parameters() -> (r: (BigUint, BigUint, BigUint, BigUint))
        ensures
            nat_of(r.0) == standard_generator_g(),
            nat_of(r.1) == standard_generator_h(),
            nat_of(r.2) == standard_modulus_p(),
            nat_of(r.3) == standard_subgroup_q(),
    {
        let mut g = big_from_u64(0xA4D1CBD5C3FD3412);
        g = append_limb64(&g, 0x6765A442EFB99905);
        g = append_limb64(&g, 0xF8104DD258AC507F);
        g = append_limb64(&g, 0xD6406CFF14266D31);
        g = append_limb64(&g, 0x266FEA1E5C41564B);
        g = append_limb64(&g, 0x777E690F5504F213);
        g = append_limb64(&g, 0x160217B4B01B886A);
        g = append_limb64(&g, 0x5E91547F9E2749F4);
        g = append_limb64(&g, 0xD7FBD7D3B9A92EE1);
        g = append_limb64(&g, 0x909D0D2263F80A76);
        g = append_limb64(&g, 0xA6A24C087A091F53);
        g = append_limb64(&g, 0x1DBF0A0169B6A28A);
        g = append_limb64(&g, 0xD662A4D18E73AFA3);
        g = append_limb64(&g, 0x2D779D5918D08BC8);
        g = append_limb64(&g, 0x858F4DCEF97C2A24);
        g = append_limb64(&g, 0x855E6EEB22B3B2E5);
        let mut p = big_from_u64(0xB10B8F96A080E01D);
        p = append_limb64(&p, 0xDE92DE5EAE5D54EC);
        p = append_limb64(&p, 0x52C99FBCFB06A3C6);
        p = append_limb64(&p, 0x9A6A9DCA52D23B61);
        p = append_limb64(&p, 0x6073E28675A23D18);
        p = append_limb64(&p, 0x9838EF1E2EE652C0);
        p = append_limb64(&p, 0x13ECB4AEA9061123);
        p = append_limb64(&p, 0x24975C3CD49B83BF);
        p = append_limb64(&p, 0xACCBDD7D90C4BD70);
        p = append_limb64(&p, 0x98488E9C219A7372);
        p = append_limb64(&p, 0x4EFFD6FAE5644738);
        p = append_limb64(&p, 0xFAA31A4FF55BCCC0);
        p = append_limb64(&p, 0xA151AF5F0DC8B4BD);
        p = append_limb64(&p, 0x45BF37DF365C1A65);
        p = append_limb64(&p, 0xE68CFDA76D4DA708);
        p = append_limb64(&p, 0xDF1FB2BC2E4A4371);
        let mut q = big_from_u64(0xF518AA8781A8DF27);
        q = append_limb64(&q, 0x8ABA4E7D64B7CB9D);
        q = append_limb32(&q, 0x49462353);
        let mut exp = big_from_u64(0x266D31266FEA);
        exp = append_limb64(&exp, 0x1E5C41564B777E69);
        let h = big_modpow(&g, &exp, &p);
        (g, h, p, q)
    }

    /// A random token of the given length made of ASCII letters and digits,
    /// for session and attempt identifiers.
    pub fn random_alphanumeric_string(length: usize) -> (r: String)
        ensures
            r@.len() == length as nat,
            is_alphanumeric_string(r@),
    {
        random_alphanumeric_raw(length)
    }
}

} // verus!
