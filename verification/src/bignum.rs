//! Arbitrary-precision non-negative integers for the proof engine.
//!
//! All multi-precision arithmetic is done by `num_bigint::BigUint`. The type
//! is opaque to the verifier, so its mathematical value is given a name,
//! `nat_of`, and every operation used by the engine goes through a thin
//! trusted call into `num_bigint` whose contract states the result in terms
//! of that name. All reasoning above this module is over `nat` values alone.

use num_bigint::BigUint;
use num_bigint::RandBigInt;
use vstd::arithmetic::power::pow;
use vstd::prelude::*;

verus! {

#[verifier::external_type_specification]
#[verifier::external_body]
pub struct ExBigUint(BigUint);

/// The mathematical value held by a `BigUint`: the non-negative integer it
/// represents.
pub uninterp spec fn nat_of(b: BigUint) -> nat;

/// The value of a big-endian byte string: each byte is a base-256 digit, the
/// most significant first.
pub open spec fn be_bytes_value(s: Seq<u8>) -> nat
    decreases s.len(),
{
    if s.len() == 0 {
        0
    } else {
        be_bytes_value(s.drop_last()) * 256 + s.last() as nat
    }
}

/// Relies on `num_bigint::BigUint::from(u64)`: the big integer with exactly
/// the given value.
#[verifier::external_body]
pub(crate) fn big_from_u64(x: u64) -> (r: BigUint)
    ensures
        nat_of(r) == x as nat,
{
    BigUint::from(x)
}

/// Relies on `num_bigint::BigUint::from_bytes_be`: the bytes are read as
/// base-256 digits in big-endian order; an empty slice yields zero.
#[verifier::external_body]
pub(crate) fn big_from_bytes_be(bytes: &[u8]) -> (r: BigUint)
    ensures
        nat_of(r) == be_bytes_value(bytes@),
{
    BigUint::from_bytes_be(bytes)
}

/// Reconstructs the non-negative integer a big-endian unsigned byte string
/// encodes: the form in which group elements and responses cross the
/// service boundary.
pub fn biguint_from_bytes_be(bytes: &[u8]) -> (r: BigUint)
    ensures
        nat_of(r) == be_bytes_value(bytes@),
{
    big_from_bytes_be(bytes)
}

/// Encodes a value as the shortest big-endian unsigned byte string: the
/// form in which group elements and responses cross the service boundary.
pub fn biguint_to_bytes_be(a: &BigUint) -> (r: Vec<u8>)
    ensures
        be_bytes_value(r@) == nat_of(*a),
        r@.len() >= 1,
        r@.len() > 1 ==> r@[0] != 0,
{
    big_to_bytes_be(a)
}

/// Relies on `num_bigint::BigUint::to_bytes_be`: the shortest big-endian
/// base-256 encoding of the value; zero encodes as one zero byte.
#[verifier::external_body]
pub(crate) fn big_to_bytes_be(a: &BigUint) -> (r: Vec<u8>)
    ensures
        be_bytes_value(r@) == nat_of(*a),
        r@.len() >= 1,
        r@.len() > 1 ==> r@[0] != 0,
{
    a.to_bytes_be()
}

/// Relies on `num_bigint::BigUint::clone`: the copy holds the same value.
#[verifier::external_body]
pub(crate) fn big_clone(a: &BigUint) -> (r: BigUint)
    ensures
        nat_of(r) == nat_of(*a),
{
    a.clone()
}

/// Relies on `<num_bigint::BigUint as PartialEq>::eq`: value equality.
#[verifier::external_body]
pub(crate) fn big_eq(a: &BigUint, b: &BigUint) -> (r: bool)
    ensures
        r == (nat_of(*a) == nat_of(*b)),
{
    a == b
}

/// Relies on `<num_bigint::BigUint as PartialOrd>::ge`: value order.
#[verifier::external_body]
pub(crate) fn big_ge(a: &BigUint, b: &BigUint) -> (r: bool)
    ensures
        r == (nat_of(*a) >= nat_of(*b)),
{
    a >= b
}

/// Relies on `<&num_bigint::BigUint as Add>::add`: the exact sum.
#[verifier::external_body]
pub(crate) fn big_add(a: &BigUint, b: &BigUint) -> (r: BigUint)
    ensures
        nat_of(r) == nat_of(*a) + nat_of(*b),
{
    a + b
}

/// Relies on `<&num_bigint::BigUint as Mul>::mul`: the exact product.
#[verifier::external_body]
pub(crate) fn big_mul(a: &BigUint, b: &BigUint) -> (r: BigUint)
    ensures
        nat_of(r) == nat_of(*a) * nat_of(*b),
{
    a * b
}

/// Relies on `<&num_bigint::BigUint as Sub>::sub`: the exact difference; the
/// subtrahend must not exceed the minuend, or `num_bigint` panics.
#[verifier::external_body]
pub(crate) fn big_sub(a: &BigUint, b: &BigUint) -> (r: BigUint)
    requires
        nat_of(*b) <= nat_of(*a),
    ensures
        nat_of(r) == nat_of(*a) - nat_of(*b),
{
    a - b
}

/// Relies on `<&num_bigint::BigUint as Rem>::rem`: the remainder of
/// Euclidean division; the modulus must be non-zero, or `num_bigint` panics.
#[verifier::external_body]
pub(crate) fn big_rem(a: &BigUint, modulus: &BigUint) -> (r: BigUint)
    requires
        nat_of(*modulus) > 0,
    ensures
        nat_of(r) == nat_of(*a) as int % nat_of(*modulus) as int,
{
    a % modulus
}

/// Relies on `num_bigint::BigUint::modpow`: returns
/// `(base ^ exponent) % modulus`; the modulus must be non-zero, or
/// `num_bigint` panics.
#[verifier::external_body]
pub(crate) fn big_modpow(base: &BigUint, exponent: &BigUint, modulus: &BigUint) -> (r: BigUint)
    requires
        nat_of(*modulus) > 0,
    ensures
        nat_of(r) == pow(nat_of(*base) as int, nat_of(*exponent)) % nat_of(*modulus) as int,
{
    base.modpow(exponent, modulus)
}

/// Relies on `num_bigint::RandBigInt::gen_biguint_below` over
/// `rand::thread_rng`: a value strictly below the bound; the bound must be
/// non-zero, or `num_bigint` panics. Nothing is claimed about which value
/// comes back.
#[verifier::external_body]
pub(crate) fn big_random_below(bound: &BigUint) -> (r: BigUint)
    requires
        nat_of(*bound) > 0,
    ensures
        nat_of(r) < nat_of(*bound),
{
    let mut rng = rand::thread_rng();
    rng.gen_biguint_below(bound)
}

} // verus!
