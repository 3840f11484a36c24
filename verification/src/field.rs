//! Field elements of the proof system.
//!
//! A field element is carried as four 64-bit limbs, little-endian — a
//! fixed 256-bit width that holds every element of the BN254 scalar
//! field, the field the circuits' wires live in.  Signal values arrive
//! as decimal digit strings of arbitrary length and are reduced modulo
//! the field; the reductions the witness step needs are calls into
//! num-bigint behind exactly-specified trusted wrappers, since
//! arbitrary-precision arithmetic is the outside crate's work.

use vstd::prelude::*;

verus! {

/// One field element: a 256-bit value as four little-endian 64-bit
/// limbs.
#[derive(Clone, Copy, Debug, PartialEq, Eq, Structural)]
pub struct Fp {
    pub l0: u64,
    pub l1: u64,
    pub l2: u64,
    pub l3: u64,
}

/// The natural number a limb value denotes.
pub open spec fn fp_nat(f: Fp) -> nat {
    f.l0 as nat + (f.l1 as nat) * 0x1_0000_0000_0000_0000nat + (f.l2 as nat)
        * 0x1_0000_0000_0000_0000_0000_0000_0000_0000nat + (f.l3 as nat)
        * 0x1_0000_0000_0000_0000_0000_0000_0000_0000_0000_0000_0000_0000nat
}

/// The limb decomposition of a natural number below `2^256`.
pub open spec fn fp_of_nat(n: nat) -> Fp {
    Fp {
        l0: (n % 0x1_0000_0000_0000_0000nat) as u64,
        l1: ((n / 0x1_0000_0000_0000_0000nat) % 0x1_0000_0000_0000_0000nat) as u64,
        l2: ((n / 0x1_0000_0000_0000_0000_0000_0000_0000_0000nat) % 0x1_0000_0000_0000_0000nat)
            as u64,
        l3: ((n / 0x1_0000_0000_0000_0000_0000_0000_0000_0000_0000_0000_0000_0000nat)
            % 0x1_0000_0000_0000_0000nat) as u64,
    }
}

/// The BN254 scalar-field modulus.
pub open spec fn p254() -> nat {
    21888242871839275222246405745257275088548364400416034343698204186575808495617nat
}

/// The value of a most-significant-first decimal digit sequence.
pub open spec fn nat_of_digits(d: Seq<u8>) -> nat
    decreases d.len(),
{
    if d.len() == 0 {
        0
    } else {
        nat_of_digits(d.drop_last()) * 10 + d.last() as nat
    }
}

/// Every entry of the sequence is a decimal digit.
pub open spec fn digits_wf(d: Seq<u8>) -> bool {
    forall|i: int| 0 <= i < d.len() ==> d[i] < 10
}

/// The modulus as a limb value, for handing to the reduction wrappers.
pub fn p254_fp() -> (r: Fp)
    ensures
        fp_nat(r) == p254(),
{
    let r = Fp {
        l0: 0x43e1f593f0000001,
        l1: 0x2833e84879b97091,
        l2: 0xb85045b68181585d,
        l3: 0x30644e72e131a029,
    };
    proof {
        assert(fp_nat(r) == p254());
    }
    r
}

/// The field element one.
pub fn fp_one() -> (r: Fp)
    ensures
        r == fp_of_nat(1),
{
    Fp { l0: 1, l1: 0, l2: 0, l3: 0 }
}

/// The field element of a small scalar.
pub fn fp_from_u64(x: u64) -> (r: Fp)
    ensures
        r == fp_of_nat(x as nat),
{
    Fp { l0: x, l1: 0, l2: 0, l3: 0 }
}

/// Relies on num-bigint: `BigUint::from_radix_be` reads base-10
/// digits, `from_bytes_le` reads little-endian bytes, `%` is the
/// remainder of the denoted naturals, and `to_u64_digits` yields the
/// little-endian 64-bit limbs without trailing zeros.
#[verifier::external_body]
pub(crate) fn digits_mod_fp(d: &Vec<u8>, m: &Fp) -> (r: Fp)
    requires
        digits_wf(d@),
        fp_nat(*m) > 0,
    ensures
        r == fp_of_nat(nat_of_digits(d@) % fp_nat(*m)),
{
    let mv = num_bigint::BigUint::from_bytes_le(
        &[m.l0.to_le_bytes(), m.l1.to_le_bytes(), m.l2.to_le_bytes(), m.l3.to_le_bytes()].concat(),
    );
    let ls = (num_bigint::BigUint::from_radix_be(d, 10).unwrap_or_default() % mv).to_u64_digits();
    Fp {
        l0: ls.first().copied().unwrap_or(0),
        l1: ls.get(1).copied().unwrap_or(0),
        l2: ls.get(2).copied().unwrap_or(0),
        l3: ls.get(3).copied().unwrap_or(0),
    }
}

/// Relies on num-bigint: `BigUint::from_radix_be` reads base-10
/// digits, `*` and `%` are multiplication and remainder of the denoted
/// naturals, and `to_u64_digits` yields the little-endian 64-bit limbs
/// without trailing zeros.
#[verifier::external_body]
pub(crate) fn product_mod_fp(a: &Vec<u8>, b: &Vec<u8>, m: &Fp) -> (r: Fp)
    requires
        digits_wf(a@),
        digits_wf(b@),
        fp_nat(*m) > 0,
    ensures
        r == fp_of_nat((nat_of_digits(a@) * nat_of_digits(b@)) % fp_nat(*m)),
{
    let av = num_bigint::BigUint::from_radix_be(a, 10).unwrap_or_default();
    let bv = num_bigint::BigUint::from_radix_be(b, 10).unwrap_or_default();
    let mv = num_bigint::BigUint::from_bytes_le(
        &[m.l0.to_le_bytes(), m.l1.to_le_bytes(), m.l2.to_le_bytes(), m.l3.to_le_bytes()].concat(),
    );
    let ls = ((av * bv) % mv).to_u64_digits();
    Fp {
        l0: ls.first().copied().unwrap_or(0),
        l1: ls.get(1).copied().unwrap_or(0),
        l2: ls.get(2).copied().unwrap_or(0),
        l3: ls.get(3).copied().unwrap_or(0),
    }
}

} // verus!
