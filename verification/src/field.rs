//! Elements of the scalar field of the primary curve, held as four 64-bit
//! limbs in little-endian order and always reduced below the modulus.

use nova_snark::provider::bn256_grumpkin::bn256::Scalar;
use vstd::prelude::*;

verus! {

/// The order of the scalar field of bn256.
pub open spec fn modulus() -> nat {
    0x30644e72e131a029b85045b68181585d2833e84879b9709143e1f593f0000001nat
}

/// The number that four little-endian 64-bit limbs stand for.
pub open spec fn limbs_value(l0: u64, l1: u64, l2: u64, l3: u64) -> nat {
    (l0 as nat) + (l1 as nat) * 0x1_0000_0000_0000_0000nat
        + (l2 as nat) * 0x1_0000_0000_0000_0000_0000_0000_0000_0000nat
        + (l3 as nat) * 0x1_0000_0000_0000_0000_0000_0000_0000_0000_0000_0000_0000_0000nat
}

/// The number that eight little-endian bytes stand for, from index `at` on.
pub open spec fn limb_at(b: Seq<u8>, at: int) -> nat {
    (b[at] as nat) + (b[at + 1] as nat) * 0x100 + (b[at + 2] as nat) * 0x1_0000 + (b[at + 3] as nat)
        * 0x100_0000 + (b[at + 4] as nat) * 0x1_0000_0000 + (b[at + 5] as nat) * 0x100_0000_0000
        + (b[at + 6] as nat) * 0x1_0000_0000_0000 + (b[at + 7] as nat) * 0x100_0000_0000_0000
}

/// The number that thirty-two little-endian bytes stand for.
pub open spec fn bytes_value(b: Seq<u8>) -> nat {
    limb_at(b, 0) + limb_at(b, 8) * 0x1_0000_0000_0000_0000nat + limb_at(b, 16)
        * 0x1_0000_0000_0000_0000_0000_0000_0000_0000nat + limb_at(b, 24)
        * 0x1_0000_0000_0000_0000_0000_0000_0000_0000_0000_0000_0000_0000nat
}

/// The numbers that a sequence of 32-byte little-endian encodings stands for.
pub open spec fn bytes_values(s: Seq<[u8; 32]>) -> Seq<nat> {
    Seq::new(s.len(), |i: int| bytes_value(s[i]@))
}

/// Whether each of the encodings stands for a number below the modulus.
pub open spec fn all_reduced(s: Seq<[u8; 32]>) -> bool {
    forall|i: int| 0 <= i < s.len() ==> bytes_value((#[trigger] s[i])@) < modulus()
}

/// Whether the encodings are those of exactly the field elements `z`.
pub open spec fn encodes(s: Seq<[u8; 32]>, z: Seq<nat>) -> bool {
    all_reduced(s) && bytes_values(s) == z
}

/// The number that decimal digits in ASCII stand for, most significant
/// first.
pub open spec fn decimal_value(digits: Seq<u8>) -> nat
    decreases digits.len(),
{
    if digits.len() == 0 {
        0
    } else {
        decimal_value(digits.drop_last()) * 10 + (digits.last() - 0x30) as nat
    }
}

/// Whether a sequence of bytes is a decimal numeral: at least one digit, all
/// of them ASCII digits, and no leading zero but in the numeral `0`.
pub open spec fn is_decimal(digits: Seq<u8>) -> bool {
    &&& digits.len() > 0
    &&& forall|i: int| 0 <= i < digits.len() ==> 0x30 <= #[trigger] digits[i] <= 0x39
    &&& digits.len() > 1 ==> digits[0] != 0x30
}

/// The number that is left when the digits `low`, least significant first,
/// are written behind the number `high`.
spec fn with_digits(high: nat, low: Seq<u8>) -> nat
    decreases low.len(),
{
    if low.len() == 0 {
        high
    } else {
        with_digits(high * 10 + low.last() as nat, low.drop_last())
    }
}

/// Sum of two field elements given by their values.
pub open spec fn field_add(a: nat, b: nat) -> nat {
    (a + b) % modulus()
}

/// Product of two field elements given by their values.
pub open spec fn field_mul(a: nat, b: nat) -> nat {
    (a * b) % modulus()
}

/// The least significant limb of the modulus; the others follow in order.
pub const MODULUS_LIMB_0: u64 = 0x43e1f593f0000001;

pub const MODULUS_LIMB_1: u64 = 0x2833e84879b97091;

pub const MODULUS_LIMB_2: u64 = 0xb85045b68181585d;

pub const MODULUS_LIMB_3: u64 = 0x30644e72e131a029;

/// A field element in canonical form.
#[derive(Clone, Copy, Debug, PartialEq, Eq, Structural)]
pub struct Fe {
    pub(crate) l0: u64,
    pub(crate) l1: u64,
    pub(crate) l2: u64,
    pub(crate) l3: u64,
}

impl View for Fe {
    type V = nat;

    closed spec fn view(&self) -> nat {
        limbs_value(self.l0, self.l1, self.l2, self.l3)
    }
}

impl Fe {
    #[verifier::type_invariant]
    spec fn canonical(self) -> bool {
        limbs_value(self.l0, self.l1, self.l2, self.l3) < modulus()
    }

    /// The limbs that the element is stored as.
    pub closed spec fn spec_limbs(self) -> (u64, u64, u64, u64) {
        (self.l0, self.l1, self.l2, self.l3)
    }

    /// An element's value is that of its limbs, and two elements of one
    /// value are one element.
    pub proof fn lemma_value(self, other: Fe)
        ensures
            self@ == limbs_value(
                self.spec_limbs().0,
                self.spec_limbs().1,
                self.spec_limbs().2,
                self.spec_limbs().3,
            ),
            self@ == other@ <==> self == other,
    {
        if self@ == other@ {
            let shift: int = 0x1_0000_0000_0000_0000;
            let a = self.l1 + (self.l2 + self.l3 * shift) * shift;
            let b = other.l1 + (other.l2 + other.l3 * shift) * shift;
            assert(self@ == self.l0 + a * shift);
            assert(other@ == other.l0 + b * shift);
            assert(a == b && self.l0 == other.l0);
            let c = self.l2 + self.l3 * shift;
            let d = other.l2 + other.l3 * shift;
            assert(a == self.l1 + c * shift);
            assert(b == other.l1 + d * shift);
            assert(c == d && self.l1 == other.l1);
        }
    }

    /// Whether two elements are the same element of the field.
    pub fn same(&self, other: &Fe) -> (r: bool)
        ensures
            r == (self@ == other@),
    {
        proof {
            self.lemma_value(*other);
        }
        self.l0 == other.l0 && self.l1 == other.l1 && self.l2 == other.l2 && self.l3 == other.l3
    }

    /// The element that a machine integer stands for.
    pub fn from_u64(x: u64) -> (r: Fe)
        ensures
            r@ == x,
    {
        Fe { l0: x, l1: 0, l2: 0, l3: 0 }
    }

    /// The element with the given limbs, if they are below the modulus.
    pub fn from_limbs(limbs: [u64; 4]) -> (r: Option<Fe>)
        ensures
            r is Some <==> limbs_value(limbs[0], limbs[1], limbs[2], limbs[3]) < modulus(),
            r matches Some(e) ==> e@ == limbs_value(limbs[0], limbs[1], limbs[2], limbs[3])
                && e.spec_limbs() == (limbs[0], limbs[1], limbs[2], limbs[3]),
    {
        let l0 = limbs[0];
        let l1 = limbs[1];
        let l2 = limbs[2];
        let l3 = limbs[3];
        let below = l3 < MODULUS_LIMB_3 || (l3 == MODULUS_LIMB_3 && (l2 < MODULUS_LIMB_2 || (l2
            == MODULUS_LIMB_2 && (l1 < MODULUS_LIMB_1 || (l1 == MODULUS_LIMB_1 && l0
            < MODULUS_LIMB_0)))));
        if below {
            Some(Fe { l0, l1, l2, l3 })
        } else {
            None
        }
    }

    /// The element with the given little-endian bytes, if they stand for a
    /// number below the modulus.
    pub fn from_le_bytes(bytes: &[u8; 32]) -> (r: Option<Fe>)
        ensures
            r is Some <==> bytes_value(bytes@) < modulus(),
            r matches Some(e) ==> e@ == bytes_value(bytes@),
    {
        let l0 = limb_from(bytes, 0);
        let l1 = limb_from(bytes, 8);
        let l2 = limb_from(bytes, 16);
        let l3 = limb_from(bytes, 24);
        Fe::from_limbs([l0, l1, l2, l3])
    }

    /// The decimal numeral of the element, in ASCII.
    pub fn to_decimal(&self) -> (r: Vec<u8>)
        ensures
            is_decimal(r@),
            decimal_value(r@) == self@,
    {
        let mut l0 = self.l0;
        let mut l1 = self.l1;
        let mut l2 = self.l2;
        let mut l3 = self.l3;
        let mut low: Vec<u8> = Vec::new();
        while l0 != 0 || l1 != 0 || l2 != 0 || l3 != 0
            invariant
                with_digits(limbs_value(l0, l1, l2, l3), low@) == self@,
                forall|i: int| 0 <= i < low.len() ==> #[trigger] low[i] < 10,
                low.len() > 0 && limbs_value(l0, l1, l2, l3) == 0 ==> low[low.len() - 1] != 0,
            decreases limbs_value(l0, l1, l2, l3),
        {
            let ghost before = limbs_value(l0, l1, l2, l3);
            let ghost digits = low@;
            let (q3, r3) = div_ten(0, l3);
            let (q2, r2) = div_ten(r3, l2);
            let (q1, r1) = div_ten(r2, l1);
            let (q0, r0) = div_ten(r1, l0);
            l0 = q0;
            l1 = q1;
            l2 = q2;
            l3 = q3;
            low.push(r0);
            assert(before == 10 * limbs_value(l0, l1, l2, l3) + r0);
            assert(low@.drop_last() =~= digits);
        }
        assert(limbs_value(l0, l1, l2, l3) == 0);
        let mut out: Vec<u8> = Vec::new();
        if low.len() == 0 {
            out.push(0x30);
            assert(out@.drop_last() =~= Seq::<u8>::empty());
            assert(decimal_value(out@.drop_last()) == 0);
            return out;
        }
        assert(low@.subrange(0, low.len() as int) =~= low@);
        let mut j: usize = low.len();
        while j > 0
            invariant
                j <= low.len(),
                out.len() == low.len() - j,
                with_digits(decimal_value(out@), low@.subrange(0, j as int)) == self@,
                forall|i: int| 0 <= i < low.len() ==> #[trigger] low[i] < 10,
                forall|i: int| 0 <= i < out.len() ==> 0x30 <= #[trigger] out[i] <= 0x39,
                low.len() > 0 && low[low.len() - 1] != 0,
                out.len() > 0 ==> out[0] != 0x30,
            decreases j,
        {
            let ghost written = out@;
            let ghost rest = low@.subrange(0, j as int);
            j -= 1;
            out.push(low[j] + 0x30);
            assert(out@.drop_last() =~= written);
            assert(rest.drop_last() =~= low@.subrange(0, j as int));
            assert(rest.last() == low[j as int]);
        }
        assert(low@.subrange(0, 0) =~= Seq::<u8>::empty());
        out
    }

    /// The limbs of the element, least significant first.
    pub fn limbs(&self) -> (r: [u64; 4])
        ensures
            self@ == limbs_value(r[0], r[1], r[2], r[3]),
            self.spec_limbs() == (r[0], r[1], r[2], r[3]),
            self@ < modulus(),
    {
        proof {
            use_type_invariant(self);
        }
        [self.l0, self.l1, self.l2, self.l3]
    }

    /// Sum in the field.
    pub fn plus(&self, other: &Fe) -> (r: Fe)
        ensures
            r@ == field_add(self@, other@),
    {
        scalar_add(self, other)
    }

    /// Product in the field.
    pub fn times(&self, other: &Fe) -> (r: Fe)
        ensures
            r@ == field_mul(self@, other@),
    {
        scalar_mul(self, other)
    }
}

fn limb_from(bytes: &[u8; 32], at: usize) -> (r: u64)
    requires
        at + 8 <= 32,
    ensures
        r == limb_at(bytes@, at as int),
{
    let b0 = bytes[at] as u64;
    let b1 = bytes[at + 1] as u64;
    let b2 = bytes[at + 2] as u64;
    let b3 = bytes[at + 3] as u64;
    let b4 = bytes[at + 4] as u64;
    let b5 = bytes[at + 5] as u64;
    let b6 = bytes[at + 6] as u64;
    let b7 = bytes[at + 7] as u64;
    b0 + b1 * 0x100 + b2 * 0x1_0000 + b3 * 0x100_0000 + b4 * 0x1_0000_0000 + b5 * 0x100_0000_0000
        + b6 * 0x1_0000_0000_0000 + b7 * 0x100_0000_0000_0000
}

/// One limb of a division by ten: the quotient and the remainder of
/// `carry * 2^64 + limb`, where `carry` is the remainder of the limb above.
fn div_ten(carry: u8, limb: u64) -> (r: (u64, u8))
    requires
        carry < 10,
    ensures
        carry * 0x1_0000_0000_0000_0000 + limb == 10 * r.0 + r.1,
        r.1 < 10,
{
    let cur: u128 = (carry as u128) * 0x1_0000_0000_0000_0000 + (limb as u128);
    ((cur / 10) as u64, (cur % 10) as u8)
}

/// The values of a sequence of field elements.
pub open spec fn values(s: Seq<Fe>) -> Seq<nat> {
    Seq::new(s.len(), |i: int| s[i]@)
}

/// Whether two vectors hold the same field elements in the same order.
pub fn same_values(a: &Vec<Fe>, b: &Vec<Fe>) -> (r: bool)
    ensures
        r == (values(a@) == values(b@)),
{
    if a.len() != b.len() {
        assert(values(a@).len() != values(b@).len());
        return false;
    }
    let mut i: usize = 0;
    while i < a.len()
        invariant
            i <= a.len(),
            a.len() == b.len(),
            forall|j: int| 0 <= j < i ==> a@[j]@ == b@[j]@,
        decreases a.len() - i,
    {
        if !a[i].same(&b[i]) {
            assert(values(a@)[i as int] != values(b@)[i as int]);
            return false;
        }
        i += 1;
    }
    assert(values(a@) =~= values(b@));
    true
}

/// Whether the encodings are those of exactly the field elements of `z`.
pub fn same_encoded(bytes: &Vec<[u8; 32]>, z: &Vec<Fe>) -> (r: bool)
    ensures
        r == encodes(bytes@, values(z@)),
{
    let mut i: usize = 0;
    while i < bytes.len()
        invariant
            i <= bytes.len(),
            forall|j: int| 0 <= j < i ==> bytes_value((#[trigger] bytes@[j])@) < modulus(),
            forall|j: int| 0 <= j < i ==> j < z.len() && bytes_value(bytes@[j]@) == z@[j]@,
        decreases bytes.len() - i,
    {
        match Fe::from_le_bytes(&bytes[i]) {
            None => {
                return false;
            },
            Some(e) => {
                if i >= z.len() {
                    assert(bytes_values(bytes@).len() != values(z@).len());
                    return false;
                }
                if !e.same(&z[i]) {
                    assert(bytes_values(bytes@)[i as int] == e@);
                    assert(values(z@)[i as int] == z@[i as int]@);
                    return false;
                }
            },
        }
        i += 1;
    }
    if bytes.len() != z.len() {
        assert(bytes_values(bytes@).len() != values(z@).len());
        return false;
    }
    assert(bytes_values(bytes@) =~= values(z@));
    true
}

/// A copy of a vector of field elements.
pub fn copy_values(a: &Vec<Fe>) -> (r: Vec<Fe>)
    ensures
        r@ == a@,
{
    let mut out: Vec<Fe> = Vec::new();
    let mut i: usize = 0;
    while i < a.len()
        invariant
            i <= a.len(),
            out@ == a@.subrange(0, i as int),
        decreases a.len() - i,
    {
        out.push(a[i]);
        assert(out@ =~= a@.subrange(0, i + 1));
        i += 1;
    }
    assert(out@ =~= a@);
    out
}

/// Addition of `halo2curves::bn256::Fr`, on elements rebuilt from their limbs
/// with `Fr::from_raw` and read back with `Fr::to_bytes`: the result is the
/// canonical representative of the sum modulo the field order.
#[verifier::external_body]
fn scalar_add(a: &Fe, b: &Fe) -> (r: Fe)
    ensures
        r@ == field_add(a@, b@),
{
    let s = Scalar::from_raw([a.l0, a.l1, a.l2, a.l3]) + Scalar::from_raw([b.l0, b.l1, b.l2, b.l3]);
    let p = s.to_bytes();
    Fe {
        l0: u64::from_le_bytes(p[0..8].try_into().unwrap()),
        l1: u64::from_le_bytes(p[8..16].try_into().unwrap()),
        l2: u64::from_le_bytes(p[16..24].try_into().unwrap()),
        l3: u64::from_le_bytes(p[24..32].try_into().unwrap()),
    }
}

/// Multiplication of `halo2curves::bn256::Fr`, on elements rebuilt from their
/// limbs with `Fr::from_raw` and read back with `Fr::to_bytes`: the result is
/// the canonical representative of the product modulo the field order.
#[verifier::external_body]
fn scalar_mul(a: &Fe, b: &Fe) -> (r: Fe)
    ensures
        r@ == field_mul(a@, b@),
{
    let s = Scalar::from_raw([a.l0, a.l1, a.l2, a.l3]) * Scalar::from_raw([b.l0, b.l1, b.l2, b.l3]);
    let p = s.to_bytes();
    Fe {
        l0: u64::from_le_bytes(p[0..8].try_into().unwrap()),
        l1: u64::from_le_bytes(p[8..16].try_into().unwrap()),
        l2: u64::from_le_bytes(p[16..24].try_into().unwrap()),
        l3: u64::from_le_bytes(p[24..32].try_into().unwrap()),
    }
}

} // verus!
