//! Fixed-width values of the chain: 256-bit words, account addresses and
//! 32-byte hashes, each with the mathematical value it stands for.

use vstd::prelude::*;

verus! {

/// Two to the power 64: the weight of the second limb of a word.
pub open spec fn limb_base() -> nat {
    0x1_0000_0000_0000_0000
}

/// The number that four 64-bit limbs spell, least significant limb first.
pub open spec fn limbs_value(limbs: Seq<u64>) -> nat {
    (limbs[0] as nat) + limb_base() * ((limbs[1] as nat) + limb_base() * ((limbs[2] as nat)
        + limb_base() * (limbs[3] as nat)))
}

/// An unsigned 256-bit integer, held as four 64-bit limbs, least significant
/// first.
#[derive(Clone, Copy, Debug, PartialEq, Eq, Hash)]
pub struct U256(pub [u64; 4]);

impl View for U256 {
    type V = nat;

    open spec fn view(&self) -> nat {
        limbs_value(self.0@)
    }
}

/// A 160-bit account address, most significant byte first.
#[derive(Clone, Copy, Debug, PartialEq, Eq, Hash)]
pub struct H160(pub [u8; 20]);

impl View for H160 {
    type V = Seq<u8>;

    open spec fn view(&self) -> Seq<u8> {
        self.0@
    }
}

/// A 32-byte hash.
#[derive(Clone, Copy, Debug, PartialEq, Eq, Hash)]
pub struct H256(pub [u8; 32]);

impl View for H256 {
    type V = Seq<u8>;

    open spec fn view(&self) -> Seq<u8> {
        self.0@
    }
}

/// Two words with the same value have the same limbs.
pub proof fn lemma_u256_value_determines_limbs(a: U256, b: U256)
    requires
        a@ == b@,
    ensures
        a == b,
{
    let base = limb_base() as int;
    let a0 = a.0@[0] as int;
    let a1 = a.0@[1] as int;
    let a2 = a.0@[2] as int;
    let a3 = a.0@[3] as int;
    let b0 = b.0@[0] as int;
    let b1 = b.0@[1] as int;
    let b2 = b.0@[2] as int;
    let b3 = b.0@[3] as int;
    let ra = a1 + base * (a2 + base * a3);
    let rb = b1 + base * (b2 + base * b3);
    lemma_digit_split(a0, ra, b0, rb);
    lemma_digit_split(a1, a2 + base * a3, b1, b2 + base * b3);
    lemma_digit_split(a2, a3, b2, b3);
    assert(a.0@ =~= b.0@);
    assert(a.0 =~= b.0);
}

/// A number written as a low digit below the limb base and a rest has only
/// one such writing.
proof fn lemma_digit_split(low_a: int, rest_a: int, low_b: int, rest_b: int)
    requires
        0 <= low_a < limb_base(),
        0 <= low_b < limb_base(),
        low_a + limb_base() * rest_a == low_b + limb_base() * rest_b,
    ensures
        low_a == low_b,
        rest_a == rest_b,
{
    let base = limb_base() as int;
    assert(base * (rest_a - rest_b) == low_b - low_a) by (nonlinear_arith)
        requires
            low_a + base * rest_a == low_b + base * rest_b,
    ;
    if rest_a != rest_b {
        assert(base * (rest_a - rest_b) >= base || base * (rest_a - rest_b) <= -base)
            by (nonlinear_arith)
            requires
                rest_a != rest_b,
                base > 0,
        ;
    }
}

/// A word fits in 64 bits exactly when its three high limbs are zero, and
/// then its value is its lowest limb.
pub proof fn lemma_u256_high_limbs(x: U256)
    ensures
        (x@ <= u64::MAX) == (x.0@[1] == 0 && x.0@[2] == 0 && x.0@[3] == 0),
        x@ <= u64::MAX ==> x@ == x.0@[0],
{
    let base = limb_base() as int;
    let l1 = x.0@[1] as int;
    let l2 = x.0@[2] as int;
    let l3 = x.0@[3] as int;
    let rest = l1 + base * (l2 + base * l3);
    assert(0 <= base * l3) by (nonlinear_arith)
        requires
            base > 0,
            l3 >= 0,
    ;
    assert(0 <= base * (l2 + base * l3)) by (nonlinear_arith)
        requires
            base > 0,
            l2 + base * l3 >= 0,
    ;
    if l1 != 0 || l2 != 0 || l3 != 0 {
        if l3 != 0 {
            assert(base * l3 >= base) by (nonlinear_arith)
                requires
                    base > 0,
                    l3 >= 1,
            ;
        }
        if l2 != 0 || l3 != 0 {
            assert(base * (l2 + base * l3) >= base) by (nonlinear_arith)
                requires
                    base > 0,
                    l2 + base * l3 >= 1,
            ;
        }
        assert(base * rest >= base) by (nonlinear_arith)
            requires
                base > 0,
                rest >= 1,
        ;
    }
}

/// Calls `primitive_types::U256::checked_sub` on words with the same limbs.
/// Trusted: the outcome is the difference of the two numbers, or `None`
/// where the second is the larger.
#[verifier::external_body]
fn u256_checked_sub(a: U256, b: U256) -> (r: Option<U256>)
    ensures
        match r {
            Some(difference) => a@ >= b@ && difference@ == a@ - b@,
            None => a@ < b@,
        },
{
    match primitive_types::U256(a.0).checked_sub(primitive_types::U256(b.0)) {
        Some(difference) => Some(U256(difference.0)),
        None => None,
    }
}

impl U256 {
    /// The word zero.
    pub fn zero() -> (r: U256)
        ensures
            r@ == 0,
    {
        U256([0, 0, 0, 0])
    }

    /// The word that holds a 64-bit number.
    pub fn from_u64(value: u64) -> (r: U256)
        ensures
            r@ == value,
    {
        U256([value, 0, 0, 0])
    }

    /// Whether the value fits in 64 bits.
    pub fn fits_u64(&self) -> (r: bool)
        ensures
            r == (self@ <= u64::MAX),
    {
        proof {
            lemma_u256_high_limbs(*self);
        }
        self.0[1] == 0 && self.0[2] == 0 && self.0[3] == 0
    }

    /// The value as a 64-bit number.
    pub fn as_u64(&self) -> (r: u64)
        requires
            self@ <= u64::MAX,
        ensures
            r == self@,
    {
        proof {
            lemma_u256_high_limbs(*self);
        }
        self.0[0]
    }

    /// The difference of two words, or `None` where `other` is the larger.
    pub fn checked_sub(self, other: U256) -> (r: Option<U256>)
        ensures
            match r {
                Some(difference) => self@ >= other@ && difference@ == self@ - other@,
                None => self@ < other@,
            },
    {
        u256_checked_sub(self, other)
    }

    /// Whether two words hold the same value.
    pub fn same(&self, other: &U256) -> (r: bool)
        ensures
            r == (self@ == other@),
            r == (*self == *other),
    {
        let r = self.0[0] == other.0[0] && self.0[1] == other.0[1] && self.0[2] == other.0[2]
            && self.0[3] == other.0[3];
        proof {
            if r {
                assert(self.0@ =~= other.0@);
                assert(self.0 =~= other.0);
            }
            if self@ == other@ {
                lemma_u256_value_determines_limbs(*self, *other);
            }
        }
        r
    }
}

impl H160 {
    /// Whether two addresses hold the same bytes.
    pub fn same(&self, other: &H160) -> (r: bool)
        ensures
            r == (self@ == other@),
            r == (*self == *other),
    {
        let mut i: usize = 0;
        while i < 20
            invariant
                i <= 20,
                forall|j: int| 0 <= j < i ==> self.0@[j] == other.0@[j],
            decreases 20 - i,
        {
            if self.0[i] != other.0[i] {
                return false;
            }
            i += 1;
        }
        assert(self.0@ =~= other.0@);
        assert(self.0 =~= other.0);
        true
    }
}

} // verus!
