//! Unsigned 256-bit integers, as four 64-bit limbs with the least significant limb first.
use crate::keyed::MapKey;
use vstd::prelude::*;

verus! {

/// An unsigned 256-bit integer. Its view is the number that the limbs stand for.
#[derive(Clone, Copy, Debug, PartialEq, Eq, Structural)]
pub struct U256 {
    pub l0: u64,
    pub l1: u64,
    pub l2: u64,
    pub l3: u64,
}

/// The greatest number that a `U256` holds.
pub open spec fn u256_max() -> nat {
    0xffff_ffff_ffff_ffff_ffff_ffff_ffff_ffff_ffff_ffff_ffff_ffff_ffff_ffff_ffff_ffffnat
}

impl View for U256 {
    type V = nat;

    open spec fn view(&self) -> nat {
        self.l0 as nat + self.l1 as nat * 0x1_0000_0000_0000_0000nat + self.l2 as nat
            * 0x1_0000_0000_0000_0000_0000_0000_0000_0000nat + self.l3 as nat
            * 0x1_0000_0000_0000_0000_0000_0000_0000_0000_0000_0000_0000_0000nat
    }
}

proof fn lemma_low_limbs(a: U256)
    ensures
        a.l0 as nat + a.l1 as nat * 0x1_0000_0000_0000_0000nat + a.l2 as nat
            * 0x1_0000_0000_0000_0000_0000_0000_0000_0000nat
            < 0x1_0000_0000_0000_0000_0000_0000_0000_0000_0000_0000_0000_0000nat,
        a.l0 as nat + a.l1 as nat * 0x1_0000_0000_0000_0000nat
            < 0x1_0000_0000_0000_0000_0000_0000_0000_0000nat,
{
}

/// Two integers are the same value exactly when they stand for the same number.
pub proof fn u256_equal_by_value(a: U256, b: U256)
    ensures
        (a@ == b@) <==> (a == b),
{
    lemma_low_limbs(a);
    lemma_low_limbs(b);
    if a@ == b@ {
        assert(a.l3 == b.l3);
        assert(a.l2 == b.l2);
        assert(a.l1 == b.l1);
    }
}

impl MapKey for U256 {
    fn same_key(&self, other: &Self) -> (same: bool) {
        proof {
            u256_equal_by_value(*self, *other);
        }
        *self == *other
    }
}

/// Every view is in range.
pub broadcast proof fn u256_in_range(a: U256)
    ensures
        #[trigger] a@ <= u256_max(),
{
}

/// Calls `checked_add` of alloy's `U256`: the sum, or `None` where it is out of range.
#[verifier::external_body]
fn alloy_checked_add(a: U256, b: U256) -> (sum: Option<U256>)
    ensures
        match sum {
            Some(value) => value@ == a@ + b@,
            None => a@ + b@ > u256_max(),
        },
{
    alloy::primitives::U256::from_limbs([a.l0, a.l1, a.l2, a.l3])
        .checked_add(alloy::primitives::U256::from_limbs([b.l0, b.l1, b.l2, b.l3]))
        .map(|value| value.into_limbs())
        .map(|limbs| U256 { l0: limbs[0], l1: limbs[1], l2: limbs[2], l3: limbs[3] })
}

/// `n`, less the number of 256-bit values where it is above the greatest of them.
pub open spec fn wrapped_once(n: nat) -> nat {
    if n > u256_max() {
        (n - u256_max() - 1) as nat
    } else {
        n
    }
}

/// Calls `wrapping_add` of alloy's `U256`, which its `+` stands for: the sum without the carry out
/// of 256 bits.
#[verifier::external_body]
fn alloy_wrapping_add(a: U256, b: U256) -> (sum: U256)
    ensures
        sum@ == wrapped_once(a@ + b@),
{
    let limbs = alloy::primitives::U256::from_limbs([a.l0, a.l1, a.l2, a.l3]).wrapping_add(
        alloy::primitives::U256::from_limbs([b.l0, b.l1, b.l2, b.l3]),
    ).into_limbs();
    U256 { l0: limbs[0], l1: limbs[1], l2: limbs[2], l3: limbs[3] }
}

/// Calls `checked_sub` of alloy's `U256`: the difference, or `None` where it is negative.
#[verifier::external_body]
fn alloy_checked_sub(a: U256, b: U256) -> (difference: Option<U256>)
    ensures
        match difference {
            Some(value) => value@ == a@ - b@,
            None => a@ < b@,
        },
{
    alloy::primitives::U256::from_limbs([a.l0, a.l1, a.l2, a.l3])
        .checked_sub(alloy::primitives::U256::from_limbs([b.l0, b.l1, b.l2, b.l3]))
        .map(|value| value.into_limbs())
        .map(|limbs| U256 { l0: limbs[0], l1: limbs[1], l2: limbs[2], l3: limbs[3] })
}

/// Calls `checked_mul` of alloy's `U256`: the product, or `None` where it is out of range.
#[verifier::external_body]
fn alloy_checked_mul(a: U256, b: U256) -> (product: Option<U256>)
    ensures
        match product {
            Some(value) => value@ == a@ * b@,
            None => a@ * b@ > u256_max(),
        },
{
    alloy::primitives::U256::from_limbs([a.l0, a.l1, a.l2, a.l3])
        .checked_mul(alloy::primitives::U256::from_limbs([b.l0, b.l1, b.l2, b.l3]))
        .map(|value| value.into_limbs())
        .map(|limbs| U256 { l0: limbs[0], l1: limbs[1], l2: limbs[2], l3: limbs[3] })
}

/// Calls `checked_div` of alloy's `U256`: the quotient rounded down, or `None` for a zero divisor.
#[verifier::external_body]
fn alloy_checked_div(a: U256, b: U256) -> (quotient: Option<U256>)
    ensures
        match quotient {
            Some(value) => b@ != 0 && value@ == a@ / b@,
            None => b@ == 0,
        },
{
    alloy::primitives::U256::from_limbs([a.l0, a.l1, a.l2, a.l3])
        .checked_div(alloy::primitives::U256::from_limbs([b.l0, b.l1, b.l2, b.l3]))
        .map(|value| value.into_limbs())
        .map(|limbs| U256 { l0: limbs[0], l1: limbs[1], l2: limbs[2], l3: limbs[3] })
}

/// Calls the `Display` impl of alloy's `U256`, which writes the number in decimal digits without
/// leading zeros.
#[verifier::external_body]
fn alloy_display(a: U256) -> (text: String)
    ensures
        text@ == crate::text::decimal(a@),
{
    format!("{}", alloy::primitives::U256::from_limbs([a.l0, a.l1, a.l2, a.l3]))
}

impl U256 {
    /// The number 0.
    pub fn zero() -> (value: U256)
        ensures
            value@ == 0,
    {
        U256 { l0: 0, l1: 0, l2: 0, l3: 0 }
    }

    /// The number 1.
    pub fn one() -> (value: U256)
        ensures
            value@ == 1,
    {
        U256 { l0: 1, l1: 0, l2: 0, l3: 0 }
    }

    /// The greatest number.
    pub fn max() -> (value: U256)
        ensures
            value@ == u256_max(),
    {
        U256 { l0: u64::MAX, l1: u64::MAX, l2: u64::MAX, l3: u64::MAX }
    }

    /// The number `n`.
    pub fn from_u64(n: u64) -> (value: U256)
        ensures
            value@ == n as nat,
    {
        U256 { l0: n, l1: 0, l2: 0, l3: 0 }
    }

    /// The number `n`.
    pub fn from_u128(n: u128) -> (value: U256)
        ensures
            value@ == n as nat,
    {
        let low: u64 = (n % 0x1_0000_0000_0000_0000) as u64;
        let high: u64 = (n / 0x1_0000_0000_0000_0000) as u64;
        U256 { l0: low, l1: high, l2: 0, l3: 0 }
    }

    /// This number where 64 bits hold it.
    pub fn to_u64(self) -> (value: Option<u64>)
        ensures
            match value {
                Some(n) => n as nat == self@,
                None => self@ > u64::MAX,
            },
    {
        if self.l1 == 0 && self.l2 == 0 && self.l3 == 0 {
            Some(self.l0)
        } else {
            None
        }
    }

    /// Whether this is the number 0.
    pub fn is_zero(self) -> (zero: bool)
        ensures
            zero == (self@ == 0),
    {
        self.l0 == 0 && self.l1 == 0 && self.l2 == 0 && self.l3 == 0
    }

    /// Whether this number is less than `other`.
    pub fn less_than(self, other: U256) -> (less: bool)
        ensures
            less == (self@ < other@),
    {
        if self.l3 != other.l3 {
            self.l3 < other.l3
        } else if self.l2 != other.l2 {
            self.l2 < other.l2
        } else if self.l1 != other.l1 {
            self.l1 < other.l1
        } else {
            self.l0 < other.l0
        }
    }

    /// The sum, or `None` where it is out of range.
    pub fn checked_add(self, other: U256) -> (sum: Option<U256>)
        ensures
            match sum {
                Some(value) => value@ == self@ + other@,
                None => self@ + other@ > u256_max(),
            },
    {
        alloy_checked_add(self, other)
    }

    /// The sum without the carry out of 256 bits.
    pub fn wrapping_add(self, other: U256) -> (sum: U256)
        ensures
            sum@ == wrapped_once(self@ + other@),
    {
        alloy_wrapping_add(self, other)
    }

    /// The difference, or `None` where it is negative.
    pub fn checked_sub(self, other: U256) -> (difference: Option<U256>)
        ensures
            match difference {
                Some(value) => value@ == self@ - other@,
                None => self@ < other@,
            },
    {
        alloy_checked_sub(self, other)
    }

    /// The product, or `None` where it is out of range.
    pub fn checked_mul(self, other: U256) -> (product: Option<U256>)
        ensures
            match product {
                Some(value) => value@ == self@ * other@,
                None => self@ * other@ > u256_max(),
            },
    {
        alloy_checked_mul(self, other)
    }

    /// The quotient rounded down, or `None` for a zero divisor.
    pub fn checked_div(self, other: U256) -> (quotient: Option<U256>)
        ensures
            match quotient {
                Some(value) => other@ != 0 && value@ == self@ / other@,
                None => other@ == 0,
            },
    {
        alloy_checked_div(self, other)
    }

    /// The sum, or the greatest number where the sum is out of range.
    pub fn saturating_add(self, other: U256) -> (sum: U256)
        ensures
            sum@ == if self@ + other@ > u256_max() {
                u256_max()
            } else {
                self@ + other@
            },
    {
        broadcast use u256_in_range;

        match self.checked_add(other) {
            Some(value) => value,
            None => U256::max(),
        }
    }

    /// The difference, or 0 where it is negative.
    pub fn saturating_sub(self, other: U256) -> (difference: U256)
        ensures
            difference@ == if self@ < other@ {
                0
            } else {
                (self@ - other@) as nat
            },
    {
        match self.checked_sub(other) {
            Some(value) => value,
            None => U256::zero(),
        }
    }

    /// The decimal digits of this number.
    pub fn to_decimal(self) -> (text: String)
        ensures
            text@ == crate::text::decimal(self@),
    {
        alloy_display(self)
    }
}

/// A sum that fits is itself; one that does not starts over from zero.
pub proof fn sums_start_over(n: nat)
    ensures
        n <= u256_max() ==> wrapped_once(n) == n,
        n > u256_max() ==> wrapped_once(n) + u256_max() + 1 == n,
        wrapped_once(u256_max() + 1) == 0,
        u256_max() == 115792089237316195423570985008687907853269984665640564039457584007913129639935nat,
{
}

/// Numbers are ordered by their highest limb first.
pub proof fn numbers_are_ordered_from_the_highest_limb(a: U256, b: U256)
    ensures
        a@ < b@ <==> {
            ||| a.l3 < b.l3
            ||| a.l3 == b.l3 && a.l2 < b.l2
            ||| a.l3 == b.l3 && a.l2 == b.l2 && a.l1 < b.l1
            ||| a.l3 == b.l3 && a.l2 == b.l2 && a.l1 == b.l1 && a.l0 < b.l0
        },
{
    lemma_low_limbs(a);
    lemma_low_limbs(b);
}

} // verus!
