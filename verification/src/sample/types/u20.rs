//! The `U20` sample type.

use vstd::prelude::*;
use vstd::std_specs::convert::FromSpecImpl;
use vstd::std_specs::ops::{
    AddSpecImpl, BitAndSpecImpl, BitOrSpecImpl, BitXorSpecImpl, DivSpecImpl, MulSpecImpl,
    NotSpecImpl, RemSpecImpl, ShlSpecImpl, ShrSpecImpl, SubSpecImpl,
};

verus! {

const MIN_REP: i32 = 0;

const MAX_REP: i32 = 1_048_575;

const TOTAL: i32 = 1_048_576;

/// Reduces `v` modulo 1_048_576 into the valid range `0..=1_048_575`.
pub open spec fn wrap(v: int) -> int {
    v % 1_048_576
}

/// Brings `v` back into range by adding or subtracting 1_048_576 at most once.
pub open spec fn wrap_once(v: int) -> int {
    if v > 1_048_575 {
        v - 1_048_576
    } else if v < 0 {
        v + 1_048_576
    } else {
        v
    }
}

/// The smallest valid `U20`.
pub fn min() -> (r: U20)
    ensures
        r@ == 0,
{
    U20(MIN_REP)
}

/// The largest valid `U20`.
pub fn max() -> (r: U20)
    ensures
        r@ == 1_048_575,
{
    U20(MAX_REP)
}

/// The `U20` at the centre of the range: silence.
pub fn equilibrium() -> (r: U20)
    ensures
        r@ == 524_288,
{
    U20(524_288)
}

/// A 20-bit unsigned sample, stored in an `i32`.
///
/// The valid range is `0..=1_048_575` with equilibrium at `524_288`. The container
/// can also hold a value outside that range, through `new_unchecked`.
#[derive(Copy, Clone, Debug, PartialEq, Eq, Ord, Structural, Default)]
pub struct U20(i32);

impl View for U20 {
    type V = i32;

    closed spec fn view(&self) -> i32 {
        self.0
    }
}

impl U20 {
    /// Whether the stored value lies within the valid range.
    pub open spec fn is_valid(self) -> bool {
        0 <= self@ <= 1_048_575
    }

    /// Two samples are equal exactly when their stored values are.
    pub proof fn lemma_view_injective(self, other: Self)
        ensures
            self@ == other@ <==> self == other,
    {
    }

    /// The sample holding `v`, truncated to the container.
    pub closed spec fn new_unchecked_spec(v: int) -> Self {
        U20(v as i32)
    }

    /// Construct a new sample if the given value is within range.
    ///
    /// Returns `None` if `val` is out of range.
    pub fn new(val: i32) -> (r: Option<Self>)
        ensures
            r is Some <==> 0 <= val <= 1_048_575,
            r matches Some(s) ==> s@ == val,
    {
        if val > MAX_REP || val < MIN_REP {
            None
        } else {
            Some(U20(val))
        }
    }

    /// Constructs a new sample without checking the range: `s` is stored as given.
    pub fn new_unchecked(s: i32) -> (r: Self)
        ensures
            r@ == s,
    {
        U20(s)
    }

    /// Return the internal value used to represent the sample type.
    pub fn inner(self) -> (r: i32)
        ensures
            r == self@,
    {
        self.0
    }

    /// Wraps self once in the case that self has overflowed.
    fn wrap_overflow_once(self) -> (r: Self)
        ensures
            r@ == wrap_once(self@ as int),
    {
        if self.0 > MAX_REP {
            U20(self.0 - TOTAL)
        } else if self.0 < MIN_REP {
            U20(self.0 + TOTAL)
        } else {
            self
        }
    }

    /// Wraps self in the case that self has overflowed.
    fn wrap_overflow(self) -> (r: Self)
        ensures
            r@ == wrap(self@ as int),
    {
        let mut v = self.0;
        let ghost mut k: int = 0;
        while v > MAX_REP
            invariant
                v == self.0 - k * TOTAL,
                v >= MIN_REP || v == self.0,
            decreases v - MIN_REP,
        {
            v -= TOTAL;
            proof {
                k = k + 1;
            }
        }
        while v < MIN_REP
            invariant
                v == self.0 - k * TOTAL,
                v <= MAX_REP,
            decreases MAX_REP - v,
        {
            v += TOTAL;
            proof {
                k = k - 1;
            }
        }
        proof {
            vstd::arithmetic::div_mod::lemma_fundamental_div_mod_converse(
                self.0 - MIN_REP,
                TOTAL as int,
                k,
                v - MIN_REP,
            );
        }
        U20(v)
    }
}

/// Wraps the value into range, as many times as it takes.
impl From<i32> for U20 {
    fn from(other: i32) -> (r: Self)
        ensures
            r@ == wrap(other as int),
    {
        U20(other).wrap_overflow()
    }
}

impl FromSpecImpl<i32> for U20 {
    open spec fn obeys_from_spec() -> bool {
        false
    }

    closed spec fn from_spec(other: i32) -> U20 {
        U20(wrap(other as int) as i32)
    }
}

/// Adds the containers and wraps an overflow once, as a release build does.
impl core::ops::Add<U20> for U20 {
    type Output = U20;

    fn add(self, other: Self) -> (r: Self)
        ensures
            r@ == wrap_once(self@ + other@),
    {
        U20(self.0 + other.0).wrap_overflow_once()
    }
}

impl AddSpecImpl<U20> for U20 {
    open spec fn obeys_add_spec() -> bool {
        false
    }

    open spec fn add_req(self, rhs: U20) -> bool {
        i32::MIN <= self@ + rhs@ <= i32::MAX
    }

    closed spec fn add_spec(self, rhs: U20) -> U20 {
        U20(wrap_once(self.0 + rhs.0) as i32)
    }
}

/// Subtracts the containers and wraps an overflow once, as a release build does.
impl core::ops::Sub<U20> for U20 {
    type Output = U20;

    fn sub(self, other: Self) -> (r: Self)
        ensures
            r@ == wrap_once(self@ - other@),
    {
        U20(self.0 - other.0).wrap_overflow_once()
    }
}

impl SubSpecImpl<U20> for U20 {
    open spec fn obeys_sub_spec() -> bool {
        false
    }

    open spec fn sub_req(self, rhs: U20) -> bool {
        i32::MIN <= self@ - rhs@ <= i32::MAX
    }

    closed spec fn sub_spec(self, rhs: U20) -> U20 {
        U20(wrap_once(self.0 - rhs.0) as i32)
    }
}

/// Multiplies the containers and wraps the product into range, as a release build does.
impl core::ops::Mul<U20> for U20 {
    type Output = U20;

    fn mul(self, other: Self) -> (r: Self)
        ensures
            r@ == wrap(self@ * other@),
    {
        U20::from(self.0 * other.0)
    }
}

impl MulSpecImpl<U20> for U20 {
    open spec fn obeys_mul_spec() -> bool {
        false
    }

    open spec fn mul_req(self, rhs: U20) -> bool {
        i32::MIN <= self@ * rhs@ <= i32::MAX
    }

    closed spec fn mul_spec(self, rhs: U20) -> U20 {
        U20(wrap(self.0 * rhs.0) as i32)
    }
}

/// Truncating division of the containers, unchecked against the sample range.
impl core::ops::Div<U20> for U20 {
    type Output = U20;

    fn div(self, other: Self) -> (r: Self)
        ensures
            r@ == vstd::std_specs::ops::DivSpec::div_spec(self@, other@),
    {
        U20(self.0 / other.0)
    }
}

impl DivSpecImpl<U20> for U20 {
    open spec fn obeys_div_spec() -> bool {
        false
    }

    open spec fn div_req(self, rhs: U20) -> bool {
        rhs@ != 0 && !(self@ == i32::MIN && rhs@ == -1)
    }

    closed spec fn div_spec(self, rhs: U20) -> U20 {
        U20(vstd::std_specs::ops::DivSpec::div_spec(self.0, rhs.0))
    }
}

/// Truncating remainder of the containers, unchecked against the sample range.
impl core::ops::Rem<U20> for U20 {
    type Output = U20;

    fn rem(self, other: Self) -> (r: Self)
        ensures
            r@ == vstd::std_specs::ops::RemSpec::rem_spec(self@, other@),
    {
        U20(self.0 % other.0)
    }
}

impl RemSpecImpl<U20> for U20 {
    open spec fn obeys_rem_spec() -> bool {
        false
    }

    open spec fn rem_req(self, rhs: U20) -> bool {
        rhs@ != 0 && !(self@ == i32::MIN && rhs@ == -1)
    }

    closed spec fn rem_spec(self, rhs: U20) -> U20 {
        U20(vstd::std_specs::ops::RemSpec::rem_spec(self.0, rhs.0))
    }
}

/// Shifts the container left.
impl core::ops::Shl<U20> for U20 {
    type Output = U20;

    fn shl(self, other: Self) -> (r: Self)
        ensures
            r@ == self@ << other@,
    {
        U20(self.0 << other.0)
    }
}

impl ShlSpecImpl<U20> for U20 {
    open spec fn obeys_shl_spec() -> bool {
        false
    }

    open spec fn shl_req(self, rhs: U20) -> bool {
        0 <= rhs@ < 32
    }

    closed spec fn shl_spec(self, rhs: U20) -> U20 {
        U20(self.0 << rhs.0)
    }
}

/// Shifts the container right, extending its sign.
impl core::ops::Shr<U20> for U20 {
    type Output = U20;

    fn shr(self, other: Self) -> (r: Self)
        ensures
            r@ == self@ >> other@,
    {
        U20(self.0 >> other.0)
    }
}

impl ShrSpecImpl<U20> for U20 {
    open spec fn obeys_shr_spec() -> bool {
        false
    }

    open spec fn shr_req(self, rhs: U20) -> bool {
        0 <= rhs@ < 32
    }

    closed spec fn shr_spec(self, rhs: U20) -> U20 {
        U20(self.0 >> rhs.0)
    }
}

impl core::ops::BitAnd<U20> for U20 {
    type Output = U20;

    fn bitand(self, other: Self) -> (r: Self)
        ensures
            r@ == self@ & other@,
    {
        U20(self.0 & other.0)
    }
}

impl BitAndSpecImpl<U20> for U20 {
    open spec fn obeys_bitand_spec() -> bool {
        false
    }

    open spec fn bitand_req(self, rhs: U20) -> bool {
        true
    }

    closed spec fn bitand_spec(self, rhs: U20) -> U20 {
        U20(self.0 & rhs.0)
    }
}

impl core::ops::BitOr<U20> for U20 {
    type Output = U20;

    fn bitor(self, other: Self) -> (r: Self)
        ensures
            r@ == self@ | other@,
    {
        U20(self.0 | other.0)
    }
}

impl BitOrSpecImpl<U20> for U20 {
    open spec fn obeys_bitor_spec() -> bool {
        false
    }

    open spec fn bitor_req(self, rhs: U20) -> bool {
        true
    }

    closed spec fn bitor_spec(self, rhs: U20) -> U20 {
        U20(self.0 | rhs.0)
    }
}

impl core::ops::BitXor<U20> for U20 {
    type Output = U20;

    fn bitxor(self, other: Self) -> (r: Self)
        ensures
            r@ == self@ ^ other@,
    {
        U20(self.0 ^ other.0)
    }
}

impl BitXorSpecImpl<U20> for U20 {
    open spec fn obeys_bitxor_spec() -> bool {
        false
    }

    open spec fn bitxor_req(self, rhs: U20) -> bool {
        true
    }

    closed spec fn bitxor_spec(self, rhs: U20) -> U20 {
        U20(self.0 ^ rhs.0)
    }
}

/// Inverts every bit of the container, including those that hold no sample data.
impl core::ops::Not for U20 {
    type Output = U20;

    fn not(self) -> (r: Self)
        ensures
            r@ == !self@,
    {
        U20(!self.0)
    }
}

impl NotSpecImpl for U20 {
    open spec fn obeys_not_spec() -> bool {
        false
    }

    open spec fn not_req(self) -> bool {
        true
    }

    closed spec fn not_spec(self) -> U20 {
        U20(!self.0)
    }
}

impl From<u8> for U20 {
    fn from(other: u8) -> (r: Self)
        ensures
            r@ == other,
    {
        U20(other as i32)
    }
}

impl FromSpecImpl<u8> for U20 {
    open spec fn obeys_from_spec() -> bool {
        false
    }

    closed spec fn from_spec(other: u8) -> U20 {
        U20(other as i32)
    }
}

impl From<u16> for U20 {
    fn from(other: u16) -> (r: Self)
        ensures
            r@ == other,
    {
        U20(other as i32)
    }
}

impl FromSpecImpl<u16> for U20 {
    open spec fn obeys_from_spec() -> bool {
        false
    }

    closed spec fn from_spec(other: u16) -> U20 {
        U20(other as i32)
    }
}

} // verus!
