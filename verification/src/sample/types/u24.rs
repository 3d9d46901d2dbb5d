//! The `U24` sample type.

use vstd::prelude::*;
use vstd::std_specs::convert::FromSpecImpl;
use vstd::std_specs::ops::{
    AddSpecImpl, BitAndSpecImpl, BitOrSpecImpl, BitXorSpecImpl, DivSpecImpl, MulSpecImpl,
    NotSpecImpl, RemSpecImpl, ShlSpecImpl, ShrSpecImpl, SubSpecImpl,
};
use super::{U20};

verus! {

const MIN_REP: i32 = 0;

const MAX_REP: i32 = 16_777_215;

const TOTAL: i32 = 16_777_216;

/// Reduces `v` modulo 16_777_216 into the valid range `0..=16_777_215`.
pub open spec fn wrap(v: int) -> int {
    v % 16_777_216
}

/// Brings `v` back into range by adding or subtracting 16_777_216 at most once.
pub open spec fn wrap_once(v: int) -> int {
    if v > 16_777_215 {
        v - 16_777_216
    } else if v < 0 {
        v + 16_777_216
    } else {
        v
    }
}

/// The smallest valid `U24`.
pub fn min() -> (r: U24)
    ensures
        r@ == 0,
{
    U24(MIN_REP)
}

/// The largest valid `U24`.
pub fn max() -> (r: U24)
    ensures
        r@ == 16_777_215,
{
    U24(MAX_REP)
}

/// The `U24` at the centre of the range: silence.
pub fn equilibrium() -> (r: U24)
    ensures
        r@ == 8_388_608,
{
    U24(8_388_608)
}

/// A 24-bit unsigned sample, stored in an `i32`.
///
/// The valid range is `0..=16_777_215` with equilibrium at `8_388_608`. The container
/// can also hold a value outside that range, through `new_unchecked`.
#[derive(Copy, Clone, Debug, PartialEq, Eq, Ord, Structural, Default)]
pub struct U24(i32);

impl View for U24 {
    type V = i32;

    closed spec fn view(&self) -> i32 {
        self.0
    }
}

impl U24 {
    /// Whether the stored value lies within the valid range.
    pub open spec fn is_valid(self) -> bool {
        0 <= self@ <= 16_777_215
    }

    /// Two samples are equal exactly when their stored values are.
    pub proof fn lemma_view_injective(self, other: Self)
        ensures
            self@ == other@ <==> self == other,
    {
    }

    /// The sample holding `v`, truncated to the container.
    pub closed spec fn new_unchecked_spec(v: int) -> Self {
        U24(v as i32)
    }

    /// Construct a new sample if the given value is within range.
    ///
    /// Returns `None` if `val` is out of range.
    pub fn new(val: i32) -> (r: Option<Self>)
        ensures
            r is Some <==> 0 <= val <= 16_777_215,
            r matches Some(s) ==> s@ == val,
    {
        if val > MAX_REP || val < MIN_REP {
            None
        } else {
            Some(U24(val))
        }
    }

    /// Constructs a new sample without checking the range: `s` is stored as given.
    pub fn new_unchecked(s: i32) -> (r: Self)
        ensures
            r@ == s,
    {
        U24(s)
    }

    /// Return the internal value used to represent the sample type.
    pub fn inner(self) -> (r: i32)
        ensures
            r == self@,
    {
        self.0
    }

    /// Wraps self once in the case that self has overflowed.
    fn wrap_overflow_once(self) -> (r: Self)
        ensures
            r@ == wrap_once(self@ as int),
    {
        if self.0 > MAX_REP {
            U24(self.0 - TOTAL)
        } else if self.0 < MIN_REP {
            U24(self.0 + TOTAL)
        } else {
            self
        }
    }

    /// Wraps self in the case that self has overflowed.
    fn wrap_overflow(self) -> (r: Self)
        ensures
            r@ == wrap(self@ as int),
    {
        let mut v = self.0;
        let ghost mut k: int = 0;
        while v > MAX_REP
            invariant
                v == self.0 - k * TOTAL,
                v >= MIN_REP || v == self.0,
            decreases v - MIN_REP,
        {
            v -= TOTAL;
            proof {
                k = k + 1;
            }
        }
        while v < MIN_REP
            invariant
                v == self.0 - k * TOTAL,
                v <= MAX_REP,
            decreases MAX_REP - v,
        {
            v += TOTAL;
            proof {
                k = k - 1;
            }
        }
        proof {
            vstd::arithmetic::div_mod::lemma_fundamental_div_mod_converse(
                self.0 - MIN_REP,
                TOTAL as int,
                k,
                v - MIN_REP,
            );
        }
        U24(v)
    }
}

/// Wraps the value into range, as many times as it takes.
impl From<i32> for U24 {
    fn from(other: i32) -> (r: Self)
        ensures
            r@ == wrap(other as int),
    {
        U24(other).wrap_overflow()
    }
}

impl FromSpecImpl<i32> for U24 {
    open spec fn obeys_from_spec() -> bool {
        false
    }

    closed spec fn from_spec(other: i32) -> U24 {
        U24(wrap(other as int) as i32)
    }
}

/// Adds the containers and wraps an overflow once, as a release build does.
impl core::ops::Add<U24> for U24 {
    type Output = U24;

    fn add(self, other: Self) -> (r: Self)
        ensures
            r@ == wrap_once(self@ + other@),
    {
        U24(self.0 + other.0).wrap_overflow_once()
    }
}

impl AddSpecImpl<U24> for U24 {
    open spec fn obeys_add_spec() -> bool {
        false
    }

    open spec fn add_req(self, rhs: U24) -> bool {
        i32::MIN <= self@ + rhs@ <= i32::MAX
    }

    closed spec fn add_spec(self, rhs: U24) -> U24 {
        U24(wrap_once(self.0 + rhs.0) as i32)
    }
}

/// Subtracts the containers and wraps an overflow once, as a release build does.
impl core::ops::Sub<U24> for U24 {
    type Output = U24;

    fn sub(self, other: Self) -> (r: Self)
        ensures
            r@ == wrap_once(self@ - other@),
    {
        U24(self.0 - other.0).wrap_overflow_once()
    }
}

impl SubSpecImpl<U24> for U24 {
    open spec fn obeys_sub_spec() -> bool {
        false
    }

    open spec fn sub_req(self, rhs: U24) -> bool {
        i32::MIN <= self@ - rhs@ <= i32::MAX
    }

    closed spec fn sub_spec(self, rhs: U24) -> U24 {
        U24(wrap_once(self.0 - rhs.0) as i32)
    }
}

/// Multiplies the containers and wraps the product into range, as a release build does.
impl core::ops::Mul<U24> for U24 {
    type Output = U24;

    fn mul(self, other: Self) -> (r: Self)
        ensures
            r@ == wrap(self@ * other@),
    {
        U24::from(self.0 * other.0)
    }
}

impl MulSpecImpl<U24> for U24 {
    open spec fn obeys_mul_spec() -> bool {
        false
    }

    open spec fn mul_req(self, rhs: U24) -> bool {
        i32::MIN <= self@ * rhs@ <= i32::MAX
    }

    closed spec fn mul_spec(self, rhs: U24) -> U24 {
        U24(wrap(self.0 * rhs.0) as i32)
    }
}

/// Truncating division of the containers, unchecked against the sample range.
impl core::ops::Div<U24> for U24 {
    type Output = U24;

    fn div(self, other: Self) -> (r: Self)
        ensures
            r@ == vstd::std_specs::ops::DivSpec::div_spec(self@, other@),
    {
        U24(self.0 / other.0)
    }
}

impl DivSpecImpl<U24> for U24 {
    open spec fn obeys_div_spec() -> bool {
        false
    }

    open spec fn div_req(self, rhs: U24) -> bool {
        rhs@ != 0 && !(self@ == i32::MIN && rhs@ == -1)
    }

    closed spec fn div_spec(self, rhs: U24) -> U24 {
        U24(vstd::std_specs::ops::DivSpec::div_spec(self.0, rhs.0))
    }
}

/// Truncating remainder of the containers, unchecked against the sample range.
impl core::ops::Rem<U24> for U24 {
    type Output = U24;

    fn rem(self, other: Self) -> (r: Self)
        ensures
            r@ == vstd::std_specs::ops::RemSpec::rem_spec(self@, other@),
    {
        U24(self.0 % other.0)
    }
}

impl RemSpecImpl<U24> for U24 {
    open spec fn obeys_rem_spec() -> bool {
        false
    }

    open spec fn rem_req(self, rhs: U24) -> bool {
        rhs@ != 0 && !(self@ == i32::MIN && rhs@ == -1)
    }

    closed spec fn rem_spec(self, rhs: U24) -> U24 {
        U24(vstd::std_specs::ops::RemSpec::rem_spec(self.0, rhs.0))
    }
}

/// Shifts the container left.
impl core::ops::Shl<U24> for U24 {
    type Output = U24;

    fn shl(self, other: Self) -> (r: Self)
        ensures
            r@ == self@ << other@,
    {
        U24(self.0 << other.0)
    }
}

impl ShlSpecImpl<U24> for U24 {
    open spec fn obeys_shl_spec() -> bool {
        false
    }

    open spec fn shl_req(self, rhs: U24) -> bool {
        0 <= rhs@ < 32
    }

    closed spec fn shl_spec(self, rhs: U24) -> U24 {
        U24(self.0 << rhs.0)
    }
}

/// Shifts the container right, extending its sign.
impl core::ops::Shr<U24> for U24 {
    type Output = U24;

    fn shr(self, other: Self) -> (r: Self)
        ensures
            r@ == self@ >> other@,
    {
        U24(self.0 >> other.0)
    }
}

impl ShrSpecImpl<U24> for U24 {
    open spec fn obeys_shr_spec() -> bool {
        false
    }

    open spec fn shr_req(self, rhs: U24) -> bool {
        0 <= rhs@ < 32
    }

    closed spec fn shr_spec(self, rhs: U24) -> U24 {
        U24(self.0 >> rhs.0)
    }
}

impl core::ops::BitAnd<U24> for U24 {
    type Output = U24;

    fn bitand(self, other: Self) -> (r: Self)
        ensures
            r@ == self@ & other@,
    {
        U24(self.0 & other.0)
    }
}

impl BitAndSpecImpl<U24> for U24 {
    open spec fn obeys_bitand_spec() -> bool {
        false
    }

    open spec fn bitand_req(self, rhs: U24) -> bool {
        true
    }

    closed spec fn bitand_spec(self, rhs: U24) -> U24 {
        U24(self.0 & rhs.0)
    }
}

impl core::ops::BitOr<U24> for U24 {
    type Output = U24;

    fn bitor(self, other: Self) -> (r: Self)
        ensures
            r@ == self@ | other@,
    {
        U24(self.0 | other.0)
    }
}

impl BitOrSpecImpl<U24> for U24 {
    open spec fn obeys_bitor_spec() -> bool {
        false
    }

    open spec fn bitor_req(self, rhs: U24) -> bool {
        true
    }

    closed spec fn bitor_spec(self, rhs: U24) -> U24 {
        U24(self.0 | rhs.0)
    }
}

impl core::ops::BitXor<U24> for U24 {
    type Output = U24;

    fn bitxor(self, other: Self) -> (r: Self)
        ensures
            r@ == self@ ^ other@,
    {
        U24(self.0 ^ other.0)
    }
}

impl BitXorSpecImpl<U24> for U24 {
    open spec fn obeys_bitxor_spec() -> bool {
        false
    }

    open spec fn bitxor_req(self, rhs: U24) -> bool {
        true
    }

    closed spec fn bitxor_spec(self, rhs: U24) -> U24 {
        U24(self.0 ^ rhs.0)
    }
}

/// Inverts every bit of the container, including those that hold no sample data.
impl core::ops::Not for U24 {
    type Output = U24;

    fn not(self) -> (r: Self)
        ensures
            r@ == !self@,
    {
        U24(!self.0)
    }
}

impl NotSpecImpl for U24 {
    open spec fn obeys_not_spec() -> bool {
        false
    }

    open spec fn not_req(self) -> bool {
        true
    }

    closed spec fn not_spec(self) -> U24 {
        U24(!self.0)
    }
}

impl From<u8> for U24 {
    fn from(other: u8) -> (r: Self)
        ensures
            r@ == other,
    {
        U24(other as i32)
    }
}

impl FromSpecImpl<u8> for U24 {
    open spec fn obeys_from_spec() -> bool {
        false
    }

    closed spec fn from_spec(other: u8) -> U24 {
        U24(other as i32)
    }
}

impl From<u16> for U24 {
    fn from(other: u16) -> (r: Self)
        ensures
            r@ == other,
    {
        U24(other as i32)
    }
}

impl FromSpecImpl<u16> for U24 {
    open spec fn obeys_from_spec() -> bool {
        false
    }

    closed spec fn from_spec(other: u16) -> U24 {
        U24(other as i32)
    }
}

impl From<U20> for U24 {
    fn from(other: U20) -> (r: Self)
        ensures
            r@ == other@,
    {
        U24(other.inner() as i32)
    }
}

impl FromSpecImpl<U20> for U24 {
    open spec fn obeys_from_spec() -> bool {
        false
    }

    closed spec fn from_spec(other: U20) -> U24 {
        U24(other@ as i32)
    }
}

} // verus!
