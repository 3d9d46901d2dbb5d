//! The `I20` sample type.

use vstd::prelude::*;
use vstd::std_specs::convert::FromSpecImpl;
use vstd::std_specs::ops::{
    AddSpecImpl, BitAndSpecImpl, BitOrSpecImpl, BitXorSpecImpl, DivSpecImpl, MulSpecImpl,
    NotSpecImpl, RemSpecImpl, ShlSpecImpl, ShrSpecImpl, SubSpecImpl,
};
use super::{I11, U11};

verus! {

const MIN_REP: i32 = -524_288;

const MAX_REP: i32 = 524_287;

const TOTAL: i32 = 1_048_576;

/// Reduces `v` modulo 1_048_576 into the valid range `-524_288..=524_287`.
pub open spec fn wrap(v: int) -> int {
    (v + 524_288) % 1_048_576 - 524_288
}

/// Brings `v` back into range by adding or subtracting 1_048_576 at most once.
pub open spec fn wrap_once(v: int) -> int {
    if v > 524_287 {
        v - 1_048_576
    } else if v < -524_288 {
        v + 1_048_576
    } else {
        v
    }
}

/// The smallest valid `I20`.
pub fn min() -> (r: I20)
    ensures
        r@ == -524_288,
{
    I20(MIN_REP)
}

/// The largest valid `I20`.
pub fn max() -> (r: I20)
    ensures
        r@ == 524_287,
{
    I20(MAX_REP)
}

/// The `I20` at the centre of the range: silence.
pub fn equilibrium() -> (r: I20)
    ensures
        r@ == 0,
{
    I20(0)
}

/// A 20-bit signed sample, stored in an `i32`.
///
/// The valid range is `-524_288..=524_287` with equilibrium at `0`. The container
/// can also hold a value outside that range, through `new_unchecked`.
#[derive(Copy, Clone, Debug, PartialEq, Eq, Ord, Structural, Default)]
pub struct I20(i32);

impl View for I20 {
    type V = i32;

    closed spec fn view(&self) -> i32 {
        self.0
    }
}

impl I20 {
    /// Whether the stored value lies within the valid range.
    pub open spec fn is_valid(self) -> bool {
        -524_288 <= self@ <= 524_287
    }

    /// Two samples are equal exactly when their stored values are.
    pub proof fn lemma_view_injective(self, other: Self)
        ensures
            self@ == other@ <==> self == other,
    {
    }

    /// The sample holding `v`, truncated to the container.
    pub closed spec fn new_unchecked_spec(v: int) -> Self {
        I20(v as i32)
    }

    /// Construct a new sample if the given value is within range.
    ///
    /// Returns `None` if `val` is out of range.
    pub fn new(val: i32) -> (r: Option<Self>)
        ensures
            r is Some <==> -524_288 <= val <= 524_287,
            r matches Some(s) ==> s@ == val,
    {
        if val > MAX_REP || val < MIN_REP {
            None
        } else {
            Some(I20(val))
        }
    }

    /// Constructs a new sample without checking the range: `s` is stored as given.
    pub fn new_unchecked(s: i32) -> (r: Self)
        ensures
            r@ == s,
    {
        I20(s)
    }

    /// Return the internal value used to represent the sample type.
    pub fn inner(self) -> (r: i32)
        ensures
            r == self@,
    {
        self.0
    }

    /// Wraps self once in the case that self has overflowed.
    fn wrap_overflow_once(self) -> (r: Self)
        ensures
            r@ == wrap_once(self@ as int),
    {
        if self.0 > MAX_REP {
            I20(self.0 - TOTAL)
        } else if self.0 < MIN_REP {
            I20(self.0 + TOTAL)
        } else {
            self
        }
    }

    /// Wraps self in the case that self has overflowed.
    fn wrap_overflow(self) -> (r: Self)
        ensures
            r@ == wrap(self@ as int),
    {
        let mut v = self.0;
        let ghost mut k: int = 0;
        while v > MAX_REP
            invariant
                v == self.0 - k * TOTAL,
                v >= MIN_REP || v == self.0,
            decreases v - MIN_REP,
        {
            v -= TOTAL;
            proof {
                k = k + 1;
            }
        }
        while v < MIN_REP
            invariant
                v == self.0 - k * TOTAL,
                v <= MAX_REP,
            decreases MAX_REP - v,
        {
            v += TOTAL;
            proof {
                k = k - 1;
            }
        }
        proof {
            vstd::arithmetic::div_mod::lemma_fundamental_div_mod_converse(
                self.0 - MIN_REP,
                TOTAL as int,
                k,
                v - MIN_REP,
            );
        }
        I20(v)
    }
}

/// Wraps the value into range, as many times as it takes.
impl From<i32> for I20 {
    fn from(other: i32) -> (r: Self)
        ensures
            r@ == wrap(other as int),
    {
        I20(other).wrap_overflow()
    }
}

impl FromSpecImpl<i32> for I20 {
    open spec fn obeys_from_spec() -> bool {
        false
    }

    closed spec fn from_spec(other: i32) -> I20 {
        I20(wrap(other as int) as i32)
    }
}

/// Adds the containers and wraps an overflow once, as a release build does.
impl core::ops::Add<I20> for I20 {
    type Output = I20;

    fn add(self, other: Self) -> (r: Self)
        ensures
            r@ == wrap_once(self@ + other@),
    {
        I20(self.0 + other.0).wrap_overflow_once()
    }
}

impl AddSpecImpl<I20> for I20 {
    open spec fn obeys_add_spec() -> bool {
        false
    }

    open spec fn add_req(self, rhs: I20) -> bool {
        i32::MIN <= self@ + rhs@ <= i32::MAX
    }

    closed spec fn add_spec(self, rhs: I20) -> I20 {
        I20(wrap_once(self.0 + rhs.0) as i32)
    }
}

/// Subtracts the containers and wraps an overflow once, as a release build does.
impl core::ops::Sub<I20> for I20 {
    type Output = I20;

    fn sub(self, other: Self) -> (r: Self)
        ensures
            r@ == wrap_once(self@ - other@),
    {
        I20(self.0 - other.0).wrap_overflow_once()
    }
}

impl SubSpecImpl<I20> for I20 {
    open spec fn obeys_sub_spec() -> bool {
        false
    }

    open spec fn sub_req(self, rhs: I20) -> bool {
        i32::MIN <= self@ - rhs@ <= i32::MAX
    }

    closed spec fn sub_spec(self, rhs: I20) -> I20 {
        I20(wrap_once(self.0 - rhs.0) as i32)
    }
}

/// Multiplies the containers and wraps the product into range, as a release build does.
impl core::ops::Mul<I20> for I20 {
    type Output = I20;

    fn mul(self, other: Self) -> (r: Self)
        ensures
            r@ == wrap(self@ * other@),
    {
        I20::from(self.0 * other.0)
    }
}

impl MulSpecImpl<I20> for I20 {
    open spec fn obeys_mul_spec() -> bool {
        false
    }

    open spec fn mul_req(self, rhs: I20) -> bool {
        i32::MIN <= self@ * rhs@ <= i32::MAX
    }

    closed spec fn mul_spec(self, rhs: I20) -> I20 {
        I20(wrap(self.0 * rhs.0) as i32)
    }
}

/// Truncating division of the containers, unchecked against the sample range.
impl core::ops::Div<I20> for I20 {
    type Output = I20;

    fn div(self, other: Self) -> (r: Self)
        ensures
            r@ == vstd::std_specs::ops::DivSpec::div_spec(self@, other@),
    {
        I20(self.0 / other.0)
    }
}

impl DivSpecImpl<I20> for I20 {
    open spec fn obeys_div_spec() -> bool {
        false
    }

    open spec fn div_req(self, rhs: I20) -> bool {
        rhs@ != 0 && !(self@ == i32::MIN && rhs@ == -1)
    }

    closed spec fn div_spec(self, rhs: I20) -> I20 {
        I20(vstd::std_specs::ops::DivSpec::div_spec(self.0, rhs.0))
    }
}

/// Truncating remainder of the containers, unchecked against the sample range.
impl core::ops::Rem<I20> for I20 {
    type Output = I20;

    fn rem(self, other: Self) -> (r: Self)
        ensures
            r@ == vstd::std_specs::ops::RemSpec::rem_spec(self@, other@),
    {
        I20(self.0 % other.0)
    }
}

impl RemSpecImpl<I20> for I20 {
    open spec fn obeys_rem_spec() -> bool {
        false
    }

    open spec fn rem_req(self, rhs: I20) -> bool {
        rhs@ != 0 && !(self@ == i32::MIN && rhs@ == -1)
    }

    closed spec fn rem_spec(self, rhs: I20) -> I20 {
        I20(vstd::std_specs::ops::RemSpec::rem_spec(self.0, rhs.0))
    }
}

/// Shifts the container left.
impl core::ops::Shl<I20> for I20 {
    type Output = I20;

    fn shl(self, other: Self) -> (r: Self)
        ensures
            r@ == self@ << other@,
    {
        I20(self.0 << other.0)
    }
}

impl ShlSpecImpl<I20> for I20 {
    open spec fn obeys_shl_spec() -> bool {
        false
    }

    open spec fn shl_req(self, rhs: I20) -> bool {
        0 <= rhs@ < 32
    }

    closed spec fn shl_spec(self, rhs: I20) -> I20 {
        I20(self.0 << rhs.0)
    }
}

/// Shifts the container right, extending its sign.
impl core::ops::Shr<I20> for I20 {
    type Output = I20;

    fn shr(self, other: Self) -> (r: Self)
        ensures
            r@ == self@ >> other@,
    {
        I20(self.0 >> other.0)
    }
}

impl ShrSpecImpl<I20> for I20 {
    open spec fn obeys_shr_spec() -> bool {
        false
    }

    open spec fn shr_req(self, rhs: I20) -> bool {
        0 <= rhs@ < 32
    }

    closed spec fn shr_spec(self, rhs: I20) -> I20 {
        I20(self.0 >> rhs.0)
    }
}

impl core::ops::BitAnd<I20> for I20 {
    type Output = I20;

    fn bitand(self, other: Self) -> (r: Self)
        ensures
            r@ == self@ & other@,
    {
        I20(self.0 & other.0)
    }
}

impl BitAndSpecImpl<I20> for I20 {
    open spec fn obeys_bitand_spec() -> bool {
        false
    }

    open spec fn bitand_req(self, rhs: I20) -> bool {
        true
    }

    closed spec fn bitand_spec(self, rhs: I20) -> I20 {
        I20(self.0 & rhs.0)
    }
}

impl core::ops::BitOr<I20> for I20 {
    type Output = I20;

    fn bitor(self, other: Self) -> (r: Self)
        ensures
            r@ == self@ | other@,
    {
        I20(self.0 | other.0)
    }
}

impl BitOrSpecImpl<I20> for I20 {
    open spec fn obeys_bitor_spec() -> bool {
        false
    }

    open spec fn bitor_req(self, rhs: I20) -> bool {
        true
    }

    closed spec fn bitor_spec(self, rhs: I20) -> I20 {
        I20(self.0 | rhs.0)
    }
}

impl core::ops::BitXor<I20> for I20 {
    type Output = I20;

    fn bitxor(self, other: Self) -> (r: Self)
        ensures
            r@ == self@ ^ other@,
    {
        I20(self.0 ^ other.0)
    }
}

impl BitXorSpecImpl<I20> for I20 {
    open spec fn obeys_bitxor_spec() -> bool {
        false
    }

    open spec fn bitxor_req(self, rhs: I20) -> bool {
        true
    }

    closed spec fn bitxor_spec(self, rhs: I20) -> I20 {
        I20(self.0 ^ rhs.0)
    }
}

/// Inverts every bit of the container, including those that hold no sample data.
impl core::ops::Not for I20 {
    type Output = I20;

    fn not(self) -> (r: Self)
        ensures
            r@ == !self@,
    {
        I20(!self.0)
    }
}

impl NotSpecImpl for I20 {
    open spec fn obeys_not_spec() -> bool {
        false
    }

    open spec fn not_req(self) -> bool {
        true
    }

    closed spec fn not_spec(self) -> I20 {
        I20(!self.0)
    }
}

impl From<i8> for I20 {
    fn from(other: i8) -> (r: Self)
        ensures
            r@ == other,
    {
        I20(other as i32)
    }
}

impl FromSpecImpl<i8> for I20 {
    open spec fn obeys_from_spec() -> bool {
        false
    }

    closed spec fn from_spec(other: i8) -> I20 {
        I20(other as i32)
    }
}

impl From<I11> for I20 {
    fn from(other: I11) -> (r: Self)
        ensures
            r@ == other@,
    {
        I20(other.inner() as i32)
    }
}

impl FromSpecImpl<I11> for I20 {
    open spec fn obeys_from_spec() -> bool {
        false
    }

    closed spec fn from_spec(other: I11) -> I20 {
        I20(other@ as i32)
    }
}

impl From<i16> for I20 {
    fn from(other: i16) -> (r: Self)
        ensures
            r@ == other,
    {
        I20(other as i32)
    }
}

impl FromSpecImpl<i16> for I20 {
    open spec fn obeys_from_spec() -> bool {
        false
    }

    closed spec fn from_spec(other: i16) -> I20 {
        I20(other as i32)
    }
}

impl From<u8> for I20 {
    fn from(other: u8) -> (r: Self)
        ensures
            r@ == other,
    {
        I20(other as i32)
    }
}

impl FromSpecImpl<u8> for I20 {
    open spec fn obeys_from_spec() -> bool {
        false
    }

    closed spec fn from_spec(other: u8) -> I20 {
        I20(other as i32)
    }
}

impl From<U11> for I20 {
    fn from(other: U11) -> (r: Self)
        ensures
            r@ == other@,
    {
        I20(other.inner() as i32)
    }
}

impl FromSpecImpl<U11> for I20 {
    open spec fn obeys_from_spec() -> bool {
        false
    }

    closed spec fn from_spec(other: U11) -> I20 {
        I20(other@ as i32)
    }
}

impl From<u16> for I20 {
    fn from(other: u16) -> (r: Self)
        ensures
            r@ == other,
    {
        I20(other as i32)
    }
}

impl FromSpecImpl<u16> for I20 {
    open spec fn obeys_from_spec() -> bool {
        false
    }

    closed spec fn from_spec(other: u16) -> I20 {
        I20(other as i32)
    }
}

} // verus!
