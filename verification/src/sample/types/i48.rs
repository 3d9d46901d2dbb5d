//! The `I48` sample type.

use vstd::prelude::*;
use vstd::std_specs::convert::FromSpecImpl;
use vstd::std_specs::ops::{
    AddSpecImpl, BitAndSpecImpl, BitOrSpecImpl, BitXorSpecImpl, DivSpecImpl, MulSpecImpl,
    NegSpecImpl, NotSpecImpl, RemSpecImpl, ShlSpecImpl, ShrSpecImpl, SubSpecImpl,
};
use super::{I20, I24, I24BE3, I24LE3, U20, U24, U24BE3, U24LE3};

verus! {

const MIN_REP: i64 = -140_737_488_355_328;

const MAX_REP: i64 = 140_737_488_355_327;

const TOTAL: i64 = 281_474_976_710_656;

/// Reduces `v` modulo 281_474_976_710_656 into the valid range `-140_737_488_355_328..=140_737_488_355_327`.
pub open spec fn wrap(v: int) -> int {
    (v + 140_737_488_355_328) % 281_474_976_710_656 - 140_737_488_355_328
}

/// Brings `v` back into range by adding or subtracting 281_474_976_710_656 at most once.
pub open spec fn wrap_once(v: int) -> int {
    if v > 140_737_488_355_327 {
        v - 281_474_976_710_656
    } else if v < -140_737_488_355_328 {
        v + 281_474_976_710_656
    } else {
        v
    }
}

/// The smallest valid `I48`.
pub fn min() -> (r: I48)
    ensures
        r@ == -140_737_488_355_328,
{
    I48(MIN_REP)
}

/// The largest valid `I48`.
pub fn max() -> (r: I48)
    ensures
        r@ == 140_737_488_355_327,
{
    I48(MAX_REP)
}

/// The `I48` at the centre of the range: silence.
pub fn equilibrium() -> (r: I48)
    ensures
        r@ == 0,
{
    I48(0)
}

/// A 48-bit signed sample, stored in an `i64`.
///
/// The valid range is `-140_737_488_355_328..=140_737_488_355_327` with equilibrium at `0`. The container
/// can also hold a value outside that range, through `new_unchecked`.
#[derive(Copy, Clone, Debug, PartialEq, Eq, Ord, Structural, Default)]
pub struct I48(i64);

impl View for I48 {
    type V = i64;

    closed spec fn view(&self) -> i64 {
        self.0
    }
}

impl I48 {
    /// Whether the stored value lies within the valid range.
    pub open spec fn is_valid(self) -> bool {
        -140_737_488_355_328 <= self@ <= 140_737_488_355_327
    }

    /// Two samples are equal exactly when their stored values are.
    pub proof fn lemma_view_injective(self, other: Self)
        ensures
            self@ == other@ <==> self == other,
    {
    }

    /// The sample holding `v`, truncated to the container.
    pub closed spec fn new_unchecked_spec(v: int) -> Self {
        I48(v as i64)
    }

    /// Construct a new sample if the given value is within range.
    ///
    /// Returns `None` if `val` is out of range.
    pub fn new(val: i64) -> (r: Option<Self>)
        ensures
            r is Some <==> -140_737_488_355_328 <= val <= 140_737_488_355_327,
            r matches Some(s) ==> s@ == val,
    {
        if val > MAX_REP || val < MIN_REP {
            None
        } else {
            Some(I48(val))
        }
    }

    /// Constructs a new sample without checking the range: `s` is stored as given.
    pub fn new_unchecked(s: i64) -> (r: Self)
        ensures
            r@ == s,
    {
        I48(s)
    }

    /// Return the internal value used to represent the sample type.
    pub fn inner(self) -> (r: i64)
        ensures
            r == self@,
    {
        self.0
    }

    /// Wraps self once in the case that self has overflowed.
    fn wrap_overflow_once(self) -> (r: Self)
        ensures
            r@ == wrap_once(self@ as int),
    {
        if self.0 > MAX_REP {
            I48(self.0 - TOTAL)
        } else if self.0 < MIN_REP {
            I48(self.0 + TOTAL)
        } else {
            self
        }
    }

    /// Wraps self in the case that self has overflowed.
    fn wrap_overflow(self) -> (r: Self)
        ensures
            r@ == wrap(self@ as int),
    {
        let mut v = self.0;
        let ghost mut k: int = 0;
        while v > MAX_REP
            invariant
                v == self.0 - k * TOTAL,
                v >= MIN_REP || v == self.0,
            decreases v - MIN_REP,
        {
            v -= TOTAL;
            proof {
                k = k + 1;
            }
        }
        while v < MIN_REP
            invariant
                v == self.0 - k * TOTAL,
                v <= MAX_REP,
            decreases MAX_REP - v,
        {
            v += TOTAL;
            proof {
                k = k - 1;
            }
        }
        proof {
            vstd::arithmetic::div_mod::lemma_fundamental_div_mod_converse(
                self.0 - MIN_REP,
                TOTAL as int,
                k,
                v - MIN_REP,
            );
        }
        I48(v)
    }
}

/// Wraps the value into range, as many times as it takes.
impl From<i64> for I48 {
    fn from(other: i64) -> (r: Self)
        ensures
            r@ == wrap(other as int),
    {
        I48(other).wrap_overflow()
    }
}

impl FromSpecImpl<i64> for I48 {
    open spec fn obeys_from_spec() -> bool {
        false
    }

    closed spec fn from_spec(other: i64) -> I48 {
        I48(wrap(other as int) as i64)
    }
}

/// Adds the containers and wraps an overflow once, as a release build does.
impl core::ops::Add<I48> for I48 {
    type Output = I48;

    fn add(self, other: Self) -> (r: Self)
        ensures
            r@ == wrap_once(self@ + other@),
    {
        I48(self.0 + other.0).wrap_overflow_once()
    }
}

impl AddSpecImpl<I48> for I48 {
    open spec fn obeys_add_spec() -> bool {
        false
    }

    open spec fn add_req(self, rhs: I48) -> bool {
        i64::MIN <= self@ + rhs@ <= i64::MAX
    }

    closed spec fn add_spec(self, rhs: I48) -> I48 {
        I48(wrap_once(self.0 + rhs.0) as i64)
    }
}

/// Subtracts the containers and wraps an overflow once, as a release build does.
impl core::ops::Sub<I48> for I48 {
    type Output = I48;

    fn sub(self, other: Self) -> (r: Self)
        ensures
            r@ == wrap_once(self@ - other@),
    {
        I48(self.0 - other.0).wrap_overflow_once()
    }
}

impl SubSpecImpl<I48> for I48 {
    open spec fn obeys_sub_spec() -> bool {
        false
    }

    open spec fn sub_req(self, rhs: I48) -> bool {
        i64::MIN <= self@ - rhs@ <= i64::MAX
    }

    closed spec fn sub_spec(self, rhs: I48) -> I48 {
        I48(wrap_once(self.0 - rhs.0) as i64)
    }
}

/// Multiplies the containers and wraps the product into range, as a release build does.
impl core::ops::Mul<I48> for I48 {
    type Output = I48;

    fn mul(self, other: Self) -> (r: Self)
        ensures
            r@ == wrap(self@ * other@),
    {
        I48::from(self.0 * other.0)
    }
}

impl MulSpecImpl<I48> for I48 {
    open spec fn obeys_mul_spec() -> bool {
        false
    }

    open spec fn mul_req(self, rhs: I48) -> bool {
        i64::MIN <= self@ * rhs@ <= i64::MAX
    }

    closed spec fn mul_spec(self, rhs: I48) -> I48 {
        I48(wrap(self.0 * rhs.0) as i64)
    }
}

/// Truncating division of the containers, unchecked against the sample range.
impl core::ops::Div<I48> for I48 {
    type Output = I48;

    fn div(self, other: Self) -> (r: Self)
        ensures
            r@ == vstd::std_specs::ops::DivSpec::div_spec(self@, other@),
    {
        I48(self.0 / other.0)
    }
}

impl DivSpecImpl<I48> for I48 {
    open spec fn obeys_div_spec() -> bool {
        false
    }

    open spec fn div_req(self, rhs: I48) -> bool {
        rhs@ != 0 && !(self@ == i64::MIN && rhs@ == -1)
    }

    closed spec fn div_spec(self, rhs: I48) -> I48 {
        I48(vstd::std_specs::ops::DivSpec::div_spec(self.0, rhs.0))
    }
}

/// Truncating remainder of the containers, unchecked against the sample range.
impl core::ops::Rem<I48> for I48 {
    type Output = I48;

    fn rem(self, other: Self) -> (r: Self)
        ensures
            r@ == vstd::std_specs::ops::RemSpec::rem_spec(self@, other@),
    {
        I48(self.0 % other.0)
    }
}

impl RemSpecImpl<I48> for I48 {
    open spec fn obeys_rem_spec() -> bool {
        false
    }

    open spec fn rem_req(self, rhs: I48) -> bool {
        rhs@ != 0 && !(self@ == i64::MIN && rhs@ == -1)
    }

    closed spec fn rem_spec(self, rhs: I48) -> I48 {
        I48(vstd::std_specs::ops::RemSpec::rem_spec(self.0, rhs.0))
    }
}

/// Shifts the container left.
impl core::ops::Shl<I48> for I48 {
    type Output = I48;

    fn shl(self, other: Self) -> (r: Self)
        ensures
            r@ == self@ << other@,
    {
        I48(self.0 << other.0)
    }
}

impl ShlSpecImpl<I48> for I48 {
    open spec fn obeys_shl_spec() -> bool {
        false
    }

    open spec fn shl_req(self, rhs: I48) -> bool {
        0 <= rhs@ < 64
    }

    closed spec fn shl_spec(self, rhs: I48) -> I48 {
        I48(self.0 << rhs.0)
    }
}

/// Shifts the container right, extending its sign.
impl core::ops::Shr<I48> for I48 {
    type Output = I48;

    fn shr(self, other: Self) -> (r: Self)
        ensures
            r@ == self@ >> other@,
    {
        I48(self.0 >> other.0)
    }
}

impl ShrSpecImpl<I48> for I48 {
    open spec fn obeys_shr_spec() -> bool {
        false
    }

    open spec fn shr_req(self, rhs: I48) -> bool {
        0 <= rhs@ < 64
    }

    closed spec fn shr_spec(self, rhs: I48) -> I48 {
        I48(self.0 >> rhs.0)
    }
}

impl core::ops::BitAnd<I48> for I48 {
    type Output = I48;

    fn bitand(self, other: Self) -> (r: Self)
        ensures
            r@ == self@ & other@,
    {
        I48(self.0 & other.0)
    }
}

impl BitAndSpecImpl<I48> for I48 {
    open spec fn obeys_bitand_spec() -> bool {
        false
    }

    open spec fn bitand_req(self, rhs: I48) -> bool {
        true
    }

    closed spec fn bitand_spec(self, rhs: I48) -> I48 {
        I48(self.0 & rhs.0)
    }
}

impl core::ops::BitOr<I48> for I48 {
    type Output = I48;

    fn bitor(self, other: Self) -> (r: Self)
        ensures
            r@ == self@ | other@,
    {
        I48(self.0 | other.0)
    }
}

impl BitOrSpecImpl<I48> for I48 {
    open spec fn obeys_bitor_spec() -> bool {
        false
    }

    open spec fn bitor_req(self, rhs: I48) -> bool {
        true
    }

    closed spec fn bitor_spec(self, rhs: I48) -> I48 {
        I48(self.0 | rhs.0)
    }
}

impl core::ops::BitXor<I48> for I48 {
    type Output = I48;

    fn bitxor(self, other: Self) -> (r: Self)
        ensures
            r@ == self@ ^ other@,
    {
        I48(self.0 ^ other.0)
    }
}

impl BitXorSpecImpl<I48> for I48 {
    open spec fn obeys_bitxor_spec() -> bool {
        false
    }

    open spec fn bitxor_req(self, rhs: I48) -> bool {
        true
    }

    closed spec fn bitxor_spec(self, rhs: I48) -> I48 {
        I48(self.0 ^ rhs.0)
    }
}

/// Inverts every bit of the container, including those that hold no sample data.
impl core::ops::Not for I48 {
    type Output = I48;

    fn not(self) -> (r: Self)
        ensures
            r@ == !self@,
    {
        I48(!self.0)
    }
}

impl NotSpecImpl for I48 {
    open spec fn obeys_not_spec() -> bool {
        false
    }

    open spec fn not_req(self) -> bool {
        true
    }

    closed spec fn not_spec(self) -> I48 {
        I48(!self.0)
    }
}

/// Negates the stored value.
impl core::ops::Neg for I48 {
    type Output = I48;

    fn neg(self) -> (r: Self)
        ensures
            r@ == -self@,
    {
        I48(-self.0)
    }
}

impl NegSpecImpl for I48 {
    open spec fn obeys_neg_spec() -> bool {
        false
    }

    open spec fn neg_req(self) -> bool {
        self@ != i64::MIN
    }

    closed spec fn neg_spec(self) -> I48 {
        I48((-self.0) as i64)
    }
}

impl From<i8> for I48 {
    fn from(other: i8) -> (r: Self)
        ensures
            r@ == other,
    {
        I48(other as i64)
    }
}

impl FromSpecImpl<i8> for I48 {
    open spec fn obeys_from_spec() -> bool {
        false
    }

    closed spec fn from_spec(other: i8) -> I48 {
        I48(other as i64)
    }
}

impl From<i16> for I48 {
    fn from(other: i16) -> (r: Self)
        ensures
            r@ == other,
    {
        I48(other as i64)
    }
}

impl FromSpecImpl<i16> for I48 {
    open spec fn obeys_from_spec() -> bool {
        false
    }

    closed spec fn from_spec(other: i16) -> I48 {
        I48(other as i64)
    }
}

impl From<I20> for I48 {
    fn from(other: I20) -> (r: Self)
        ensures
            r@ == other@,
    {
        I48(other.inner() as i64)
    }
}

impl FromSpecImpl<I20> for I48 {
    open spec fn obeys_from_spec() -> bool {
        false
    }

    closed spec fn from_spec(other: I20) -> I48 {
        I48(other@ as i64)
    }
}

impl From<I24> for I48 {
    fn from(other: I24) -> (r: Self)
        ensures
            r@ == other@,
    {
        I48(other.inner() as i64)
    }
}

impl FromSpecImpl<I24> for I48 {
    open spec fn obeys_from_spec() -> bool {
        false
    }

    closed spec fn from_spec(other: I24) -> I48 {
        I48(other@ as i64)
    }
}

impl From<I24LE3> for I48 {
    fn from(other: I24LE3) -> (r: Self)
        ensures
            r@ == other@,
    {
        I48(other.inner() as i64)
    }
}

impl FromSpecImpl<I24LE3> for I48 {
    open spec fn obeys_from_spec() -> bool {
        false
    }

    closed spec fn from_spec(other: I24LE3) -> I48 {
        I48(other@ as i64)
    }
}

impl From<I24BE3> for I48 {
    fn from(other: I24BE3) -> (r: Self)
        ensures
            r@ == other@,
    {
        I48(other.inner() as i64)
    }
}

impl FromSpecImpl<I24BE3> for I48 {
    open spec fn obeys_from_spec() -> bool {
        false
    }

    closed spec fn from_spec(other: I24BE3) -> I48 {
        I48(other@ as i64)
    }
}

impl From<i32> for I48 {
    fn from(other: i32) -> (r: Self)
        ensures
            r@ == other,
    {
        I48(other as i64)
    }
}

impl FromSpecImpl<i32> for I48 {
    open spec fn obeys_from_spec() -> bool {
        false
    }

    closed spec fn from_spec(other: i32) -> I48 {
        I48(other as i64)
    }
}

impl From<u8> for I48 {
    fn from(other: u8) -> (r: Self)
        ensures
            r@ == other,
    {
        I48(other as i64)
    }
}

impl FromSpecImpl<u8> for I48 {
    open spec fn obeys_from_spec() -> bool {
        false
    }

    closed spec fn from_spec(other: u8) -> I48 {
        I48(other as i64)
    }
}

impl From<u16> for I48 {
    fn from(other: u16) -> (r: Self)
        ensures
            r@ == other,
    {
        I48(other as i64)
    }
}

impl FromSpecImpl<u16> for I48 {
    open spec fn obeys_from_spec() -> bool {
        false
    }

    closed spec fn from_spec(other: u16) -> I48 {
        I48(other as i64)
    }
}

impl From<U20> for I48 {
    fn from(other: U20) -> (r: Self)
        ensures
            r@ == other@,
    {
        I48(other.inner() as i64)
    }
}

impl FromSpecImpl<U20> for I48 {
    open spec fn obeys_from_spec() -> bool {
        false
    }

    closed spec fn from_spec(other: U20) -> I48 {
        I48(other@ as i64)
    }
}

impl From<U24> for I48 {
    fn from(other: U24) -> (r: Self)
        ensures
            r@ == other@,
    {
        I48(other.inner() as i64)
    }
}

impl FromSpecImpl<U24> for I48 {
    open spec fn obeys_from_spec() -> bool {
        false
    }

    closed spec fn from_spec(other: U24) -> I48 {
        I48(other@ as i64)
    }
}

impl From<U24LE3> for I48 {
    fn from(other: U24LE3) -> (r: Self)
        ensures
            r@ == other@,
    {
        I48(other.inner() as i64)
    }
}

impl FromSpecImpl<U24LE3> for I48 {
    open spec fn obeys_from_spec() -> bool {
        false
    }

    closed spec fn from_spec(other: U24LE3) -> I48 {
        I48(other@ as i64)
    }
}

impl From<U24BE3> for I48 {
    fn from(other: U24BE3) -> (r: Self)
        ensures
            r@ == other@,
    {
        I48(other.inner() as i64)
    }
}

impl FromSpecImpl<U24BE3> for I48 {
    open spec fn obeys_from_spec() -> bool {
        false
    }

    closed spec fn from_spec(other: U24BE3) -> I48 {
        I48(other@ as i64)
    }
}

impl From<u32> for I48 {
    fn from(other: u32) -> (r: Self)
        ensures
            r@ == other,
    {
        I48(other as i64)
    }
}

impl FromSpecImpl<u32> for I48 {
    open spec fn obeys_from_spec() -> bool {
        false
    }

    closed spec fn from_spec(other: u32) -> I48 {
        I48(other as i64)
    }
}

} // verus!
