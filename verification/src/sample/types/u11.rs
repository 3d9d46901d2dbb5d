//! The `U11` sample type.

use vstd::prelude::*;
use vstd::std_specs::convert::FromSpecImpl;
use vstd::std_specs::ops::{
    AddSpecImpl, BitAndSpecImpl, BitOrSpecImpl, BitXorSpecImpl, DivSpecImpl, MulSpecImpl,
    NegSpecImpl, NotSpecImpl, RemSpecImpl, ShlSpecImpl, ShrSpecImpl, SubSpecImpl,
};

verus! {

const MIN_REP: i16 = 0;

const MAX_REP: i16 = 2047;

const TOTAL: i16 = 2048;

/// Reduces `v` modulo 2048 into the valid range `0..=2047`.
pub open spec fn wrap(v: int) -> int {
    v % 2048
}

/// Brings `v` back into range by adding or subtracting 2048 at most once.
pub open spec fn wrap_once(v: int) -> int {
    if v > 2047 {
        v - 2048
    } else if v < 0 {
        v + 2048
    } else {
        v
    }
}

/// The smallest valid `U11`.
pub fn min() -> (r: U11)
    ensures
        r@ == 0,
{
    U11(MIN_REP)
}

/// The largest valid `U11`.
pub fn max() -> (r: U11)
    ensures
        r@ == 2047,
{
    U11(MAX_REP)
}

/// The `U11` at the centre of the range: silence.
pub fn equilibrium() -> (r: U11)
    ensures
        r@ == 1024,
{
    U11(1024)
}

/// An 11-bit unsigned sample, stored in an `i16`.
///
/// The valid range is `0..=2047` with equilibrium at `1024`. The container
/// can also hold a value outside that range, through `new_unchecked`.
#[derive(Copy, Clone, Debug, PartialEq, Eq, Ord, Structural, Default)]
pub struct U11(i16);

impl View for U11 {
    type V = i16;

    closed spec fn view(&self) -> i16 {
        self.0
    }
}

impl U11 {
    /// Whether the stored value lies within the valid range.
    pub open spec fn is_valid(self) -> bool {
        0 <= self@ <= 2047
    }

    /// Two samples are equal exactly when their stored values are.
    pub proof fn lemma_view_injective(self, other: Self)
        ensures
            self@ == other@ <==> self == other,
    {
    }

    /// The sample holding `v`, truncated to the container.
    pub closed spec fn new_unchecked_spec(v: int) -> Self {
        U11(v as i16)
    }

    /// Construct a new sample if the given value is within range.
    ///
    /// Returns `None` if `val` is out of range.
    pub fn new(val: i16) -> (r: Option<Self>)
        ensures
            r is Some <==> 0 <= val <= 2047,
            r matches Some(s) ==> s@ == val,
    {
        if val > MAX_REP || val < MIN_REP {
            None
        } else {
            Some(U11(val))
        }
    }

    /// Constructs a new sample without checking the range: `s` is stored as given.
    pub fn new_unchecked(s: i16) -> (r: Self)
        ensures
            r@ == s,
    {
        U11(s)
    }

    /// Return the internal value used to represent the sample type.
    pub fn inner(self) -> (r: i16)
        ensures
            r == self@,
    {
        self.0
    }

    /// Wraps self once in the case that self has overflowed.
    fn wrap_overflow_once(self) -> (r: Self)
        ensures
            r@ == wrap_once(self@ as int),
    {
        if self.0 > MAX_REP {
            U11(self.0 - TOTAL)
        } else if self.0 < MIN_REP {
            U11(self.0 + TOTAL)
        } else {
            self
        }
    }

    /// Wraps self in the case that self has overflowed.
    fn wrap_overflow(self) -> (r: Self)
        ensures
            r@ == wrap(self@ as int),
    {
        let mut v = self.0;
        let ghost mut k: int = 0;
        while v > MAX_REP
            invariant
                v == self.0 - k * TOTAL,
                v >= MIN_REP || v == self.0,
            decreases v - MIN_REP,
        {
            v -= TOTAL;
            proof {
                k = k + 1;
            }
        }
        while v < MIN_REP
            invariant
                v == self.0 - k * TOTAL,
                v <= MAX_REP,
            decreases MAX_REP - v,
        {
            v += TOTAL;
            proof {
                k = k - 1;
            }
        }
        proof {
            vstd::arithmetic::div_mod::lemma_fundamental_div_mod_converse(
                self.0 - MIN_REP,
                TOTAL as int,
                k,
                v - MIN_REP,
            );
        }
        U11(v)
    }
}

/// Wraps the value into range, as many times as it takes.
impl From<i16> for U11 {
    fn from(other: i16) -> (r: Self)
        ensures
            r@ == wrap(other as int),
    {
        U11(other).wrap_overflow()
    }
}

impl FromSpecImpl<i16> for U11 {
    open spec fn obeys_from_spec() -> bool {
        false
    }

    closed spec fn from_spec(other: i16) -> U11 {
        U11(wrap(other as int) as i16)
    }
}

/// Adds the containers and wraps an overflow once, as a release build does.
impl core::ops::Add<U11> for U11 {
    type Output = U11;

    fn add(self, other: Self) -> (r: Self)
        ensures
            r@ == wrap_once(self@ + other@),
    {
        U11(self.0 + other.0).wrap_overflow_once()
    }
}

impl AddSpecImpl<U11> for U11 {
    open spec fn obeys_add_spec() -> bool {
        false
    }

    open spec fn add_req(self, rhs: U11) -> bool {
        i16::MIN <= self@ + rhs@ <= i16::MAX
    }

    closed spec fn add_spec(self, rhs: U11) -> U11 {
        U11(wrap_once(self.0 + rhs.0) as i16)
    }
}

/// Subtracts the containers and wraps an overflow once, as a release build does.
impl core::ops::Sub<U11> for U11 {
    type Output = U11;

    fn sub(self, other: Self) -> (r: Self)
        ensures
            r@ == wrap_once(self@ - other@),
    {
        U11(self.0 - other.0).wrap_overflow_once()
    }
}

impl SubSpecImpl<U11> for U11 {
    open spec fn obeys_sub_spec() -> bool {
        false
    }

    open spec fn sub_req(self, rhs: U11) -> bool {
        i16::MIN <= self@ - rhs@ <= i16::MAX
    }

    closed spec fn sub_spec(self, rhs: U11) -> U11 {
        U11(wrap_once(self.0 - rhs.0) as i16)
    }
}

/// Multiplies the containers and wraps the product into range, as a release build does.
impl core::ops::Mul<U11> for U11 {
    type Output = U11;

    fn mul(self, other: Self) -> (r: Self)
        ensures
            r@ == wrap(self@ * other@),
    {
        U11::from(self.0 * other.0)
    }
}

impl MulSpecImpl<U11> for U11 {
    open spec fn obeys_mul_spec() -> bool {
        false
    }

    open spec fn mul_req(self, rhs: U11) -> bool {
        i16::MIN <= self@ * rhs@ <= i16::MAX
    }

    closed spec fn mul_spec(self, rhs: U11) -> U11 {
        U11(wrap(self.0 * rhs.0) as i16)
    }
}

/// Truncating division of the containers, unchecked against the sample range.
impl core::ops::Div<U11> for U11 {
    type Output = U11;

    fn div(self, other: Self) -> (r: Self)
        ensures
            r@ == vstd::std_specs::ops::DivSpec::div_spec(self@, other@),
    {
        U11(self.0 / other.0)
    }
}

impl DivSpecImpl<U11> for U11 {
    open spec fn obeys_div_spec() -> bool {
        false
    }

    open spec fn div_req(self, rhs: U11) -> bool {
        rhs@ != 0 && !(self@ == i16::MIN && rhs@ == -1)
    }

    closed spec fn div_spec(self, rhs: U11) -> U11 {
        U11(vstd::std_specs::ops::DivSpec::div_spec(self.0, rhs.0))
    }
}

/// Truncating remainder of the containers, unchecked against the sample range.
impl core::ops::Rem<U11> for U11 {
    type Output = U11;

    fn rem(self, other: Self) -> (r: Self)
        ensures
            r@ == vstd::std_specs::ops::RemSpec::rem_spec(self@, other@),
    {
        U11(self.0 % other.0)
    }
}

impl RemSpecImpl<U11> for U11 {
    open spec fn obeys_rem_spec() -> bool {
        false
    }

    open spec fn rem_req(self, rhs: U11) -> bool {
        rhs@ != 0 && !(self@ == i16::MIN && rhs@ == -1)
    }

    closed spec fn rem_spec(self, rhs: U11) -> U11 {
        U11(vstd::std_specs::ops::RemSpec::rem_spec(self.0, rhs.0))
    }
}

/// Shifts the container left.
impl core::ops::Shl<U11> for U11 {
    type Output = U11;

    fn shl(self, other: Self) -> (r: Self)
        ensures
            r@ == self@ << other@,
    {
        U11(self.0 << other.0)
    }
}

impl ShlSpecImpl<U11> for U11 {
    open spec fn obeys_shl_spec() -> bool {
        false
    }

    open spec fn shl_req(self, rhs: U11) -> bool {
        0 <= rhs@ < 16
    }

    closed spec fn shl_spec(self, rhs: U11) -> U11 {
        U11(self.0 << rhs.0)
    }
}

/// Shifts the container right, extending its sign.
impl core::ops::Shr<U11> for U11 {
    type Output = U11;

    fn shr(self, other: Self) -> (r: Self)
        ensures
            r@ == self@ >> other@,
    {
        U11(self.0 >> other.0)
    }
}

impl ShrSpecImpl<U11> for U11 {
    open spec fn obeys_shr_spec() -> bool {
        false
    }

    open spec fn shr_req(self, rhs: U11) -> bool {
        0 <= rhs@ < 16
    }

    closed spec fn shr_spec(self, rhs: U11) -> U11 {
        U11(self.0 >> rhs.0)
    }
}

impl core::ops::BitAnd<U11> for U11 {
    type Output = U11;

    fn bitand(self, other: Self) -> (r: Self)
        ensures
            r@ == self@ & other@,
    {
        U11(self.0 & other.0)
    }
}

impl BitAndSpecImpl<U11> for U11 {
    open spec fn obeys_bitand_spec() -> bool {
        false
    }

    open spec fn bitand_req(self, rhs: U11) -> bool {
        true
    }

    closed spec fn bitand_spec(self, rhs: U11) -> U11 {
        U11(self.0 & rhs.0)
    }
}

impl core::ops::BitOr<U11> for U11 {
    type Output = U11;

    fn bitor(self, other: Self) -> (r: Self)
        ensures
            r@ == self@ | other@,
    {
        U11(self.0 | other.0)
    }
}

impl BitOrSpecImpl<U11> for U11 {
    open spec fn obeys_bitor_spec() -> bool {
        false
    }

    open spec fn bitor_req(self, rhs: U11) -> bool {
        true
    }

    closed spec fn bitor_spec(self, rhs: U11) -> U11 {
        U11(self.0 | rhs.0)
    }
}

impl core::ops::BitXor<U11> for U11 {
    type Output = U11;

    fn bitxor(self, other: Self) -> (r: Self)
        ensures
            r@ == self@ ^ other@,
    {
        U11(self.0 ^ other.0)
    }
}

impl BitXorSpecImpl<U11> for U11 {
    open spec fn obeys_bitxor_spec() -> bool {
        false
    }

    open spec fn bitxor_req(self, rhs: U11) -> bool {
        true
    }

    closed spec fn bitxor_spec(self, rhs: U11) -> U11 {
        U11(self.0 ^ rhs.0)
    }
}

/// Inverts every bit of the container, including those that hold no sample data.
impl core::ops::Not for U11 {
    type Output = U11;

    fn not(self) -> (r: Self)
        ensures
            r@ == !self@,
    {
        U11(!self.0)
    }
}

impl NotSpecImpl for U11 {
    open spec fn obeys_not_spec() -> bool {
        false
    }

    open spec fn not_req(self) -> bool {
        true
    }

    closed spec fn not_spec(self) -> U11 {
        U11(!self.0)
    }
}

/// Negates the stored value.
impl core::ops::Neg for U11 {
    type Output = U11;

    fn neg(self) -> (r: Self)
        ensures
            r@ == -self@,
    {
        U11(-self.0)
    }
}

impl NegSpecImpl for U11 {
    open spec fn obeys_neg_spec() -> bool {
        false
    }

    open spec fn neg_req(self) -> bool {
        self@ != i16::MIN
    }

    closed spec fn neg_spec(self) -> U11 {
        U11((-self.0) as i16)
    }
}

impl From<u8> for U11 {
    fn from(other: u8) -> (r: Self)
        ensures
            r@ == other,
    {
        U11(other as i16)
    }
}

impl FromSpecImpl<u8> for U11 {
    open spec fn obeys_from_spec() -> bool {
        false
    }

    closed spec fn from_spec(other: u8) -> U11 {
        U11(other as i16)
    }
}

} // verus!
