//! The `I11` sample type.

use vstd::prelude::*;
use vstd::std_specs::convert::FromSpecImpl;
use vstd::std_specs::ops::{
    AddSpecImpl, BitAndSpecImpl, BitOrSpecImpl, BitXorSpecImpl, DivSpecImpl, MulSpecImpl,
    NegSpecImpl, NotSpecImpl, RemSpecImpl, ShlSpecImpl, ShrSpecImpl, SubSpecImpl,
};

verus! {

const MIN_REP: i16 = -1024;

const MAX_REP: i16 = 1023;

const TOTAL: i16 = 2048;

/// Reduces `v` modulo 2048 into the valid range `-1024..=1023`.
pub open spec fn wrap(v: int) -> int {
    (v + 1024) % 2048 - 1024
}

/// Brings `v` back into range by adding or subtracting 2048 at most once.
pub open spec fn wrap_once(v: int) -> int {
    if v > 1023 {
        v - 2048
    } else if v < -1024 {
        v + 2048
    } else {
        v
    }
}

/// The smallest valid `I11`.
pub fn min() -> (r: I11)
    ensures
        r@ == -1024,
{
    I11(MIN_REP)
}

/// The largest valid `I11`.
pub fn max() -> (r: I11)
    ensures
        r@ == 1023,
{
    I11(MAX_REP)
}

/// The `I11` at the centre of the range: silence.
pub fn equilibrium() -> (r: I11)
    ensures
        r@ == 0,
{
    I11(0)
}

/// An 11-bit signed sample, stored in an `i16`.
///
/// The valid range is `-1024..=1023` with equilibrium at `0`. The container
/// can also hold a value outside that range, through `new_unchecked`.
#[derive(Copy, Clone, Debug, PartialEq, Eq, Ord, Structural, Default)]
pub struct I11(i16);

impl View for I11 {
    type V = i16;

    closed spec fn view(&self) -> i16 {
        self.0
    }
}

impl I11 {
    /// Whether the stored value lies within the valid range.
    pub open spec fn is_valid(self) -> bool {
        -1024 <= self@ <= 1023
    }

    /// Two samples are equal exactly when their stored values are.
    pub proof fn lemma_view_injective(self, other: Self)
        ensures
            self@ == other@ <==> self == other,
    {
    }

    /// The sample holding `v`, truncated to the container.
    pub closed spec fn new_unchecked_spec(v: int) -> Self {
        I11(v as i16)
    }

    /// Construct a new sample if the given value is within range.
    ///
    /// Returns `None` if `val` is out of range.
    pub fn new(val: i16) -> (r: Option<Self>)
        ensures
            r is Some <==> -1024 <= val <= 1023,
            r matches Some(s) ==> s@ == val,
    {
        if val > MAX_REP || val < MIN_REP {
            None
        } else {
            Some(I11(val))
        }
    }

    /// Constructs a new sample without checking the range: `s` is stored as given.
    pub fn new_unchecked(s: i16) -> (r: Self)
        ensures
            r@ == s,
    {
        I11(s)
    }

    /// Return the internal value used to represent the sample type.
    pub fn inner(self) -> (r: i16)
        ensures
            r == self@,
    {
        self.0
    }

    /// Wraps self once in the case that self has overflowed.
    fn wrap_overflow_once(self) -> (r: Self)
        ensures
            r@ == wrap_once(self@ as int),
    {
        if self.0 > MAX_REP {
            I11(self.0 - TOTAL)
        } else if self.0 < MIN_REP {
            I11(self.0 + TOTAL)
        } else {
            self
        }
    }

    /// Wraps self in the case that self has overflowed.
    fn wrap_overflow(self) -> (r: Self)
        ensures
            r@ == wrap(self@ as int),
    {
        let mut v = self.0;
        let ghost mut k: int = 0;
        while v > MAX_REP
            invariant
                v == self.0 - k * TOTAL,
                v >= MIN_REP || v == self.0,
            decreases v - MIN_REP,
        {
            v -= TOTAL;
            proof {
                k = k + 1;
            }
        }
        while v < MIN_REP
            invariant
                v == self.0 - k * TOTAL,
                v <= MAX_REP,
            decreases MAX_REP - v,
        {
            v += TOTAL;
            proof {
                k = k - 1;
            }
        }
        proof {
            vstd::arithmetic::div_mod::lemma_fundamental_div_mod_converse(
                self.0 - MIN_REP,
                TOTAL as int,
                k,
                v - MIN_REP,
            );
        }
        I11(v)
    }
}

/// Wraps the value into range, as many times as it takes.
impl From<i16> for I11 {
    fn from(other: i16) -> (r: Self)
        ensures
            r@ == wrap(other as int),
    {
        I11(other).wrap_overflow()
    }
}

impl FromSpecImpl<i16> for I11 {
    open spec fn obeys_from_spec() -> bool {
        false
    }

    closed spec fn from_spec(other: i16) -> I11 {
        I11(wrap(other as int) as i16)
    }
}

/// Adds the containers and wraps an overflow once, as a release build does.
impl core::ops::Add<I11> for I11 {
    type Output = I11;

    fn add(self, other: Self) -> (r: Self)
        ensures
            r@ == wrap_once(self@ + other@),
    {
        I11(self.0 + other.0).wrap_overflow_once()
    }
}

impl AddSpecImpl<I11> for I11 {
    open spec fn obeys_add_spec() -> bool {
        false
    }

    open spec fn add_req(self, rhs: I11) -> bool {
        i16::MIN <= self@ + rhs@ <= i16::MAX
    }

    closed spec fn add_spec(self, rhs: I11) -> I11 {
        I11(wrap_once(self.0 + rhs.0) as i16)
    }
}

/// Subtracts the containers and wraps an overflow once, as a release build does.
impl core::ops::Sub<I11> for I11 {
    type Output = I11;

    fn sub(self, other: Self) -> (r: Self)
        ensures
            r@ == wrap_once(self@ - other@),
    {
        I11(self.0 - other.0).wrap_overflow_once()
    }
}

impl SubSpecImpl<I11> for I11 {
    open spec fn obeys_sub_spec() -> bool {
        false
    }

    open spec fn sub_req(self, rhs: I11) -> bool {
        i16::MIN <= self@ - rhs@ <= i16::MAX
    }

    closed spec fn sub_spec(self, rhs: I11) -> I11 {
        I11(wrap_once(self.0 - rhs.0) as i16)
    }
}

/// Multiplies the containers and wraps the product into range, as a release build does.
impl core::ops::Mul<I11> for I11 {
    type Output = I11;

    fn mul(self, other: Self) -> (r: Self)
        ensures
            r@ == wrap(self@ * other@),
    {
        I11::from(self.0 * other.0)
    }
}

impl MulSpecImpl<I11> for I11 {
    open spec fn obeys_mul_spec() -> bool {
        false
    }

    open spec fn mul_req(self, rhs: I11) -> bool {
        i16::MIN <= self@ * rhs@ <= i16::MAX
    }

    closed spec fn mul_spec(self, rhs: I11) -> I11 {
        I11(wrap(self.0 * rhs.0) as i16)
    }
}

/// Truncating division of the containers, unchecked against the sample range.
impl core::ops::Div<I11> for I11 {
    type Output = I11;

    fn div(self, other: Self) -> (r: Self)
        ensures
            r@ == vstd::std_specs::ops::DivSpec::div_spec(self@, other@),
    {
        I11(self.0 / other.0)
    }
}

impl DivSpecImpl<I11> for I11 {
    open spec fn obeys_div_spec() -> bool {
        false
    }

    open spec fn div_req(self, rhs: I11) -> bool {
        rhs@ != 0 && !(self@ == i16::MIN && rhs@ == -1)
    }

    closed spec fn div_spec(self, rhs: I11) -> I11 {
        I11(vstd::std_specs::ops::DivSpec::div_spec(self.0, rhs.0))
    }
}

/// Truncating remainder of the containers, unchecked against the sample range.
impl core::ops::Rem<I11> for I11 {
    type Output = I11;

    fn rem(self, other: Self) -> (r: Self)
        ensures
            r@ == vstd::std_specs::ops::RemSpec::rem_spec(self@, other@),
    {
        I11(self.0 % other.0)
    }
}

impl RemSpecImpl<I11> for I11 {
    open spec fn obeys_rem_spec() -> bool {
        false
    }

    open spec fn rem_req(self, rhs: I11) -> bool {
        rhs@ != 0 && !(self@ == i16::MIN && rhs@ == -1)
    }

    closed spec fn rem_spec(self, rhs: I11) -> I11 {
        I11(vstd::std_specs::ops::RemSpec::rem_spec(self.0, rhs.0))
    }
}

/// Shifts the container left.
impl core::ops::Shl<I11> for I11 {
    type Output = I11;

    fn shl(self, other: Self) -> (r: Self)
        ensures
            r@ == self@ << other@,
    {
        I11(self.0 << other.0)
    }
}

impl ShlSpecImpl<I11> for I11 {
    open spec fn obeys_shl_spec() -> bool {
        false
    }

    open spec fn shl_req(self, rhs: I11) -> bool {
        0 <= rhs@ < 16
    }

    closed spec fn shl_spec(self, rhs: I11) -> I11 {
        I11(self.0 << rhs.0)
    }
}

/// Shifts the container right, extending its sign.
impl core::ops::Shr<I11> for I11 {
    type Output = I11;

    fn shr(self, other: Self) -> (r: Self)
        ensures
            r@ == self@ >> other@,
    {
        I11(self.0 >> other.0)
    }
}

impl ShrSpecImpl<I11> for I11 {
    open spec fn obeys_shr_spec() -> bool {
        false
    }

    open spec fn shr_req(self, rhs: I11) -> bool {
        0 <= rhs@ < 16
    }

    closed spec fn shr_spec(self, rhs: I11) -> I11 {
        I11(self.0 >> rhs.0)
    }
}

impl core::ops::BitAnd<I11> for I11 {
    type Output = I11;

    fn bitand(self, other: Self) -> (r: Self)
        ensures
            r@ == self@ & other@,
    {
        I11(self.0 & other.0)
    }
}

impl BitAndSpecImpl<I11> for I11 {
    open spec fn obeys_bitand_spec() -> bool {
        false
    }

    open spec fn bitand_req(self, rhs: I11) -> bool {
        true
    }

    closed spec fn bitand_spec(self, rhs: I11) -> I11 {
        I11(self.0 & rhs.0)
    }
}

impl core::ops::BitOr<I11> for I11 {
    type Output = I11;

    fn bitor(self, other: Self) -> (r: Self)
        ensures
            r@ == self@ | other@,
    {
        I11(self.0 | other.0)
    }
}

impl BitOrSpecImpl<I11> for I11 {
    open spec fn obeys_bitor_spec() -> bool {
        false
    }

    open spec fn bitor_req(self, rhs: I11) -> bool {
        true
    }

    closed spec fn bitor_spec(self, rhs: I11) -> I11 {
        I11(self.0 | rhs.0)
    }
}

impl core::ops::BitXor<I11> for I11 {
    type Output = I11;

    fn bitxor(self, other: Self) -> (r: Self)
        ensures
            r@ == self@ ^ other@,
    {
        I11(self.0 ^ other.0)
    }
}

impl BitXorSpecImpl<I11> for I11 {
    open spec fn obeys_bitxor_spec() -> bool {
        false
    }

    open spec fn bitxor_req(self, rhs: I11) -> bool {
        true
    }

    closed spec fn bitxor_spec(self, rhs: I11) -> I11 {
        I11(self.0 ^ rhs.0)
    }
}

/// Inverts every bit of the container, including those that hold no sample data.
impl core::ops::Not for I11 {
    type Output = I11;

    fn not(self) -> (r: Self)
        ensures
            r@ == !self@,
    {
        I11(!self.0)
    }
}

impl NotSpecImpl for I11 {
    open spec fn obeys_not_spec() -> bool {
        false
    }

    open spec fn not_req(self) -> bool {
        true
    }

    closed spec fn not_spec(self) -> I11 {
        I11(!self.0)
    }
}

/// Negates the stored value.
impl core::ops::Neg for I11 {
    type Output = I11;

    fn neg(self) -> (r: Self)
        ensures
            r@ == -self@,
    {
        I11(-self.0)
    }
}

impl NegSpecImpl for I11 {
    open spec fn obeys_neg_spec() -> bool {
        false
    }

    open spec fn neg_req(self) -> bool {
        self@ != i16::MIN
    }

    closed spec fn neg_spec(self) -> I11 {
        I11((-self.0) as i16)
    }
}

impl From<i8> for I11 {
    fn from(other: i8) -> (r: Self)
        ensures
            r@ == other,
    {
        I11(other as i16)
    }
}

impl FromSpecImpl<i8> for I11 {
    open spec fn obeys_from_spec() -> bool {
        false
    }

    closed spec fn from_spec(other: i8) -> I11 {
        I11(other as i16)
    }
}

impl From<u8> for I11 {
    fn from(other: u8) -> (r: Self)
        ensures
            r@ == other,
    {
        I11(other as i16)
    }
}

impl FromSpecImpl<u8> for I11 {
    open spec fn obeys_from_spec() -> bool {
        false
    }

    closed spec fn from_spec(other: u8) -> I11 {
        I11(other as i16)
    }
}

} // verus!
