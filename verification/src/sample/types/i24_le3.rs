//! The `I24LE3` sample type: a 24-bit signed sample packed into three little-endian bytes.

use vstd::prelude::*;
use vstd::std_specs::convert::FromSpecImpl;
use vstd::std_specs::ops::{AddSpecImpl, DivSpecImpl, MulSpecImpl, NegSpecImpl, RemSpecImpl, SubSpecImpl};
use super::{I20, I24, U20};

verus! {

const MIN_VALUE: i32 = -8_388_608;

const MAX_VALUE: i32 = 8_388_607;

/// The three bytes read as an unsigned little-endian number.
pub open spec fn bytes_value(b: [u8; 3]) -> int {
    b[0] as int + 256 * b[1] as int + 65_536 * b[2] as int
}

/// Reduces `v` modulo 2^24 into the range `-8_388_608..=8_388_607`.
pub open spec fn wrap(v: int) -> int {
    (v + 8_388_608) % 16_777_216 - 8_388_608
}

/// The smallest `I24LE3`.
pub fn min() -> (r: I24LE3)
    ensures
        r@ == -8_388_608,
{
    I24LE3::new_unchecked(MIN_VALUE)
}

/// The largest `I24LE3`.
pub fn max() -> (r: I24LE3)
    ensures
        r@ == 8_388_607,
{
    I24LE3::new_unchecked(MAX_VALUE)
}

/// The `I24LE3` at the centre of the range: silence.
pub fn equilibrium() -> (r: I24LE3)
    ensures
        r@ == 0,
{
    I24LE3::new_unchecked(0)
}

/// A 24-bit sample packed into exactly three little-endian bytes.
///
/// Valid range `-8_388_608..=8_388_607`, with equilibrium at `0`. Known to ALSA as `S24_3LE`.
///
/// The value is held as its high, middle and low bytes, declared in that order so that the
/// derived `Ord` compares numerically. Every one of the 2^24 byte patterns is a valid value,
/// and the type is three bytes wide with an alignment of one.
#[derive(Copy, Clone, Debug, PartialEq, Eq, Ord, Structural, Default)]
pub struct I24LE3 {
    hi: i8,
    mid: u8,
    lo: u8,
}

impl View for I24LE3 {
    type V = int;

    closed spec fn view(&self) -> int {
        65_536 * self.hi as int + 256 * self.mid as int + self.lo as int
    }
}

impl I24LE3 {
    /// Every value lies in the 24-bit range.
    pub proof fn lemma_range(self)
        ensures
            -8_388_608 <= self@ <= 8_388_607,
    {
    }

    /// Two samples are equal exactly when their values are.
    pub proof fn lemma_view_injective(self, other: Self)
        ensures
            self@ == other@ <==> self == other,
    {
    }

    /// Construct a sample from its three packed bytes, read as little-endian. Every byte
    /// triple is a valid sample, so this cannot fail.
    pub fn from_bytes(bytes: [u8; 3]) -> (r: Self)
        ensures
            r@ == wrap(bytes_value(bytes)),
    {
        let top = bytes[2];
        let hi: i8 = if top < 128 {
            top as i8
        } else {
            (top as i16 - 256) as i8
        };
        I24LE3 { hi, mid: bytes[1], lo: bytes[0] }
    }

    /// The three packed bytes representing the sample, in little-endian order.
    pub fn to_bytes(self) -> (r: [u8; 3])
        ensures
            bytes_value(r) == self@ % 16_777_216,
    {
        let top: u8 = if self.hi < 0 {
            (self.hi as i16 + 256) as u8
        } else {
            self.hi as u8
        };
        [self.lo, self.mid, top]
    }

    /// The sample whose value is `wrap(v)`.
    pub closed spec fn new_unchecked_spec(v: int) -> Self {
        choose|s: Self| s@ == wrap(v)
    }

    /// Construct a new sample if the given value is within range.
    ///
    /// Returns `None` if `val` is out of range.
    pub fn new(val: i32) -> (r: Option<Self>)
        ensures
            r is Some <==> -8_388_608 <= val <= 8_388_607,
            r matches Some(s) ==> s@ == val,
    {
        if MIN_VALUE <= val && val <= MAX_VALUE {
            Some(I24LE3::new_unchecked(val))
        } else {
            None
        }
    }

    /// Constructs a new sample without checking the range. There is no spare byte to hold an
    /// out-of-range value, so `val` wraps modulo 2^24.
    pub fn new_unchecked(val: i32) -> (r: Self)
        ensures
            r@ == wrap(val as int),
    {
        proof {
            super::lemma_split_signed(val);
        }
        I24LE3 { hi: (val >> 16) as i8, mid: (val >> 8) as u8, lo: val as u8 }
    }

    /// The value represented by the sample, unpacked into an `i32`.
    pub fn inner(self) -> (r: i32)
        ensures
            r == self@,
    {
        65_536 * (self.hi as i32) + 256 * (self.mid as i32) + (self.lo as i32)
    }
}

/// A value within the range is stored exactly.
pub proof fn lemma_wrap_in_range(v: int)
    requires
        -8_388_608 <= v <= 8_388_607,
    ensures
        wrap(v) == v,
{
}

/// Reading back the bytes that `to_bytes` produced gives the same sample.
pub proof fn lemma_bytes_round_trip(x: I24LE3, b: [u8; 3], y: I24LE3)
    requires
        bytes_value(b) == x@ % 16_777_216,
        y@ == wrap(bytes_value(b)),
    ensures
        y == x,
{
    x.lemma_range();
    super::lemma_mod_wrap_signed(x@);
    x.lemma_view_injective(y);
}

/// Every byte pattern survives a round trip: the sample read from `b` packs back into `b`.
#[verifier::rlimit(30)]
pub proof fn lemma_pattern_round_trip(b: [u8; 3], y: I24LE3, c: [u8; 3])
    requires
        y@ == wrap(bytes_value(b)),
        bytes_value(c) == y@ % 16_777_216,
    ensures
        c == b,
{
    assert(bytes_value(c) == bytes_value(b));
    let q = (b[1] - c[1]) + 256 * (b[2] - c[2]);
    assert(c[0] - b[0] == 256 * q);
    assert(c[0] == b[0]);
    assert(c[1] - b[1] == 256 * (b[2] - c[2]));
    assert(c[1] == b[1] && c[2] == b[2]);
    assert(c@ =~= b@);
}

/// Packs the value of an `I24`, wrapping it modulo 2^24.
impl From<I24> for I24LE3 {
    fn from(other: I24) -> (r: Self)
        ensures
            r@ == wrap(other@ as int),
    {
        I24LE3::new_unchecked(other.inner())
    }
}

impl FromSpecImpl<I24> for I24LE3 {
    open spec fn obeys_from_spec() -> bool {
        false
    }

    closed spec fn from_spec(other: I24) -> I24LE3 {
        I24LE3::new_unchecked_spec(other@ as int)
    }
}

/// Unpacks the value into its padded equivalent.
impl From<I24LE3> for I24 {
    fn from(other: I24LE3) -> (r: Self)
        ensures
            r@ == other@,
    {
        I24::new_unchecked(other.inner())
    }
}

impl FromSpecImpl<I24LE3> for I24 {
    open spec fn obeys_from_spec() -> bool {
        false
    }

    closed spec fn from_spec(other: I24LE3) -> I24 {
        I24::new_unchecked_spec(other@ as int)
    }
}

impl From<i8> for I24LE3 {
    fn from(other: i8) -> (r: Self)
        ensures
            r@ == wrap(other as int),
    {
        I24LE3::new_unchecked(other as i32)
    }
}

impl FromSpecImpl<i8> for I24LE3 {
    open spec fn obeys_from_spec() -> bool {
        false
    }

    closed spec fn from_spec(other: i8) -> I24LE3 {
        I24LE3::new_unchecked_spec(other as int)
    }
}

impl From<i16> for I24LE3 {
    fn from(other: i16) -> (r: Self)
        ensures
            r@ == wrap(other as int),
    {
        I24LE3::new_unchecked(other as i32)
    }
}

impl FromSpecImpl<i16> for I24LE3 {
    open spec fn obeys_from_spec() -> bool {
        false
    }

    closed spec fn from_spec(other: i16) -> I24LE3 {
        I24LE3::new_unchecked_spec(other as int)
    }
}

impl From<I20> for I24LE3 {
    fn from(other: I20) -> (r: Self)
        ensures
            r@ == wrap(other@ as int),
    {
        I24LE3::new_unchecked(other.inner())
    }
}

impl FromSpecImpl<I20> for I24LE3 {
    open spec fn obeys_from_spec() -> bool {
        false
    }

    closed spec fn from_spec(other: I20) -> I24LE3 {
        I24LE3::new_unchecked_spec(other@ as int)
    }
}

impl From<i32> for I24LE3 {
    fn from(other: i32) -> (r: Self)
        ensures
            r@ == wrap(other as int),
    {
        I24LE3::new_unchecked(other as i32)
    }
}

impl FromSpecImpl<i32> for I24LE3 {
    open spec fn obeys_from_spec() -> bool {
        false
    }

    closed spec fn from_spec(other: i32) -> I24LE3 {
        I24LE3::new_unchecked_spec(other as int)
    }
}

impl From<u8> for I24LE3 {
    fn from(other: u8) -> (r: Self)
        ensures
            r@ == wrap(other as int),
    {
        I24LE3::new_unchecked(other as i32)
    }
}

impl FromSpecImpl<u8> for I24LE3 {
    open spec fn obeys_from_spec() -> bool {
        false
    }

    closed spec fn from_spec(other: u8) -> I24LE3 {
        I24LE3::new_unchecked_spec(other as int)
    }
}

impl From<u16> for I24LE3 {
    fn from(other: u16) -> (r: Self)
        ensures
            r@ == wrap(other as int),
    {
        I24LE3::new_unchecked(other as i32)
    }
}

impl FromSpecImpl<u16> for I24LE3 {
    open spec fn obeys_from_spec() -> bool {
        false
    }

    closed spec fn from_spec(other: u16) -> I24LE3 {
        I24LE3::new_unchecked_spec(other as int)
    }
}

impl From<U20> for I24LE3 {
    fn from(other: U20) -> (r: Self)
        ensures
            r@ == wrap(other@ as int),
    {
        I24LE3::new_unchecked(other.inner())
    }
}

impl FromSpecImpl<U20> for I24LE3 {
    open spec fn obeys_from_spec() -> bool {
        false
    }

    closed spec fn from_spec(other: U20) -> I24LE3 {
        I24LE3::new_unchecked_spec(other@ as int)
    }
}

/// Adds the values; the sum wraps modulo 2^24, as a release build does.
impl core::ops::Add<I24LE3> for I24LE3 {
    type Output = I24LE3;

    fn add(self, other: Self) -> (r: Self)
        ensures
            r@ == wrap(self@ + other@),
    {
        let sum = self.inner() + other.inner();
        I24LE3::new_unchecked(sum)
    }
}

impl AddSpecImpl<I24LE3> for I24LE3 {
    open spec fn obeys_add_spec() -> bool {
        false
    }

    open spec fn add_req(self, rhs: I24LE3) -> bool {
        true
    }

    closed spec fn add_spec(self, rhs: I24LE3) -> I24LE3 {
        I24LE3::new_unchecked_spec(self@ + rhs@)
    }
}

/// Subtracts the values; the difference wraps modulo 2^24, as a release build does.
impl core::ops::Sub<I24LE3> for I24LE3 {
    type Output = I24LE3;

    fn sub(self, other: Self) -> (r: Self)
        ensures
            r@ == wrap(self@ - other@),
    {
        let difference = self.inner() - other.inner();
        I24LE3::new_unchecked(difference)
    }
}

impl SubSpecImpl<I24LE3> for I24LE3 {
    open spec fn obeys_sub_spec() -> bool {
        false
    }

    open spec fn sub_req(self, rhs: I24LE3) -> bool {
        true
    }

    closed spec fn sub_spec(self, rhs: I24LE3) -> I24LE3 {
        I24LE3::new_unchecked_spec(self@ - rhs@)
    }
}

/// Multiplies the values in an `i32`; the product wraps modulo 2^24, as a release build does.
impl core::ops::Mul<I24LE3> for I24LE3 {
    type Output = I24LE3;

    fn mul(self, other: Self) -> (r: Self)
        ensures
            r@ == wrap(self@ * other@),
    {
        let product = self.inner() * other.inner();
        I24LE3::new_unchecked(product)
    }
}

impl MulSpecImpl<I24LE3> for I24LE3 {
    open spec fn obeys_mul_spec() -> bool {
        false
    }

    open spec fn mul_req(self, rhs: I24LE3) -> bool {
        i32::MIN <= self@ * rhs@ <= i32::MAX
    }

    closed spec fn mul_spec(self, rhs: I24LE3) -> I24LE3 {
        I24LE3::new_unchecked_spec(self@ * rhs@)
    }
}

/// Truncating division of the values.
impl core::ops::Div<I24LE3> for I24LE3 {
    type Output = I24LE3;

    fn div(self, other: Self) -> (r: Self)
        ensures
            r@ == wrap(vstd::std_specs::ops::DivSpec::div_spec(self@ as i32, other@ as i32) as int),
    {
        I24LE3::new_unchecked(self.inner() / other.inner())
    }
}

impl DivSpecImpl<I24LE3> for I24LE3 {
    open spec fn obeys_div_spec() -> bool {
        false
    }

    open spec fn div_req(self, rhs: I24LE3) -> bool {
        rhs@ != 0
    }

    closed spec fn div_spec(self, rhs: I24LE3) -> I24LE3 {
        I24LE3::new_unchecked_spec(vstd::std_specs::ops::DivSpec::div_spec(self@ as i32, rhs@ as i32) as int)
    }
}

/// Truncating remainder of the values.
impl core::ops::Rem<I24LE3> for I24LE3 {
    type Output = I24LE3;

    fn rem(self, other: Self) -> (r: Self)
        ensures
            r@ == wrap(vstd::std_specs::ops::RemSpec::rem_spec(self@ as i32, other@ as i32) as int),
    {
        I24LE3::new_unchecked(self.inner() % other.inner())
    }
}

impl RemSpecImpl<I24LE3> for I24LE3 {
    open spec fn obeys_rem_spec() -> bool {
        false
    }

    open spec fn rem_req(self, rhs: I24LE3) -> bool {
        rhs@ != 0
    }

    closed spec fn rem_spec(self, rhs: I24LE3) -> I24LE3 {
        I24LE3::new_unchecked_spec(vstd::std_specs::ops::RemSpec::rem_spec(self@ as i32, rhs@ as i32) as int)
    }
}

/// Negation wraps for `MIN`, which has no positive counterpart in 24 bits.
impl core::ops::Neg for I24LE3 {
    type Output = I24LE3;

    fn neg(self) -> (r: Self)
        ensures
            r@ == wrap(-self@),
    {
        I24LE3::new_unchecked(-self.inner())
    }
}

impl NegSpecImpl for I24LE3 {
    open spec fn obeys_neg_spec() -> bool {
        false
    }

    open spec fn neg_req(self) -> bool {
        true
    }

    closed spec fn neg_spec(self) -> I24LE3 {
        I24LE3::new_unchecked_spec(-self@)
    }
}

} // verus!
