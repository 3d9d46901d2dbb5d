//! The `U24LE3` sample type: a 24-bit unsigned sample packed into three little-endian bytes.

use vstd::prelude::*;
use vstd::std_specs::convert::FromSpecImpl;
use vstd::std_specs::ops::{AddSpecImpl, DivSpecImpl, MulSpecImpl, RemSpecImpl, SubSpecImpl};
use super::{U20, U24};

verus! {

const MIN_VALUE: i32 = 0;

const MAX_VALUE: i32 = 16_777_215;

/// The three bytes read as an unsigned little-endian number.
pub open spec fn bytes_value(b: [u8; 3]) -> int {
    b[0] as int + 256 * b[1] as int + 65_536 * b[2] as int
}

/// Reduces `v` modulo 2^24 into the range `0..=16_777_215`.
pub open spec fn wrap(v: int) -> int {
    v % 16_777_216
}

/// The smallest `U24LE3`.
pub fn min() -> (r: U24LE3)
    ensures
        r@ == 0,
{
    U24LE3::new_unchecked(MIN_VALUE)
}

/// The largest `U24LE3`.
pub fn max() -> (r: U24LE3)
    ensures
        r@ == 16_777_215,
{
    U24LE3::new_unchecked(MAX_VALUE)
}

/// The `U24LE3` at the centre of the range: silence.
pub fn equilibrium() -> (r: U24LE3)
    ensures
        r@ == 8_388_608,
{
    U24LE3::new_unchecked(8_388_608)
}

/// A 24-bit sample packed into exactly three little-endian bytes.
///
/// Valid range `0..=16_777_215`, with equilibrium at `8_388_608`. Known to ALSA as `U24_3LE`.
///
/// The value is held as its high, middle and low bytes, declared in that order so that the
/// derived `Ord` compares numerically. Every one of the 2^24 byte patterns is a valid value,
/// and the type is three bytes wide with an alignment of one.
#[derive(Copy, Clone, Debug, PartialEq, Eq, Ord, Structural, Default)]
pub struct U24LE3 {
    hi: u8,
    mid: u8,
    lo: u8,
}

impl View for U24LE3 {
    type V = int;

    closed spec fn view(&self) -> int {
        65_536 * self.hi as int + 256 * self.mid as int + self.lo as int
    }
}

impl U24LE3 {
    /// Every value lies in the 24-bit range.
    pub proof fn lemma_range(self)
        ensures
            0 <= self@ <= 16_777_215,
    {
    }

    /// Two samples are equal exactly when their values are.
    pub proof fn lemma_view_injective(self, other: Self)
        ensures
            self@ == other@ <==> self == other,
    {
    }

    /// Construct a sample from its three packed bytes, read as little-endian. Every byte
    /// triple is a valid sample, so this cannot fail.
    pub fn from_bytes(bytes: [u8; 3]) -> (r: Self)
        ensures
            r@ == wrap(bytes_value(bytes)),
    {
        let hi: u8 = bytes[2];
        U24LE3 { hi, mid: bytes[1], lo: bytes[0] }
    }

    /// The three packed bytes representing the sample, in little-endian order.
    pub fn to_bytes(self) -> (r: [u8; 3])
        ensures
            bytes_value(r) == self@ % 16_777_216,
    {
        let top: u8 = self.hi;
        [self.lo, self.mid, top]
    }

    /// The sample whose value is `wrap(v)`.
    pub closed spec fn new_unchecked_spec(v: int) -> Self {
        choose|s: Self| s@ == wrap(v)
    }

    /// Construct a new sample if the given value is within range.
    ///
    /// Returns `None` if `val` is out of range.
    pub fn new(val: i32) -> (r: Option<Self>)
        ensures
            r is Some <==> 0 <= val <= 16_777_215,
            r matches Some(s) ==> s@ == val,
    {
        if MIN_VALUE <= val && val <= MAX_VALUE {
            Some(U24LE3::new_unchecked(val))
        } else {
            None
        }
    }

    /// Constructs a new sample without checking the range. There is no spare byte to hold an
    /// out-of-range value, so `val` wraps modulo 2^24.
    pub fn new_unchecked(val: i32) -> (r: Self)
        ensures
            r@ == wrap(val as int),
    {
        proof {
            super::lemma_split_unsigned(val);
        }
        U24LE3 { hi: (val >> 16) as u8, mid: (val >> 8) as u8, lo: val as u8 }
    }

    /// The value represented by the sample, unpacked into an `i32`.
    pub fn inner(self) -> (r: i32)
        ensures
            r == self@,
    {
        65_536 * (self.hi as i32) + 256 * (self.mid as i32) + (self.lo as i32)
    }
}

/// A value within the range is stored exactly.
pub proof fn lemma_wrap_in_range(v: int)
    requires
        0 <= v <= 16_777_215,
    ensures
        wrap(v) == v,
{
}

/// Reading back the bytes that `to_bytes` produced gives the same sample.
pub proof fn lemma_bytes_round_trip(x: U24LE3, b: [u8; 3], y: U24LE3)
    requires
        bytes_value(b) == x@ % 16_777_216,
        y@ == wrap(bytes_value(b)),
    ensures
        y == x,
{
    x.lemma_range();
    super::lemma_mod_wrap_unsigned(x@);
    x.lemma_view_injective(y);
}

/// Every byte pattern survives a round trip: the sample read from `b` packs back into `b`.
#[verifier::rlimit(30)]
pub proof fn lemma_pattern_round_trip(b: [u8; 3], y: U24LE3, c: [u8; 3])
    requires
        y@ == wrap(bytes_value(b)),
        bytes_value(c) == y@ % 16_777_216,
    ensures
        c == b,
{
    assert(bytes_value(c) == bytes_value(b));
    let q = (b[1] - c[1]) + 256 * (b[2] - c[2]);
    assert(c[0] - b[0] == 256 * q);
    assert(c[0] == b[0]);
    assert(c[1] - b[1] == 256 * (b[2] - c[2]));
    assert(c[1] == b[1] && c[2] == b[2]);
    assert(c@ =~= b@);
}

/// Packs the value of an `U24`, wrapping it modulo 2^24.
impl From<U24> for U24LE3 {
    fn from(other: U24) -> (r: Self)
        ensures
            r@ == wrap(other@ as int),
    {
        U24LE3::new_unchecked(other.inner())
    }
}

impl FromSpecImpl<U24> for U24LE3 {
    open spec fn obeys_from_spec() -> bool {
        false
    }

    closed spec fn from_spec(other: U24) -> U24LE3 {
        U24LE3::new_unchecked_spec(other@ as int)
    }
}

/// Unpacks the value into its padded equivalent.
impl From<U24LE3> for U24 {
    fn from(other: U24LE3) -> (r: Self)
        ensures
            r@ == other@,
    {
        U24::new_unchecked(other.inner())
    }
}

impl FromSpecImpl<U24LE3> for U24 {
    open spec fn obeys_from_spec() -> bool {
        false
    }

    closed spec fn from_spec(other: U24LE3) -> U24 {
        U24::new_unchecked_spec(other@ as int)
    }
}

impl From<i32> for U24LE3 {
    fn from(other: i32) -> (r: Self)
        ensures
            r@ == wrap(other as int),
    {
        U24LE3::new_unchecked(other as i32)
    }
}

impl FromSpecImpl<i32> for U24LE3 {
    open spec fn obeys_from_spec() -> bool {
        false
    }

    closed spec fn from_spec(other: i32) -> U24LE3 {
        U24LE3::new_unchecked_spec(other as int)
    }
}

impl From<u8> for U24LE3 {
    fn from(other: u8) -> (r: Self)
        ensures
            r@ == wrap(other as int),
    {
        U24LE3::new_unchecked(other as i32)
    }
}

impl FromSpecImpl<u8> for U24LE3 {
    open spec fn obeys_from_spec() -> bool {
        false
    }

    closed spec fn from_spec(other: u8) -> U24LE3 {
        U24LE3::new_unchecked_spec(other as int)
    }
}

impl From<u16> for U24LE3 {
    fn from(other: u16) -> (r: Self)
        ensures
            r@ == wrap(other as int),
    {
        U24LE3::new_unchecked(other as i32)
    }
}

impl FromSpecImpl<u16> for U24LE3 {
    open spec fn obeys_from_spec() -> bool {
        false
    }

    closed spec fn from_spec(other: u16) -> U24LE3 {
        U24LE3::new_unchecked_spec(other as int)
    }
}

impl From<U20> for U24LE3 {
    fn from(other: U20) -> (r: Self)
        ensures
            r@ == wrap(other@ as int),
    {
        U24LE3::new_unchecked(other.inner())
    }
}

impl FromSpecImpl<U20> for U24LE3 {
    open spec fn obeys_from_spec() -> bool {
        false
    }

    closed spec fn from_spec(other: U20) -> U24LE3 {
        U24LE3::new_unchecked_spec(other@ as int)
    }
}

/// Adds the values; the sum wraps modulo 2^24, as a release build does.
impl core::ops::Add<U24LE3> for U24LE3 {
    type Output = U24LE3;

    fn add(self, other: Self) -> (r: Self)
        ensures
            r@ == wrap(self@ + other@),
    {
        let sum = self.inner() + other.inner();
        U24LE3::new_unchecked(sum)
    }
}

impl AddSpecImpl<U24LE3> for U24LE3 {
    open spec fn obeys_add_spec() -> bool {
        false
    }

    open spec fn add_req(self, rhs: U24LE3) -> bool {
        true
    }

    closed spec fn add_spec(self, rhs: U24LE3) -> U24LE3 {
        U24LE3::new_unchecked_spec(self@ + rhs@)
    }
}

/// Subtracts the values; the difference wraps modulo 2^24, as a release build does.
impl core::ops::Sub<U24LE3> for U24LE3 {
    type Output = U24LE3;

    fn sub(self, other: Self) -> (r: Self)
        ensures
            r@ == wrap(self@ - other@),
    {
        let difference = self.inner() - other.inner();
        U24LE3::new_unchecked(difference)
    }
}

impl SubSpecImpl<U24LE3> for U24LE3 {
    open spec fn obeys_sub_spec() -> bool {
        false
    }

    open spec fn sub_req(self, rhs: U24LE3) -> bool {
        true
    }

    closed spec fn sub_spec(self, rhs: U24LE3) -> U24LE3 {
        U24LE3::new_unchecked_spec(self@ - rhs@)
    }
}

/// Multiplies the values in an `i32`; the product wraps modulo 2^24, as a release build does.
impl core::ops::Mul<U24LE3> for U24LE3 {
    type Output = U24LE3;

    fn mul(self, other: Self) -> (r: Self)
        ensures
            r@ == wrap(self@ * other@),
    {
        let product = self.inner() * other.inner();
        U24LE3::new_unchecked(product)
    }
}

impl MulSpecImpl<U24LE3> for U24LE3 {
    open spec fn obeys_mul_spec() -> bool {
        false
    }

    open spec fn mul_req(self, rhs: U24LE3) -> bool {
        i32::MIN <= self@ * rhs@ <= i32::MAX
    }

    closed spec fn mul_spec(self, rhs: U24LE3) -> U24LE3 {
        U24LE3::new_unchecked_spec(self@ * rhs@)
    }
}

/// Truncating division of the values.
impl core::ops::Div<U24LE3> for U24LE3 {
    type Output = U24LE3;

    fn div(self, other: Self) -> (r: Self)
        ensures
            r@ == wrap(vstd::std_specs::ops::DivSpec::div_spec(self@ as i32, other@ as i32) as int),
    {
        U24LE3::new_unchecked(self.inner() / other.inner())
    }
}

impl DivSpecImpl<U24LE3> for U24LE3 {
    open spec fn obeys_div_spec() -> bool {
        false
    }

    open spec fn div_req(self, rhs: U24LE3) -> bool {
        rhs@ != 0
    }

    closed spec fn div_spec(self, rhs: U24LE3) -> U24LE3 {
        U24LE3::new_unchecked_spec(vstd::std_specs::ops::DivSpec::div_spec(self@ as i32, rhs@ as i32) as int)
    }
}

/// Truncating remainder of the values.
impl core::ops::Rem<U24LE3> for U24LE3 {
    type Output = U24LE3;

    fn rem(self, other: Self) -> (r: Self)
        ensures
            r@ == wrap(vstd::std_specs::ops::RemSpec::rem_spec(self@ as i32, other@ as i32) as int),
    {
        U24LE3::new_unchecked(self.inner() % other.inner())
    }
}

impl RemSpecImpl<U24LE3> for U24LE3 {
    open spec fn obeys_rem_spec() -> bool {
        false
    }

    open spec fn rem_req(self, rhs: U24LE3) -> bool {
        rhs@ != 0
    }

    closed spec fn rem_spec(self, rhs: U24LE3) -> U24LE3 {
        U24LE3::new_unchecked_spec(vstd::std_specs::ops::RemSpec::rem_spec(self@ as i32, rhs@ as i32) as int)
    }
}

} // verus!
