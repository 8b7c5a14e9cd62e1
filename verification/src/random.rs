//! Random values from the ring oscillator's random bit: an integer is made
//! of as many random bits as it has, the first bit read being the most
//! significant one.
use vstd::prelude::*;
use vstd::arithmetic::power2::{lemma2_to64, lemma_pow2_strictly_increases, lemma_pow2_unfold, pow2};

verus! {

/// The width in bits of an integer type.
pub trait Bits {
    const BITS: u32;
}

impl Bits for u8 {
    const BITS: u32 = 8;
}

impl Bits for u16 {
    const BITS: u32 = 16;
}

impl Bits for u32 {
    const BITS: u32 = 32;
}

impl Bits for u64 {
    const BITS: u32 = 64;
}

impl Bits for i8 {
    const BITS: u32 = 8;
}

impl Bits for i16 {
    const BITS: u32 = 16;
}

impl Bits for i32 {
    const BITS: u32 = 32;
}

impl Bits for i64 {
    const BITS: u32 = 64;
}

/// The widths of the integer types: as many bits as the type has.
pub proof fn lemma_bit_widths()
    ensures
        <u8 as Bits>::BITS == 8,
        <u16 as Bits>::BITS == 16,
        <u32 as Bits>::BITS == 32,
        <u64 as Bits>::BITS == 64,
        <i8 as Bits>::BITS == 8,
        <i16 as Bits>::BITS == 16,
        <i32 as Bits>::BITS == 32,
        <i64 as Bits>::BITS == 64,
{
}

/// The number that `bits` write in base two, the first bit being the most
/// significant one.
pub open spec fn bits_value(bits: Seq<bool>) -> nat
    decreases bits.len(),
{
    if bits.len() == 0 {
        0
    } else {
        2 * bits_value(bits.drop_last()) + if bits.last() { 1nat } else { 0nat }
    }
}

/// `n` bits write a number below `2^n`.
pub proof fn lemma_bits_value_bound(bits: Seq<bool>)
    ensures
        bits_value(bits) < pow2(bits.len()),
    decreases bits.len(),
{
    if bits.len() > 0 {
        lemma_bits_value_bound(bits.drop_last());
        lemma_pow2_unfold(bits.len());
    } else {
        lemma2_to64();
    }
}

/// An unsigned value made of as many bits as it has is exactly the number
/// those bits write: nothing is cut off.
pub proof fn lemma_unsigned_from_bits_exact(bits: Seq<bool>)
    ensures
        bits.len() == 8 ==> <u8 as Random>::value_of_bits(bits) as nat == bits_value(bits),
        bits.len() == 16 ==> <u16 as Random>::value_of_bits(bits) as nat == bits_value(bits),
        bits.len() == 32 ==> <u32 as Random>::value_of_bits(bits) as nat == bits_value(bits),
        bits.len() == 64 ==> <u64 as Random>::value_of_bits(bits) as nat == bits_value(bits),
{
    lemma_bits_value_bound(bits);
    lemma2_to64();
    vstd::arithmetic::power2::lemma2_to64_rest();
}

/// `rp_pac::ROSC.randombit().read().randombit()`: one bit of the ring
/// oscillator's random output. Nothing is stated of it: it is chance.
#[verifier::external_body]
fn random_bit() -> bool {
    rp_pac::ROSC.randombit().read().randombit()
}

/// The number that up to 64 bits write, most significant bit first.
pub fn bits_to_u64(bits: &[bool]) -> (r: u64)
    requires
        bits@.len() <= 64,
    ensures
        r == bits_value(bits@),
{
    let mut acc: u64 = 0;
    let mut i: usize = 0;
    while i < bits.len()
        invariant
            i <= bits@.len() <= 64,
            acc == bits_value(bits@.take(i as int)),
        decreases bits@.len() - i,
    {
        proof {
            lemma_bits_value_bound(bits@.take(i as int));
            lemma2_to64();
            lemma_pow2_unfold(64);
            if i < 63 {
                lemma_pow2_strictly_increases(i as nat, 63);
            }
            assert(bits@.take(i + 1).drop_last() =~= bits@.take(i as int));
        }
        acc = acc * 2 + if bits[i] { 1 } else { 0 };
        i = i + 1;
    }
    assert(bits@.take(bits@.len() as int) =~= bits@);
    acc
}

/// Reads `n` random bits.
fn random_bits(n: u32) -> (r: Vec<bool>)
    ensures
        r@.len() == n,
{
    let mut bits: Vec<bool> = Vec::new();
    let mut i: u32 = 0;
    while i < n
        invariant
            i <= n,
            bits@.len() == i,
        decreases n - i,
    {
        bits.push(random_bit());
        i = i + 1;
    }
    bits
}

/// A type whose values can be drawn at random, bit by bit.
pub trait Random: Bits + Sized {
    /// The value that the given bits write.
    spec fn value_of_bits(bits: Seq<bool>) -> Self;

    /// The value that `Self::BITS` bits write, most significant bit first.
    fn from_bits(bits: &[bool]) -> (r: Self)
        requires
            bits@.len() == Self::BITS,
        ensures
            r == Self::value_of_bits(bits@),
    ;

    /// A random value: `Self::BITS` random bits. Nothing is stated of which.
    fn random() -> Self;
}

impl Random for u8 {
    open spec fn value_of_bits(bits: Seq<bool>) -> u8 {
        bits_value(bits) as u8
    }

    fn from_bits(bits: &[bool]) -> (r: u8) {
        bits_to_u64(bits) as u8
    }

    fn random() -> u8 {
        let bits = random_bits(<u8 as Bits>::BITS);
        Self::from_bits(bits.as_slice())
    }
}

impl Random for u16 {
    open spec fn value_of_bits(bits: Seq<bool>) -> u16 {
        bits_value(bits) as u16
    }

    fn from_bits(bits: &[bool]) -> (r: u16) {
        bits_to_u64(bits) as u16
    }

    fn random() -> u16 {
        let bits = random_bits(<u16 as Bits>::BITS);
        Self::from_bits(bits.as_slice())
    }
}

impl Random for u32 {
    open spec fn value_of_bits(bits: Seq<bool>) -> u32 {
        bits_value(bits) as u32
    }

    fn from_bits(bits: &[bool]) -> (r: u32) {
        bits_to_u64(bits) as u32
    }

    fn random() -> u32 {
        let bits = random_bits(<u32 as Bits>::BITS);
        Self::from_bits(bits.as_slice())
    }
}

impl Random for u64 {
    open spec fn value_of_bits(bits: Seq<bool>) -> u64 {
        bits_value(bits) as u64
    }

    fn from_bits(bits: &[bool]) -> (r: u64) {
        bits_to_u64(bits)
    }

    fn random() -> u64 {
        let bits = random_bits(<u64 as Bits>::BITS);
        Self::from_bits(bits.as_slice())
    }
}

impl Random for i8 {
    open spec fn value_of_bits(bits: Seq<bool>) -> i8 {
        (bits_value(bits) as u8) as i8
    }

    fn from_bits(bits: &[bool]) -> (r: i8) {
        (bits_to_u64(bits) as u8) as i8
    }

    fn random() -> i8 {
        let bits = random_bits(<i8 as Bits>::BITS);
        Self::from_bits(bits.as_slice())
    }
}

impl Random for i16 {
    open spec fn value_of_bits(bits: Seq<bool>) -> i16 {
        (bits_value(bits) as u16) as i16
    }

    fn from_bits(bits: &[bool]) -> (r: i16) {
        (bits_to_u64(bits) as u16) as i16
    }

    fn random() -> i16 {
        let bits = random_bits(<i16 as Bits>::BITS);
        Self::from_bits(bits.as_slice())
    }
}

impl Random for i32 {
    open spec fn value_of_bits(bits: Seq<bool>) -> i32 {
        (bits_value(bits) as u32) as i32
    }

    fn from_bits(bits: &[bool]) -> (r: i32) {
        (bits_to_u64(bits) as u32) as i32
    }

    fn random() -> i32 {
        let bits = random_bits(<i32 as Bits>::BITS);
        Self::from_bits(bits.as_slice())
    }
}

impl Random for i64 {
    open spec fn value_of_bits(bits: Seq<bool>) -> i64 {
        bits_value(bits) as i64
    }

    fn from_bits(bits: &[bool]) -> (r: i64) {
        bits_to_u64(bits) as i64
    }

    fn random() -> i64 {
        let bits = random_bits(<i64 as Bits>::BITS);
        Self::from_bits(bits.as_slice())
    }
}

/// A random value of type `T`.
pub fn random<T: Random>() -> T {
    T::random()
}

/// `Some` of what `map_fn` makes when `bit` is set, and `None` (without
/// calling `map_fn`) when it is not.
pub fn option_when<T, F: FnOnce() -> T>(bit: bool, map_fn: F) -> (r: Option<T>)
    requires
        call_requires(map_fn, ()),
    ensures
        bit ==> (r matches Some(v) && call_ensures(map_fn, (), v)),
        !bit ==> r is None,
{
    if bit {
        Some(map_fn())
    } else {
        None
    }
}

/// `Some` of what `map_fn` makes, or `None`, as a random bit decides: the
/// bit is drawn once and handed to `option_when`. Which way it falls is
/// chance and is not stated.
pub fn random_option<T, F: FnOnce() -> T>(map_fn: F) -> (r: Option<T>)
    requires
        call_requires(map_fn, ()),
    ensures
        r matches Some(v) ==> call_ensures(map_fn, (), v),
{
    option_when(random_bit(), map_fn)
}

} // verus!
