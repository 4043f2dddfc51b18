//! Width-tagged unsigned numbers.
//!
//! A [`Size`] is one of four byte counts, 1, 2, 4 or 8, written in two bits as
//! the exponent of a power of two. A [`Data`] is a value tagged with its size.
//! Outside the machine a number is a run of bytes, least significant first.

use vstd::prelude::*;
use vstd::std_specs::convert::{FromSpecImpl, TryFromSpecImpl};

verus! {

pub const BYTE: u8 = 1;
pub const WORD: u8 = 2;
pub const DUAL: u8 = 4;
pub const QUAD: u8 = 8;

/// 256 to the power `count`, for the byte counts that fit a machine word.
pub open spec fn radix(count: nat) -> nat {
    if count == 0 {
        1
    } else if count == 1 {
        0x100
    } else if count == 2 {
        0x1_0000
    } else if count == 3 {
        0x100_0000
    } else if count == 4 {
        0x1_0000_0000
    } else if count == 5 {
        0x100_0000_0000
    } else if count == 6 {
        0x1_0000_0000_0000
    } else if count == 7 {
        0x100_0000_0000_0000
    } else {
        0x1_0000_0000_0000_0000
    }
}

/// The `count` low bytes of `value`, least significant first.
pub open spec fn le_bytes(value: nat, count: nat) -> Seq<u8>
    decreases count,
{
    if count == 0 {
        Seq::empty()
    } else {
        seq![(value % 256) as u8] + le_bytes(value / 256, (count - 1) as nat)
    }
}

/// The number that `bytes` spell, least significant first.
pub open spec fn le_value(bytes: Seq<u8>) -> nat
    decreases bytes.len(),
{
    if bytes.len() == 0 {
        0
    } else {
        bytes[0] as nat + 256 * le_value(bytes.skip(1))
    }
}

/// Width of a number.
#[derive(Debug, Clone, Copy, PartialEq, Eq, Structural)]
pub enum Size {
    Byte,
    Word,
    Dual,
    Quad,
}

/// The kind of a number: its width.
pub type Type = Size;

impl Default for Size {
    fn default() -> (size: Size)
        ensures
            size == Size::Byte,
    {
        Size::Byte
    }
}

/// A byte count that is none of 1, 2, 4, 8, or an exponent above 3.
#[derive(Debug, Clone, Copy, PartialEq, Eq, Structural)]
pub struct RangeError {}

impl Size {
    /// The exponent `e` with `2^e` bytes.
    pub open spec fn spec_exponent(self) -> u8 {
        match self {
            Size::Byte => 0,
            Size::Word => 1,
            Size::Dual => 2,
            Size::Quad => 3,
        }
    }

    /// The number of bytes.
    pub open spec fn spec_size(self) -> u8 {
        match self {
            Size::Byte => 1,
            Size::Word => 2,
            Size::Dual => 4,
            Size::Quad => 8,
        }
    }

    /// The size whose exponent is the low two bits of `bits`.
    pub open spec fn with_exponent(bits: u8) -> Size {
        if bits % 4 == 0 {
            Size::Byte
        } else if bits % 4 == 1 {
            Size::Word
        } else if bits % 4 == 2 {
            Size::Dual
        } else {
            Size::Quad
        }
    }

    /// One more than the largest value of this width.
    pub open spec fn modulus(self) -> nat {
        radix(self.spec_size() as nat)
    }

    #[verifier::when_used_as_spec(spec_exponent)]
    pub fn exponent(self) -> (e: u8)
        ensures
            e == self.spec_exponent(),
            e <= 3,
    {
        match self {
            Size::Byte => 0,
            Size::Word => 1,
            Size::Dual => 2,
            Size::Quad => 3,
        }
    }

    #[verifier::when_used_as_spec(spec_size)]
    pub fn size(self) -> (count: u8)
        ensures
            count == self.spec_size(),
    {
        match self {
            Size::Byte => BYTE,
            Size::Word => WORD,
            Size::Dual => DUAL,
            Size::Quad => QUAD,
        }
    }

    /// The size whose exponent is the low two bits of `bits`: what a two-bit
    /// field of an encoded byte stands for.
    pub fn from_exponent_bits(bits: u8) -> (size: Size)
        ensures
            size == Size::with_exponent(bits),
            size.spec_exponent() == bits % 4,
    {
        let low: u8 = bits % 4;
        if low == 0 {
            Size::Byte
        } else if low == 1 {
            Size::Word
        } else if low == 2 {
            Size::Dual
        } else {
            Size::Quad
        }
    }

    /// The size with the given exponent; an error above 3.
    pub fn from_exponent(exponent: u8) -> (size: Result<Size, RangeError>)
        ensures
            exponent <= 3 ==> size == Ok::<Size, RangeError>(Size::with_exponent(exponent))
                && size.unwrap().spec_exponent() == exponent,
            exponent > 3 ==> size.is_err(),
    {
        match exponent {
            0 => Ok(Size::Byte),
            1 => Ok(Size::Word),
            2 => Ok(Size::Dual),
            3 => Ok(Size::Quad),
            _ => Err(RangeError {}),
        }
    }

    /// The size with the given number of bytes; an error unless it is 1, 2, 4
    /// or 8.
    pub fn from_size(bytes: u8) -> (size: Result<Size, RangeError>)
        ensures
            bytes == 1 || bytes == 2 || bytes == 4 || bytes == 8 <==> size.is_ok(),
            size.is_ok() ==> size.unwrap().spec_size() == bytes,
    {
        match bytes {
            1 => Ok(Size::Byte),
            2 => Ok(Size::Word),
            4 => Ok(Size::Dual),
            8 => Ok(Size::Quad),
            _ => Err(RangeError {}),
        }
    }
}

/// A number together with its width.
#[derive(Debug, Clone, Copy, PartialEq, Eq, Structural)]
pub enum Data {
    Byte(u8),
    Word(u16),
    Dual(u32),
    Quad(u64),
}

impl Data {
    /// The width of the number.
    pub open spec fn spec_size(self) -> Size {
        match self {
            Data::Byte(_) => Size::Byte,
            Data::Word(_) => Size::Word,
            Data::Dual(_) => Size::Dual,
            Data::Quad(_) => Size::Quad,
        }
    }

    /// The number, without its width.
    pub open spec fn spec_value(self) -> u64 {
        match self {
            Data::Byte(value) => value as u64,
            Data::Word(value) => value as u64,
            Data::Dual(value) => value as u64,
            Data::Quad(value) => value,
        }
    }

    /// The number of width `size` with the value `value`, which is below
    /// the width's modulus.
    pub open spec fn assembled(size: Size, value: nat) -> Data {
        match size {
            Size::Byte => Data::Byte(value as u8),
            Size::Word => Data::Word(value as u16),
            Size::Dual => Data::Dual(value as u32),
            Size::Quad => Data::Quad(value as u64),
        }
    }

    /// What the number looks like outside the machine.
    pub open spec fn spec_le_bytes(self) -> Seq<u8> {
        le_bytes(self.spec_value() as nat, self.spec_size().spec_size() as nat)
    }

    #[verifier::when_used_as_spec(spec_size)]
    pub fn size(self) -> (size: Size)
        ensures
            size == self.spec_size(),
    {
        match self {
            Data::Byte(_) => Size::Byte,
            Data::Word(_) => Size::Word,
            Data::Dual(_) => Size::Dual,
            Data::Quad(_) => Size::Quad,
        }
    }

    /// The exponent of the number's width.
    pub fn exponent(self) -> (e: u8)
        ensures
            e == self.spec_size().spec_exponent(),
            e <= 3,
    {
        self.size().exponent()
    }

    #[verifier::when_used_as_spec(spec_value)]
    pub fn value(self) -> (value: u64)
        ensures
            value == self.spec_value(),
            value < self.spec_size().modulus(),
    {
        match self {
            Data::Byte(value) => value as u64,
            Data::Word(value) => value as u64,
            Data::Dual(value) => value as u64,
            Data::Quad(value) => value,
        }
    }

    /// The number of width `size` that keeps the low bytes of `value`.
    pub fn truncate(size: Size, value: u64) -> (data: Data)
        ensures
            data == Data::assembled(size, value as nat % size.modulus()),
            data.spec_size() == size,
            data.spec_value() == value as nat % size.modulus(),
    {
        match size {
            Size::Byte => Data::Byte((value % 0x100) as u8),
            Size::Word => Data::Word((value % 0x1_0000) as u16),
            Size::Dual => Data::Dual((value % 0x1_0000_0000) as u32),
            Size::Quad => {
                assert(value as nat % 0x1_0000_0000_0000_0000 == value);
                Data::Quad(value)
            },
        }
    }

    /// The bytes of the number, least significant first.
    pub fn to_le_bytes(self) -> (bytes: Vec<u8>)
        ensures
            bytes@ == self.spec_le_bytes(),
            bytes@.len() == self.spec_size().spec_size(),
    {
        let count: u8 = self.size().size();
        let mut bytes: Vec<u8> = Vec::new();
        let mut rest: u64 = self.value();
        let mut done: u8 = 0;
        proof {
            lemma_le_bytes_len(self.spec_value() as nat, count as nat);
        }
        while done < count
            invariant
                done <= count <= 8,
                bytes@.len() == done,
                bytes@ + le_bytes(rest as nat, (count - done) as nat) == le_bytes(
                    self.spec_value() as nat,
                    count as nat,
                ),
            decreases count - done,
        {
            proof {
                assert(le_bytes(rest as nat, (count - done) as nat) == seq![(rest % 256) as u8]
                    + le_bytes(rest as nat / 256, (count - done - 1) as nat));
                assert((bytes@.push((rest % 256) as u8)) + le_bytes(
                    rest as nat / 256,
                    (count - done - 1) as nat,
                ) =~= bytes@ + le_bytes(rest as nat, (count - done) as nat));
            }
            bytes.push((rest % 256) as u8);
            rest = rest / 256;
            done = done + 1;
        }
        assert(bytes@ + le_bytes(rest as nat, 0) =~= bytes@);
        bytes
    }

    /// The number of width `size` that `bytes` spell, least significant
    /// first.
    pub fn from_le_bytes(size: Size, bytes: &[u8]) -> (data: Data)
        requires
            bytes@.len() == size.spec_size(),
        ensures
            data == Data::assembled(size, le_value(bytes@)),
            data.spec_size() == size,
            data.spec_value() == le_value(bytes@),
            data.spec_le_bytes() == bytes@,
    {
        let count: usize = bytes.len();
        let mut value: u64 = 0;
        let mut left: usize = count;
        assert(bytes@.skip(count as int) =~= Seq::<u8>::empty());
        while left > 0
            invariant
                left <= count <= 8,
                count == bytes@.len(),
                value == le_value(bytes@.skip(left as int)),
                value < radix((count - left) as nat),
            decreases left,
        {
            left = left - 1;
            proof {
                let tail = bytes@.skip(left as int);
                assert(tail.skip(1) =~= bytes@.skip(left + 1));
                assert(tail[0] == bytes@[left as int]);
            }
            value = value * 256 + bytes[left] as u64;
        }
        assert(bytes@.skip(0) =~= bytes@);
        proof {
            lemma_le_value_bound(bytes@);
            lemma_le_bytes_of_value(bytes@);
        }
        match size {
            Size::Byte => Data::Byte(value as u8),
            Size::Word => Data::Word(value as u16),
            Size::Dual => Data::Dual(value as u32),
            Size::Quad => Data::Quad(value),
        }
    }
}

/// A number is what its width and its value make, its value is below its
/// width's modulus, and reading its bytes gives it back.
pub proof fn lemma_data_round_trip(data: Data)
    ensures
        Data::assembled(data.spec_size(), data.spec_value() as nat) == data,
        data.spec_value() < data.spec_size().modulus(),
        data.spec_le_bytes().len() == data.spec_size().spec_size(),
        Data::assembled(data.spec_size(), le_value(data.spec_le_bytes())) == data,
{
    lemma_le_bytes_len(data.spec_value() as nat, data.spec_size().spec_size() as nat);
    lemma_le_value_of_bytes(data.spec_value() as nat, data.spec_size().spec_size() as nat);
}

/// A number of bytes, as a plain integer.
#[derive(Debug, Clone, Copy, PartialEq, Eq, Structural)]
pub struct NumberBytes(pub u8);

impl From<Data> for Size {
    /// The width of a number.
    fn from(value: Data) -> (size: Size) {
        value.size()
    }
}

impl FromSpecImpl<Data> for Size {
    open spec fn obeys_from_spec() -> bool {
        true
    }

    open spec fn from_spec(value: Data) -> Size {
        value.spec_size()
    }
}

impl TryFrom<NumberBytes> for Size {
    type Error = RangeError;

    /// The size with that many bytes; an error unless there are 1, 2, 4 or 8.
    fn try_from(value: NumberBytes) -> (size: Result<Size, RangeError>) {
        match value.0 {
            1 => Ok(Size::Byte),
            2 => Ok(Size::Word),
            4 => Ok(Size::Dual),
            8 => Ok(Size::Quad),
            _ => Err(RangeError {}),
        }
    }
}

impl TryFromSpecImpl<NumberBytes> for Size {
    open spec fn obeys_try_from_spec() -> bool {
        true
    }

    open spec fn try_from_spec(value: NumberBytes) -> Result<Size, RangeError> {
        if value.0 == 1 {
            Ok(Size::Byte)
        } else if value.0 == 2 {
            Ok(Size::Word)
        } else if value.0 == 4 {
            Ok(Size::Dual)
        } else if value.0 == 8 {
            Ok(Size::Quad)
        } else {
            Err(RangeError {})
        }
    }
}

impl From<Size> for Data {
    /// The zero of a width.
    fn from(value: Size) -> (data: Data) {
        match value {
            Size::Byte => Data::Byte(0),
            Size::Word => Data::Word(0),
            Size::Dual => Data::Dual(0),
            Size::Quad => Data::Quad(0),
        }
    }
}

impl FromSpecImpl<Size> for Data {
    open spec fn obeys_from_spec() -> bool {
        true
    }

    open spec fn from_spec(value: Size) -> Data {
        Data::assembled(value, 0)
    }
}

/// A value below a width's modulus is its own remainder: it fills the low
/// bytes, and nothing is left above them.
pub proof fn lemma_fits(value: nat, size: Size)
    requires
        value < size.modulus(),
    ensures
        value % size.modulus() == value,
        value / size.modulus() == 0,
{
    match size {
        Size::Byte => {
            assert(value % 0x100 == value && value / 0x100 == 0);
        },
        Size::Word => {
            assert(value % 0x1_0000 == value && value / 0x1_0000 == 0);
        },
        Size::Dual => {
            assert(value % 0x1_0000_0000 == value && value / 0x1_0000_0000 == 0);
        },
        Size::Quad => {
            assert(value % 0x1_0000_0000_0000_0000 == value && value / 0x1_0000_0000_0000_0000
                == 0);
        },
    }
}

/// `le_bytes` gives as many bytes as it is asked for.
pub proof fn lemma_le_bytes_len(value: nat, count: nat)
    ensures
        le_bytes(value, count).len() == count,
    decreases count,
{
    if count > 0 {
        lemma_le_bytes_len(value / 256, (count - 1) as nat);
    }
}

/// Up to eight bytes spell a number below 256 to the power of their count.
pub proof fn lemma_le_value_bound(bytes: Seq<u8>)
    requires
        bytes.len() <= 8,
    ensures
        le_value(bytes) < radix(bytes.len()),
    decreases bytes.len(),
{
    if bytes.len() > 0 {
        lemma_le_value_bound(bytes.skip(1));
    }
}

/// Reading the bytes of a number gives the number back, as far as the bytes
/// hold it.
pub proof fn lemma_le_value_of_bytes(value: nat, count: nat)
    requires
        count <= 8,
        value < radix(count),
    ensures
        le_value(le_bytes(value, count)) == value,
    decreases count,
{
    if count > 0 {
        let rest = le_bytes(value / 256, (count - 1) as nat);
        lemma_le_value_of_bytes(value / 256, (count - 1) as nat);
        assert(le_bytes(value, count).skip(1) =~= rest);
    }
}

/// Writing the number that some bytes spell gives the bytes back.
pub proof fn lemma_le_bytes_of_value(bytes: Seq<u8>)
    ensures
        le_bytes(le_value(bytes), bytes.len()) == bytes,
    decreases bytes.len(),
{
    if bytes.len() > 0 {
        lemma_le_bytes_of_value(bytes.skip(1));
        let value = le_value(bytes);
        assert(value % 256 == bytes[0] as nat);
        assert(value / 256 == le_value(bytes.skip(1)));
        assert(le_bytes(value, bytes.len()) =~= bytes);
    }
}

} // verus!
