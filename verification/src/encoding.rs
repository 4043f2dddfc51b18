//! Bit layout of the three encoded bytes.
//!
//! ```text
//! driver 0:  EEEEEE S D    extension, synchronise, dynamic destination
//! driver 1:  OOOO AA II    operation, addressing, immediate exponent
//! registers: WW SSS DDD    width, static operand, dynamic operand
//! ```
//!
//! Every field has a pure `extract` and `set`. `set` clears the field and
//! writes the low bits of the value into it; wider values are truncated.
//! For each field a lemma states that `extract` after `set` gives the
//! truncated value back and that `set` leaves the other bits alone.

use vstd::prelude::*;

verus! {

pub const DRIVER0_EXTENSION_MASK: u8 = 0b111111_0_0;
pub const DRIVER0_SYNCHRONISE_MASK: u8 = 0b000000_1_0;
pub const DRIVER0_DYNAMIC_DESTINATION: u8 = 0b000000_0_1;
pub const DRIVER1_OPERATION_MASK: u8 = 0b1111_00_00;
pub const DRIVER1_ADDRESSING_MASK: u8 = 0b0000_11_00;
pub const DRIVER1_ADDRESSING_PARAMETER_MASK: u8 = 0b0000_00_11;
pub const REGISTERS_WIDTH_MASK: u8 = 0b11_000_000;
pub const REGISTERS_STATIC_OPERAND_MASK: u8 = 0b00_111_000;
pub const REGISTERS_DYNAMIC_OPERAND_MASK: u8 = 0b00_000_111;

/// The number that a flag bit stands for.
pub open spec fn bit(flag: bool) -> u8 {
    if flag { 1u8 } else { 0u8 }
}

/// The extension held in `byte`.
pub open spec fn extension_of(byte: u8) -> u8 {
    (DRIVER0_EXTENSION_MASK & byte) >> 2u8
}

/// `byte` with its extension replaced by the low bits of `value`.
pub open spec fn with_extension(byte: u8, value: u8) -> u8 {
    (!DRIVER0_EXTENSION_MASK & byte) | ((0b00_111111 & value) << 2u8)
}

/// The synchronise bit held in `byte`.
pub open spec fn synchronise_of(byte: u8) -> bool {
    ((DRIVER0_SYNCHRONISE_MASK & byte) >> 1u8) == 1
}

/// `byte` with its synchronise bit replaced by `value`.
pub open spec fn with_synchronise(byte: u8, value: bool) -> u8 {
    (!DRIVER0_SYNCHRONISE_MASK & byte) | (bit(value) << 1u8)
}

/// The dynamic-destination bit held in `byte`.
pub open spec fn dynamic_destination_of(byte: u8) -> bool {
    (DRIVER0_DYNAMIC_DESTINATION & byte) == 1
}

/// `byte` with its dynamic-destination bit replaced by `value`.
pub open spec fn with_dynamic_destination(byte: u8, value: bool) -> u8 {
    (!DRIVER0_DYNAMIC_DESTINATION & byte) | bit(value)
}

/// The operation held in `byte`.
pub open spec fn operation_of(byte: u8) -> u8 {
    (DRIVER1_OPERATION_MASK & byte) >> 4u8
}

/// `byte` with its operation replaced by the low bits of `value`.
pub open spec fn with_operation(byte: u8, value: u8) -> u8 {
    (!DRIVER1_OPERATION_MASK & byte) | ((0b0000_1111 & value) << 4u8)
}

/// The addressing mode held in `byte`.
pub open spec fn addressing_of(byte: u8) -> u8 {
    (DRIVER1_ADDRESSING_MASK & byte) >> 2u8
}

/// `byte` with its addressing mode replaced by the low bits of `value`.
pub open spec fn with_addressing(byte: u8, value: u8) -> u8 {
    (!DRIVER1_ADDRESSING_MASK & byte) | ((0b000000_11 & value) << 2u8)
}

/// The immediate exponent held in `byte`.
pub open spec fn immediate_exponent_of(byte: u8) -> u8 {
    DRIVER1_ADDRESSING_PARAMETER_MASK & byte
}

/// `byte` with its immediate exponent replaced by the low bits of `value`.
pub open spec fn with_immediate_exponent(byte: u8, value: u8) -> u8 {
    (!DRIVER1_ADDRESSING_PARAMETER_MASK & byte) | ((0b000000_11 & value))
}

/// The width exponent held in `byte`.
pub open spec fn width_of(byte: u8) -> u8 {
    (REGISTERS_WIDTH_MASK & byte) >> 6u8
}

/// `byte` with its width exponent replaced by the low bits of `value`.
pub open spec fn with_width(byte: u8, value: u8) -> u8 {
    (!REGISTERS_WIDTH_MASK & byte) | ((0b000000_11 & value) << 6u8)
}

/// The static register index held in `byte`.
pub open spec fn static_of(byte: u8) -> u8 {
    (REGISTERS_STATIC_OPERAND_MASK & byte) >> 3u8
}

/// `byte` with its static register index replaced by the low bits of `value`.
pub open spec fn with_static(byte: u8, value: u8) -> u8 {
    (!REGISTERS_STATIC_OPERAND_MASK & byte) | ((0b00000_111 & value) << 3u8)
}

/// The dynamic register index held in `byte`.
pub open spec fn dynamic_of(byte: u8) -> u8 {
    REGISTERS_DYNAMIC_OPERAND_MASK & byte
}

/// `byte` with its dynamic register index replaced by the low bits of `value`.
pub open spec fn with_dynamic(byte: u8, value: u8) -> u8 {
    (!REGISTERS_DYNAMIC_OPERAND_MASK & byte) | ((0b00000_111 & value))
}

/// Setting the extension and extracting it gives the value back,
/// truncated to the field's width, and setting it changes no bit outside the
/// field.
pub proof fn lemma_extension_set_extract(byte: u8, value: u8)
    by (bit_vector)
    ensures
        extension_of(with_extension(byte, value)) == value & 0b00_111111,
        with_extension(byte, value) & !DRIVER0_EXTENSION_MASK
            == byte & !DRIVER0_EXTENSION_MASK,
{
}

/// Setting the synchronise bit and extracting it gives the bit back, and
/// setting it changes no bit outside the field.
pub proof fn lemma_synchronise_set_extract(byte: u8, value: bool)
    by (bit_vector)
    ensures
        synchronise_of(with_synchronise(byte, value)) == value,
        with_synchronise(byte, value) & !DRIVER0_SYNCHRONISE_MASK
            == byte & !DRIVER0_SYNCHRONISE_MASK,
{
}

/// Setting the dynamic-destination bit and extracting it gives the bit back, and
/// setting it changes no bit outside the field.
pub proof fn lemma_dynamic_destination_set_extract(byte: u8, value: bool)
    by (bit_vector)
    ensures
        dynamic_destination_of(with_dynamic_destination(byte, value)) == value,
        with_dynamic_destination(byte, value) & !DRIVER0_DYNAMIC_DESTINATION
            == byte & !DRIVER0_DYNAMIC_DESTINATION,
{
}

/// Setting the operation and extracting it gives the value back,
/// truncated to the field's width, and setting it changes no bit outside the
/// field.
pub proof fn lemma_operation_set_extract(byte: u8, value: u8)
    by (bit_vector)
    ensures
        operation_of(with_operation(byte, value)) == value & 0b0000_1111,
        with_operation(byte, value) & !DRIVER1_OPERATION_MASK
            == byte & !DRIVER1_OPERATION_MASK,
{
}

/// Setting the addressing mode and extracting it gives the value back,
/// truncated to the field's width, and setting it changes no bit outside the
/// field.
pub proof fn lemma_addressing_set_extract(byte: u8, value: u8)
    by (bit_vector)
    ensures
        addressing_of(with_addressing(byte, value)) == value & 0b000000_11,
        with_addressing(byte, value) & !DRIVER1_ADDRESSING_MASK
            == byte & !DRIVER1_ADDRESSING_MASK,
{
}

/// Setting the immediate exponent and extracting it gives the value back,
/// truncated to the field's width, and setting it changes no bit outside the
/// field.
pub proof fn lemma_immediate_exponent_set_extract(byte: u8, value: u8)
    by (bit_vector)
    ensures
        immediate_exponent_of(with_immediate_exponent(byte, value)) == value & 0b000000_11,
        with_immediate_exponent(byte, value) & !DRIVER1_ADDRESSING_PARAMETER_MASK
            == byte & !DRIVER1_ADDRESSING_PARAMETER_MASK,
{
}

/// Setting the width exponent and extracting it gives the value back,
/// truncated to the field's width, and setting it changes no bit outside the
/// field.
pub proof fn lemma_width_set_extract(byte: u8, value: u8)
    by (bit_vector)
    ensures
        width_of(with_width(byte, value)) == value & 0b000000_11,
        with_width(byte, value) & !REGISTERS_WIDTH_MASK
            == byte & !REGISTERS_WIDTH_MASK,
{
}

/// Setting the static register index and extracting it gives the value back,
/// truncated to the field's width, and setting it changes no bit outside the
/// field.
pub proof fn lemma_static_set_extract(byte: u8, value: u8)
    by (bit_vector)
    ensures
        static_of(with_static(byte, value)) == value & 0b00000_111,
        with_static(byte, value) & !REGISTERS_STATIC_OPERAND_MASK
            == byte & !REGISTERS_STATIC_OPERAND_MASK,
{
}

/// Setting the dynamic register index and extracting it gives the value back,
/// truncated to the field's width, and setting it changes no bit outside the
/// field.
pub proof fn lemma_dynamic_set_extract(byte: u8, value: u8)
    by (bit_vector)
    ensures
        dynamic_of(with_dynamic(byte, value)) == value & 0b00000_111,
        with_dynamic(byte, value) & !REGISTERS_DYNAMIC_OPERAND_MASK
            == byte & !REGISTERS_DYNAMIC_OPERAND_MASK,
{
}

/// The first driver byte is its extension, its synchronise bit and its
/// dynamic-destination bit, from the top bit down.
pub proof fn lemma_driver0_layout(byte: u8)
    by (bit_vector)
    ensures
        byte == extension_of(byte) * 4 + bit(synchronise_of(byte)) * 2 + bit(
            dynamic_destination_of(byte),
        ),
{
}

/// The second driver byte is its operation, its addressing mode and its
/// immediate exponent, from the top bit down.
pub proof fn lemma_driver1_layout(byte: u8)
    by (bit_vector)
    ensures
        byte == operation_of(byte) * 16 + addressing_of(byte) * 4 + immediate_exponent_of(byte),
{
}

/// The registers byte is its width exponent, its static index and its
/// dynamic index, from the top bit down.
pub proof fn lemma_registers_layout(byte: u8)
    by (bit_vector)
    ensures
        byte == width_of(byte) * 64 + static_of(byte) * 8 + dynamic_of(byte),
{
}

/// Fields of the first driver byte.
pub trait Driver0Encoding: Sized {
    fn extract_extension(self) -> u8;

    /// Only the low 6 bits of `extension` are used.
    fn set_extension(self, extension: u8) -> u8;

    fn extract_synchronise(self) -> bool;

    fn set_synchronise(self, lock: bool) -> u8;

    fn extract_dynamic_destination(self) -> bool;

    fn set_dynamic_destination(self, dynamic_destination: bool) -> u8;
}

impl Driver0Encoding for u8 {
    fn extract_extension(self) -> (extension: u8)
        ensures
            extension == extension_of(self),
    {
        (DRIVER0_EXTENSION_MASK & self) >> 2u8
    }

    fn set_extension(self, extension: u8) -> (byte: u8)
        ensures
            byte == with_extension(self, extension),
    {
        let layer: u8 = (0b00_111111 & extension) << 2u8;
        (!DRIVER0_EXTENSION_MASK & self) | layer
    }

    fn extract_synchronise(self) -> (lock: bool)
        ensures
            lock == synchronise_of(self),
    {
        ((DRIVER0_SYNCHRONISE_MASK & self) >> 1u8) == 1
    }

    fn set_synchronise(self, lock: bool) -> (byte: u8)
        ensures
            byte == with_synchronise(self, lock),
    {
        let flag: u8 = if lock { 1 } else { 0 };
        let layer: u8 = flag << 1u8;
        (!DRIVER0_SYNCHRONISE_MASK & self) | layer
    }

    fn extract_dynamic_destination(self) -> (dynamic_destination: bool)
        ensures
            dynamic_destination == dynamic_destination_of(self),
    {
        (DRIVER0_DYNAMIC_DESTINATION & self) == 1
    }

    fn set_dynamic_destination(self, dynamic_destination: bool) -> (byte: u8)
        ensures
            byte == with_dynamic_destination(self, dynamic_destination),
    {
        let layer: u8 = if dynamic_destination { 1 } else { 0 };
        (!DRIVER0_DYNAMIC_DESTINATION & self) | layer
    }
}

/// Fields of the second driver byte.
pub trait Driver1Encoding: Sized {
    fn extract_operation(self) -> u8;

    /// Only the low 4 bits of `operation` are used.
    fn set_operation(self, operation: u8) -> u8;

    fn extract_addressing(self) -> u8;

    /// Only the low 2 bits of `addressing` are used.
    fn set_addressing(self, addressing: u8) -> u8;

    fn extract_immediate_exponent(self) -> u8;

    /// Only the low 2 bits of `immediate_exponent` are used.
    fn set_immediate_exponent(self, immediate_exponent: u8) -> u8;
}

impl Driver1Encoding for u8 {
    fn extract_operation(self) -> (operation: u8)
        ensures
            operation == operation_of(self),
    {
        (DRIVER1_OPERATION_MASK & self) >> 4u8
    }

    fn set_operation(self, operation: u8) -> (byte: u8)
        ensures
            byte == with_operation(self, operation),
    {
        let layer: u8 = (0b0000_1111 & operation) << 4u8;
        (!DRIVER1_OPERATION_MASK & self) | layer
    }

    fn extract_addressing(self) -> (addressing: u8)
        ensures
            addressing == addressing_of(self),
    {
        (DRIVER1_ADDRESSING_MASK & self) >> 2u8
    }

    fn set_addressing(self, addressing: u8) -> (byte: u8)
        ensures
            byte == with_addressing(self, addressing),
    {
        let layer: u8 = (0b000000_11 & addressing) << 2u8;
        (!DRIVER1_ADDRESSING_MASK & self) | layer
    }

    fn extract_immediate_exponent(self) -> (immediate_exponent: u8)
        ensures
            immediate_exponent == immediate_exponent_of(self),
    {
        DRIVER1_ADDRESSING_PARAMETER_MASK & self
    }

    fn set_immediate_exponent(self, immediate_exponent: u8) -> (byte: u8)
        ensures
            byte == with_immediate_exponent(self, immediate_exponent),
    {
        let layer: u8 = (0b000000_11 & immediate_exponent);
        (!DRIVER1_ADDRESSING_PARAMETER_MASK & self) | layer
    }
}

/// Fields of the registers byte.
pub trait RegistersEncoding: Sized {
    fn extract_width(self) -> u8;

    /// Only the low 2 bits of `width` are used.
    fn set_width(self, width: u8) -> u8;

    fn extract_static(self) -> u8;

    /// Only the low 3 bits of `x_static` are used.
    fn set_static(self, x_static: u8) -> u8;

    fn extract_dynamic(self) -> u8;

    /// Only the low 3 bits of `dynamic` are used.
    fn set_dynamic(self, dynamic: u8) -> u8;
}

impl RegistersEncoding for u8 {
    fn extract_width(self) -> (width: u8)
        ensures
            width == width_of(self),
    {
        (REGISTERS_WIDTH_MASK & self) >> 6u8
    }

    fn set_width(self, width: u8) -> (byte: u8)
        ensures
            byte == with_width(self, width),
    {
        let layer: u8 = (0b000000_11 & width) << 6u8;
        (!REGISTERS_WIDTH_MASK & self) | layer
    }

    fn extract_static(self) -> (x_static: u8)
        ensures
            x_static == static_of(self),
    {
        (REGISTERS_STATIC_OPERAND_MASK & self) >> 3u8
    }

    fn set_static(self, x_static: u8) -> (byte: u8)
        ensures
            byte == with_static(self, x_static),
    {
        let layer: u8 = (0b00000_111 & x_static) << 3u8;
        (!REGISTERS_STATIC_OPERAND_MASK & self) | layer
    }

    fn extract_dynamic(self) -> (dynamic: u8)
        ensures
            dynamic == dynamic_of(self),
    {
        REGISTERS_DYNAMIC_OPERAND_MASK & self
    }

    fn set_dynamic(self, dynamic: u8) -> (byte: u8)
        ensures
            byte == with_dynamic(self, dynamic),
    {
        let layer: u8 = (0b00000_111 & dynamic);
        (!REGISTERS_DYNAMIC_OPERAND_MASK & self) | layer
    }
}

} // verus!
