//! The two intermediates between raw bytes and a structured instruction.
//!
//! [`Driver`] holds the fields of the two driver bytes, [`Registers`] those
//! of the registers byte. Neither checks what its fields mean; encoding
//! truncates a field that is too wide.

use vstd::prelude::*;
use crate::encoding::{
    Driver0Encoding, Driver1Encoding, RegistersEncoding, addressing_of, dynamic_destination_of,
    dynamic_of, extension_of, immediate_exponent_of, operation_of, static_of, synchronise_of,
    width_of, with_addressing, with_dynamic, with_dynamic_destination, with_extension,
    with_immediate_exponent, with_operation, with_static, with_synchronise, with_width,
};

verus! {

/// Structured data from the driver bytes.
#[derive(Debug, Clone, Copy, PartialEq, Eq, Structural)]
pub struct Driver {
    /// Operation extension.
    pub extension: u8,
    pub operation: u8,
    pub synchronise: bool,
    /// Whether the result goes where the dynamic operand points.
    pub dynamic_destination: bool,
    /// Addressing mode of the dynamic operand.
    pub addressing: u8,
    /// Exponent of the immediate's byte count.
    pub immediate_exponent: u8,
}

impl Driver {
    /// The driver that two bytes hold.
    pub open spec fn decoded(driver0: u8, driver1: u8) -> Driver {
        Driver {
            extension: extension_of(driver0),
            operation: operation_of(driver1),
            synchronise: synchronise_of(driver0),
            dynamic_destination: dynamic_destination_of(driver0),
            addressing: addressing_of(driver1),
            immediate_exponent: immediate_exponent_of(driver1),
        }
    }

    /// The first driver byte.
    pub open spec fn encoded0(self) -> u8 {
        with_dynamic_destination(
            with_synchronise(with_extension(0, self.extension), self.synchronise),
            self.dynamic_destination,
        )
    }

    /// The second driver byte.
    pub open spec fn encoded1(self) -> u8 {
        with_immediate_exponent(
            with_addressing(with_operation(0, self.operation), self.addressing),
            self.immediate_exponent,
        )
    }

    /// Every field fits the bits that the encoding gives it.
    pub open spec fn representable(self) -> bool {
        &&& self.extension < 64
        &&& self.operation < 16
        &&& self.addressing < 4
        &&& self.immediate_exponent < 4
    }

    /// Decode the driver bytes.
    pub fn new(bytes: [u8; 2]) -> (driver: Driver)
        ensures
            driver == Driver::decoded(bytes[0], bytes[1]),
            driver.representable(),
    {
        let driver0: u8 = bytes[0];
        let driver1: u8 = bytes[1];
        proof {
            lemma_driver0_decode_encode(driver0);
            lemma_driver1_decode_encode(driver1);
        }
        Driver {
            extension: driver0.extract_extension(),
            operation: driver1.extract_operation(),
            synchronise: driver0.extract_synchronise(),
            dynamic_destination: driver0.extract_dynamic_destination(),
            addressing: driver1.extract_addressing(),
            immediate_exponent: driver1.extract_immediate_exponent(),
        }
    }

    /// Encode the driver into its two bytes.
    pub fn encode(&mut self) -> (bytes: [u8; 2])
        ensures
            *final(self) == *old(self),
            bytes[0] == old(self).encoded0(),
            bytes[1] == old(self).encoded1(),
    {
        let mut driver0: u8 = 0.set_extension(self.extension);
        driver0 = driver0.set_synchronise(self.synchronise);
        driver0 = driver0.set_dynamic_destination(self.dynamic_destination);

        let mut driver1: u8 = 0.set_operation(self.operation);
        driver1 = driver1.set_addressing(self.addressing);
        driver1 = driver1.set_immediate_exponent(self.immediate_exponent);

        [driver0, driver1]
    }
}

/// Register byte encoding.
#[derive(Debug, Clone, Copy, PartialEq, Eq, Structural)]
pub struct Registers {
    pub width: u8,
    pub x_static: u8,
    pub x_dynamic: u8,
}

impl Registers {
    /// The registers that a byte holds.
    pub open spec fn decoded(encoded: u8) -> Registers {
        Registers {
            width: width_of(encoded),
            x_static: static_of(encoded),
            x_dynamic: dynamic_of(encoded),
        }
    }

    /// The registers byte.
    pub open spec fn encoded(self) -> u8 {
        with_dynamic(with_static(with_width(0, self.width), self.x_static), self.x_dynamic)
    }

    /// Every field fits the bits that the encoding gives it.
    pub open spec fn representable(self) -> bool {
        &&& self.width < 4
        &&& self.x_static < 8
        &&& self.x_dynamic < 8
    }

    /// Decode the registers byte.
    pub fn new(encoded: u8) -> (registers: Registers)
        ensures
            registers == Registers::decoded(encoded),
            registers.representable(),
    {
        proof {
            lemma_registers_decode_encode(encoded);
        }
        Registers {
            width: encoded.extract_width(),
            x_static: encoded.extract_static(),
            x_dynamic: encoded.extract_dynamic(),
        }
    }

    /// Encode the registers into their byte.
    pub fn encode(&self) -> (encoded: u8)
        ensures
            encoded == self.encoded(),
    {
        let mut encoded: u8 = 0.set_width(self.width);
        encoded = encoded.set_static(self.x_static);
        encoded.set_dynamic(self.x_dynamic)
    }
}

proof fn lemma_driver0_fields(extension: u8, synchronise: bool, dynamic_destination: bool)
    by (bit_vector)
    requires
        extension < 64,
    ensures
        ({
            let byte = with_dynamic_destination(
                with_synchronise(with_extension(0, extension), synchronise),
                dynamic_destination,
            );
            &&& extension_of(byte) == extension
            &&& synchronise_of(byte) == synchronise
            &&& dynamic_destination_of(byte) == dynamic_destination
        }),
{
}

proof fn lemma_driver1_fields(operation: u8, addressing: u8, immediate_exponent: u8)
    by (bit_vector)
    requires
        operation < 16,
        addressing < 4,
        immediate_exponent < 4,
    ensures
        ({
            let byte = with_immediate_exponent(
                with_addressing(with_operation(0, operation), addressing),
                immediate_exponent,
            );
            &&& operation_of(byte) == operation
            &&& addressing_of(byte) == addressing
            &&& immediate_exponent_of(byte) == immediate_exponent
        }),
{
}

proof fn lemma_registers_fields(width: u8, x_static: u8, x_dynamic: u8)
    by (bit_vector)
    requires
        width < 4,
        x_static < 8,
        x_dynamic < 8,
    ensures
        ({
            let byte = with_dynamic(with_static(with_width(0, width), x_static), x_dynamic);
            &&& width_of(byte) == width
            &&& static_of(byte) == x_static
            &&& dynamic_of(byte) == x_dynamic
        }),
{
}

/// The fields of a first driver byte are in range and spell the byte again.
pub proof fn lemma_driver0_decode_encode(byte: u8)
    by (bit_vector)
    ensures
        extension_of(byte) < 64,
        with_dynamic_destination(
            with_synchronise(with_extension(0, extension_of(byte)), synchronise_of(byte)),
            dynamic_destination_of(byte),
        ) == byte,
{
}

/// The fields of a second driver byte are in range and spell the byte again.
pub proof fn lemma_driver1_decode_encode(byte: u8)
    by (bit_vector)
    ensures
        operation_of(byte) < 16,
        addressing_of(byte) < 4,
        immediate_exponent_of(byte) < 4,
        with_immediate_exponent(
            with_addressing(with_operation(0, operation_of(byte)), addressing_of(byte)),
            immediate_exponent_of(byte),
        ) == byte,
{
}

/// The fields of a registers byte are in range and spell the byte again.
pub proof fn lemma_registers_decode_encode(byte: u8)
    by (bit_vector)
    ensures
        width_of(byte) < 4,
        static_of(byte) < 8,
        dynamic_of(byte) < 8,
        with_dynamic(with_static(with_width(0, width_of(byte)), static_of(byte)), dynamic_of(byte))
            == byte,
{
}

/// Decoding the bytes of a representable driver gives the driver back.
pub proof fn lemma_driver_round_trip(driver: Driver)
    requires
        driver.representable(),
    ensures
        Driver::decoded(driver.encoded0(), driver.encoded1()) == driver,
{
    lemma_driver0_fields(driver.extension, driver.synchronise, driver.dynamic_destination);
    lemma_driver1_fields(driver.operation, driver.addressing, driver.immediate_exponent);
}

/// Encoding the driver that two bytes hold gives the two bytes back, and that
/// driver is representable: with the law above, drivers and byte pairs
/// correspond one to one.
pub proof fn lemma_driver_bytes_round_trip(driver0: u8, driver1: u8)
    ensures
        Driver::decoded(driver0, driver1).representable(),
        Driver::decoded(driver0, driver1).encoded0() == driver0,
        Driver::decoded(driver0, driver1).encoded1() == driver1,
{
    lemma_driver0_decode_encode(driver0);
    lemma_driver1_decode_encode(driver1);
}

/// Decoding the byte of representable registers gives the registers back.
pub proof fn lemma_registers_round_trip(registers: Registers)
    requires
        registers.representable(),
    ensures
        Registers::decoded(registers.encoded()) == registers,
{
    lemma_registers_fields(registers.width, registers.x_static, registers.x_dynamic);
}

/// Encoding the registers that a byte holds gives the byte back, and those
/// registers are representable.
pub proof fn lemma_registers_byte_round_trip(byte: u8)
    ensures
        Registers::decoded(byte).representable(),
        Registers::decoded(byte).encoded() == byte,
{
    lemma_registers_decode_encode(byte);
}

} // verus!
