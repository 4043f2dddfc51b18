//! Structured instructions and their binary form.
//!
//! | Required | Byte      | Field               | Size   |
//! | -------- | --------- | ------------------- | ------ |
//! | Yes      | Driver 0  | Extension           | 6 bits |
//! | Yes      | Driver 0  | Synchronise         | 1 bit  |
//! | Yes      | Driver 0  | Destination dynamic | 1 bit  |
//! | Yes      | Driver 1  | Operation           | 4 bits |
//! | Yes      | Driver 1  | Addressing          | 2 bits |
//! | Yes      | Driver 1  | Immediate exponent  | 2 bits |
//! | No       | Registers | Width               | 2 bits |
//! | No       | Registers | Static operand      | 3 bits |
//! | No       | Registers | Dynamic operand     | 3 bits |
//!
//! The registers byte is there where the operation takes operands. An
//! immediate of 1, 2, 4 or 8 bytes follows it where the dynamic operand is a
//! constant or lies in memory at a constant address.

use vstd::prelude::*;
use crate::driver::{
    Driver, Registers, lemma_driver_bytes_round_trip, lemma_driver_round_trip,
    lemma_registers_byte_round_trip, lemma_registers_round_trip,
};
use crate::number;
use crate::number::{Size, lemma_data_round_trip, lemma_le_bytes_of_value};
use crate::operand::{
    CONSTANT_ADDRESSING, Destination, Dynamic, MemoryBase, Operand, Operands,
    OperandsConstructError, takes_immediate,
};
use crate::operation::{
    Arithmetic, Extension, ExtensionFromCodeInvalid, OperandsPresence, lemma_codes_unique,
};
use crate::stream::{ByteStream, available, read_exact, window};

verus! {

/// What an instruction says of its operands.
#[derive(Debug, Clone, Copy, PartialEq, Eq, Structural)]
pub struct Data {
    /// Width of the operands when read and of the result when stored.
    pub width: Size,
    /// The operand that receives the result.
    pub destination: Destination,
    pub synchronous: bool,
    pub operands: Operands,
}

#[derive(Debug, Clone, Copy, PartialEq, Eq, Structural)]
pub enum DataConstructError {
    /// The stream ended before the registers byte.
    Length,
    /// The operands could not be read.
    Operands(OperandsConstructError),
    /// The destination names an operand that cannot take the result: the
    /// dynamic operand where it is a constant, or an operand that the
    /// operation does not have.
    Destination,
}

#[derive(Debug, Clone, Copy, PartialEq, Eq, Structural)]
pub enum InstructionConstructError {
    /// The stream ended before the end of the driver bytes.
    Length,
    /// The extension or the operation code is not assigned.
    InvalidCode(ExtensionFromCodeInvalid),
    /// The data of the instruction could not be built.
    Data(DataConstructError),
}

/// The destination names an operand that is not there.
#[derive(Debug, Clone, Copy, PartialEq, Eq, Structural)]
pub enum DestinationError {
    /// The instruction has no operands at all.
    Data,
    /// The static operand is not there.
    Static,
    /// The dynamic operand is not there, or it is a constant.
    Dynamic,
}

/// The destination that the driver's bit stands for.
pub open spec fn destination_of(dynamic_destination: bool) -> Destination {
    if dynamic_destination {
        Destination::Dynamic
    } else {
        Destination::Static
    }
}

/// Whether the destination names an operand that is there and can take a
/// result.
pub open spec fn destination_fits(destination: Destination, operands: Operands) -> bool {
    match destination {
        Destination::Static => operands.spec_x_static() is Some,
        Destination::Dynamic => match operands.spec_x_dynamic() {
            Some(x_dynamic) => x_dynamic.spec_is_storage(),
            None => false,
        },
    }
}

/// Whether a dynamic operand can be encoded for operands of width `width`:
/// its register index has 3 bits, and a memory operand is as wide as the
/// operands.
pub open spec fn dynamic_fits(x_dynamic: Dynamic, width: Size) -> bool {
    match x_dynamic {
        Dynamic::Register(register) => register < 8,
        Dynamic::Constant(_) => true,
        Dynamic::Memory { base: MemoryBase::Register(register), width: memory_width } => register
            < 8 && memory_width == width,
        Dynamic::Memory { base: MemoryBase::Constant(_), width: memory_width } => memory_width
            == width,
    }
}

impl Data {
    /// The destination fits the operands, and every operand can be encoded.
    pub open spec fn valid(self) -> bool {
        &&& destination_fits(self.destination, self.operands)
        &&& match self.operands.spec_x_static() {
            Some(x_static) => x_static < 8,
            None => true,
        }
        &&& match self.operands.spec_x_dynamic() {
            Some(x_dynamic) => dynamic_fits(x_dynamic, self.width),
            None => true,
        }
    }

    /// Whether the destination fits the operands and every operand can be
    /// encoded.
    pub fn is_valid(&self) -> (valid: bool)
        ensures
            valid == self.valid(),
    {
        let fits: bool = match self.destination {
            Destination::Static => self.operands.x_static().is_some(),
            Destination::Dynamic => match self.operands.x_dynamic() {
                Some(x_dynamic) => x_dynamic.is_storage(),
                None => false,
            },
        };
        let static_fits: bool = match self.operands.x_static() {
            Some(x_static) => x_static < 8,
            None => true,
        };
        let dynamic_fits: bool = match self.operands.x_dynamic() {
            Some(Dynamic::Register(register)) => register < 8,
            Some(Dynamic::Constant(_)) => true,
            Some(Dynamic::Memory { base: MemoryBase::Register(register), width }) => register < 8
                && width == self.width,
            Some(Dynamic::Memory { base: MemoryBase::Constant(_), width }) => width == self.width,
            None => true,
        };
        fits && static_fits && dynamic_fits
    }

    /// What the bytes from position `cursor` on, where the registers byte
    /// is expected, say of the operands of an operation with the given
    /// presence and driver.
    pub open spec fn decoded(
        bytes: Seq<u8>,
        cursor: nat,
        presence: OperandsPresence,
        driver: Driver,
    ) -> Result<Data, DataConstructError> {
        if !available(bytes, cursor, 1) {
            Err(DataConstructError::Length)
        } else {
            let registers = Registers::decoded(bytes[cursor as int]);
            let destination = destination_of(driver.dynamic_destination);
            match Operands::decoded(bytes, cursor + 1, presence, registers, driver) {
                Err(error) => Err(DataConstructError::Operands(error)),
                Ok(operands) => if destination_fits(destination, operands) {
                    Ok(
                        Data {
                            width: Size::with_exponent(registers.width),
                            destination,
                            synchronous: driver.synchronise,
                            operands,
                        },
                    )
                } else {
                    Err(DataConstructError::Destination)
                },
            }
        }
    }

    /// Where the cursor rests after [`Data::decoded`]: behind the last part
    /// that was there in full.
    pub open spec fn decoded_end(
        bytes: Seq<u8>,
        cursor: nat,
        presence: OperandsPresence,
        driver: Driver,
    ) -> nat {
        if !available(bytes, cursor, 1) {
            cursor
        } else {
            Operands::decoded_end(bytes, cursor + 1, presence, driver)
        }
    }

    /// Read the registers byte, and the immediate where there is one, and
    /// build the data of an instruction from them and the driver.
    pub fn new<S: ByteStream>(stream: &mut S, presence: &OperandsPresence, driver: &Driver) -> (data:
        Result<Data, DataConstructError>)
        ensures
            final(stream).content() == old(stream).content(),
            data == Data::decoded(
                old(stream).content(),
                old(stream).position(),
                *presence,
                *driver,
            ),
            final(stream).position() == Data::decoded_end(
                old(stream).content(),
                old(stream).position(),
                *presence,
                *driver,
            ),
            data is Ok ==> data.unwrap().valid(),
    {
        let data_encoded: Vec<u8> = match read_exact(stream, 1) {
            Some(read) => read,
            None => {
                return Err(DataConstructError::Length);
            },
        };

        let registers: Registers = Registers::new(data_encoded[0]);
        let destination: Destination = if driver.dynamic_destination {
            Destination::Dynamic
        } else {
            Destination::Static
        };

        let operands: Operands = match Operands::new(stream, presence, &registers, driver) {
            Ok(value) => value,
            Err(error) => {
                return Err(DataConstructError::Operands(error));
            },
        };

        // The result has no place to go where the destination is a constant
        // or an operand that the operation does not take.
        let fits: bool = match destination {
            Destination::Static => operands.x_static().is_some(),
            Destination::Dynamic => match operands.x_dynamic() {
                Some(x_dynamic) => x_dynamic.is_storage(),
                None => false,
            },
        };
        if !fits {
            return Err(DataConstructError::Destination);
        }

        Ok(
            Data {
                width: Size::from_exponent_bits(registers.width),
                destination,
                synchronous: driver.synchronise,
                operands,
            },
        )
    }
}

/// The bytes of a driver, then of the registers, then of the immediate. An
/// immediate without registers has no encoding.
pub open spec fn encoded_parts(
    driver: Driver,
    registers: Option<Registers>,
    immediate: Option<number::Data>,
) -> Option<Seq<u8>> {
    let head = seq![driver.encoded0(), driver.encoded1()];
    match registers {
        Some(registers) => match immediate {
            Some(immediate) => Some(head.push(registers.encoded()) + immediate.spec_le_bytes()),
            None => Some(head.push(registers.encoded())),
        },
        None => match immediate {
            Some(_) => None,
            None => Some(head),
        },
    }
}

/// The number of bytes that follow the driver bytes of an operation with
/// the given presence: none without operands, else the registers byte and
/// the immediate where the dynamic operand takes one.
pub open spec fn tail_length(presence: Option<OperandsPresence>, driver: Driver) -> nat {
    match presence {
        None => 0,
        Some(presence) => match Operands::immediate_size(presence, driver) {
            Some(size) => 1 + size.spec_size() as nat,
            None => 1,
        },
    }
}

#[derive(Debug, Clone, Copy, PartialEq, Eq, Structural)]
pub struct Instruction {
    pub extension: Extension,
    pub data: Option<Data>,
}

impl Instruction {
    /// The instruction has operands exactly where its operation takes them,
    /// the operands are those that the operation takes, and they are valid.
    pub open spec fn valid(self) -> bool {
        match self.data {
            Some(data) => self.extension.presence() == Some(data.operands.spec_presence())
                && data.valid(),
            None => self.extension.presence() is None,
        }
    }

    /// The dynamic operand, where the instruction has one.
    pub open spec fn x_dynamic(self) -> Option<Dynamic> {
        match self.data {
            Some(data) => data.operands.spec_x_dynamic(),
            None => None,
        }
    }

    /// The immediate that the instruction carries, where it carries one.
    pub open spec fn immediate(self) -> Option<number::Data> {
        match self.x_dynamic() {
            Some(x_dynamic) => x_dynamic.spec_immediate(),
            None => None,
        }
    }

    /// The driver of the encoded instruction. A field that the instruction
    /// says nothing of is zero.
    pub open spec fn driver(self) -> Driver {
        Driver {
            extension: self.extension.spec_code(),
            operation: self.extension.operation_code(),
            synchronise: match self.data {
                Some(data) => data.synchronous,
                None => false,
            },
            dynamic_destination: match self.data {
                Some(data) => data.destination == Destination::Dynamic,
                None => false,
            },
            addressing: match self.x_dynamic() {
                Some(x_dynamic) => x_dynamic.spec_addressing(),
                None => 0,
            },
            immediate_exponent: match self.immediate() {
                Some(immediate) => immediate.spec_size().spec_exponent(),
                None => 0,
            },
        }
    }

    /// The registers of the encoded instruction, where it has operands. The
    /// index of an operand that names no register is zero.
    pub open spec fn registers(self) -> Option<Registers> {
        match self.data {
            Some(data) => Some(
                Registers {
                    width: data.width.spec_exponent(),
                    x_static: match data.operands.spec_x_static() {
                        Some(x_static) => x_static,
                        None => 0,
                    },
                    x_dynamic: match data.operands.spec_x_dynamic() {
                        Some(x_dynamic) => match x_dynamic.spec_register() {
                            Some(register) => register,
                            None => 0,
                        },
                        None => 0,
                    },
                },
            ),
            None => None,
        }
    }

    /// The bytes of the instruction.
    pub open spec fn encoded(self) -> Seq<u8> {
        encoded_parts(self.driver(), self.registers(), self.immediate()).unwrap()
    }

    /// What the bytes from position `cursor` on decode to.
    pub open spec fn decoded(bytes: Seq<u8>, cursor: nat) -> Result<
        Instruction,
        InstructionConstructError,
    > {
        if !available(bytes, cursor, 2) {
            Err(InstructionConstructError::Length)
        } else {
            let driver = Driver::decoded(bytes[cursor as int], bytes[cursor as int + 1]);
            match Extension::spec_from_codes(driver.extension, driver.operation) {
                Err(error) => Err(InstructionConstructError::InvalidCode(error)),
                Ok(extension) => match extension.presence() {
                    None => Ok(Instruction { extension, data: None }),
                    Some(presence) => match Data::decoded(bytes, cursor + 2, presence, driver) {
                        Ok(data) => Ok(Instruction { extension, data: Some(data) }),
                        Err(error) => Err(InstructionConstructError::Data(error)),
                    },
                },
            }
        }
    }

    /// Where the cursor rests after decoding from position `cursor`: behind
    /// the last part of the instruction that was there in full. After a
    /// success that is the end of the instruction.
    pub open spec fn decoded_end(bytes: Seq<u8>, cursor: nat) -> nat {
        if !available(bytes, cursor, 2) {
            cursor
        } else {
            let driver = Driver::decoded(bytes[cursor as int], bytes[cursor as int + 1]);
            match Extension::spec_from_codes(driver.extension, driver.operation) {
                Err(_) => cursor + 2,
                Ok(extension) => match extension.presence() {
                    None => cursor + 2,
                    Some(presence) => Data::decoded_end(bytes, cursor + 2, presence, driver),
                },
            }
        }
    }

    /// Whether the instruction has the operands that its operation takes,
    /// and they are valid: what decoding gives, and what encoding keeps.
    pub fn is_valid(&self) -> (valid: bool)
        ensures
            valid == self.valid(),
    {
        match (self.extension.operation().get_presence(), &self.data) {
            (Some(presence), Some(data)) => presence == data.operands.presence() && data.is_valid(),
            (None, None) => true,
            _ => false,
        }
    }

    /// The number of bytes that follow the two bytes of `driver` in an
    /// encoded instruction, or which of its codes is not assigned. A caller
    /// that reads from a slow source learns from it how much to fetch before
    /// decoding.
    pub fn tail_length(driver: &Driver) -> (length: Result<u8, ExtensionFromCodeInvalid>)
        ensures
            match Extension::spec_from_codes(driver.extension, driver.operation) {
                Ok(extension) => length is Ok && length.unwrap() == tail_length(
                    extension.presence(),
                    *driver,
                ),
                Err(error) => length == Err::<u8, ExtensionFromCodeInvalid>(error),
            },
    {
        let extension: Extension = match Extension::from_codes(driver.extension, driver.operation) {
            Ok(extension) => extension,
            Err(error) => {
                return Err(error);
            },
        };
        match extension.operation().get_presence() {
            None => Ok(0),
            Some(OperandsPresence::Static) => Ok(1),
            Some(_) => {
                if takes_immediate(driver.addressing) {
                    Ok(1 + Size::from_exponent_bits(driver.immediate_exponent).size())
                } else {
                    Ok(1)
                }
            },
        }
    }

    /// Encode a driver, registers and an immediate into a run of bytes. The
    /// parts are not validated. An immediate needs registers: with an
    /// immediate and no registers the result is `None`.
    pub fn encode_driver_registers_immediate(
        driver: &mut Driver,
        registers: Option<&Registers>,
        immediate: Option<&number::Data>,
    ) -> (encoded: Option<Vec<u8>>)
        ensures
            *final(driver) == *old(driver),
            match encoded_parts(
                *old(driver),
                match registers {
                    Some(registers) => Some(*registers),
                    None => None,
                },
                match immediate {
                    Some(immediate) => Some(*immediate),
                    None => None,
                },
            ) {
                Some(bytes) => encoded is Some && encoded.unwrap()@ == bytes,
                None => encoded is None,
            },
    {
        let mut encoded: Vec<u8> = Vec::new();

        let head: [u8; 2] = driver.encode();
        encoded.push(head[0]);
        encoded.push(head[1]);
        if let Some(registers) = registers {
            encoded.push(registers.encode());
            if let Some(immediate) = immediate {
                let mut tail: Vec<u8> = immediate.to_le_bytes();
                let ghost before = encoded@;
                encoded.append(&mut tail);
                assert(encoded@ =~= before + immediate.spec_le_bytes());
            }
            assert(encoded@.take(3) =~= seq![head[0], head[1]].push(registers.encoded()));
            assert(encoded@ =~= encoded_parts(*driver, Some(*registers), match immediate {
                Some(immediate) => Some(*immediate),
                None => None,
            }).unwrap());
        } else if immediate.is_some() {
            return None;
        } else {
            assert(encoded@ =~= seq![head[0], head[1]]);
        }

        Some(encoded)
    }

    /// Decode the instruction under the stream's cursor. The cursor moves
    /// behind what was read.
    pub fn new<S: ByteStream>(stream: &mut S) -> (instruction: Result<
        Instruction,
        InstructionConstructError,
    >)
        ensures
            final(stream).content() == old(stream).content(),
            instruction == Instruction::decoded(old(stream).content(), old(stream).position()),
            final(stream).position() == Instruction::decoded_end(
                old(stream).content(),
                old(stream).position(),
            ),
            instruction is Ok ==> instruction.unwrap().valid(),
    {
        let encoded_driver: Vec<u8> = match read_exact(stream, 2) {
            Some(read) => read,
            None => {
                return Err(InstructionConstructError::Length);
            },
        };

        let driver: Driver = Driver::new([encoded_driver[0], encoded_driver[1]]);

        let extension: Extension = match Extension::from_codes(driver.extension, driver.operation) {
            Ok(operation) => operation,
            Err(error) => {
                return Err(InstructionConstructError::InvalidCode(error));
            },
        };

        let operation = extension.operation();

        if let Some(presence) = operation.get_presence() {
            let data: Option<Data> = match Data::new(stream, &presence, &driver) {
                Ok(some) => Some(some),
                Err(error) => {
                    return Err(InstructionConstructError::Data(error));
                },
            };

            return Ok(Instruction { extension, data });
        }
        Ok(Instruction { extension, data: None })
    }

    /// Encode the instruction into its bytes.
    pub fn encode(&mut self) -> (encoded: Vec<u8>)
        ensures
            *final(self) == *old(self),
            encoded@ == old(self).encoded(),
    {
        let mut synchronise: bool = false;
        let mut dynamic_destination: bool = false;
        let mut addressing: u8 = 0;
        let mut immediate_exponent: u8 = 0;
        let mut registers: Option<Registers> = None;
        let mut immediate: Option<number::Data> = None;

        if let Some(data) = &self.data {
            synchronise = data.synchronous;
            dynamic_destination = match data.destination {
                Destination::Dynamic => true,
                Destination::Static => false,
            };

            let mut x_dynamic_code: u8 = 0;
            if let Some(x_dynamic) = data.operands.x_dynamic() {
                x_dynamic_code = x_dynamic.register().unwrap_or(0);
                immediate = x_dynamic.immediate();

                if let Some(immediate) = x_dynamic.immediate() {
                    immediate_exponent = immediate.exponent()
                }
                addressing = x_dynamic.addressing();
            }
            registers = Some(
                Registers {
                    width: data.width.exponent(),
                    x_static: data.operands.x_static().unwrap_or(0),
                    x_dynamic: x_dynamic_code,
                },
            );
        }
        let mut driver = Driver {
            extension: self.extension.code(),
            operation: self.extension.operation().code(),
            synchronise,
            dynamic_destination,
            addressing,
            immediate_exponent,
        };
        assert(driver == self.driver());
        assert(registers == self.registers());
        assert(immediate == self.immediate());

        // An immediate is never there without registers, so the parts always
        // have an encoding.
        let encoded: Option<Vec<u8>> = if let Some(registers) = registers {
            if let Some(immediate) = immediate {
                Instruction::encode_driver_registers_immediate(
                    &mut driver,
                    Some(&registers),
                    Some(&immediate),
                )
            } else {
                Instruction::encode_driver_registers_immediate(&mut driver, Some(&registers), None)
            }
        } else {
            Instruction::encode_driver_registers_immediate(&mut driver, None, None)
        };
        encoded.unwrap()
    }

    /// The operand that the destination names, where it can take a result.
    /// A constant is no place to store to: a dynamic destination that is a
    /// constant is refused like one that is not there.
    pub open spec fn spec_destination(&self) -> Result<Operand, DestinationError> {
        match self.data {
            None => Err(DestinationError::Data),
            Some(data) => match data.destination {
                Destination::Static => match data.operands.spec_x_static() {
                    Some(x_static) => Ok(Operand::Static(x_static)),
                    None => Err(DestinationError::Static),
                },
                Destination::Dynamic => match data.operands.spec_x_dynamic() {
                    Some(x_dynamic) => if x_dynamic.spec_is_storage() {
                        Ok(Operand::Dynamic(x_dynamic))
                    } else {
                        Err(DestinationError::Dynamic)
                    },
                    None => Err(DestinationError::Dynamic),
                },
            },
        }
    }

    /// The operand that the destination names, where it can take a result.
    #[verifier::when_used_as_spec(spec_destination)]
    pub fn destination(&self) -> (operand: Result<Operand, DestinationError>)
        ensures
            operand == self.spec_destination(),
            operand is Ok <==> self.data is Some && destination_fits(
                self.data.unwrap().destination,
                self.data.unwrap().operands,
            ),
    {
        let data = match &self.data {
            Some(data) => data,
            None => {
                return Err(DestinationError::Data);
            },
        };

        Ok(
            match data.destination {
                Destination::Static => match data.operands.x_static() {
                    Some(x_static) => Operand::Static(x_static),
                    None => {
                        return Err(DestinationError::Static);
                    },
                },
                Destination::Dynamic => match data.operands.x_dynamic() {
                    Some(x_dynamic) => {
                        if !x_dynamic.is_storage() {
                            return Err(DestinationError::Dynamic);
                        }
                        Operand::Dynamic(x_dynamic)
                    },
                    None => {
                        return Err(DestinationError::Dynamic);
                    },
                },
            },
        )
    }
}

impl Default for Instruction {
    fn default() -> (instruction: Instruction)
        ensures
            instruction == (Instruction {
                extension: Extension::Arithmetic(Arithmetic::Add),
                data: None,
            }),
    {
        Instruction { extension: Extension::default(), data: None }
    }
}

/// Whether every field of a driver that the decoder passes over is zero,
/// for an operation with the given presence: without operands the two flag
/// bits; without a dynamic operand the addressing mode; without an
/// immediate the immediate exponent.
pub open spec fn unread_driver_fields_zero(
    driver: Driver,
    presence: Option<OperandsPresence>,
) -> bool {
    match presence {
        None => !driver.synchronise && !driver.dynamic_destination && driver.addressing == 0
            && driver.immediate_exponent == 0,
        Some(presence) => {
            &&& !presence.has_dynamic() ==> driver.addressing == 0
            &&& Operands::immediate_size(presence, driver) is None ==> driver.immediate_exponent
                == 0
        },
    }
}

/// Whether every field of the registers that the decoder passes over is
/// zero: the index of an operand that is not there, and the dynamic index
/// where an immediate takes its place.
pub open spec fn unread_register_fields_zero(
    driver: Driver,
    registers: Registers,
    presence: OperandsPresence,
) -> bool {
    &&& !presence.has_static() ==> registers.x_static == 0
    &&& !presence.has_dynamic() ==> registers.x_dynamic == 0
    &&& Operands::immediate_size(presence, driver) is Some ==> registers.x_dynamic == 0
}

/// Where the codes of the driver at position `cursor` are assigned and the
/// stream holds the bytes that follow it, decoding does not fail for want of
/// bytes, and the cursor rests behind the last of them.
pub proof fn lemma_decoded_end(bytes: Seq<u8>, cursor: nat, extension: Extension)
    requires
        available(bytes, cursor, 2),
        Extension::spec_from_codes(
            Driver::decoded(bytes[cursor as int], bytes[cursor as int + 1]).extension,
            Driver::decoded(bytes[cursor as int], bytes[cursor as int + 1]).operation,
        ) == Ok::<Extension, ExtensionFromCodeInvalid>(extension),
        available(
            bytes,
            cursor,
            2 + tail_length(
                extension.presence(),
                Driver::decoded(bytes[cursor as int], bytes[cursor as int + 1]),
            ),
        ),
    ensures
        Instruction::decoded_end(bytes, cursor) == cursor + 2 + tail_length(
            extension.presence(),
            Driver::decoded(bytes[cursor as int], bytes[cursor as int + 1]),
        ),
        Instruction::decoded(bytes, cursor) is Ok || Instruction::decoded(bytes, cursor) == Err::<
            Instruction,
            InstructionConstructError,
        >(InstructionConstructError::Data(DataConstructError::Destination)),
{
}

/// A driver that names the dynamic operand as destination and gives it the
/// constant addressing mode does not decode: where the operation takes
/// operands and the registers byte and the immediate are there, decoding
/// fails for the destination.
pub proof fn lemma_constant_destination_rejected(bytes: Seq<u8>, cursor: nat, extension: Extension)
    requires
        available(bytes, cursor, 2),
        Driver::decoded(bytes[cursor as int], bytes[cursor as int + 1]).dynamic_destination,
        Driver::decoded(bytes[cursor as int], bytes[cursor as int + 1]).addressing
            == CONSTANT_ADDRESSING,
        Extension::spec_from_codes(
            Driver::decoded(bytes[cursor as int], bytes[cursor as int + 1]).extension,
            Driver::decoded(bytes[cursor as int], bytes[cursor as int + 1]).operation,
        ) == Ok::<Extension, ExtensionFromCodeInvalid>(extension),
        extension.presence() is Some,
        available(
            bytes,
            cursor,
            2 + tail_length(
                extension.presence(),
                Driver::decoded(bytes[cursor as int], bytes[cursor as int + 1]),
            ),
        ),
    ensures
        Instruction::decoded(bytes, cursor) == Err::<Instruction, InstructionConstructError>(
            InstructionConstructError::Data(DataConstructError::Destination),
        ),
{
}

/// Decoding the bytes of a valid instruction, whatever follows them, gives
/// the instruction back, and the cursor rests behind its last byte.
pub proof fn lemma_decode_encode(instruction: Instruction, tail: Seq<u8>)
    requires
        instruction.valid(),
    ensures
        Instruction::decoded(instruction.encoded() + tail, 0) == Ok::<
            Instruction,
            InstructionConstructError,
        >(instruction),
        Instruction::decoded_end(instruction.encoded() + tail, 0) == instruction.encoded().len(),
{
    let encoded = instruction.encoded();
    let bytes = encoded + tail;
    let driver = instruction.driver();
    lemma_driver_round_trip(driver);
    lemma_codes_unique(instruction.extension, 0, 0);
    assert(bytes[0] == driver.encoded0());
    assert(bytes[1] == driver.encoded1());
    match instruction.data {
        None => {},
        Some(data) => {
            let registers = instruction.registers().unwrap();
            lemma_registers_round_trip(registers);
            assert(bytes[2] == registers.encoded());
            assert(Size::with_exponent(data.width.spec_exponent()) == data.width);
            match instruction.immediate() {
                None => {},
                Some(immediate) => {
                    lemma_data_round_trip(immediate);
                    let size = immediate.spec_size();
                    assert(Size::with_exponent(size.spec_exponent()) == size);
                    assert(window(bytes, 3, size.spec_size() as nat)
                        =~= immediate.spec_le_bytes());
                },
            }
        },
    }
}

/// Encoding what a run of bytes decodes to gives the bytes that were read
/// back, where every field that the decoder passes over is zero in them.
pub proof fn lemma_encode_decode(bytes: Seq<u8>, cursor: nat)
    requires
        Instruction::decoded(bytes, cursor) is Ok,
        unread_driver_fields_zero(
            Driver::decoded(bytes[cursor as int], bytes[cursor as int + 1]),
            Instruction::decoded(bytes, cursor).unwrap().extension.presence(),
        ),
        match Instruction::decoded(bytes, cursor).unwrap().extension.presence() {
            Some(presence) => unread_register_fields_zero(
                Driver::decoded(bytes[cursor as int], bytes[cursor as int + 1]),
                Registers::decoded(bytes[cursor as int + 2]),
                presence,
            ),
            None => true,
        },
    ensures
        Instruction::decoded(bytes, cursor).unwrap().encoded() == bytes.subrange(
            cursor as int,
            Instruction::decoded_end(bytes, cursor) as int,
        ),
{
    let instruction = Instruction::decoded(bytes, cursor).unwrap();
    let end = Instruction::decoded_end(bytes, cursor);
    let driver = Driver::decoded(bytes[cursor as int], bytes[cursor as int + 1]);
    lemma_driver_bytes_round_trip(bytes[cursor as int], bytes[cursor as int + 1]);
    lemma_codes_unique(instruction.extension, driver.extension, driver.operation);
    match instruction.data {
        None => {
            assert(instruction.driver() == driver);
            assert(instruction.encoded() =~= bytes.subrange(cursor as int, end as int));
        },
        Some(data) => {
            let registers = Registers::decoded(bytes[cursor as int + 2]);
            lemma_registers_byte_round_trip(bytes[cursor as int + 2]);
            assert(Size::with_exponent(registers.width).spec_exponent() == registers.width);
            assert(instruction.registers() == Some(registers));
            match instruction.immediate() {
                None => {
                    assert(instruction.driver() == driver);
                    assert(instruction.encoded() =~= bytes.subrange(cursor as int, end as int));
                },
                Some(immediate) => {
                    let size = Size::with_exponent(driver.immediate_exponent);
                    let read = window(bytes, cursor + 3, size.spec_size() as nat);
                    lemma_le_bytes_of_value(read);
                    crate::number::lemma_le_value_bound(read);
                    assert(immediate.spec_size() == size);
                    assert(immediate.spec_le_bytes() == read);
                    assert(instruction.driver() == driver);
                    assert(instruction.encoded() =~= bytes.subrange(cursor as int, end as int));
                },
            }
        },
    }
}

} // verus!
