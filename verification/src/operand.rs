//! The operand model.
//!
//! An instruction has up to two operands. The static operand is always a
//! register. The dynamic operand is a register, a constant, or a place in
//! memory whose address is in a register or is a constant; its addressing
//! mode says which. A constant, as value or as address, is the immediate
//! that follows the registers byte.

use vstd::prelude::*;
use crate::driver::{Driver, Registers};
use crate::number::{Data, Size, le_value};
use crate::operation::OperandsPresence;
use crate::stream::{ByteStream, available, read_exact, window};

verus! {

pub const REGISTER_ADDRESSING: u8 = 0;
pub const MEMORY_AT_REGISTER_ADDRESSING: u8 = 1;
pub const CONSTANT_ADDRESSING: u8 = 2;
pub const MEMORY_AT_CONSTANT_ADDRESSING: u8 = 3;

pub const IMMEDIATE_EXPONENT_BYTE: u8 = 0;
pub const IMMEDIATE_EXPONENT_WORD: u8 = 1;
pub const IMMEDIATE_EXPONENT_DUAL: u8 = 2;
pub const IMMEDIATE_EXPONENT_QUAD: u8 = 3;

/// Whether an addressing mode is followed by an immediate. Only the low two
/// bits of the mode count.
pub open spec fn spec_takes_immediate(addressing: u8) -> bool {
    addressing % 4 == CONSTANT_ADDRESSING || addressing % 4 == MEMORY_AT_CONSTANT_ADDRESSING
}

#[verifier::when_used_as_spec(spec_takes_immediate)]
pub fn takes_immediate(addressing: u8) -> (takes: bool)
    ensures
        takes == spec_takes_immediate(addressing),
{
    let mode: u8 = addressing % 4;
    mode == CONSTANT_ADDRESSING || mode == MEMORY_AT_CONSTANT_ADDRESSING
}

/// The operand that receives the result.
#[derive(Debug, Clone, Copy, PartialEq, Eq, Structural)]
pub enum Destination {
    Static,
    Dynamic,
}

impl Default for Destination {
    fn default() -> (destination: Destination)
        ensures
            destination == Destination::Static,
    {
        Destination::Static
    }
}

/// Where the address of a memory operand comes from.
#[derive(Debug, Clone, Copy, PartialEq, Eq, Structural)]
pub enum MemoryBase {
    /// The address is the content of a register.
    Register(u8),
    /// The address is the immediate.
    Constant(Data),
}

/// The operand whose source the addressing mode chooses.
#[derive(Debug, Clone, Copy, PartialEq, Eq, Structural)]
pub enum Dynamic {
    /// The operand is a register.
    Register(u8),
    /// The operand is the immediate itself.
    Constant(Data),
    /// The operand is `width` bytes of memory.
    Memory { base: MemoryBase, width: Size },
}

impl Dynamic {
    /// The operand that an addressing mode makes of the dynamic register
    /// index, the operand width and the immediate. Only the low two bits of
    /// the mode count.
    pub open spec fn assembled(addressing: u8, register: u8, width: Size, immediate: Data) -> Dynamic {
        if addressing % 4 == REGISTER_ADDRESSING {
            Dynamic::Register(register)
        } else if addressing % 4 == CONSTANT_ADDRESSING {
            Dynamic::Constant(immediate)
        } else if addressing % 4 == MEMORY_AT_REGISTER_ADDRESSING {
            Dynamic::Memory { base: MemoryBase::Register(register), width }
        } else {
            Dynamic::Memory { base: MemoryBase::Constant(immediate), width }
        }
    }

    /// The register that the operand names, if it names one.
    pub open spec fn spec_register(&self) -> Option<u8> {
        match *self {
            Dynamic::Register(register) => Some(register),
            Dynamic::Memory { base: MemoryBase::Register(register), .. } => Some(register),
            _ => None,
        }
    }

    /// The immediate that the operand carries, if it carries one.
    pub open spec fn spec_immediate(&self) -> Option<Data> {
        match *self {
            Dynamic::Constant(immediate) => Some(immediate),
            Dynamic::Memory { base: MemoryBase::Constant(immediate), .. } => Some(immediate),
            _ => None,
        }
    }

    /// The code of the operand's addressing mode.
    pub open spec fn spec_addressing(&self) -> u8 {
        match *self {
            Dynamic::Register(_) => REGISTER_ADDRESSING,
            Dynamic::Constant(_) => CONSTANT_ADDRESSING,
            Dynamic::Memory { base: MemoryBase::Register(_), .. } => MEMORY_AT_REGISTER_ADDRESSING,
            Dynamic::Memory { base: MemoryBase::Constant(_), .. } => MEMORY_AT_CONSTANT_ADDRESSING,
        }
    }

    /// Whether the operand is a place that a result can be written to.
    pub open spec fn spec_is_storage(&self) -> bool {
        !(*self is Constant)
    }

    /// Assemble the operand for an addressing mode. The immediate is used
    /// by the two modes that take one and ignored by the others.
    pub fn new(addressing: u8, register: u8, width: Size, immediate: Data) -> (operand: Dynamic)
        ensures
            operand == Dynamic::assembled(addressing, register, width, immediate),
    {
        let mode: u8 = addressing % 4;
        if mode == REGISTER_ADDRESSING {
            Dynamic::Register(register)
        } else if mode == CONSTANT_ADDRESSING {
            Dynamic::Constant(immediate)
        } else if mode == MEMORY_AT_REGISTER_ADDRESSING {
            Dynamic::Memory { base: MemoryBase::Register(register), width }
        } else {
            Dynamic::Memory { base: MemoryBase::Constant(immediate), width }
        }
    }

    #[verifier::when_used_as_spec(spec_register)]
    pub fn register(&self) -> (register: Option<u8>)
        ensures
            register == self.spec_register(),
    {
        match self {
            Dynamic::Register(register) => Some(*register),
            Dynamic::Memory { base: MemoryBase::Register(register), .. } => Some(*register),
            _ => None,
        }
    }

    #[verifier::when_used_as_spec(spec_immediate)]
    pub fn immediate(&self) -> (immediate: Option<Data>)
        ensures
            immediate == self.spec_immediate(),
    {
        match self {
            Dynamic::Constant(immediate) => Some(*immediate),
            Dynamic::Memory { base: MemoryBase::Constant(immediate), .. } => Some(*immediate),
            _ => None,
        }
    }

    #[verifier::when_used_as_spec(spec_addressing)]
    pub fn addressing(&self) -> (addressing: u8)
        ensures
            addressing == self.spec_addressing(),
            addressing < 4,
    {
        match self {
            Dynamic::Register(_) => REGISTER_ADDRESSING,
            Dynamic::Constant(_) => CONSTANT_ADDRESSING,
            Dynamic::Memory { base: MemoryBase::Register(_), .. } => MEMORY_AT_REGISTER_ADDRESSING,
            Dynamic::Memory { base: MemoryBase::Constant(_), .. } => MEMORY_AT_CONSTANT_ADDRESSING,
        }
    }

    #[verifier::when_used_as_spec(spec_is_storage)]
    pub fn is_storage(&self) -> (storage: bool)
        ensures
            storage == self.spec_is_storage(),
    {
        match self {
            Dynamic::Constant(_) => false,
            _ => true,
        }
    }
}

impl Default for Dynamic {
    fn default() -> (operand: Dynamic)
        ensures
            operand == Dynamic::Register(0),
    {
        Dynamic::Register(0)
    }
}

/// One operand of an instruction.
#[derive(Debug, Clone, Copy, PartialEq, Eq, Structural)]
pub enum Operand {
    Static(u8),
    Dynamic(Dynamic),
}

/// Both operands.
#[derive(Debug, Clone, Copy, PartialEq, Eq, Structural)]
pub struct AllPresent {
    pub x_static: u8,
    pub x_dynamic: Dynamic,
}

/// The operands of an instruction that has any.
#[derive(Debug, Clone, Copy, PartialEq, Eq, Structural)]
pub enum Operands {
    AllPresent(AllPresent),
    Static(u8),
    Dynamic(Dynamic),
}

impl Operands {
    /// The package that a presence selects from the two operands.
    pub open spec fn assembled(presence: OperandsPresence, x_static: u8, x_dynamic: Dynamic) -> Operands {
        match presence {
            OperandsPresence::AllPresent => Operands::AllPresent(AllPresent { x_static, x_dynamic }),
            OperandsPresence::Static => Operands::Static(x_static),
            OperandsPresence::Dynamic => Operands::Dynamic(x_dynamic),
        }
    }

    pub open spec fn spec_presence(&self) -> OperandsPresence {
        match *self {
            Operands::AllPresent(_) => OperandsPresence::AllPresent,
            Operands::Static(_) => OperandsPresence::Static,
            Operands::Dynamic(_) => OperandsPresence::Dynamic,
        }
    }

    pub open spec fn spec_x_static(&self) -> Option<u8> {
        match *self {
            Operands::AllPresent(all) => Some(all.x_static),
            Operands::Static(x_static) => Some(x_static),
            Operands::Dynamic(_) => None,
        }
    }

    pub open spec fn spec_x_dynamic(&self) -> Option<Dynamic> {
        match *self {
            Operands::AllPresent(all) => Some(all.x_dynamic),
            Operands::Static(_) => None,
            Operands::Dynamic(x_dynamic) => Some(x_dynamic),
        }
    }

    /// The size of the immediate that follows the registers byte, if the
    /// operands take one: the dynamic operand is there and its addressing
    /// mode is one of the two with a constant.
    pub open spec fn immediate_size(presence: OperandsPresence, driver: Driver) -> Option<Size> {
        if presence.has_dynamic() && spec_takes_immediate(driver.addressing) {
            Some(Size::with_exponent(driver.immediate_exponent))
        } else {
            None
        }
    }

    /// The operands that the registers, the driver and the bytes from
    /// position `cursor` on give. Without an immediate the two constant modes
    /// cannot occur where the dynamic operand is there, and the byte of
    /// value 0 stands in the immediate's place.
    pub open spec fn decoded(
        bytes: Seq<u8>,
        cursor: nat,
        presence: OperandsPresence,
        registers: Registers,
        driver: Driver,
    ) -> Result<Operands, OperandsConstructError> {
        let width = Size::with_exponent(registers.width);
        match Operands::immediate_size(presence, driver) {
            Some(size) => if available(bytes, cursor, size.spec_size() as nat) {
                let immediate = Data::assembled(
                    size,
                    le_value(window(bytes, cursor, size.spec_size() as nat)),
                );
                Ok(
                    Operands::assembled(
                        presence,
                        registers.x_static,
                        Dynamic::assembled(driver.addressing, registers.x_dynamic, width, immediate),
                    ),
                )
            } else {
                Err(OperandsConstructError::Length)
            },
            None => Ok(
                Operands::assembled(
                    presence,
                    registers.x_static,
                    Dynamic::assembled(
                        driver.addressing,
                        registers.x_dynamic,
                        width,
                        Data::Byte(0),
                    ),
                ),
            ),
        }
    }

    /// Where the cursor rests after the operands were read from position
    /// `cursor` on: behind the immediate where one was read, else in place.
    pub open spec fn decoded_end(
        bytes: Seq<u8>,
        cursor: nat,
        presence: OperandsPresence,
        driver: Driver,
    ) -> nat {
        match Operands::immediate_size(presence, driver) {
            Some(size) => if available(bytes, cursor, size.spec_size() as nat) {
                cursor + size.spec_size() as nat
            } else {
                cursor
            },
            None => cursor,
        }
    }

    /// Select the operands that `presence` names.
    pub fn assemble(presence: OperandsPresence, x_static: u8, x_dynamic: Dynamic) -> (operands:
        Operands)
        ensures
            operands == Operands::assembled(presence, x_static, x_dynamic),
    {
        match presence {
            OperandsPresence::AllPresent => Operands::AllPresent(AllPresent { x_static, x_dynamic }),
            OperandsPresence::Static => Operands::Static(x_static),
            OperandsPresence::Dynamic => Operands::Dynamic(x_dynamic),
        }
    }

    /// Build the operands from the registers byte and the driver, reading
    /// the immediate from the stream where the dynamic operand takes one.
    pub fn new<S: ByteStream>(
        stream: &mut S,
        presence: &OperandsPresence,
        registers: &Registers,
        driver: &Driver,
    ) -> (operands: Result<Operands, OperandsConstructError>)
        ensures
            final(stream).content() == old(stream).content(),
            operands == Operands::decoded(
                old(stream).content(),
                old(stream).position(),
                *presence,
                *registers,
                *driver,
            ),
            final(stream).position() == Operands::decoded_end(
                old(stream).content(),
                old(stream).position(),
                *presence,
                *driver,
            ),
    {
        let width: Size = Size::from_exponent_bits(registers.width);
        let has_dynamic: bool = match presence {
            OperandsPresence::Static => false,
            _ => true,
        };
        let mut immediate: Data = Data::Byte(0);
        if has_dynamic && takes_immediate(driver.addressing) {
            let size: Size = Size::from_exponent_bits(driver.immediate_exponent);
            let count: u8 = size.size();
            match read_exact(stream, count as usize) {
                None => {
                    return Err(OperandsConstructError::Length);
                },
                Some(bytes) => {
                    immediate = Data::from_le_bytes(size, bytes.as_slice());
                },
            }
        }
        let x_dynamic: Dynamic = Dynamic::new(
            driver.addressing,
            registers.x_dynamic,
            width,
            immediate,
        );
        Ok(Operands::assemble(*presence, registers.x_static, x_dynamic))
    }

    /// Which operands are there.
    #[verifier::when_used_as_spec(spec_presence)]
    pub fn presence(&self) -> (presence: OperandsPresence)
        ensures
            presence == self.spec_presence(),
    {
        match self {
            Operands::AllPresent(_) => OperandsPresence::AllPresent,
            Operands::Static(_) => OperandsPresence::Static,
            Operands::Dynamic(_) => OperandsPresence::Dynamic,
        }
    }

    /// The static operand's register, if the operand is there.
    #[verifier::when_used_as_spec(spec_x_static)]
    pub fn x_static(&self) -> (x_static: Option<u8>)
        ensures
            x_static == self.spec_x_static(),
    {
        match self {
            Operands::AllPresent(all) => Some(all.x_static),
            Operands::Static(x_static) => Some(*x_static),
            Operands::Dynamic(_) => None,
        }
    }

    /// The dynamic operand, if it is there.
    #[verifier::when_used_as_spec(spec_x_dynamic)]
    pub fn x_dynamic(&self) -> (x_dynamic: Option<Dynamic>)
        ensures
            x_dynamic == self.spec_x_dynamic(),
    {
        match self {
            Operands::AllPresent(all) => Some(all.x_dynamic),
            Operands::Static(_) => None,
            Operands::Dynamic(x_dynamic) => Some(*x_dynamic),
        }
    }
}

/// Why the operands of an instruction could not be read.
#[derive(Debug, Clone, Copy, PartialEq, Eq, Structural)]
pub enum OperandsConstructError {
    /// The stream ended before the end of the immediate.
    Length,
}

} // verus!
