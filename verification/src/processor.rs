//! The execution core.
//!
//! A core owns eight 64-bit registers, a program counter and a flag
//! register. Executing an instruction reads its operands at the operand
//! width, computes, and writes the result to the destination together
//! with the flags. An instruction that fails changes nothing.

use vstd::prelude::*;
use crate::instruction::{DestinationError, Instruction};
use crate::memory::{Memory, Ports, in_range, number_at, overwritten};
use crate::number::{Data, Size, le_bytes, lemma_fits, lemma_le_bytes_len};
use crate::operand::{Destination, Dynamic, MemoryBase, Operand};
use crate::operation::{Arithmetic, Control, Extension};

verus! {

/// The number of general-purpose registers.
pub const REGISTERS: usize = 8;

/// What the last computation said of its result.
#[derive(Debug, Clone, Copy, PartialEq, Eq, Structural)]
pub struct Flags {
    /// The unsigned result did not fit the width: a carry out of an
    /// addition, a borrow into a subtraction.
    pub carry: bool,
    /// The signed result did not fit the width.
    pub overflow: bool,
    /// The result is zero.
    pub zero: bool,
    /// The top bit of the result is set.
    pub negative: bool,
}

#[derive(Debug, Clone, Copy)]
pub struct Context {
    pub registers: [u64; 8],
    /// The program counter.
    pub counter: u64,
    pub flags: Flags,
}

#[derive(Debug, Clone, Copy)]
pub struct Core {
    pub context: Context,
}

/// Why an instruction was not executed.
#[derive(Debug, Clone, Copy, PartialEq, Eq, Structural)]
pub enum ExecuteError {
    /// An operand lies outside the memory.
    MemoryRange,
    /// An operand names a register that the core does not have.
    RegisterRange,
    /// A constant or a memory operand is not as wide as the operands.
    WidthMismatch,
    /// The operands are not those that the operation takes.
    Operands,
    /// The destination names no place that can take the result: an operand
    /// that is not there, or a constant.
    Destination(DestinationError),
}

/// A place that a result can be written to.
#[derive(Debug, Clone, Copy, PartialEq, Eq, Structural)]
pub enum Place {
    Register(u8),
    Memory(u64),
}

/// The state that an instruction leaves behind.
pub struct Effect {
    pub registers: Seq<u64>,
    pub flags: Flags,
    pub memory: Seq<u8>,
}

/// The sum of two numbers, or their difference where `subtracts` is set,
/// modulo `modulus`, and what the flags say of it. The inputs are cut to the
/// modulus first. The top bit of a number is set where twice the number
/// reaches the modulus.
pub open spec fn computed(subtracts: bool, a: int, b: int, modulus: int) -> (int, Flags) {
    let a = a % modulus;
    let b = b % modulus;
    let result = if subtracts {
        (a - b) % modulus
    } else {
        (a + b) % modulus
    };
    let a_top = 2 * a >= modulus;
    let b_top = 2 * b >= modulus;
    let top = 2 * result >= modulus;
    (
        result,
        Flags {
            carry: if subtracts {
                a < b
            } else {
                a + b >= modulus
            },
            overflow: if subtracts {
                a_top != b_top && top != a_top
            } else {
                a_top == b_top && top != a_top
            },
            zero: result == 0,
            negative: top,
        },
    )
}

impl Arithmetic {
    /// Whether the operation subtracts its dynamic input from its static
    /// input; else it adds the two.
    pub open spec fn spec_subtracts(&self) -> bool {
        *self == Arithmetic::Subtract || *self == Arithmetic::Negate
    }

    /// The result for the static input `a` and the dynamic input `b`.
    pub open spec fn result(self, a: u64, b: u64, width: Size) -> int {
        computed(self.spec_subtracts(), a as int, b as int, width.modulus() as int).0
    }

    /// The flags for the static input `a` and the dynamic input `b`.
    pub open spec fn flags(self, a: u64, b: u64, width: Size) -> Flags {
        computed(self.spec_subtracts(), a as int, b as int, width.modulus() as int).1
    }

    #[verifier::when_used_as_spec(spec_subtracts)]
    pub fn subtracts(&self) -> (subtracts: bool)
        ensures
            subtracts == self.spec_subtracts(),
    {
        match self {
            Arithmetic::Subtract => true,
            Arithmetic::Negate => true,
            _ => false,
        }
    }

    /// Compute the operation at the given width. The inputs are cut to the
    /// width first; the result wraps at it.
    pub fn compute(&self, a: u64, b: u64, width: Size) -> (result: (u64, Flags))
        ensures
            result.0 == self.result(a, b, width),
            result.0 < width.modulus(),
            result.1 == self.flags(a, b, width),
    {
        let subtracts: bool = self.subtracts();
        match width {
            Size::Byte => compute_modulo(subtracts, a, b, 0x100),
            Size::Word => compute_modulo(subtracts, a, b, 0x1_0000),
            Size::Dual => compute_modulo(subtracts, a, b, 0x1_0000_0000),
            Size::Quad => compute_modulo(subtracts, a, b, 0x1_0000_0000_0000_0000),
        }
    }
}

/// The sum or the difference of two numbers modulo one of the four moduli,
/// with its flags.
fn compute_modulo(subtracts: bool, a: u64, b: u64, modulus: u128) -> (result: (u64, Flags))
    requires
        modulus == 0x100 || modulus == 0x1_0000 || modulus == 0x1_0000_0000 || modulus
            == 0x1_0000_0000_0000_0000,
    ensures
        result.0 < modulus,
        (result.0 as int, result.1) == computed(subtracts, a as int, b as int, modulus as int),
{
    let a: u128 = a as u128 % modulus;
    let b: u128 = b as u128 % modulus;
    let half: u128 = modulus / 2;
    let raw: u128 = if subtracts {
        a + modulus - b
    } else {
        a + b
    };
    let result: u128 = raw % modulus;
    proof {
        if subtracts {
            assert((a + modulus - b) % modulus as int == (a - b) % modulus as int) by {
                if a >= b {
                    assert((a - b) % modulus as int == a - b);
                    assert((a + modulus - b) % modulus as int == a - b);
                } else {
                    assert((a - b) % modulus as int == a - b + modulus);
                }
            }
        }
    }
    let carry: bool = if subtracts {
        a < b
    } else {
        raw >= modulus
    };
    let a_top: bool = a >= half;
    let b_top: bool = b >= half;
    let top: bool = result >= half;
    let overflow: bool = if subtracts {
        a_top != b_top && top != a_top
    } else {
        a_top == b_top && top != a_top
    };
    (result as u64, Flags { carry, overflow, zero: result == 0, negative: top })
}

/// What register `index` holds, cut to the width.
pub open spec fn register_value(registers: Seq<u64>, index: u8, width: Size) -> Result<
    u64,
    ExecuteError,
> {
    if index < REGISTERS {
        Ok((registers[index as int] as nat % width.modulus()) as u64)
    } else {
        Err(ExecuteError::RegisterRange)
    }
}

/// The address that a memory operand's base gives.
pub open spec fn base_address(registers: Seq<u64>, base: MemoryBase) -> Result<u64, ExecuteError> {
    match base {
        MemoryBase::Register(index) => if index < REGISTERS {
            Ok(registers[index as int])
        } else {
            Err(ExecuteError::RegisterRange)
        },
        MemoryBase::Constant(address) => Ok(address.spec_value()),
    }
}

/// The value of a dynamic operand for operands of width `width`.
pub open spec fn dynamic_value(
    registers: Seq<u64>,
    memory: Seq<u8>,
    operand: Dynamic,
    width: Size,
) -> Result<u64, ExecuteError> {
    match operand {
        Dynamic::Register(index) => register_value(registers, index, width),
        Dynamic::Constant(immediate) => if immediate.spec_size() == width {
            Ok(immediate.spec_value())
        } else {
            Err(ExecuteError::WidthMismatch)
        },
        Dynamic::Memory { base, width: memory_width } => if memory_width != width {
            Err(ExecuteError::WidthMismatch)
        } else {
            match base_address(registers, base) {
                Err(error) => Err(error),
                Ok(address) => if in_range(memory.len(), address, width.spec_size() as nat) {
                    Ok(number_at(memory, address, width).spec_value())
                } else {
                    Err(ExecuteError::MemoryRange)
                },
            }
        },
    }
}

/// The place that the destination of an instruction names.
pub open spec fn destination_place(
    registers: Seq<u64>,
    destination: Destination,
    x_static: Option<u8>,
    x_dynamic: Option<Dynamic>,
) -> Result<Place, ExecuteError> {
    match destination {
        Destination::Static => match x_static {
            Some(index) => Ok(Place::Register(index)),
            None => Err(ExecuteError::Destination(DestinationError::Static)),
        },
        Destination::Dynamic => match x_dynamic {
            Some(Dynamic::Register(index)) => Ok(Place::Register(index)),
            Some(Dynamic::Memory { base, .. }) => match base_address(registers, base) {
                Ok(address) => Ok(Place::Memory(address)),
                Err(error) => Err(error),
            },
            _ => Err(ExecuteError::Destination(DestinationError::Dynamic)),
        },
    }
}

/// The state after `result`, of width `width`, was written to `place` and the
/// flags were set. A register takes the result with its higher bytes zero;
/// memory takes its bytes, least significant first.
pub open spec fn stored(
    registers: Seq<u64>,
    memory: Seq<u8>,
    place: Place,
    result: u64,
    width: Size,
    flags: Flags,
) -> Effect {
    match place {
        Place::Register(index) => Effect {
            registers: registers.update(index as int, result),
            flags,
            memory,
        },
        Place::Memory(address) => Effect {
            registers,
            flags,
            memory: overwritten(memory, address, le_bytes(result as nat, width.spec_size() as nat)),
        },
    }
}

impl Core {
    /// What executing `instruction` does to the registers, the flags and the
    /// memory, or why it is refused.
    ///
    /// An operation without operands changes nothing, and is refused where
    /// the instruction carries operands all the same. An arithmetic
    /// operation needs the operands that it takes, no more and no fewer. Its
    /// static input is the static register, or 0 where it takes none; its
    /// dynamic input is the dynamic operand, or 1 where it takes none. Both
    /// are read before the destination is looked at.
    pub open spec fn outcome(
        instruction: Instruction,
        registers: Seq<u64>,
        flags: Flags,
        memory: Seq<u8>,
    ) -> Result<Effect, ExecuteError> {
        match instruction.extension {
            Extension::Control(Control::Idle) => match instruction.data {
                None => Ok(Effect { registers, flags, memory }),
                Some(_) => Err(ExecuteError::Operands),
            },
            Extension::Arithmetic(operation) => match instruction.data {
                None => Err(ExecuteError::Destination(DestinationError::Data)),
                Some(data) => {
                    let x_static = data.operands.spec_x_static();
                    let x_dynamic = data.operands.spec_x_dynamic();
                    let a = match x_static {
                        Some(index) => register_value(registers, index, data.width),
                        None => Ok(0),
                    };
                    let b = match x_dynamic {
                        Some(operand) => dynamic_value(registers, memory, operand, data.width),
                        None => Ok(1),
                    };
                    let place = destination_place(registers, data.destination, x_static, x_dynamic);
                    if instruction.extension.presence() != Some(data.operands.spec_presence()) {
                        Err(ExecuteError::Operands)
                    } else if a is Err {
                        Err(a->Err_0)
                    } else if b is Err {
                        Err(b->Err_0)
                    } else if place is Err {
                        Err(place->Err_0)
                    } else {
                        Ok(
                            stored(
                                registers,
                                memory,
                                place->Ok_0,
                                operation.result(a->Ok_0, b->Ok_0, data.width) as u64,
                                data.width,
                                operation.flags(a->Ok_0, b->Ok_0, data.width),
                            ),
                        )
                    }
                },
            },
        }
    }

    /// Register `index`, cut to the width.
    pub fn read_register(&self, index: u8, width: Size) -> (value: Result<u64, ExecuteError>)
        ensures
            value == register_value(self.context.registers@, index, width),
    {
        if index as usize >= REGISTERS {
            return Err(ExecuteError::RegisterRange);
        }
        let word: u64 = self.context.registers[index as usize];
        Ok(Data::truncate(width, word).value())
    }

    /// Write a number to register `index`: its low bytes are the number, the
    /// bytes above them are zero. The other registers stay.
    pub fn write_register(&mut self, index: u8, data: Data) -> (written: Result<(), ExecuteError>)
        ensures
            index < REGISTERS ==> written is Ok && final(self).context.registers@ == old(self).context.registers@.update(index as int, data.spec_value()),
            index < REGISTERS ==> final(self).context.registers[index as int] as nat
                % data.spec_size().modulus() == data.spec_value(),
            index < REGISTERS ==> final(self).context.registers[index as int] as nat
                / data.spec_size().modulus() == 0,
            index >= REGISTERS ==> written == Err::<(), ExecuteError>(ExecuteError::RegisterRange)
                && final(self).context.registers@ == old(self).context.registers@,
            final(self).context.counter == old(self).context.counter,
            final(self).context.flags == old(self).context.flags,
    {
        if index as usize >= REGISTERS {
            return Err(ExecuteError::RegisterRange);
        }
        let word: u64 = data.value();
        proof {
            lemma_fits(word as nat, data.spec_size());
        }
        self.context.registers[index as usize] = word;
        Ok(())
    }

    /// The address that a memory operand's base gives.
    pub fn address(&self, base: &MemoryBase) -> (address: Result<u64, ExecuteError>)
        ensures
            address == base_address(self.context.registers@, *base),
    {
        match base {
            MemoryBase::Register(index) => {
                if *index as usize >= REGISTERS {
                    Err(ExecuteError::RegisterRange)
                } else {
                    Ok(self.context.registers[*index as usize])
                }
            },
            MemoryBase::Constant(address) => Ok(address.value()),
        }
    }

    /// The value of a dynamic operand for operands of width `width`.
    pub fn fetch(&self, memory: &Memory, operand: &Dynamic, width: Size) -> (value: Result<
        u64,
        ExecuteError,
    >)
        ensures
            value == dynamic_value(self.context.registers@, memory.bytes@, *operand, width),
    {
        match operand {
            Dynamic::Register(index) => self.read_register(*index, width),
            Dynamic::Constant(immediate) => {
                if immediate.size() == width {
                    Ok(immediate.value())
                } else {
                    Err(ExecuteError::WidthMismatch)
                }
            },
            Dynamic::Memory { base, width: memory_width } => {
                if *memory_width != width {
                    return Err(ExecuteError::WidthMismatch);
                }
                let address: u64 = match self.address(base) {
                    Ok(address) => address,
                    Err(error) => {
                        return Err(error);
                    },
                };
                match memory.read(address, width) {
                    Ok(data) => Ok(data.value()),
                    Err(_) => Err(ExecuteError::MemoryRange),
                }
            },
        }
    }

    /// The place that the destination of an instruction names.
    pub fn place(
        &self,
        destination: Destination,
        x_static: Option<u8>,
        x_dynamic: Option<Dynamic>,
    ) -> (place: Result<Place, ExecuteError>)
        ensures
            place == destination_place(self.context.registers@, destination, x_static, x_dynamic),
    {
        match destination {
            Destination::Static => match x_static {
                Some(index) => Ok(Place::Register(index)),
                None => Err(ExecuteError::Destination(DestinationError::Static)),
            },
            Destination::Dynamic => match x_dynamic {
                Some(Dynamic::Register(index)) => Ok(Place::Register(index)),
                Some(Dynamic::Memory { base, .. }) => match self.address(&base) {
                    Ok(address) => Ok(Place::Memory(address)),
                    Err(error) => Err(error),
                },
                _ => Err(ExecuteError::Destination(DestinationError::Dynamic)),
            },
        }
    }

    /// Execute one instruction. On success the registers, the flags and the
    /// memory are as [`Core::outcome`] says; on an error all three are as they
    /// were. The program counter and the ports are never touched.
    pub fn execute(&mut self, instruction: &Instruction, memory: &mut Memory, ports: &mut Ports) -> (
        executed: Result<(), ExecuteError>)
        ensures
            final(ports).words@ == old(ports).words@,
            final(self).context.counter == old(self).context.counter,
            match Core::outcome(
                *instruction,
                old(self).context.registers@,
                old(self).context.flags,
                old(memory).bytes@,
            ) {
                Ok(effect) => executed is Ok && final(self).context.registers@ == effect.registers
                    && final(self).context.flags == effect.flags && final(memory).bytes@
                    == effect.memory,
                Err(error) => executed == Err::<(), ExecuteError>(error) && final(self).context.registers@ == old(self).context.registers@ && final(self).context.flags
                    == old(self).context.flags && final(memory).bytes@ == old(memory).bytes@,
            },
    {
        let operation: Arithmetic = match instruction.extension {
            Extension::Control(Control::Idle) => {
                return match instruction.data {
                    None => Ok(()),
                    Some(_) => Err(ExecuteError::Operands),
                };
            },
            Extension::Arithmetic(operation) => operation,
        };
        let data = match instruction.data {
            Some(data) => data,
            None => {
                return Err(ExecuteError::Destination(DestinationError::Data));
            },
        };
        let taken: bool = match instruction.extension.operation().get_presence() {
            Some(presence) => presence == data.operands.presence(),
            None => false,
        };
        if !taken {
            return Err(ExecuteError::Operands);
        }
        let x_static: Option<u8> = data.operands.x_static();
        let x_dynamic: Option<Dynamic> = data.operands.x_dynamic();
        let a: u64 = match x_static {
            Some(index) => match self.read_register(index, data.width) {
                Ok(value) => value,
                Err(error) => {
                    return Err(error);
                },
            },
            None => 0,
        };
        let b: u64 = match x_dynamic {
            Some(operand) => match self.fetch(memory, &operand, data.width) {
                Ok(value) => value,
                Err(error) => {
                    return Err(error);
                },
            },
            None => 1,
        };
        let place: Place = match self.place(data.destination, x_static, x_dynamic) {
            Ok(place) => place,
            Err(error) => {
                return Err(error);
            },
        };
        let (result, flags) = operation.compute(a, b, data.width);
        proof {
            lemma_fits(result as nat, data.width);
        }
        self.store(memory, place, result, data.width, flags);
        Ok(())
    }

    /// Whether `width` bytes can be written to `place`.
    pub open spec fn writable(place: Place, width: Size, memory: Seq<u8>) -> bool {
        match place {
            Place::Register(index) => index < REGISTERS,
            Place::Memory(address) => in_range(memory.len(), address, width.spec_size() as nat),
        }
    }

    /// Write the low `width` bytes of a result to `place` and set the flags.
    /// Where the place cannot be written to, nothing changes.
    pub fn store(&mut self, memory: &mut Memory, place: Place, result: u64, width: Size, flags: Flags)
        ensures
            final(self).context.counter == old(self).context.counter,
            Core::writable(place, width, old(memory).bytes@) ==> ({
                let effect = stored(
                    old(self).context.registers@,
                    old(memory).bytes@,
                    place,
                    (result as nat % width.modulus()) as u64,
                    width,
                    flags,
                );
                &&& final(self).context.registers@ == effect.registers
                &&& final(self).context.flags == effect.flags
                &&& final(memory).bytes@ == effect.memory
            }),
            !Core::writable(place, width, old(memory).bytes@) ==> ({
                &&& final(self).context.registers@ == old(self).context.registers@
                &&& final(self).context.flags == old(self).context.flags
                &&& final(memory).bytes@ == old(memory).bytes@
            }),
    {
        let number: Data = Data::truncate(width, result);
        let written: bool = match place {
            Place::Register(index) => self.write_register(index, number).is_ok(),
            Place::Memory(address) => memory.write(address, number).is_ok(),
        };
        if written {
            self.context.flags = flags;
        }
    }
}

impl Default for Core {
    fn default() -> (core: Core)
        ensures
            forall|index: int| 0 <= index < REGISTERS ==> core.context.registers[index] == 0,
            core.context.counter == 0,
            core.context.flags == (Flags {
                carry: false,
                overflow: false,
                zero: false,
                negative: false,
            }),
    {
        Core {
            context: Context {
                registers: [0u64; 8],
                counter: 0,
                flags: Flags { carry: false, overflow: false, zero: false, negative: false },
            },
        }
    }
}

/// The place that execution writes to is the one that the instruction's
/// destination names: where the instruction gives no destination, execution
/// refuses with the same reason; a static or a register destination is that
/// register; a memory destination is the address of its base.
pub proof fn lemma_place_follows_destination(instruction: Instruction, registers: Seq<u64>)
    requires
        instruction.data is Some,
    ensures
        ({
            let data = instruction.data.unwrap();
            let place = destination_place(
                registers,
                data.destination,
                data.operands.spec_x_static(),
                data.operands.spec_x_dynamic(),
            );
            match instruction.spec_destination() {
                Err(error) => place == Err::<Place, ExecuteError>(
                    ExecuteError::Destination(error),
                ),
                Ok(Operand::Static(index)) => place == Ok::<Place, ExecuteError>(
                    Place::Register(index),
                ),
                Ok(Operand::Dynamic(Dynamic::Register(index))) => place == Ok::<
                    Place,
                    ExecuteError,
                >(Place::Register(index)),
                Ok(Operand::Dynamic(Dynamic::Memory { base, .. })) => place == match base_address(
                    registers,
                    base,
                ) {
                    Ok(address) => Ok::<Place, ExecuteError>(Place::Memory(address)),
                    Err(error) => Err(error),
                },
                Ok(Operand::Dynamic(Dynamic::Constant(_))) => false,
            }
        }),
{
}

/// The number that a value of width `width` stands for where its top bit
/// counts negative.
pub open spec fn signed(value: int, width: Size) -> int {
    if 2 * value >= width.modulus() {
        value - width.modulus()
    } else {
        value
    }
}

/// What the flags mean for inputs that fit the width: carry says that the
/// unsigned sum or difference left the width's range, overflow that the
/// signed one did, negative that the result is below zero as a signed
/// number; and the signed result is the signed sum or difference whenever
/// that fits.
pub proof fn lemma_flags_meaning(operation: Arithmetic, a: u64, b: u64, width: Size)
    requires
        a < width.modulus(),
        b < width.modulus(),
    ensures
        ({
            let result = operation.result(a, b, width);
            let flags = operation.flags(a, b, width);
            let exact = if operation.spec_subtracts() {
                a - b
            } else {
                a + b
            };
            let signed_exact = if operation.spec_subtracts() {
                signed(a as int, width) - signed(b as int, width)
            } else {
                signed(a as int, width) + signed(b as int, width)
            };
            &&& 0 <= result < width.modulus()
            &&& flags.carry <==> !(0 <= exact < width.modulus())
            &&& !flags.carry ==> result == exact
            &&& flags.overflow <==> !(-(width.modulus() as int) <= 2 * signed_exact
                < width.modulus())
            &&& !flags.overflow ==> signed(result, width) == signed_exact
            &&& flags.negative <==> signed(result, width) < 0
            &&& flags.zero <==> result == 0
        }),
{
    let modulus = width.modulus() as int;
    lemma_fits(a as nat, width);
    lemma_fits(b as nat, width);
    let exact = if operation.spec_subtracts() {
        a - b
    } else {
        a + b
    };
    match width {
        Size::Byte => {
            lemma_wrapped(exact, 0x100);
        },
        Size::Word => {
            lemma_wrapped(exact, 0x1_0000);
        },
        Size::Dual => {
            lemma_wrapped(exact, 0x1_0000_0000);
        },
        Size::Quad => {
            lemma_wrapped(exact, 0x1_0000_0000_0000_0000);
        },
    }
}

/// A number less than one modulus away from the range of the remainders is
/// that far from its own remainder.
proof fn lemma_wrapped(value: int, modulus: int)
    requires
        modulus == 0x100 || modulus == 0x1_0000 || modulus == 0x1_0000_0000 || modulus
            == 0x1_0000_0000_0000_0000,
        -modulus <= value < 2 * modulus,
    ensures
        value < 0 ==> value % modulus == value + modulus,
        0 <= value < modulus ==> value % modulus == value,
        value >= modulus ==> value % modulus == value - modulus,
{
}

/// A valid instruction is refused only for an operand outside the memory or
/// for a constant that is not as wide as the operands. Where it is executed,
/// no register and no byte of memory is added or lost.
pub proof fn lemma_valid_instruction_outcome(
    instruction: Instruction,
    registers: Seq<u64>,
    flags: Flags,
    memory: Seq<u8>,
)
    requires
        instruction.valid(),
        registers.len() == REGISTERS,
    ensures
        match Core::outcome(instruction, registers, flags, memory) {
            Ok(effect) => effect.registers.len() == REGISTERS && effect.memory.len()
                == memory.len(),
            Err(error) => error == ExecuteError::MemoryRange || error
                == ExecuteError::WidthMismatch,
        },
{
    match instruction.data {
        Some(data) => {
            let count = data.width.spec_size() as nat;
            assert forall|value: nat| #[trigger] le_bytes(value, count).len() == count by {
                lemma_le_bytes_len(value, count);
            }
        },
        None => {},
    }
}

} // verus!
