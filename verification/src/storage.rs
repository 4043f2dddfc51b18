//! Operand storage by presence mode.
//!
//! An operation takes both operands, one of them, or none. A [`Mode`] says
//! which; a [`Storage`] is the package of operand slots for a mode, with
//! room for the operands' values.

use vstd::prelude::*;
use vstd::std_specs::convert::FromSpecImpl;
use crate::operand::{AllPresent, Dynamic, Operands};
use crate::operation::OperandsPresence;

verus! {

/// The first operand: always a register, named by its index.
#[derive(Debug, Clone, Copy, PartialEq, Eq, Structural)]
pub struct FirstOperand(pub u8);

/// Both operands.
#[derive(Debug, Clone, Copy, PartialEq, Eq, Structural)]
pub struct Full {
    pub first: FirstOperand,
    pub second: Dynamic,
}

/// Only the first operand.
#[derive(Debug, Clone, Copy, PartialEq, Eq, Structural)]
pub struct First {
    pub first: FirstOperand,
}

/// Only the second operand.
#[derive(Debug, Clone, Copy, PartialEq, Eq, Structural)]
pub struct Second {
    pub second: Dynamic,
}

/// The operands that an instruction holds, by the mode of its operation.
#[derive(Debug, Clone, Copy, PartialEq, Eq, Structural)]
pub enum Storage {
    Full(Full),
    Second(Second),
    First(First),
    Absent,
}

/// Which operands an operation takes.
#[derive(Debug, Clone, Copy, PartialEq, Eq, Structural)]
pub enum Mode {
    Full,
    Second,
    First,
    Absent,
}

impl Default for FirstOperand {
    fn default() -> (operand: FirstOperand)
        ensures
            operand == FirstOperand(0),
    {
        FirstOperand(0)
    }
}

impl Default for Full {
    fn default() -> (full: Full)
        ensures
            full == (Full { first: FirstOperand(0), second: Dynamic::Register(0) }),
    {
        Full { first: FirstOperand::default(), second: Dynamic::default() }
    }
}

impl Default for First {
    fn default() -> (first: First)
        ensures
            first == (First { first: FirstOperand(0) }),
    {
        First { first: FirstOperand::default() }
    }
}

impl Default for Second {
    fn default() -> (second: Second)
        ensures
            second == (Second { second: Dynamic::Register(0) }),
    {
        Second { second: Dynamic::default() }
    }
}

impl Default for Storage {
    fn default() -> (storage: Storage)
        ensures
            storage == Storage::Absent,
    {
        Storage::Absent
    }
}

impl Default for Mode {
    fn default() -> (mode: Mode)
        ensures
            mode == Mode::Absent,
    {
        Mode::Absent
    }
}

impl Storage {
    /// The empty package for a mode: register 0 in every slot.
    pub open spec fn empty(mode: Mode) -> Storage {
        match mode {
            Mode::Full => Storage::Full(
                Full { first: FirstOperand(0), second: Dynamic::Register(0) },
            ),
            Mode::Second => Storage::Second(Second { second: Dynamic::Register(0) }),
            Mode::First => Storage::First(First { first: FirstOperand(0) }),
            Mode::Absent => Storage::Absent,
        }
    }

    /// The mode that a package belongs to.
    pub open spec fn mode(self) -> Mode {
        match self {
            Storage::Full(_) => Mode::Full,
            Storage::Second(_) => Mode::Second,
            Storage::First(_) => Mode::First,
            Storage::Absent => Mode::Absent,
        }
    }

    /// The package that holds the operands of an instruction, which has none
    /// where its operation takes none.
    pub open spec fn packed(operands: Option<Operands>) -> Storage {
        match operands {
            Some(Operands::AllPresent(all)) => Storage::Full(
                Full { first: FirstOperand(all.x_static), second: all.x_dynamic },
            ),
            Some(Operands::Static(x_static)) => Storage::First(
                First { first: FirstOperand(x_static) },
            ),
            Some(Operands::Dynamic(x_dynamic)) => Storage::Second(Second { second: x_dynamic }),
            None => Storage::Absent,
        }
    }

    /// The operands of an instruction that a package holds.
    pub open spec fn unpacked(self) -> Option<Operands> {
        match self {
            Storage::Full(full) => Some(
                Operands::AllPresent(AllPresent { x_static: full.first.0, x_dynamic: full.second }),
            ),
            Storage::First(first) => Some(Operands::Static(first.first.0)),
            Storage::Second(second) => Some(Operands::Dynamic(second.second)),
            Storage::Absent => None,
        }
    }

    /// Pack the operands of an instruction.
    pub fn pack(operands: Option<Operands>) -> (storage: Storage)
        ensures
            storage == Storage::packed(operands),
            storage.unpacked() == operands,
    {
        match operands {
            Some(Operands::AllPresent(all)) => Storage::Full(
                Full { first: FirstOperand(all.x_static), second: all.x_dynamic },
            ),
            Some(Operands::Static(x_static)) => Storage::First(
                First { first: FirstOperand(x_static) },
            ),
            Some(Operands::Dynamic(x_dynamic)) => Storage::Second(Second { second: x_dynamic }),
            None => Storage::Absent,
        }
    }

    /// The operands of an instruction that the package holds.
    pub fn unpack(self) -> (operands: Option<Operands>)
        ensures
            operands == self.unpacked(),
            Storage::packed(operands) == self,
    {
        match self {
            Storage::Full(full) => Some(
                Operands::AllPresent(AllPresent { x_static: full.first.0, x_dynamic: full.second }),
            ),
            Storage::First(first) => Some(Operands::Static(first.first.0)),
            Storage::Second(second) => Some(Operands::Dynamic(second.second)),
            Storage::Absent => None,
        }
    }
}

impl Mode {
    /// The mode of an operation with the given presence.
    pub open spec fn of(presence: Option<OperandsPresence>) -> Mode {
        match presence {
            Some(OperandsPresence::AllPresent) => Mode::Full,
            Some(OperandsPresence::Static) => Mode::First,
            Some(OperandsPresence::Dynamic) => Mode::Second,
            None => Mode::Absent,
        }
    }

    /// The mode of an operation with the given presence.
    pub fn new(presence: Option<OperandsPresence>) -> (mode: Mode)
        ensures
            mode == Mode::of(presence),
    {
        match presence {
            Some(OperandsPresence::AllPresent) => Mode::Full,
            Some(OperandsPresence::Static) => Mode::First,
            Some(OperandsPresence::Dynamic) => Mode::Second,
            None => Mode::Absent,
        }
    }
}

impl From<Mode> for Storage {
    fn from(value: Mode) -> (storage: Storage) {
        match value {
            Mode::Full => Storage::Full(Full::default()),
            Mode::Second => Storage::Second(Second::default()),
            Mode::First => Storage::First(First::default()),
            Mode::Absent => Storage::Absent,
        }
    }
}

impl FromSpecImpl<Mode> for Storage {
    open spec fn obeys_from_spec() -> bool {
        true
    }

    open spec fn from_spec(value: Mode) -> Storage {
        Storage::empty(value)
    }
}

impl From<Storage> for Mode {
    fn from(value: Storage) -> (mode: Mode) {
        match value {
            Storage::Full(_) => Mode::Full,
            Storage::Second(_) => Mode::Second,
            Storage::First(_) => Mode::First,
            Storage::Absent => Mode::Absent,
        }
    }
}

impl FromSpecImpl<Storage> for Mode {
    open spec fn obeys_from_spec() -> bool {
        true
    }

    open spec fn from_spec(value: Storage) -> Mode {
        value.mode()
    }
}

/// The empty package for a mode belongs to that mode, and the package of an
/// instruction's operands belongs to the mode of their presence.
pub proof fn lemma_mode_of_storage(mode: Mode, operands: Option<Operands>)
    ensures
        Storage::empty(mode).mode() == mode,
        Storage::packed(operands).mode() == Mode::of(
            match operands {
                Some(operands) => Some(operands.spec_presence()),
                None => None,
            },
        ),
{
}

} // verus!
