//! The operation catalog.
//!
//! Operations are grouped into extensions. An extension has a 6-bit code, an
//! operation a 4-bit code within its extension, and each operation names the
//! operands that it takes. The catalog is closed: a pair of codes outside it
//! does not decode.

use vstd::prelude::*;

verus! {

pub const ARITHMETIC_CODE: u8 = 0;
pub const CONTROL_CODE: u8 = 1;

pub const ADD_CODE: u8 = 0;
pub const SUBTRACT_CODE: u8 = 1;
pub const INCREMENT_CODE: u8 = 2;
pub const NEGATE_CODE: u8 = 3;

pub const IDLE_CODE: u8 = 0;

/// The operands that an operation takes.
#[derive(Debug, Clone, Copy, PartialEq, Eq, Structural)]
pub enum OperandsPresence {
    /// The static and the dynamic operand.
    AllPresent,
    /// The static operand only.
    Static,
    /// The dynamic operand only.
    Dynamic,
}

impl OperandsPresence {
    pub open spec fn has_static(self) -> bool {
        self != OperandsPresence::Dynamic
    }

    pub open spec fn has_dynamic(self) -> bool {
        self != OperandsPresence::Static
    }
}

/// Integer arithmetic that wraps at the operand width.
#[derive(Debug, Clone, Copy, PartialEq, Eq, Structural)]
pub enum Arithmetic {
    /// static + dynamic
    Add,
    /// static - dynamic
    Subtract,
    /// static + 1
    Increment,
    /// 0 - dynamic
    Negate,
}

/// Operations that compute nothing.
#[derive(Debug, Clone, Copy, PartialEq, Eq, Structural)]
pub enum Control {
    /// Takes no operand and changes nothing.
    Idle,
}

/// An operation, named by its extension.
#[derive(Debug, Clone, Copy, PartialEq, Eq, Structural)]
pub enum Extension {
    Arithmetic(Arithmetic),
    Control(Control),
}

/// Which of the two codes is not assigned.
#[derive(Debug, Clone, Copy, PartialEq, Eq, Structural)]
pub enum ExtensionFromCodeInvalid {
    /// No extension has the code.
    Extension,
    /// The extension has no operation with the code.
    Operation,
}

/// The code of an operation within its extension, and the operands it takes.
#[derive(Debug, Clone, Copy, PartialEq, Eq, Structural)]
pub struct Operation {
    pub code: u8,
    pub presence: Option<OperandsPresence>,
}

impl Operation {
    pub fn code(&self) -> (code: u8)
        ensures
            code == self.code,
    {
        self.code
    }

    pub fn get_presence(&self) -> (presence: Option<OperandsPresence>)
        ensures
            presence == self.presence,
    {
        self.presence
    }
}

impl Extension {
    /// The extension's code.
    pub open spec fn spec_code(&self) -> u8 {
        match *self {
            Extension::Arithmetic(_) => ARITHMETIC_CODE,
            Extension::Control(_) => CONTROL_CODE,
        }
    }

    /// The operation's code within the extension.
    pub open spec fn operation_code(self) -> u8 {
        match self {
            Extension::Arithmetic(Arithmetic::Add) => ADD_CODE,
            Extension::Arithmetic(Arithmetic::Subtract) => SUBTRACT_CODE,
            Extension::Arithmetic(Arithmetic::Increment) => INCREMENT_CODE,
            Extension::Arithmetic(Arithmetic::Negate) => NEGATE_CODE,
            Extension::Control(Control::Idle) => IDLE_CODE,
        }
    }

    /// The operands that the operation takes; `None` where it takes none.
    pub open spec fn presence(self) -> Option<OperandsPresence> {
        match self {
            Extension::Arithmetic(Arithmetic::Add) => Some(OperandsPresence::AllPresent),
            Extension::Arithmetic(Arithmetic::Subtract) => Some(OperandsPresence::AllPresent),
            Extension::Arithmetic(Arithmetic::Increment) => Some(OperandsPresence::Static),
            Extension::Arithmetic(Arithmetic::Negate) => Some(OperandsPresence::Dynamic),
            Extension::Control(Control::Idle) => None,
        }
    }

    /// The catalog entry with the two codes, or which code is unassigned.
    pub open spec fn spec_from_codes(extension: u8, operation: u8) -> Result<
        Extension,
        ExtensionFromCodeInvalid,
    > {
        if extension == ARITHMETIC_CODE {
            if operation == ADD_CODE {
                Ok(Extension::Arithmetic(Arithmetic::Add))
            } else if operation == SUBTRACT_CODE {
                Ok(Extension::Arithmetic(Arithmetic::Subtract))
            } else if operation == INCREMENT_CODE {
                Ok(Extension::Arithmetic(Arithmetic::Increment))
            } else if operation == NEGATE_CODE {
                Ok(Extension::Arithmetic(Arithmetic::Negate))
            } else {
                Err(ExtensionFromCodeInvalid::Operation)
            }
        } else if extension == CONTROL_CODE {
            if operation == IDLE_CODE {
                Ok(Extension::Control(Control::Idle))
            } else {
                Err(ExtensionFromCodeInvalid::Operation)
            }
        } else {
            Err(ExtensionFromCodeInvalid::Extension)
        }
    }

    #[verifier::when_used_as_spec(spec_code)]
    pub fn code(&self) -> (code: u8)
        ensures
            code == self.spec_code(),
            code < 64,
    {
        match self {
            Extension::Arithmetic(_) => ARITHMETIC_CODE,
            Extension::Control(_) => CONTROL_CODE,
        }
    }

    /// The operation that this entry names.
    pub fn operation(&self) -> (operation: Operation)
        ensures
            operation.code == self.operation_code(),
            operation.presence == self.presence(),
            operation.code < 16,
    {
        match self {
            Extension::Arithmetic(Arithmetic::Add) => Operation {
                code: ADD_CODE,
                presence: Some(OperandsPresence::AllPresent),
            },
            Extension::Arithmetic(Arithmetic::Subtract) => Operation {
                code: SUBTRACT_CODE,
                presence: Some(OperandsPresence::AllPresent),
            },
            Extension::Arithmetic(Arithmetic::Increment) => Operation {
                code: INCREMENT_CODE,
                presence: Some(OperandsPresence::Static),
            },
            Extension::Arithmetic(Arithmetic::Negate) => Operation {
                code: NEGATE_CODE,
                presence: Some(OperandsPresence::Dynamic),
            },
            Extension::Control(Control::Idle) => Operation { code: IDLE_CODE, presence: None },
        }
    }

    /// Look an operation up by its two codes.
    pub fn from_codes(extension: u8, operation: u8) -> (found: Result<
        Extension,
        ExtensionFromCodeInvalid,
    >)
        ensures
            found == Extension::spec_from_codes(extension, operation),
    {
        if extension == ARITHMETIC_CODE {
            if operation == ADD_CODE {
                Ok(Extension::Arithmetic(Arithmetic::Add))
            } else if operation == SUBTRACT_CODE {
                Ok(Extension::Arithmetic(Arithmetic::Subtract))
            } else if operation == INCREMENT_CODE {
                Ok(Extension::Arithmetic(Arithmetic::Increment))
            } else if operation == NEGATE_CODE {
                Ok(Extension::Arithmetic(Arithmetic::Negate))
            } else {
                Err(ExtensionFromCodeInvalid::Operation)
            }
        } else if extension == CONTROL_CODE {
            if operation == IDLE_CODE {
                Ok(Extension::Control(Control::Idle))
            } else {
                Err(ExtensionFromCodeInvalid::Operation)
            }
        } else {
            Err(ExtensionFromCodeInvalid::Extension)
        }
    }
}

impl Default for Extension {
    fn default() -> (extension: Extension)
        ensures
            extension == Extension::Arithmetic(Arithmetic::Add),
    {
        Extension::Arithmetic(Arithmetic::Add)
    }
}

/// Every catalog entry is found again by its codes, and every pair of codes
/// that is found names an entry with those codes: codes are unique.
pub proof fn lemma_codes_unique(extension: Extension, extension_code: u8, operation_code: u8)
    ensures
        Extension::spec_from_codes(extension.spec_code(), extension.operation_code()) == Ok::<
            Extension,
            ExtensionFromCodeInvalid,
        >(extension),
        Extension::spec_from_codes(extension_code, operation_code) == Ok::<
            Extension,
            ExtensionFromCodeInvalid,
        >(extension) ==> extension.spec_code() == extension_code && extension.operation_code()
            == operation_code,
{
}

} // verus!
