use atln_processor::driver::{Driver, Registers};
use atln_processor::instruction::{
    Data, DataConstructError, DestinationError, Instruction, InstructionConstructError,
};
use atln_processor::number;
use atln_processor::number::Size;
use atln_processor::operand::{
    AllPresent, Destination, Dynamic, MemoryBase, Operand, Operands, OperandsConstructError,
    CONSTANT_ADDRESSING, IMMEDIATE_EXPONENT_BYTE, MEMORY_AT_CONSTANT_ADDRESSING,
    MEMORY_AT_REGISTER_ADDRESSING, REGISTER_ADDRESSING,
};
use atln_processor::operation::{
    Arithmetic, Control, Extension, ExtensionFromCodeInvalid, OperandsPresence, ADD_CODE,
    ARITHMETIC_CODE,
};
use atln_processor::stream::{read_exact, Buffer, ByteStream};

fn decode(bytes: &[u8]) -> (Result<Instruction, InstructionConstructError>, usize) {
    let mut stream = Buffer::new(bytes.to_vec());
    let decoded = Instruction::new(&mut stream);
    (decoded, stream.cursor)
}

fn add(destination: Destination, x_static: u8, x_dynamic: Dynamic, width: Size) -> Instruction {
    Instruction {
        extension: Extension::Arithmetic(Arithmetic::Add),
        data: Some(Data {
            width,
            destination,
            synchronous: false,
            operands: Operands::AllPresent(AllPresent { x_static, x_dynamic }),
        }),
    }
}

#[test]
fn encode_driver_registers_immediate_gives_four_bytes() {
    let mut driver = Driver {
        extension: ARITHMETIC_CODE,
        operation: ADD_CODE,
        synchronise: true,
        dynamic_destination: false,
        addressing: CONSTANT_ADDRESSING,
        immediate_exponent: IMMEDIATE_EXPONENT_BYTE,
    };
    let registers = Registers { width: IMMEDIATE_EXPONENT_BYTE, x_static: 1, x_dynamic: 0 };
    let target = [0b000000_1_0, 0b0000_10_00, 0b00_001_000, 0b00001010];
    assert_eq!(
        Instruction::encode_driver_registers_immediate(
            &mut driver,
            Some(&registers),
            Some(&number::Data::Byte(10))
        )
        .unwrap(),
        target
    );
}

#[test]
fn encode_parts_without_registers() {
    let mut driver = Driver {
        extension: 0b1010,
        operation: 0b1110,
        synchronise: true,
        dynamic_destination: false,
        addressing: 0b11,
        immediate_exponent: 0b10,
    };
    assert_eq!(
        Instruction::encode_driver_registers_immediate(&mut driver, None, None),
        Some(vec![0b001010_1_0, 0b1110_11_10])
    );
    assert_eq!(
        Instruction::encode_driver_registers_immediate(
            &mut driver,
            None,
            Some(&number::Data::Byte(1))
        ),
        None
    );
    let registers = Registers { width: 3, x_static: 3, x_dynamic: 7 };
    assert_eq!(
        Instruction::encode_driver_registers_immediate(&mut driver, Some(&registers), None),
        Some(vec![0b001010_1_0, 0b1110_11_10, 0b11_011_111])
    );
    assert_eq!(
        Instruction::encode_driver_registers_immediate(
            &mut driver,
            Some(&registers),
            Some(&number::Data::Word(0x1234))
        ),
        Some(vec![0b001010_1_0, 0b1110_11_10, 0b11_011_111, 0x34, 0x12])
    );
}

#[test]
fn decode_without_operands_reads_two_bytes() {
    let (decoded, cursor) = decode(&[0b000001_0_0, 0b0000_00_00, 0xAA, 0xBB]);
    assert_eq!(
        decoded,
        Ok(Instruction { extension: Extension::Control(Control::Idle), data: None })
    );
    assert_eq!(cursor, 2);
}

#[test]
fn decode_rejects_a_constant_as_dynamic_destination() {
    let (decoded, _) = decode(&[0b000000_0_1, 0b0000_10_00, 0b00_001_000, 10]);
    assert_eq!(decoded, Err(InstructionConstructError::Data(DataConstructError::Destination)));
    for exponent in 0..4u8 {
        let mut bytes = vec![0b000000_1_1, 0b0000_10_00 | exponent, 0b01_010_101];
        bytes.extend([7u8; 8]);
        let (decoded, _) = decode(&bytes);
        assert_eq!(decoded, Err(InstructionConstructError::Data(DataConstructError::Destination)));
    }
}

#[test]
fn decode_rejects_a_destination_that_is_not_there() {
    // Increment takes the static operand only, negate the dynamic only.
    let (decoded, _) = decode(&[0b000000_0_1, 0b0010_00_00, 0b00_001_000]);
    assert_eq!(decoded, Err(InstructionConstructError::Data(DataConstructError::Destination)));
    let (decoded, _) = decode(&[0b000000_0_0, 0b0011_00_00, 0b00_000_001]);
    assert_eq!(decoded, Err(InstructionConstructError::Data(DataConstructError::Destination)));
}

#[test]
fn decode_register_operands() {
    let (decoded, cursor) = decode(&[0b000000_1_0, 0b0000_00_00, 0b10_011_101, 0xFF]);
    assert_eq!(
        decoded,
        Ok(Instruction {
            extension: Extension::Arithmetic(Arithmetic::Add),
            data: Some(Data {
                width: Size::Dual,
                destination: Destination::Static,
                synchronous: true,
                operands: Operands::AllPresent(AllPresent {
                    x_static: 3,
                    x_dynamic: Dynamic::Register(5),
                }),
            }),
        })
    );
    assert_eq!(cursor, 3);
}

#[test]
fn decode_each_addressing_mode() {
    let (decoded, cursor) = decode(&[0b000000_0_0, 0b0001_10_01, 0b01_001_111, 0x34, 0x12, 9]);
    assert_eq!(
        decoded.unwrap().data.unwrap().operands,
        Operands::AllPresent(AllPresent {
            x_static: 1,
            x_dynamic: Dynamic::Constant(number::Data::Word(0x1234)),
        })
    );
    assert_eq!(cursor, 5);

    let (decoded, cursor) = decode(&[0b000000_0_1, 0b0001_01_11, 0b11_001_110]);
    assert_eq!(
        decoded.unwrap().data.unwrap().operands,
        Operands::AllPresent(AllPresent {
            x_static: 1,
            x_dynamic: Dynamic::Memory { base: MemoryBase::Register(6), width: Size::Quad },
        })
    );
    assert_eq!(cursor, 3);

    let (decoded, cursor) =
        decode(&[0b000000_0_1, 0b0000_11_10, 0b00_010_000, 0x78, 0x56, 0x34, 0x12]);
    assert_eq!(
        decoded.unwrap().data.unwrap().operands,
        Operands::AllPresent(AllPresent {
            x_static: 2,
            x_dynamic: Dynamic::Memory {
                base: MemoryBase::Constant(number::Data::Dual(0x1234_5678)),
                width: Size::Byte,
            },
        })
    );
    assert_eq!(cursor, 7);
}

#[test]
fn decode_single_operand_operations() {
    let (decoded, cursor) = decode(&[0b000000_0_0, 0b0010_00_00, 0b01_100_000]);
    assert_eq!(
        decoded,
        Ok(Instruction {
            extension: Extension::Arithmetic(Arithmetic::Increment),
            data: Some(Data {
                width: Size::Word,
                destination: Destination::Static,
                synchronous: false,
                operands: Operands::Static(4),
            }),
        })
    );
    assert_eq!(cursor, 3);
    // The constant addressing mode of an operand that is not there reads no immediate.
    let (decoded, cursor) = decode(&[0b000000_0_0, 0b0010_10_11, 0b01_100_000]);
    assert_eq!(decoded.unwrap().data.unwrap().operands, Operands::Static(4));
    assert_eq!(cursor, 3);

    let (decoded, _) = decode(&[0b000000_0_1, 0b0011_00_00, 0b00_000_110]);
    assert_eq!(
        decoded.unwrap().data.unwrap().operands,
        Operands::Dynamic(Dynamic::Register(6))
    );
}

#[test]
fn decode_short_streams_fail_with_length() {
    assert_eq!(decode(&[]), (Err(InstructionConstructError::Length), 0));
    assert_eq!(decode(&[0]), (Err(InstructionConstructError::Length), 0));
    assert_eq!(
        decode(&[0, 0]),
        (Err(InstructionConstructError::Data(DataConstructError::Length)), 2)
    );
    assert_eq!(
        decode(&[0b000000_0_0, 0b0000_10_10, 0b00_001_000, 1, 2, 3]),
        (
            Err(InstructionConstructError::Data(DataConstructError::Operands(
                OperandsConstructError::Length
            ))),
            3
        )
    );
}

#[test]
fn decode_unassigned_codes_fail_with_invalid_code() {
    let (decoded, _) = decode(&[0b000010_0_0, 0, 0]);
    assert_eq!(
        decoded,
        Err(InstructionConstructError::InvalidCode(ExtensionFromCodeInvalid::Extension))
    );
    let (decoded, _) = decode(&[0b000000_0_0, 0b0100_00_00, 0]);
    assert_eq!(
        decoded,
        Err(InstructionConstructError::InvalidCode(ExtensionFromCodeInvalid::Operation))
    );
    let (decoded, _) = decode(&[0b000001_0_0, 0b0001_00_00, 0]);
    assert_eq!(
        decoded,
        Err(InstructionConstructError::InvalidCode(ExtensionFromCodeInvalid::Operation))
    );
}

#[test]
fn decode_starts_at_the_cursor_and_leaves_the_rest() {
    let mut stream = Buffer::new(vec![0xFF, 0b000001_0_0, 0, 0b000000_0_0, 0, 0b00_001_010, 0x55]);
    stream.set_cursor(1);
    let first = Instruction::new(&mut stream).unwrap();
    assert_eq!(first.data, None);
    assert_eq!(stream.get_cursor(), 3);
    let second = Instruction::new(&mut stream).unwrap();
    assert_eq!(second, add(Destination::Static, 1, Dynamic::Register(2), Size::Byte));
    assert_eq!(stream.get_cursor(), 6);
    assert_eq!(stream.get_current(), 0x55);
}

#[test]
fn encode_then_decode_gives_the_instruction_back() {
    let dynamics = [
        Dynamic::Register(7),
        Dynamic::Constant(number::Data::Byte(10)),
        Dynamic::Constant(number::Data::Quad(u64::MAX)),
        Dynamic::Memory { base: MemoryBase::Register(3), width: Size::Dual },
        Dynamic::Memory { base: MemoryBase::Constant(number::Data::Word(515)), width: Size::Dual },
    ];
    for x_dynamic in dynamics {
        for destination in [Destination::Static, Destination::Dynamic] {
            if destination == Destination::Dynamic && !x_dynamic.is_storage() {
                continue;
            }
            let mut instruction = add(destination, 5, x_dynamic, Size::Dual);
            let encoded = instruction.encode();
            let mut tail = encoded.clone();
            tail.extend([0xEE, 0xEE]);
            assert_eq!(decode(&tail), (Ok(instruction), encoded.len()));
        }
    }
    let mut idle = Instruction { extension: Extension::Control(Control::Idle), data: None };
    assert_eq!(idle.encode(), vec![0b000001_0_0, 0]);
    assert_eq!(decode(&idle.encode()), (Ok(idle), 2));
}

#[test]
fn decode_then_encode_gives_the_bytes_back() {
    let streams: [&[u8]; 5] = [
        &[0b000000_1_0, 0b0000_10_00, 0b00_001_000, 0b00001010],
        &[0b000000_0_1, 0b0001_11_11, 0b11_111_000, 1, 2, 3, 4, 5, 6, 7, 8],
        &[0b000000_0_1, 0b0000_01_00, 0b10_000_111],
        &[0b000000_1_0, 0b0010_00_00, 0b01_100_000],
        &[0b000001_0_0, 0b0000_00_00],
    ];
    for bytes in streams {
        let (decoded, cursor) = decode(bytes);
        assert_eq!(cursor, bytes.len());
        assert_eq!(decoded.unwrap().encode(), bytes);
    }
}

#[test]
fn decode_then_encode_zeroes_a_field_that_is_not_read() {
    let (decoded, _) = decode(&[0b000000_0_0, 0b0000_10_00, 0b00_001_111, 10]);
    assert_eq!(
        decoded.unwrap().encode(),
        vec![0b000000_0_0, 0b0000_10_00, 0b00_001_000, 10]
    );
}

#[test]
fn encode_add_with_constant() {
    let mut instruction = Instruction {
        extension: Extension::Arithmetic(Arithmetic::Add),
        data: Some(Data {
            width: Size::Byte,
            destination: Destination::Static,
            synchronous: true,
            operands: Operands::AllPresent(AllPresent {
                x_static: 1,
                x_dynamic: Dynamic::Constant(number::Data::Byte(10)),
            }),
        }),
    };
    assert_eq!(instruction.encode(), vec![0b000000_1_0, 0b0000_10_00, 0b00_001_000, 0b00001010]);
}

#[test]
fn data_new_reads_the_registers_byte() {
    let extension = Extension::Arithmetic(Arithmetic::Add);
    let operation = extension.operation();
    let data = Data::new(
        &mut Buffer::new(vec![0b00_000_000]),
        &operation.get_presence().unwrap(),
        &Driver {
            extension: extension.code(),
            operation: operation.code(),
            addressing: 0,
            dynamic_destination: false,
            immediate_exponent: 0,
            synchronise: false,
        },
    )
    .unwrap();
    assert_eq!(data.destination, Destination::Static);
    assert_eq!(data.width, Size::Byte);
}

#[test]
fn destination_names_the_operand() {
    let x_static = add(Destination::Static, 0, Dynamic::Register(1), Size::Byte);
    let x_dynamic = add(Destination::Dynamic, 0, Dynamic::Register(1), Size::Byte);
    let no_operands =
        Instruction { extension: Extension::Arithmetic(Arithmetic::Add), data: None };
    assert_eq!(x_static.destination(), Ok(Operand::Static(0)));
    assert_eq!(x_dynamic.destination(), Ok(Operand::Dynamic(Dynamic::Register(1))));
    assert_eq!(no_operands.destination(), Err(DestinationError::Data));
}

#[test]
fn destination_that_is_not_there() {
    let only_static = Instruction {
        extension: Extension::Arithmetic(Arithmetic::Increment),
        data: Some(Data {
            width: Size::Byte,
            destination: Destination::Dynamic,
            synchronous: false,
            operands: Operands::Static(1),
        }),
    };
    let only_dynamic = Instruction {
        extension: Extension::Arithmetic(Arithmetic::Negate),
        data: Some(Data {
            width: Size::Byte,
            destination: Destination::Static,
            synchronous: false,
            operands: Operands::Dynamic(Dynamic::Register(1)),
        }),
    };
    assert_eq!(only_static.destination(), Err(DestinationError::Dynamic));
    assert_eq!(only_dynamic.destination(), Err(DestinationError::Static));
}

#[test]
fn catalog_codes_and_presence() {
    let entries = [
        (Extension::Arithmetic(Arithmetic::Add), 0, 0, Some(OperandsPresence::AllPresent)),
        (Extension::Arithmetic(Arithmetic::Subtract), 0, 1, Some(OperandsPresence::AllPresent)),
        (Extension::Arithmetic(Arithmetic::Increment), 0, 2, Some(OperandsPresence::Static)),
        (Extension::Arithmetic(Arithmetic::Negate), 0, 3, Some(OperandsPresence::Dynamic)),
        (Extension::Control(Control::Idle), 1, 0, None),
    ];
    for (extension, code, operation, presence) in entries {
        assert_eq!(extension.code(), code);
        assert_eq!(extension.operation().code(), operation);
        assert_eq!(extension.operation().get_presence(), presence);
        assert_eq!(Extension::from_codes(code, operation), Ok(extension));
    }
    assert_eq!(Extension::from_codes(63, 0), Err(ExtensionFromCodeInvalid::Extension));
    assert_eq!(Extension::from_codes(0, 15), Err(ExtensionFromCodeInvalid::Operation));
}

#[test]
fn dynamic_operand_parts() {
    let register = Dynamic::new(REGISTER_ADDRESSING, 3, Size::Word, number::Data::Byte(9));
    assert_eq!(register, Dynamic::Register(3));
    assert_eq!(register.register(), Some(3));
    assert_eq!(register.immediate(), None);
    assert_eq!(register.addressing(), REGISTER_ADDRESSING);

    let constant = Dynamic::new(CONSTANT_ADDRESSING, 3, Size::Word, number::Data::Byte(9));
    assert_eq!(constant, Dynamic::Constant(number::Data::Byte(9)));
    assert_eq!(constant.register(), None);
    assert_eq!(constant.immediate(), Some(number::Data::Byte(9)));
    assert_eq!(constant.addressing(), CONSTANT_ADDRESSING);
    assert!(!constant.is_storage());

    let at_register =
        Dynamic::new(MEMORY_AT_REGISTER_ADDRESSING, 3, Size::Word, number::Data::Byte(9));
    assert_eq!(at_register, Dynamic::Memory { base: MemoryBase::Register(3), width: Size::Word });
    assert_eq!(at_register.register(), Some(3));
    assert_eq!(at_register.addressing(), MEMORY_AT_REGISTER_ADDRESSING);

    let at_constant =
        Dynamic::new(MEMORY_AT_CONSTANT_ADDRESSING, 3, Size::Word, number::Data::Byte(9));
    assert_eq!(
        at_constant,
        Dynamic::Memory { base: MemoryBase::Constant(number::Data::Byte(9)), width: Size::Word }
    );
    assert_eq!(at_constant.immediate(), Some(number::Data::Byte(9)));
    assert_eq!(at_constant.addressing(), MEMORY_AT_CONSTANT_ADDRESSING);
    assert!(at_constant.is_storage());
}

#[test]
fn read_exact_takes_a_run_or_nothing() {
    let mut stream = Buffer::new(vec![1, 2, 3, 4, 5]);
    assert_eq!(read_exact(&mut stream, 2), Some(vec![1, 2]));
    assert_eq!(stream.get_cursor(), 2);
    assert_eq!(read_exact(&mut stream, 4), None);
    assert_eq!(stream.get_cursor(), 2);
    assert_eq!(read_exact(&mut stream, 3), Some(vec![3, 4, 5]));
    assert_eq!(read_exact(&mut stream, 0), Some(vec![]));
    assert_eq!(read_exact(&mut stream, 1), None);
}

#[test]
fn buffer_cursor_moves() {
    let mut stream = Buffer::new(vec![10, 20, 30, 40]);
    assert_eq!(stream.length(), 4);
    assert_eq!(stream.get_next(), 10);
    assert_eq!(stream.get_next(), 20);
    assert_eq!(stream.get_current(), 30);
    assert_eq!(stream.get_relative(-2), 10);
    assert_eq!(stream.get_relative(1), 40);
    assert_eq!(stream.get_at(1), 20);
    stream.set_cursor(3);
    assert_eq!(stream.get_cursor(), 3);
    assert_eq!(stream.get_next(), 40);
}

#[test]
fn tail_length_counts_the_bytes_after_the_driver() {
    let tail = |driver0: u8, driver1: u8| Instruction::tail_length(&Driver::new([driver0, driver1]));
    assert_eq!(tail(0b000001_0_0, 0b0000_00_00), Ok(0));
    assert_eq!(tail(0b000000_0_0, 0b0000_00_11), Ok(1));
    assert_eq!(tail(0b000000_0_0, 0b0000_01_11), Ok(1));
    assert_eq!(tail(0b000000_0_0, 0b0000_10_00), Ok(2));
    assert_eq!(tail(0b000000_0_0, 0b0001_10_01), Ok(3));
    assert_eq!(tail(0b000000_0_0, 0b0000_11_10), Ok(5));
    assert_eq!(tail(0b000000_0_0, 0b0011_11_11), Ok(9));
    assert_eq!(tail(0b000000_0_0, 0b0010_11_11), Ok(1));
    assert_eq!(tail(0b000000_0_0, 0b1111_00_00), Err(ExtensionFromCodeInvalid::Operation));
    assert_eq!(tail(0b111111_0_0, 0b0000_00_00), Err(ExtensionFromCodeInvalid::Extension));
}

#[test]
fn operands_parts() {
    assert_eq!(
        Operands::assemble(OperandsPresence::AllPresent, 4, Dynamic::Register(5)),
        Operands::AllPresent(AllPresent { x_static: 4, x_dynamic: Dynamic::Register(5) })
    );
    assert_eq!(
        Operands::assemble(OperandsPresence::Static, 4, Dynamic::Register(5)),
        Operands::Static(4)
    );
    assert_eq!(
        Operands::assemble(OperandsPresence::Dynamic, 4, Dynamic::Register(5)).presence(),
        OperandsPresence::Dynamic
    );
    assert_eq!(Operands::Static(3).x_static(), Some(3));
    assert_eq!(Operands::Static(3).x_dynamic(), None);
    assert_eq!(Operands::Dynamic(Dynamic::Register(2)).x_static(), None);
    assert_eq!(Operands::Dynamic(Dynamic::Register(2)).x_dynamic(), Some(Dynamic::Register(2)));
}

#[test]
fn validity_of_built_instructions() {
    assert!(add(Destination::Static, 7, Dynamic::Register(7), Size::Byte).is_valid());
    assert!(!add(Destination::Static, 8, Dynamic::Register(7), Size::Byte).is_valid());
    assert!(!add(Destination::Static, 7, Dynamic::Register(8), Size::Byte).is_valid());
    assert!(!add(
        Destination::Dynamic,
        0,
        Dynamic::Constant(number::Data::Byte(1)),
        Size::Byte
    )
    .is_valid());
    assert!(add(Destination::Static, 0, Dynamic::Constant(number::Data::Quad(1)), Size::Byte)
        .is_valid());
    assert!(!add(
        Destination::Static,
        0,
        Dynamic::Memory { base: MemoryBase::Register(1), width: Size::Word },
        Size::Byte
    )
    .is_valid());
    assert!(!Instruction { extension: Extension::Arithmetic(Arithmetic::Add), data: None }
        .is_valid());
    assert!(Instruction { extension: Extension::Control(Control::Idle), data: None }.is_valid());
    let misfit = Instruction {
        extension: Extension::Arithmetic(Arithmetic::Increment),
        data: add(Destination::Static, 0, Dynamic::Register(1), Size::Byte).data,
    };
    assert!(!misfit.is_valid());
    let (decoded, _) = decode(&[0b000000_0_1, 0b0001_11_11, 0b11_111_000, 1, 2, 3, 4, 5, 6, 7, 8]);
    assert!(decoded.unwrap().is_valid());
}

#[test]
fn destination_refuses_a_constant() {
    let constant =
        add(Destination::Dynamic, 0, Dynamic::Constant(number::Data::Byte(1)), Size::Byte);
    assert_eq!(constant.destination(), Err(DestinationError::Dynamic));
    let only_constant = Instruction {
        extension: Extension::Arithmetic(Arithmetic::Negate),
        data: Some(Data {
            width: Size::Word,
            destination: Destination::Dynamic,
            synchronous: false,
            operands: Operands::Dynamic(Dynamic::Constant(number::Data::Word(9))),
        }),
    };
    assert_eq!(only_constant.destination(), Err(DestinationError::Dynamic));
    // As a source the constant is fine: the static operand takes the result.
    let source = add(Destination::Static, 4, Dynamic::Constant(number::Data::Byte(1)), Size::Byte);
    assert_eq!(source.destination(), Ok(Operand::Static(4)));
    let memory = Dynamic::Memory {
        base: MemoryBase::Constant(number::Data::Byte(1)),
        width: Size::Byte,
    };
    assert_eq!(
        add(Destination::Dynamic, 0, memory, Size::Byte).destination(),
        Ok(Operand::Dynamic(memory))
    );
}

#[test]
fn operand_defaults() {
    assert_eq!(Destination::default(), Destination::Static);
    assert_eq!(Dynamic::default(), Dynamic::Register(0));
    assert_eq!(Extension::default(), Extension::Arithmetic(Arithmetic::Add));
    assert_eq!(
        Instruction::default(),
        Instruction { extension: Extension::Arithmetic(Arithmetic::Add), data: None }
    );
}
