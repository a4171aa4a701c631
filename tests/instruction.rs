use chip8::instruction::{parse_opcode, split_opcode, Instruction};

#[test]
fn split_test() {
    assert_eq!(split_opcode(0xabcd), (0xa, 0xb, 0xc, 0xd));
    assert_eq!(split_opcode(0x839a), (0x8, 0x3, 0x9, 0xa));
}

#[test]
fn opcode_test() {
    let instructions_and_opcodes: Vec<(u16, Instruction)> = vec![
        (0x00e0, Instruction::ClearScreen),
        (0xa22a, Instruction::StoreAddrToI(0x22a)),
        (0x600c, Instruction::SetV { register: 0, value: 0x0c }),
        (0xd01f, Instruction::Draw { register_x: 0, register_y: 1, bytes: 0xf }),
        (0x7009, Instruction::AddToRegister { register: 0, value: 0x09 }),
        (0x1228, Instruction::JumpToAddress(0x228)),
        (0x3c00, Instruction::SkipIfEqual { register: 0xc, value: 0x00 }),
        (0x4040, Instruction::SkipIfNotEqual { register: 0, value: 0x40 }),
        (0xf21e, Instruction::AddRegisterToI(2)),
        (0x221a, Instruction::CallSubroutineAtAddress(0x21a)),
        (0x00ee, Instruction::ReturnFromSubroutine),
        (0xcc01, Instruction::SetRandomNumber { register: 0xc, mask: 0x01 }),
        (0x5ab0, Instruction::SkipIfRegistersEqual { register_x: 0xa, register_y: 0xb }),
        (0x8cd1, Instruction::OrRegisters { register_x: 0xc, register_y: 0xd }),
        (0x83a2, Instruction::AndRegisters { register_x: 0x3, register_y: 0xa }),
        (0x8633, Instruction::XorRegisters { register_x: 0x6, register_y: 0x3 }),
        (0x8fa4, Instruction::AddRegisters { register_x: 0xf, register_y: 0xa }),
        (0x8fa5, Instruction::SubtractXMinusY { register_x: 0xf, register_y: 0xa }),
        (0x8cd7, Instruction::SubtractYMinusX { register_x: 0xc, register_y: 0xd }),
        (0x9cf0, Instruction::SkipIfRegistersNotEqual { register_x: 0xc, register_y: 0xf }),
        (0x8cae, Instruction::ShiftRegisterLeft { register_x: 0xc, register_y: 0xa }),
    ];

    for (instruction, opcode) in instructions_and_opcodes {
        assert_eq!(
            parse_opcode(instruction),
            Some(opcode),
            "Expecting instruction {:#04x?} to translate to opcode {:#04x?}",
            instruction,
            opcode
        );
    }
}

#[test]
fn decodes_remaining_forms() {
    let cases: Vec<(u16, Instruction)> = vec![
        (0xb123, Instruction::JumpWithOffset(0x123)),
        (0x8ab6, Instruction::ShiftRegisterRight { register_x: 0xa, register_y: 0xb }),
        (0x8ab0, Instruction::StoreYToX { register_x: 0xa, register_y: 0xb }),
        (0xe49e, Instruction::SkipIfKeyPressed(4)),
        (0xe5a1, Instruction::SkipIfKeyNotPressed(5)),
        (0xf607, Instruction::SetRegisterFromDelayTimer(6)),
        (0xf70a, Instruction::HaltAndGetKey(7)),
        (0xf815, Instruction::SetDelayTimerFromRegister(8)),
        (0xf918, Instruction::SetSoundTimerFromRegister(9)),
        (0xfa29, Instruction::SetIToFontLocation(0xa)),
        (0xfb33, Instruction::StoreBcd(0xb)),
        (0xfc55, Instruction::SaveRegisters(0xc)),
        (0xfd65, Instruction::LoadRegisters(0xd)),
    ];
    for (word, expected) in cases {
        assert_eq!(parse_opcode(word), Some(expected));
    }
}

#[test]
fn rejects_unknown_words() {
    for word in [0x0000u16, 0x00e1, 0x5121, 0x8128, 0x9121, 0xe100, 0xf100, 0xffff] {
        assert_eq!(parse_opcode(word), None);
    }
}
