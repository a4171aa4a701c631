use chip8::instruction::Instruction;
use chip8::program::{LoadError, Machine, MachineError, UIAction};

fn exec(m: &mut Machine, ins: Instruction) -> Result<Option<UIAction>, MachineError> {
    m.handle_instruction(ins, 0)
}

fn lit_count(m: &Machine) -> usize {
    m.get_pixel_buffer().iter().map(|row| row.iter().filter(|c| **c).count()).sum()
}

fn machine_with_registers(x: u8, a: u8, y: u8, b: u8) -> Machine {
    let mut m = Machine::load(&[]).unwrap();
    exec(&mut m, Instruction::SetV { register: x, value: a }).unwrap();
    exec(&mut m, Instruction::SetV { register: y, value: b }).unwrap();
    m
}

#[test]
fn load_places_program_and_font() {
    let m = Machine::load(&[0x12, 0x34]).unwrap();
    assert_eq!(m.program_counter(), 512);
    assert_eq!(m.memory_at(512), 0x12);
    assert_eq!(m.memory_at(513), 0x34);
    assert_eq!(m.memory_at(514), 0);
    assert_eq!(m.memory_at(0x50), 0xf0);
    assert_eq!(m.memory_at(0x9f), 0x80);
    assert_eq!(m.stack_depth(), 0);
    assert_eq!(m.pressed_key(), None);
    assert_eq!(lit_count(&m), 0);
}

#[test]
fn load_accepts_largest_program() {
    let program = vec![0xaau8; 3584];
    let m = Machine::load(&program).unwrap();
    assert_eq!(m.memory_at(4095), 0xaa);
}

#[test]
fn load_rejects_oversized_program() {
    let program = vec![0u8; 3585];
    assert!(matches!(Machine::load(&program), Err(LoadError::ProgramTooLarge { size: 3585 })));
}

#[test]
fn add_sets_carry() {
    let mut m = machine_with_registers(1, 200, 2, 100);
    exec(&mut m, Instruction::AddRegisters { register_x: 1, register_y: 2 }).unwrap();
    assert_eq!(m.register(1), 44);
    assert_eq!(m.register(15), 1);
    let mut m = machine_with_registers(1, 200, 2, 55);
    exec(&mut m, Instruction::AddRegisters { register_x: 1, register_y: 2 }).unwrap();
    assert_eq!(m.register(1), 255);
    assert_eq!(m.register(15), 0);
}

#[test]
fn sub_sets_no_borrow() {
    let mut m = machine_with_registers(1, 5, 2, 7);
    exec(&mut m, Instruction::SubtractXMinusY { register_x: 1, register_y: 2 }).unwrap();
    assert_eq!(m.register(1), 254);
    assert_eq!(m.register(15), 0);
    let mut m = machine_with_registers(1, 7, 2, 7);
    exec(&mut m, Instruction::SubtractXMinusY { register_x: 1, register_y: 2 }).unwrap();
    assert_eq!(m.register(1), 0);
    assert_eq!(m.register(15), 1);
}

#[test]
fn subn_sets_no_borrow() {
    let mut m = machine_with_registers(1, 5, 2, 7);
    exec(&mut m, Instruction::SubtractYMinusX { register_x: 1, register_y: 2 }).unwrap();
    assert_eq!(m.register(1), 2);
    assert_eq!(m.register(15), 1);
    let mut m = machine_with_registers(1, 7, 2, 5);
    exec(&mut m, Instruction::SubtractYMinusX { register_x: 1, register_y: 2 }).unwrap();
    assert_eq!(m.register(1), 254);
    assert_eq!(m.register(15), 0);
}

#[test]
fn shifts_report_the_lost_bit() {
    let mut m = machine_with_registers(3, 0x81, 4, 0);
    exec(&mut m, Instruction::ShiftRegisterLeft { register_x: 3, register_y: 4 }).unwrap();
    assert_eq!(m.register(3), 0x02);
    assert_eq!(m.register(15), 1);
    exec(&mut m, Instruction::ShiftRegisterRight { register_x: 3, register_y: 4 }).unwrap();
    assert_eq!(m.register(3), 0x01);
    assert_eq!(m.register(15), 0);
    exec(&mut m, Instruction::ShiftRegisterRight { register_x: 3, register_y: 4 }).unwrap();
    assert_eq!(m.register(3), 0x00);
    assert_eq!(m.register(15), 1);
}

#[test]
fn bitwise_and_immediate_ops() {
    let mut m = machine_with_registers(1, 0b1100, 2, 0b1010);
    exec(&mut m, Instruction::OrRegisters { register_x: 1, register_y: 2 }).unwrap();
    assert_eq!(m.register(1), 0b1110);
    exec(&mut m, Instruction::AndRegisters { register_x: 1, register_y: 2 }).unwrap();
    assert_eq!(m.register(1), 0b1010);
    exec(&mut m, Instruction::XorRegisters { register_x: 1, register_y: 2 }).unwrap();
    assert_eq!(m.register(1), 0);
    exec(&mut m, Instruction::StoreYToX { register_x: 1, register_y: 2 }).unwrap();
    assert_eq!(m.register(1), 0b1010);
    exec(&mut m, Instruction::AddToRegister { register: 1, value: 250 }).unwrap();
    assert_eq!(m.register(1), 4);
}

#[test]
fn set_random_masks_the_byte() {
    let mut m = Machine::load(&[]).unwrap();
    m.handle_instruction(Instruction::SetRandomNumber { register: 2, mask: 0x0f }, 0xab).unwrap();
    assert_eq!(m.register(2), 0x0b);
    let mut m = Machine::load(&[0xc2, 0x00]).unwrap();
    exec(&mut m, Instruction::SetV { register: 2, value: 9 }).unwrap();
    m.step().unwrap();
    assert_eq!(m.register(2), 0);
}

#[test]
fn draw_twice_restores_frame() {
    let mut m = machine_with_registers(0, 10, 1, 3);
    exec(&mut m, Instruction::StoreAddrToI(0x50)).unwrap();
    assert_eq!(
        exec(&mut m, Instruction::Draw { register_x: 0, register_y: 1, bytes: 5 }),
        Ok(Some(UIAction::Draw))
    );
    assert_eq!(m.register(15), 0);
    assert_eq!(lit_count(&m), 14);
    assert!(m.get_pixel_buffer()[3][10]);
    exec(&mut m, Instruction::Draw { register_x: 0, register_y: 1, bytes: 5 }).unwrap();
    assert_eq!(m.register(15), 1);
    assert_eq!(lit_count(&m), 0);
}

#[test]
fn draw_over_lit_cells_reports_collision() {
    let mut m = machine_with_registers(0, 0, 1, 0);
    exec(&mut m, Instruction::StoreAddrToI(0x50)).unwrap();
    exec(&mut m, Instruction::Draw { register_x: 0, register_y: 1, bytes: 1 }).unwrap();
    exec(&mut m, Instruction::SetV { register: 0, value: 2 }).unwrap();
    exec(&mut m, Instruction::Draw { register_x: 0, register_y: 1, bytes: 1 }).unwrap();
    assert_eq!(m.register(15), 1);
    let row = m.get_pixel_buffer()[0];
    assert_eq!(&row[0..7], &[true, true, false, false, true, true, false]);
}

#[test]
fn draw_clips_at_edges() {
    let mut m = machine_with_registers(0, 60, 1, 30);
    exec(&mut m, Instruction::StoreAddrToI(0x50)).unwrap();
    exec(&mut m, Instruction::Draw { register_x: 0, register_y: 1, bytes: 5 }).unwrap();
    let pb = m.get_pixel_buffer();
    assert!(pb[30][60] && pb[30][63]);
    assert!(pb[31][60] && !pb[31][61]);
    assert!(!pb[0][0] && !pb[0][60] && !pb[30][0]);
    assert_eq!(lit_count(&m), 6);
}

#[test]
fn draw_coordinates_wrap_modulo_grid() {
    let mut m = machine_with_registers(0, 64 + 2, 1, 32 + 1);
    exec(&mut m, Instruction::StoreAddrToI(0x50)).unwrap();
    exec(&mut m, Instruction::Draw { register_x: 0, register_y: 1, bytes: 1 }).unwrap();
    assert!(m.get_pixel_buffer()[1][2]);
}

#[test]
fn call_then_return() {
    let mut m = Machine::load(&[0x22, 0x04, 0x00, 0x00, 0x00, 0xee]).unwrap();
    m.step().unwrap();
    assert_eq!(m.program_counter(), 0x204);
    assert_eq!(m.stack_depth(), 1);
    m.step().unwrap();
    assert_eq!(m.program_counter(), 0x202);
    assert_eq!(m.stack_depth(), 0);
}

#[test]
fn return_with_empty_stack_faults() {
    let mut m = Machine::load(&[0x00, 0xee]).unwrap();
    assert_eq!(m.step(), Err(MachineError::StackUnderflow));
    assert_eq!(m.program_counter(), 514);
}

#[test]
fn faulting_steps_still_count_timers_down() {
    let mut m = Machine::load(&[0x60, 0x05, 0xf0, 0x15, 0x00, 0xee]).unwrap();
    m.step().unwrap();
    m.step().unwrap();
    assert_eq!(m.delay_timer(), 5);
    for _ in 0..5 {
        exec(&mut m, Instruction::JumpToAddress(0x204)).unwrap();
        assert_eq!(m.step(), Err(MachineError::StackUnderflow));
    }
    assert_eq!(m.delay_timer(), 0);
    assert_eq!(m.program_counter(), 0x206);
}

#[test]
fn unknown_opcode_faults() {
    let mut m = Machine::load(&[0xff, 0xff]).unwrap();
    assert_eq!(m.step(), Err(MachineError::UnknownOpcode { opcode: 0xffff, address: 512 }));
    assert_eq!(m.program_counter(), 514);
}

#[test]
fn fetch_past_memory_faults() {
    let mut m = Machine::load(&[]).unwrap();
    exec(&mut m, Instruction::JumpToAddress(0xfff)).unwrap();
    assert_eq!(m.step(), Err(MachineError::MemoryOutOfRange { start: 0xfff, len: 2 }));
    assert_eq!(m.program_counter(), 0xfff);
}

#[test]
fn memory_access_past_end_faults() {
    let mut m = Machine::load(&[]).unwrap();
    exec(&mut m, Instruction::StoreAddrToI(0xffe)).unwrap();
    assert_eq!(
        exec(&mut m, Instruction::StoreBcd(0)),
        Err(MachineError::MemoryOutOfRange { start: 0xffe, len: 3 })
    );
    assert_eq!(
        exec(&mut m, Instruction::SaveRegisters(2)),
        Err(MachineError::MemoryOutOfRange { start: 0xffe, len: 3 })
    );
    assert_eq!(
        exec(&mut m, Instruction::LoadRegisters(2)),
        Err(MachineError::MemoryOutOfRange { start: 0xffe, len: 3 })
    );
    assert_eq!(
        exec(&mut m, Instruction::Draw { register_x: 0, register_y: 0, bytes: 3 }),
        Err(MachineError::MemoryOutOfRange { start: 0xffe, len: 3 })
    );
    assert_eq!(lit_count(&m), 0);
}

#[test]
fn timers_count_down_and_stop_at_zero() {
    let program: Vec<u8> = vec![0x60, 0x03, 0xf0, 0x15, 0xf0, 0x18, 0x12, 0x06];
    let mut m = Machine::load(&program).unwrap();
    m.step().unwrap();
    m.step().unwrap();
    m.step().unwrap();
    assert_eq!(m.delay_timer(), 2);
    assert_eq!(m.sound_timer(), 3);
    assert!(m.is_sound_playing());
    for _ in 0..300 {
        m.step().unwrap();
    }
    assert_eq!(m.delay_timer(), 0);
    assert_eq!(m.sound_timer(), 0);
    assert!(!m.is_sound_playing());
}

#[test]
fn get_delay_reads_timer() {
    let mut m = Machine::load(&[0x60, 0x09, 0xf0, 0x15, 0xf1, 0x07]).unwrap();
    m.step().unwrap();
    m.step().unwrap();
    m.step().unwrap();
    assert_eq!(m.register(1), 8);
}

#[test]
fn bcd_and_register_blocks() {
    let mut m = machine_with_registers(0, 254, 1, 7);
    exec(&mut m, Instruction::StoreAddrToI(0x300)).unwrap();
    exec(&mut m, Instruction::StoreBcd(0)).unwrap();
    assert_eq!((m.memory_at(0x300), m.memory_at(0x301), m.memory_at(0x302)), (2, 5, 4));
    exec(&mut m, Instruction::SaveRegisters(1)).unwrap();
    assert_eq!((m.memory_at(0x300), m.memory_at(0x301), m.memory_at(0x302)), (254, 7, 4));
    assert_eq!(m.index_register(), 0x300);
    exec(&mut m, Instruction::StoreAddrToI(0x301)).unwrap();
    exec(&mut m, Instruction::LoadRegisters(1)).unwrap();
    assert_eq!((m.register(0), m.register(1)), (7, 4));
}

#[test]
fn index_register_ops() {
    let mut m = machine_with_registers(0, 0x1b, 1, 0xff);
    exec(&mut m, Instruction::SetIToFontLocation(0)).unwrap();
    assert_eq!(m.index_register(), 0x50 + 5 * 0xb);
    exec(&mut m, Instruction::StoreAddrToI(0xfff)).unwrap();
    exec(&mut m, Instruction::AddRegisterToI(1)).unwrap();
    assert_eq!(m.index_register(), 0xfff + 0xff);
}

#[test]
fn skips_advance_pc() {
    let mut m = machine_with_registers(0, 4, 1, 4);
    exec(&mut m, Instruction::SkipIfEqual { register: 0, value: 4 }).unwrap();
    assert_eq!(m.program_counter(), 514);
    exec(&mut m, Instruction::SkipIfNotEqual { register: 0, value: 4 }).unwrap();
    assert_eq!(m.program_counter(), 514);
    exec(&mut m, Instruction::SkipIfRegistersEqual { register_x: 0, register_y: 1 }).unwrap();
    assert_eq!(m.program_counter(), 516);
    exec(&mut m, Instruction::SkipIfRegistersNotEqual { register_x: 0, register_y: 1 }).unwrap();
    assert_eq!(m.program_counter(), 516);
}

#[test]
fn key_skips_use_low_nibble() {
    let mut m = machine_with_registers(0, 0x17, 1, 0);
    exec(&mut m, Instruction::SkipIfKeyPressed(0)).unwrap();
    assert_eq!(m.program_counter(), 512);
    exec(&mut m, Instruction::SkipIfKeyNotPressed(0)).unwrap();
    assert_eq!(m.program_counter(), 514);
    m.key_press(7);
    exec(&mut m, Instruction::SkipIfKeyPressed(0)).unwrap();
    assert_eq!(m.program_counter(), 516);
    exec(&mut m, Instruction::SkipIfKeyNotPressed(0)).unwrap();
    assert_eq!(m.program_counter(), 516);
}

#[test]
fn key_release_clears_latch_whatever_key() {
    let mut m = Machine::load(&[]).unwrap();
    m.key_press(3);
    assert_eq!(m.pressed_key(), Some(3));
    m.key_press(9);
    assert_eq!(m.pressed_key(), Some(9));
    m.key_release(4);
    assert_eq!(m.pressed_key(), None);
}

#[test]
fn jump_with_offset_adds_v0() {
    let mut m = machine_with_registers(0, 0x10, 1, 0);
    exec(&mut m, Instruction::JumpWithOffset(0x300)).unwrap();
    assert_eq!(m.program_counter(), 0x310);
}

#[test]
fn clear_screen_scenario() {
    let mut m = Machine::load(&[0x00, 0xe0]).unwrap();
    exec(&mut m, Instruction::SetV { register: 0, value: 5 }).unwrap();
    exec(&mut m, Instruction::SetV { register: 1, value: 5 }).unwrap();
    exec(&mut m, Instruction::StoreAddrToI(0x50)).unwrap();
    exec(&mut m, Instruction::Draw { register_x: 0, register_y: 1, bytes: 1 }).unwrap();
    assert!(m.get_pixel_buffer()[5][5]);
    assert_eq!(m.step(), Ok(Some(UIAction::ClearScreen)));
    assert_eq!(lit_count(&m), 0);
    assert_eq!(m.program_counter(), 514);
}

#[test]
fn set_then_add_scenario() {
    let mut m = Machine::load(&[0x60, 0x05, 0x70, 0x03]).unwrap();
    assert_eq!(m.step(), Ok(None));
    assert_eq!(m.step(), Ok(None));
    assert_eq!(m.register(0), 8);
    assert_eq!(m.program_counter(), 516);
}

#[test]
fn get_key_scenario() {
    let mut m = Machine::load(&[0xf0, 0x0a]).unwrap();
    m.step().unwrap();
    assert_eq!(m.program_counter(), 512);
    m.key_press(0x7);
    m.step().unwrap();
    assert_eq!(m.register(0), 7);
    assert_eq!(m.program_counter(), 514);
}
