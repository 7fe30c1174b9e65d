use rv32vm::{ArchState, Fault, Instruction, SmallImmediate, I, R, S};

fn addi_program(words: usize) -> Vec<u8> {
    let op: u32 = 0x0010_8093;
    let mut bytes = Vec::new();
    for _ in 0..words {
        bytes.extend_from_slice(&op.to_be_bytes());
    }
    bytes
}

#[test]
fn register_zero_discards_writes() {
    let mut state = ArchState::with_mem(16);
    for v in [0, 1, 0xDEAD_BEEF, u32::MAX] {
        state.set_register(0, v);
        assert_eq!(state.get_register(0), 0);
    }
    state.set_register(31, 9);
    assert_eq!(state.get_register(31), 9);
}

#[test]
fn single_tick_of_addi_word() {
    let mut state = ArchState::with_mem(16);
    state.load(addi_program(1), 0);
    assert_eq!(state.get_register(1), 0);
    state.tick().unwrap();
    assert_eq!(state.get_register(1), 1);
    assert_eq!(state.pc(), 4);
}

#[test]
fn accumulator_counts_ticks_in_larger_memory() {
    let mut state = ArchState::with_mem(1024);
    state.load(addi_program(256), 0);
    for k in 1..=256u32 {
        state.tick().unwrap();
        assert_eq!(state.get_register(1), k);
    }
    // the next fetch is past the end of memory
    assert_eq!(state.tick(), Err(Fault::MemoryOutOfBounds));
    assert_eq!(state.get_register(1), 256);
    assert_eq!(state.pc(), 1024);
}

#[test]
fn arithmetic_wraps_at_32_bits() {
    let mut state = ArchState::with_mem(16);
    state.set_register(1, u32::MAX);
    state.set_register(2, 2);
    let data = R {
        rd: 3,
        rs1: 1,
        rs2: 2,
    };
    state.apply(&Instruction::ADD { data }).unwrap();
    assert_eq!(state.get_register(3), 1);
    let data = R {
        rd: 3,
        rs1: 2,
        rs2: 1,
    };
    state.apply(&Instruction::SUB { data }).unwrap();
    assert_eq!(state.get_register(3), 3);
    // signed versus unsigned comparison of 0xFFFF_FFFF and 2
    state.apply(&Instruction::SLT { data: R { rd: 4, rs1: 1, rs2: 2 } }).unwrap();
    assert_eq!(state.get_register(4), 1);
    state.apply(&Instruction::SLTU { data: R { rd: 4, rs1: 1, rs2: 2 } }).unwrap();
    assert_eq!(state.get_register(4), 0);
}

#[test]
fn shifts_use_low_five_bits_of_amount() {
    let mut state = ArchState::with_mem(16);
    state.set_register(1, 1);
    state.set_register(2, 33);
    state.apply(&Instruction::SLL { data: R { rd: 3, rs1: 1, rs2: 2 } }).unwrap();
    assert_eq!(state.get_register(3), 2);
    state.set_register(1, 0x8000_0000);
    let data = I {
        rd: 3,
        rs1: 1,
        imm: SmallImmediate::from(0x404),
    };
    state.apply(&Instruction::SRAI { data }).unwrap();
    assert_eq!(state.get_register(3), 0xF800_0000);
    state.apply(&Instruction::SRLI { data }).unwrap();
    assert_eq!(state.get_register(3), 0x0800_0000);
}

#[test]
fn immediates_are_sign_extended() {
    let mut state = ArchState::with_mem(16);
    state.set_register(1, 5);
    let minus_one = SmallImmediate::from(0xFFF);
    state.apply(&Instruction::ADDI { data: I { rd: 2, rs1: 1, imm: minus_one } }).unwrap();
    assert_eq!(state.get_register(2), 4);
    state.apply(&Instruction::XORI { data: I { rd: 2, rs1: 1, imm: minus_one } }).unwrap();
    assert_eq!(state.get_register(2), !5);
    state.apply(&Instruction::SLTUI { data: I { rd: 2, rs1: 1, imm: minus_one } }).unwrap();
    assert_eq!(state.get_register(2), 1);
    state.apply(&Instruction::SLTI { data: I { rd: 2, rs1: 1, imm: minus_one } }).unwrap();
    assert_eq!(state.get_register(2), 0);
}

#[test]
fn store_then_load_word_round_trips() {
    for (addr, value) in [(0u32, 0x0102_0304u32), (8, 0xDEAD_BEEF), (12, 0), (5, u32::MAX)] {
        let mut state = ArchState::with_mem(16);
        state.set_register(1, addr);
        state.set_register(2, value);
        let imm = SmallImmediate::from(0);
        state.apply(&Instruction::SW { data: S { imm, rs1: 1, rs2: 2 } }).unwrap();
        let a = addr as usize;
        assert_eq!(state.memory_range(a, 4), value.to_be_bytes().to_vec());
        state.apply(&Instruction::LW { data: I { rd: 3, rs1: 1, imm } }).unwrap();
        assert_eq!(state.get_register(3), value);
        assert_eq!(state.pc(), 8);
    }
}

#[test]
fn negative_offsets_address_below_the_base() {
    let mut state = ArchState::with_mem(16);
    state.set_register(1, 8);
    state.set_register(2, 0xAB);
    let minus_four = SmallImmediate::from(0xFFC);
    state.apply(&Instruction::SB { data: S { imm: minus_four, rs1: 1, rs2: 2 } }).unwrap();
    assert_eq!(state.read_byte(4), 0xAB);
}

#[test]
fn out_of_bounds_accesses_fault_and_change_nothing() {
    let mut state = ArchState::with_mem(16);
    state.set_register(1, 14);
    state.set_register(2, 0x1234_5678);
    let imm = SmallImmediate::from(0);
    let before = state.memory_range(0, 16);
    assert_eq!(
        state.apply(&Instruction::SW { data: S { imm, rs1: 1, rs2: 2 } }),
        Err(Fault::MemoryOutOfBounds)
    );
    assert_eq!(state.memory_range(0, 16), before);
    assert_eq!(state.pc(), 0);
    assert_eq!(
        state.apply(&Instruction::LH { data: I { rd: 3, rs1: 1, imm: SmallImmediate::from(1) } }),
        Err(Fault::MemoryOutOfBounds)
    );
    assert_eq!(state.get_register(3), 0);
    // 0 - 1 wraps to the top of the address space
    assert_eq!(
        state.apply(&Instruction::LB { data: I { rd: 3, rs1: 0, imm: SmallImmediate::from(0xFFF) } }),
        Err(Fault::MemoryOutOfBounds)
    );
    // a halfword that starts on the last byte
    state.set_register(1, 15);
    assert_eq!(
        state.apply(&Instruction::LHU { data: I { rd: 3, rs1: 1, imm } }),
        Err(Fault::MemoryOutOfBounds)
    );
    assert_eq!(state.pc(), 0);
}

#[test]
fn system_calls_are_unimplemented() {
    let mut state = ArchState::with_mem(16);
    state.load(vec![0x00, 0x00, 0x00, 0x73, 0x00, 0x10, 0x00, 0x73], 0);
    assert_eq!(state.tick(), Err(Fault::UnimplementedOperation));
    assert_eq!(state.pc(), 0);
    state.pc = 4;
    assert_eq!(state.tick(), Err(Fault::UnimplementedOperation));
    assert_eq!(state.pc(), 4);
}

#[test]
fn fetch_outside_memory_faults() {
    let mut state = ArchState::with_mem(6);
    state.pc = 4;
    assert_eq!(state.tick(), Err(Fault::MemoryOutOfBounds));
    state.pc = -4;
    assert_eq!(state.tick(), Err(Fault::MemoryOutOfBounds));
    assert_eq!(state.decode_at_pc(), None);
}

#[test]
fn later_load_wins_where_regions_overlap() {
    let mut state = ArchState::with_mem(8);
    state.load(vec![1, 1, 1, 1], 0);
    state.load(vec![2, 2], 2);
    state.load(vec![3], 7);
    assert_eq!(state.memory_range(0, 8), vec![1, 1, 2, 2, 0, 0, 0, 3]);
    assert_eq!(state.pc(), 0);
}

#[test]
fn decode_at_pc_reads_without_changing_state() {
    let mut state = ArchState::with_mem(8);
    state.load(addi_program(2), 0);
    state.pc = 4;
    assert_eq!(
        state.decode_at_pc(),
        Some(Instruction::ADDI { data: I { rd: 1, rs1: 1, imm: SmallImmediate::from(1) } })
    );
    assert_eq!(state.pc(), 4);
    assert_eq!(state.get_register(1), 0);
}

#[test]
fn taken_branch_backwards_and_link_registers() {
    let mut state = ArchState::with_mem(64);
    state.pc = 16;
    // BEQ x0, x0, -8
    state.load(0xFE00_0CE3u32.to_be_bytes().to_vec(), 16);
    state.tick().unwrap();
    assert_eq!(state.pc(), 8);
    // JAL x1, -4 at 8
    state.load(0xFFDF_F0EFu32.to_be_bytes().to_vec(), 8);
    state.tick().unwrap();
    assert_eq!(state.pc(), 4);
    assert_eq!(state.get_register(1), 12);
    // JALR x2, 7(x1) at 4 clears the low bit of the target
    state.load(0x0070_8167u32.to_be_bytes().to_vec(), 4);
    state.tick().unwrap();
    assert_eq!(state.pc(), 18);
    assert_eq!(state.get_register(2), 8);
}

#[test]
fn byte_and_half_loads_extend_by_sign() {
    let mut state = ArchState::with_mem(8);
    state.load(vec![0xFF, 0x7F, 0x80, 0x01], 0);
    let at = |off: u32| I { rd: 1, rs1: 0, imm: SmallImmediate::from(off) };
    state.apply(&Instruction::LB { data: at(0) }).unwrap();
    assert_eq!(state.get_register(1), 0xFFFF_FFFF);
    state.apply(&Instruction::LB { data: at(1) }).unwrap();
    assert_eq!(state.get_register(1), 0x7F);
    state.apply(&Instruction::LH { data: at(2) }).unwrap();
    assert_eq!(state.get_register(1), 0xFFFF_8001);
    state.apply(&Instruction::LHU { data: at(2) }).unwrap();
    assert_eq!(state.get_register(1), 0x8001);
    state.apply(&Instruction::LW { data: at(0) }).unwrap();
    assert_eq!(state.get_register(1), 0xFF7F_8001);
}

#[test]
fn new_machine_spans_the_address_space() {
    let mut state = ArchState::new();
    assert_eq!(state.mem_len(), 1usize << 32);
    assert_eq!(state.read_byte(0xFFFF_FFFF), 0);
    assert_eq!(state.pc(), 0);
    for r in 0..32 {
        assert_eq!(state.get_register(r), 0);
    }
    state.write_byte(0x1_0004, 0xde);
    assert_eq!(state.read_byte(0x1_0004), 0xde);
    assert_eq!(state.read_byte(0x1_0005), 0);
    assert_eq!(state.memory_range(0x1_0003, 3), vec![0, 0xde, 0]);
}

#[test]
fn set_pc_moves_only_the_program_counter() {
    let mut state = ArchState::with_mem(16);
    state.load(vec![0x00, 0x10, 0x80, 0x93], 12);
    state.set_pc(12);
    assert_eq!(state.pc(), 12);
    state.tick().unwrap();
    assert_eq!(state.get_register(1), 1);
    assert_eq!(state.pc(), 16);
}
