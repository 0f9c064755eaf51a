use chip8_vm::chip8::Chip8;
use chip8_vm::instruction::{decode, Instruction};

fn same_state(a: &Chip8, b: &Chip8) -> bool {
    a.memory == b.memory
        && a.video_memory == b.video_memory
        && a.stack == b.stack
        && a.v == b.v
        && a.keys == b.keys
        && (a.i, a.pc, a.sp) == (b.i, b.pc, b.sp)
        && (a.dt, a.st) == (b.dt, b.st)
        && (a.timer_counter, a.timer_divisor) == (b.timer_counter, b.timer_divisor)
        && a.font_base_addr == b.font_base_addr
        && a.read_key_registry == b.read_key_registry
        && (a.waiting_for_key, a.interrupted, a.rendered)
            == (b.waiting_for_key, b.interrupted, b.rendered)
}

fn busy_machine() -> Chip8 {
    let mut m = Chip8::new();
    m.init();
    for r in 0..16 {
        m.v[r] = (r as u8).wrapping_mul(37).wrapping_add(5);
    }
    m.i = 0xFF8;
    m.set_pc(0xFFE);
    m.stack_push(0x234).unwrap();
    m.video_memory[100] = true;
    m.keys[5] = true;
    m
}

#[test]
fn a_new_machine_is_well_formed() {
    assert!(Chip8::new().is_well_formed());
    assert!(busy_machine().is_well_formed());
}

#[test]
fn well_formedness_bounds_every_field() {
    let mut m = Chip8::new();
    m.pc = 0xFFFF;
    m.i = 0xFFFF;
    m.sp = 16;
    m.font_base_addr = 4016;
    m.read_key_registry = 15;
    m.timer_divisor = 1;
    assert!(m.is_well_formed());
    m.pc = 0x10000;
    assert!(!m.is_well_formed());
    m.pc = 0;
    m.i = 0x10000;
    assert!(!m.is_well_formed());
    m.i = 0;
    m.sp = 17;
    assert!(!m.is_well_formed());
    m.sp = 0;
    m.font_base_addr = 4017;
    assert!(!m.is_well_formed());
    m.font_base_addr = 0;
    m.read_key_registry = 16;
    assert!(!m.is_well_formed());
    m.read_key_registry = 0;
    m.timer_divisor = 0;
    assert!(!m.is_well_formed());
    m.timer_divisor = 4;
    m.timer_counter = 4;
    assert!(!m.is_well_formed());
    m.timer_counter = 3;
    assert!(m.is_well_formed());
}

#[test]
fn well_formedness_looks_at_the_stack_entries_in_use() {
    let mut m = Chip8::new();
    m.stack[3] = 0x10000;
    assert!(m.is_well_formed());
    m.sp = 3;
    assert!(m.is_well_formed());
    m.sp = 4;
    assert!(!m.is_well_formed());
    m.stack[3] = 0xFFFF;
    assert!(m.is_well_formed());
}

#[test]
fn every_opcode_keeps_the_machine_well_formed() {
    for op_code in 0..=0xFFFFu16 {
        let mut m = busy_machine();
        let before = busy_machine();
        let res = m.decode_and_exec_instruction(op_code);
        assert!(m.is_well_formed());
        if res.is_err() {
            assert!(same_state(&m, &before));
        }
    }
}

#[test]
fn every_cycle_keeps_the_machine_well_formed() {
    let mut m = Chip8::new();
    m.init();
    let program: Vec<u8> = (0..3584u32).map(|k| (k.wrapping_mul(2654435761) >> 13) as u8).collect();
    m.load_rom(0x200, &program);
    m.set_pc(0x200);
    let pad = [false, true, false, false, true, false, false, false, false, false, false, false,
        false, false, false, true];
    for _ in 0..20000 {
        let _ = m.tick(&pad);
        assert!(m.is_well_formed());
    }
}

#[test]
fn instructions_other_than_rnd_are_deterministic() {
    for op_code in 0..=0xFFFFu16 {
        if let Some(instruction) = decode(op_code) {
            if matches!(instruction, Instruction::Rnd { .. }) {
                continue;
            }
            let mut first = busy_machine();
            let mut second = busy_machine();
            assert_eq!(first.execute(instruction), second.execute(instruction));
            assert!(same_state(&first, &second));
        }
    }
}
