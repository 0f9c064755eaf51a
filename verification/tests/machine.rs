use chip8_vm::chip8::{Chip8, Chip8Exception};
use chip8_vm::font::font_glyphs;
use chip8_vm::state::PROGRAM_START;

fn machine_running(program: &[u8]) -> Chip8 {
    let mut m = Chip8::new();
    m.init();
    m.load_rom(PROGRAM_START, program);
    m.set_pc(PROGRAM_START);
    m
}

const NO_KEYS: [bool; 16] = [false; 16];

#[test]
fn programs_start_past_the_reserved_bytes() {
    assert_eq!(PROGRAM_START, 0x200);
}

#[test]
fn new_machine_is_at_rest() {
    let m = Chip8::new();
    assert!(m.memory.iter().all(|b| *b == 0));
    assert!(m.video_memory.iter().all(|p| !*p));
    assert_eq!(m.v, [0; 16]);
    assert_eq!(m.stack, [0; 16]);
    assert_eq!(m.keys, [false; 16]);
    assert_eq!((m.i, m.pc, m.sp), (0, 0, 0));
    assert_eq!((m.dt, m.st), (0, 0));
    assert_eq!((m.timer_counter, m.timer_divisor), (0, 10));
    assert_eq!(m.font_base_addr, 0);
    assert!(!m.waiting_for_key && !m.interrupted && !m.rendered);
}

#[test]
fn default_machine_is_a_new_machine() {
    let m = Chip8::default();
    let n = Chip8::new();
    assert_eq!(m.memory, n.memory);
    assert_eq!(m.timer_divisor, n.timer_divisor);
    assert_eq!(m.pc, n.pc);
}

#[test]
fn init_loads_the_font_zeroes_memory_and_clears_the_screen() {
    let mut m = Chip8::new();
    m.memory[0x300] = 7;
    m.memory[3] = 7;
    m.video_memory[5] = true;
    m.init();
    assert_eq!(&m.memory[0..80], &font_glyphs()[..]);
    assert!(m.memory[80..].iter().all(|b| *b == 0));
    assert!(m.video_memory.iter().all(|p| !*p));
}

#[test]
fn init_puts_the_font_at_its_base() {
    let mut m = Chip8::new();
    m.font_base_addr = 4016;
    m.init();
    assert!(m.memory[..4016].iter().all(|b| *b == 0));
    assert_eq!(&m.memory[4016..], &font_glyphs()[..]);
}

#[test]
fn font_table_has_the_sixteen_glyphs() {
    let font = font_glyphs();
    assert_eq!(&font[0..5], &[0xF0, 0x90, 0x90, 0x90, 0xF0]);
    assert_eq!(&font[5..10], &[0x20, 0x60, 0x20, 0x20, 0x70]);
    assert_eq!(&font[35..40], &[0xF0, 0x10, 0x20, 0x40, 0x40]);
    assert_eq!(&font[75..80], &[0xF0, 0x80, 0xF0, 0x80, 0x80]);
}

#[test]
fn load_rom_copies_the_program_and_keeps_the_rest() {
    let mut m = Chip8::new();
    m.init();
    m.memory[0x204] = 0x77;
    m.load_rom(0x200, &[1, 2, 3, 4]);
    assert_eq!(&m.memory[0x200..0x205], &[1, 2, 3, 4, 0x77]);
    assert_eq!(m.memory[0x1FF], 0);
    assert_eq!(m.memory[0], 0xF0);
    assert_eq!(m.pc, 0);
}

#[test]
fn load_rom_takes_a_program_that_fills_memory() {
    let mut m = Chip8::new();
    let rom = [0xABu8; 3584];
    m.load_rom(0x200, &rom);
    assert!(m.memory[0x200..].iter().all(|b| *b == 0xAB));
    assert!(m.memory[..0x200].iter().all(|b| *b == 0));
    m.load_rom(0x200, &[]);
    assert_eq!(m.memory[0x200], 0xAB);
}

#[test]
fn fetch_reads_big_endian_and_advances() {
    let mut m = machine_running(&[0x12, 0x34, 0xAB, 0xCD]);
    assert_eq!(m.fetch_instruction(), Ok(0x1234));
    assert_eq!(m.pc, 0x202);
    assert_eq!(m.fetch_instruction(), Ok(0xABCD));
    assert_eq!(m.pc, 0x204);
}

#[test]
fn fetch_of_the_last_two_bytes_succeeds() {
    let mut m = Chip8::new();
    m.memory[4094] = 0x60;
    m.memory[4095] = 0x01;
    m.set_pc(4094);
    assert_eq!(m.fetch_instruction(), Ok(0x6001));
    assert_eq!(m.pc, 4096);
}

#[test]
fn fetch_past_the_end_of_memory_faults() {
    let mut m = Chip8::new();
    m.set_pc(4095);
    assert_eq!(m.fetch_instruction(), Err(Chip8Exception::MemoryOverflow));
    assert_eq!(m.pc, 4095);
    m.set_pc(4096);
    assert_eq!(m.fetch_instruction(), Err(Chip8Exception::MemoryOverflow));
    m.set_pc(0xFFFF);
    assert_eq!(m.fetch_instruction(), Err(Chip8Exception::MemoryOverflow));
    assert_eq!(m.pc, 0xFFFF);
}

#[test]
fn cycle_fetches_executes_and_counts() {
    let mut m = machine_running(&[0x60, 0x2A, 0x70, 0x01, 0x12, 0x00]);
    m.rendered = true;
    assert_eq!(m.cycle(), Ok(()));
    assert_eq!(m.pc, 0x202);
    assert_eq!(m.v[0], 0x2A);
    assert_eq!(m.timer_counter, 1);
    assert!(!m.rendered);
    assert_eq!(m.cycle(), Ok(()));
    assert_eq!(m.v[0], 0x2B);
    assert_eq!(m.cycle(), Ok(()));
    assert_eq!(m.pc, 0x200);
    assert_eq!(m.timer_counter, 3);
}

#[test]
fn cycle_of_a_draw_marks_the_display_changed() {
    let mut m = machine_running(&[0xD0, 0x05, 0x60, 0x00]);
    assert_eq!(m.cycle(), Ok(()));
    assert!(m.rendered);
    assert!(m.get_pixel(0, 0));
    assert_eq!(m.cycle(), Ok(()));
    assert!(!m.rendered);
}

#[test]
fn cycle_of_a_paused_machine_does_nothing() {
    let mut m = machine_running(&[0x60, 0x2A]);
    m.rendered = true;
    m.interrupt();
    assert!(m.interrupted);
    for _ in 0..5 {
        assert_eq!(m.cycle(), Ok(()));
    }
    assert_eq!(m.pc, 0x200);
    assert_eq!(m.v[0], 0);
    assert_eq!(m.timer_counter, 0);
    assert!(m.rendered);
    m.interrupt();
    assert!(!m.interrupted);
    assert_eq!(m.cycle(), Ok(()));
    assert_eq!(m.v[0], 0x2A);
}

#[test]
fn cycle_returns_the_fault_of_an_unknown_opcode() {
    let mut m = machine_running(&[0xFF, 0xFF, 0x60, 0x01]);
    m.dt = 5;
    m.timer_divisor = 1;
    assert_eq!(m.cycle(), Err(Chip8Exception::InvalidInstruction));
    assert_eq!(m.pc, 0x202);
    assert_eq!(m.dt, 5);
    assert_eq!(m.timer_counter, 0);
    assert_eq!(m.cycle(), Ok(()));
    assert_eq!(m.v[0], 1);
    assert_eq!(m.dt, 4);
}

#[test]
fn cycle_returns_the_fault_of_a_fetch_past_memory() {
    let mut m = machine_running(&[]);
    m.set_pc(4095);
    m.rendered = true;
    assert_eq!(m.cycle(), Err(Chip8Exception::MemoryOverflow));
    assert_eq!(m.pc, 4095);
    assert_eq!(m.timer_counter, 0);
    assert!(!m.rendered);
}

#[test]
fn cycle_returns_stack_faults() {
    let mut m = machine_running(&[0x00, 0xEE]);
    assert_eq!(m.cycle(), Err(Chip8Exception::StackUnderflow));
    assert_eq!(m.pc, 0x202);
    let mut m = machine_running(&[0x22, 0x00]);
    for _ in 0..16 {
        assert_eq!(m.cycle(), Ok(()));
    }
    assert_eq!(m.sp, 16);
    assert_eq!(m.cycle(), Err(Chip8Exception::StackOverflow));
    assert_eq!(m.sp, 16);
}

#[test]
fn key_wait_holds_the_machine_until_a_key_is_pressed() {
    let mut m = machine_running(&[0xF3, 0x0A, 0x73, 0x01]);
    assert_eq!(m.tick(&NO_KEYS), Ok(()));
    assert!(m.waiting_for_key);
    assert_eq!(m.pc, 0x202);
    let counter = m.timer_counter;
    for _ in 0..10 {
        assert_eq!(m.cycle(), Ok(()));
        assert_eq!(m.tick(&NO_KEYS), Ok(()));
        assert_eq!(m.pc, 0x202);
        assert!(m.waiting_for_key);
        assert_eq!(m.timer_counter, counter);
    }
    let mut pad = NO_KEYS;
    pad[0xB] = true;
    assert_eq!(m.tick(&pad), Ok(()));
    assert!(!m.waiting_for_key);
    assert_eq!(m.pc, 0x204);
    assert_eq!(m.v[3], 0xB + 1);
    assert!(m.keys[0xB]);
}

#[test]
fn key_wait_takes_the_lowest_pressed_key() {
    let mut m = Chip8::new();
    assert_eq!(m.ld_vx_k(5), Ok(()));
    let mut pad = NO_KEYS;
    pad[0xC] = true;
    pad[0x4] = true;
    pad[0x9] = true;
    m.read_input(&pad);
    assert_eq!(m.v[5], 0x4);
    assert!(!m.waiting_for_key);
    assert_eq!(m.keys, pad);
}

#[test]
fn key_wait_ends_on_a_key_that_is_held_down() {
    let mut m = Chip8::new();
    let mut pad = NO_KEYS;
    pad[0x2] = true;
    m.read_input(&pad);
    assert_eq!(m.ld_vx_k(1), Ok(()));
    m.read_input(&pad);
    assert_eq!(m.v[1], 0x2);
    assert!(!m.waiting_for_key);
}

#[test]
fn read_input_mirrors_the_pad() {
    let mut m = Chip8::new();
    let mut pad = NO_KEYS;
    pad[0] = true;
    pad[15] = true;
    m.v[0] = 0x33;
    m.read_input(&pad);
    assert_eq!(m.keys, pad);
    assert_eq!(m.v[0], 0x33);
    m.read_input(&NO_KEYS);
    assert_eq!(m.keys, NO_KEYS);
}

#[test]
fn read_input_takes_sixteen_entries_at_most() {
    let mut m = Chip8::new();
    m.keys = [true; 16];
    m.read_input(&[false, false, false]);
    let mut expected = [true; 16];
    expected[0] = false;
    expected[1] = false;
    expected[2] = false;
    assert_eq!(m.keys, expected);
    assert_eq!(m.ld_vx_k(0), Ok(()));
    let mut long = [false; 20];
    long[17] = true;
    m.read_input(&long);
    assert_eq!(m.keys, NO_KEYS);
    assert!(m.waiting_for_key);
    m.read_input(&[]);
    assert_eq!(m.keys, NO_KEYS);
}

#[test]
fn tick_while_paused_still_reads_the_pad() {
    let mut m = machine_running(&[0x60, 0x01]);
    m.interrupt();
    let mut pad = NO_KEYS;
    pad[7] = true;
    assert_eq!(m.tick(&pad), Ok(()));
    assert!(m.keys[7]);
    assert_eq!(m.pc, 0x200);
}

#[test]
fn timers_lose_one_every_n_cycles() {
    for n in [1usize, 2, 7, 10, 33] {
        let mut m = Chip8::new();
        m.timer_divisor = n;
        m.dt = 3;
        m.st = 2;
        for tick in 1..=5u8 {
            for step in 1..=n {
                m.update_timers();
                let ticks = if step == n { tick } else { tick - 1 };
                assert_eq!(m.dt, 3u8.saturating_sub(ticks));
                assert_eq!(m.st, 2u8.saturating_sub(ticks));
            }
            assert_eq!(m.timer_counter, 0);
        }
        assert_eq!((m.dt, m.st), (0, 0));
    }
}

#[test]
fn timers_tick_at_the_ninth_step_of_ten_from_a_counter_of_one() {
    let mut m = Chip8::new();
    m.timer_counter = 1;
    m.dt = 1;
    for _ in 0..8 {
        m.update_timers();
        assert_eq!(m.dt, 1);
    }
    m.update_timers();
    assert_eq!(m.dt, 0);
    assert_eq!(m.timer_counter, 0);
}

#[test]
fn timers_run_down_in_cycles() {
    let mut m = machine_running(&[0x12, 0x00]);
    m.set_cycle_rate(180);
    m.dt = 2;
    m.st = 1;
    let mut seen = Vec::new();
    for _ in 0..9 {
        assert_eq!(m.cycle(), Ok(()));
        seen.push((m.dt, m.st));
    }
    assert_eq!(
        seen,
        vec![(2, 1), (2, 1), (1, 0), (1, 0), (1, 0), (0, 0), (0, 0), (0, 0), (0, 0)]
    );
}

#[test]
fn cycle_rate_sets_the_divisor() {
    let mut m = Chip8::new();
    m.set_cycle_rate(600);
    assert_eq!(m.timer_divisor, 10);
    m.set_cycle_rate(1200);
    assert_eq!(m.timer_divisor, 20);
    m.set_cycle_rate(1000);
    assert_eq!(m.timer_divisor, 16);
    m.set_cycle_rate(60);
    assert_eq!(m.timer_divisor, 1);
    m.set_cycle_rate(59);
    assert_eq!(m.timer_divisor, 1);
    m.set_cycle_rate(0);
    assert_eq!(m.timer_divisor, 1);
}

#[test]
fn cycle_rate_keeps_the_counter_below_the_divisor() {
    let mut m = Chip8::new();
    m.set_cycle_rate(1200);
    m.timer_counter = 15;
    m.set_cycle_rate(1800);
    assert_eq!(m.timer_counter, 15);
    m.set_cycle_rate(600);
    assert_eq!(m.timer_counter, 0);
}

#[test]
fn sound_is_active_while_the_sound_timer_runs() {
    let mut m = Chip8::new();
    assert!(!m.sound_active());
    m.st = 1;
    assert!(m.sound_active());
    m.update_timers();
    assert!(m.sound_active());
    m.timer_divisor = 1;
    m.timer_counter = 0;
    m.update_timers();
    assert!(!m.sound_active());
}

#[test]
fn set_pc_moves_the_program_counter_only() {
    let mut m = Chip8::new();
    m.v[1] = 4;
    m.set_pc(0x200);
    assert_eq!(m.pc, 0x200);
    assert_eq!(m.v[1], 4);
    assert_eq!(m.sp, 0);
}

#[test]
fn a_small_program_counts_down() {
    // V0 := 3; loop: V0 += 0xFF; SE V0, 0; JP loop; JP self
    let mut m = machine_running(&[0x60, 0x03, 0x70, 0xFF, 0x30, 0x00, 0x12, 0x02, 0x12, 0x08]);
    for _ in 0..20 {
        assert_eq!(m.tick(&NO_KEYS), Ok(()));
    }
    assert_eq!(m.v[0], 0);
    assert_eq!(m.pc, 0x208);
}
