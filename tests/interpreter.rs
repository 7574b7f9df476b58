use chip8dynarec::chip8::{Chip8, ROM_START_ADDRESS};
use chip8dynarec::interpreter::{Fault, Interpreter, Step};

fn machine_with(rom: &[u8]) -> Chip8 {
    let mut c = Chip8::new();
    c.load_rom(rom);
    c
}

fn run(c: &mut Chip8, steps: usize) {
    for _ in 0..steps {
        assert_eq!(Interpreter::execute_instruction(c, 0), Ok(Step::Continue));
    }
}

#[test]
fn add_scenario_leaves_sum_and_clear_flag() {
    let mut c = machine_with(&[0x60, 0x05, 0x61, 0x0A, 0x80, 0x14, 0x00, 0x00]);
    run(&mut c, 3);
    assert_eq!(c.register_v[0], 15);
    assert_eq!(c.register_v[15], 0);
    assert_eq!(c.register_pc, ROM_START_ADDRESS + 6);
    assert_eq!(
        Interpreter::execute_instruction(&mut c, 0),
        Err(Fault::UnknownOpcode { address: 0x206, word: 0x0000 })
    );
}

#[test]
fn add_with_carry_wraps_and_sets_flag() {
    let mut c = machine_with(&[0x60, 200, 0x61, 100, 0x80, 0x14]);
    run(&mut c, 3);
    assert_eq!(c.register_v[0], 44);
    assert_eq!(c.register_v[15], 1);
}

#[test]
fn add_to_flag_register_keeps_the_carry() {
    let mut c = machine_with(&[0x6F, 200, 0x61, 100, 0x8F, 0x14]);
    run(&mut c, 3);
    assert_eq!(c.register_v[15], 1);
}

#[test]
fn sub_sets_flag_without_borrow() {
    let mut c = machine_with(&[0x60, 10, 0x61, 3, 0x80, 0x15, 0x62, 3, 0x63, 10, 0x82, 0x35]);
    run(&mut c, 3);
    assert_eq!(c.register_v[0], 7);
    assert_eq!(c.register_v[15], 1);
    run(&mut c, 3);
    assert_eq!(c.register_v[2], 249);
    assert_eq!(c.register_v[15], 0);
}

#[test]
fn reversed_sub_and_shifts() {
    let mut c = machine_with(&[0x60, 10, 0x61, 3, 0x80, 0x17, 0x62, 0x81, 0x83, 0x26, 0x84, 0x2E]);
    run(&mut c, 3);
    assert_eq!(c.register_v[0], 249);
    assert_eq!(c.register_v[15], 0);
    run(&mut c, 2);
    assert_eq!(c.register_v[3], 0x40);
    assert_eq!(c.register_v[15], 1);
    run(&mut c, 1);
    assert_eq!(c.register_v[4], 0x02);
    assert_eq!(c.register_v[15], 1);
}

#[test]
fn bitwise_ops() {
    let mut c = machine_with(&[0x60, 0xF0, 0x61, 0x3C, 0x82, 0x00, 0x82, 0x11, 0x83, 0x00, 0x83, 0x12, 0x84, 0x00, 0x84, 0x13]);
    run(&mut c, 8);
    assert_eq!(c.register_v[2], 0xFC);
    assert_eq!(c.register_v[3], 0x30);
    assert_eq!(c.register_v[4], 0xCC);
}

#[test]
fn add_immediate_wraps_without_flag() {
    let mut c = machine_with(&[0x60, 0xFF, 0x70, 0x02]);
    run(&mut c, 2);
    assert_eq!(c.register_v[0], 1);
    assert_eq!(c.register_v[15], 0);
}

#[test]
fn call_then_return_resumes_after_call() {
    // 0x200: call 0x206; 0x202: V0 = 1; 0x206: return
    let mut c = machine_with(&[0x22, 0x06, 0x60, 0x01, 0x00, 0x00, 0x00, 0xEE]);
    let sp = c.register_sp;
    run(&mut c, 1);
    assert_eq!(c.register_pc, 0x206);
    assert_eq!(c.register_sp, 0);
    assert_eq!(c.stack[0], 0x202);
    run(&mut c, 1);
    assert_eq!(c.register_pc, 0x202);
    assert_eq!(c.register_sp, sp);
}

#[test]
fn return_on_empty_stack_faults() {
    let mut c = machine_with(&[0x00, 0xEE]);
    assert_eq!(Interpreter::execute_instruction(&mut c, 0), Err(Fault::StackUnderflow));
}

#[test]
fn seventeenth_nested_call_faults() {
    let mut c = machine_with(&[0x22, 0x00]);
    run(&mut c, 16);
    assert_eq!(Interpreter::execute_instruction(&mut c, 0), Err(Fault::StackOverflow));
}

#[test]
fn pc_at_end_of_memory_faults() {
    let mut c = machine_with(&[0x1F, 0xFF]);
    run(&mut c, 1);
    assert_eq!(Interpreter::execute_instruction(&mut c, 0), Err(Fault::PcOutOfRange { pc: 0xFFF }));
}

#[test]
fn skips_compare_registers_and_immediates() {
    let mut c = machine_with(&[0x60, 0x05, 0x30, 0x05, 0x00, 0x00, 0x40, 0x05, 0x61, 0x05, 0x50, 0x10, 0x00, 0x00, 0x90, 0x10, 0x62, 0x07]);
    run(&mut c, 2);
    assert_eq!(c.register_pc, 0x206);
    run(&mut c, 1);
    assert_eq!(c.register_pc, 0x208);
    run(&mut c, 2);
    assert_eq!(c.register_pc, 0x20E);
    run(&mut c, 2);
    assert_eq!(c.register_v[2], 7);
}

#[test]
fn key_skips_follow_the_keypad() {
    let mut c = machine_with(&[0x60, 0x0A, 0xE0, 0x9E, 0x00, 0x00, 0xE0, 0xA1, 0x61, 0x01]);
    c.keyboard.set_key_state(0xA, true);
    run(&mut c, 2);
    assert_eq!(c.register_pc, 0x206);
    run(&mut c, 1);
    assert_eq!(c.register_pc, 0x208);
}

#[test]
fn key_wait_hands_back_to_driver() {
    let mut c = machine_with(&[0xF3, 0x0A]);
    assert_eq!(Interpreter::execute_instruction(&mut c, 0), Ok(Step::WaitKey { x: 3 }));
    assert_eq!(c.register_pc, 0x202);
    Interpreter::complete_key_wait(&mut c, 3, 0xB);
    assert_eq!(c.register_v[3], 0xB);
}

#[test]
fn random_byte_is_masked() {
    let mut c = machine_with(&[0xC0, 0x0F]);
    assert_eq!(Interpreter::execute_instruction(&mut c, 0xAB), Ok(Step::Continue));
    assert_eq!(c.register_v[0], 0x0B);
    let mut d = machine_with(&[0xC0, 0x0F]);
    assert_eq!(Interpreter::execute_next_instruction(&mut d), Ok(Step::Continue));
    assert!(d.register_v[0] <= 0x0F);
}

#[test]
fn jumps_set_pc() {
    let mut c = machine_with(&[0x60, 0x04, 0xB3, 0x00]);
    run(&mut c, 2);
    assert_eq!(c.register_pc, 0x304);
    let mut d = machine_with(&[0x13, 0x45]);
    run(&mut d, 1);
    assert_eq!(d.register_pc, 0x345);
}

#[test]
fn index_register_ops() {
    let mut c = machine_with(&[0xAF, 0xFE, 0x60, 0x05, 0xF0, 0x1E, 0xF0, 0x29]);
    run(&mut c, 2);
    assert_eq!(c.register_i, 0xFFE);
    run(&mut c, 1);
    assert_eq!(c.register_i, 0x1003);
    run(&mut c, 1);
    assert_eq!(c.register_i, 25);
}

#[test]
fn bcd_stores_decimal_digits() {
    let mut c = machine_with(&[0x60, 254, 0xA3, 0x00, 0xF0, 0x33]);
    run(&mut c, 3);
    assert_eq!(&c.memory[0x300..0x303], &[2, 5, 4]);
}

#[test]
fn bcd_past_end_of_memory_faults() {
    let mut c = machine_with(&[0xAF, 0xFE, 0xF0, 0x33]);
    run(&mut c, 1);
    assert_eq!(Interpreter::execute_instruction(&mut c, 0), Err(Fault::MemoryOutOfRange { index: 0xFFE }));
}

#[test]
fn register_dump_and_load() {
    let mut c = machine_with(&[0x60, 1, 0x61, 2, 0x62, 3, 0xA3, 0x00, 0xF1, 0x55, 0xA3, 0x01, 0xF1, 0x65]);
    run(&mut c, 5);
    assert_eq!(&c.memory[0x300..0x303], &[1, 2, 0]);
    assert_eq!(c.register_i, 0x302);
    run(&mut c, 2);
    assert_eq!(c.register_v[0], 2);
    assert_eq!(c.register_v[1], 0);
    assert_eq!(c.register_v[2], 3);
    assert_eq!(c.register_i, 0x303);
}

#[test]
fn timers_are_read_written_and_count_down() {
    let mut c = machine_with(&[0x60, 2, 0xF0, 0x15, 0xF0, 0x18, 0xF1, 0x07]);
    run(&mut c, 4);
    assert_eq!(c.register_v[1], 2);
    c.tick_timers();
    c.tick_timers();
    c.tick_timers();
    assert_eq!(c.register_dt, 0);
    assert_eq!(c.register_st, 0);
    assert!(Chip8::tick_due(16));
    assert!(!Chip8::tick_due(15));
}

#[test]
fn draw_sets_collision_flag() {
    // I = glyph of 0, draw it twice at (0, 0)
    let mut c = machine_with(&[0xA0, 0x00, 0xD0, 0x05, 0xD0, 0x05]);
    run(&mut c, 2);
    assert_eq!(c.register_v[15], 0);
    assert_eq!(&c.display.frame_buffer[0..4], &[1, 1, 1, 1]);
    run(&mut c, 1);
    assert_eq!(c.register_v[15], 1);
    assert!(c.display.frame_buffer.iter().all(|&p| p == 0));
}

#[test]
fn clear_blanks_the_screen() {
    let mut c = machine_with(&[0xA0, 0x00, 0xD0, 0x05, 0x00, 0xE0]);
    run(&mut c, 3);
    assert!(c.display.frame_buffer.iter().all(|&p| p == 0));
}

#[test]
fn new_machine_holds_font_and_reset_registers() {
    let c = Chip8::new();
    assert_eq!(&c.memory[0..5], &[0xF0, 0x90, 0x90, 0x90, 0xF0]);
    assert_eq!(&c.memory[0x4B..0x50], &[0xF0, 0x80, 0xF0, 0x80, 0x80]);
    assert_eq!(c.memory[0x50], 0);
    assert_eq!(c.register_pc, 0x200);
    assert_eq!(c.register_sp, 0xFF);
    assert_eq!(c.memory.len(), 4096);
}
