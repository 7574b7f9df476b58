use chip8dynarec::chip8::Chip8;
use chip8dynarec::codeblock::CodeBlock;
use chip8dynarec::codecache::{CacheError, CodeCache};
use chip8dynarec::codeemitter::CodeEmitter;
use chip8dynarec::layout::HostLayout;
use chip8dynarec::recompiler::{compile_block, CompileError, RecompileError, Recompiler};

fn layout() -> HostLayout {
    HostLayout {
        chip8: 0x1000_0000,
        memory: 0x1000_1000,
        stack: 0x1000_3000,
        register_v: 0x1000_3100,
        register_i: 0x1000_3200,
        register_dt: 0x1000_3210,
        register_st: 0x1000_3220,
        register_pc: 0x1000_3230,
        register_sp: 0x1000_3240,
        display: 0x1000_4000,
        keyboard: 0x1000_5000,
        block_table: 0x2000_0000,
        refresh_fn: 0x3000_0000,
        clear_fn: 0x3000_1000,
        draw_sprite_fn: 0x3000_2000,
        is_pressed_fn: 0x3000_3000,
        wait_key_press_fn: 0x3000_4000,
    }
}

fn le32(v: u32) -> Vec<u8> {
    v.to_le_bytes().to_vec()
}

fn cat(parts: &[Vec<u8>]) -> Vec<u8> {
    parts.concat()
}

#[test]
fn emitter_encodes_absolute_operands_little_endian() {
    let mut e = CodeEmitter::new();
    e.mov_m_to_al(0x1234_5678);
    e.add_imm_to_m16(0xBEEF, 0x0A0B_0C0D);
    e.je(-2);
    e.ret();
    assert_eq!(
        e.raw_code,
        vec![0xA0, 0x78, 0x56, 0x34, 0x12, 0x66, 0x81, 0x05, 0x0D, 0x0C, 0x0B, 0x0A, 0xEF, 0xBE, 0x74, 0xFE, 0xC3]
    );
}

#[test]
fn emitter_encodes_indexed_forms() {
    let mut e = CodeEmitter::new();
    e.mov_m_to_eax_edi4ecx();
    e.movzx_m16_to_ecx_edi2ecx();
    e.mov_imm_to_m16_edi2ecx(0x0202);
    e.add_imm_to_ecx(0x0300);
    assert_eq!(
        e.raw_code,
        vec![0x8B, 0x04, 0x8F, 0x0F, 0xB7, 0x0C, 0x4F, 0x66, 0xC7, 0x04, 0x4F, 0x02, 0x02, 0x81, 0xC1, 0x00, 0x03, 0x00, 0x00]
    );
}

#[test]
fn straight_line_block_ends_at_jump() {
    let l = layout();
    let mut c = Chip8::new();
    c.load_rom(&[0x60, 0x05, 0x61, 0x0A, 0x80, 0x14, 0x12, 0x06]);
    let v = l.register_v;
    let expected = cat(&[
        vec![0xC6, 0x05], le32(v), vec![0x05],
        vec![0xC6, 0x05], le32(v + 1), vec![0x0A],
        vec![0x66, 0x0F, 0xB6, 0x05], le32(v),
        vec![0x66, 0x0F, 0xB6, 0x0D], le32(v + 1),
        vec![0x66, 0x01, 0xC8],
        vec![0xA2], le32(v),
        vec![0x66, 0x3D, 0xFF, 0x00],
        vec![0x0F, 0x97, 0x05], le32(v + 15),
        vec![0x68], le32(l.chip8), vec![0xB8], le32(l.refresh_fn), vec![0xFF, 0xD0],
        vec![0xA1], le32(l.block_table + 4 * 0x206), vec![0xFF, 0xE0],
    ]);
    assert_eq!(compile_block(&l, &c.memory, 0x200), Ok(expected));
}

#[test]
fn skip_block_jumps_to_both_successors() {
    let l = layout();
    let mut c = Chip8::new();
    c.load_rom(&[0x33, 0x07]);
    let expected = cat(&[
        vec![0x68], le32(l.chip8), vec![0xB8], le32(l.refresh_fn), vec![0xFF, 0xD0],
        vec![0x80, 0x3D], le32(l.register_v + 3), vec![0x07],
        vec![0x75, 0x07],
        vec![0xA1], le32(l.block_table + 4 * 0x204), vec![0xFF, 0xE0],
        vec![0xA1], le32(l.block_table + 4 * 0x202), vec![0xFF, 0xE0],
    ]);
    assert_eq!(compile_block(&l, &c.memory, 0x200), Ok(expected));
}

#[test]
fn block_without_terminator_hits_unknown_opcode() {
    let l = layout();
    let mut c = Chip8::new();
    c.load_rom(&[0x60, 0x05, 0x61, 0x0A, 0x80, 0x14, 0x00, 0x00]);
    assert_eq!(
        compile_block(&l, &c.memory, 0x200),
        Err(CompileError::UnknownOpcode { address: 0x206, word: 0x0000 })
    );
}

#[test]
fn block_running_off_memory_is_refused() {
    let l = layout();
    let c = Chip8::new();
    assert_eq!(compile_block(&l, &c.memory, 0xFFF), Err(CompileError::EndOfMemory { address: 0xFFF }));
    let mut d = Chip8::new();
    d.memory[0xFFC] = 0x30;
    assert_eq!(compile_block(&l, &d.memory, 0xFFC), Err(CompileError::BranchOutOfRange { address: 0xFFC }));
}

#[test]
fn register_dump_copies_each_register() {
    let l = layout();
    let mut c = Chip8::new();
    c.load_rom(&[0xF1, 0x55, 0x12, 0x00]);
    let code = compile_block(&l, &c.memory, 0x200).unwrap();
    let head = cat(&[
        vec![0x0F, 0xB7, 0x0D], le32(l.register_i),
        vec![0xA0], le32(l.register_v), vec![0xBF], le32(l.memory), vec![0x88, 0x04, 0x0F],
        vec![0xA0], le32(l.register_v + 1), vec![0xBF], le32(l.memory + 1), vec![0x88, 0x04, 0x0F],
        vec![0x66, 0x81, 0x05], le32(l.register_i), vec![0x02, 0x00],
    ]);
    assert_eq!(&code[..head.len()], &head[..]);
}

#[test]
fn cache_starts_with_stubs() {
    let c = CodeCache::new(0x4000_0000, 0x1000_3230);
    assert_eq!(c.image.len(), (4096 - 0x200) * 10);
    assert_eq!(c.x86_block_addresses[0x200], 0x4000_0000);
    assert_eq!(c.x86_block_addresses[0x201], 0x4000_000A);
    assert_eq!(c.x86_block_addresses[0x1FF], 0);
    assert_eq!(&c.image[0..10], &[0x66, 0xC7, 0x05, 0x30, 0x32, 0x00, 0x10, 0x00, 0x02, 0xC3]);
    assert!(!c.contains(0x200));
}

#[test]
fn cache_keeps_first_block_per_address() {
    let mut c = CodeCache::new(0x4000_0000, 0x1000_3230);
    let len = c.image.len() as u32;
    assert_eq!(c.insert(0x300, &vec![0xC3]), Ok(()));
    assert!(c.contains(0x300));
    assert_eq!(c.x86_block_addresses[0x300], 0x4000_0000 + len);
    assert_eq!(c.insert(0x300, &vec![0x90, 0xC3]), Err(CacheError::AlreadyCompiled { address: 0x300 }));
    assert_eq!(c.image.len() as u32, len + 1);
    assert_eq!(c.insert(0x1000, &vec![0xC3]), Err(CacheError::AddressOutOfRange { address: 0x1000 }));
    assert!(!c.contains(0x1000));
}

#[test]
fn cache_refuses_block_that_does_not_fit() {
    let mut c = CodeCache::new(0x4000_0000, 0x1000_3230);
    let room = 0x10000 - c.image.len();
    assert_eq!(c.insert(0x300, &vec![0x90; room + 1]), Err(CacheError::Overflow));
    assert_eq!(c.insert(0x300, &vec![0x90; room]), Ok(()));
}

#[test]
fn each_address_is_translated_once() {
    let l = layout();
    let mut r = Recompiler::new(0x4000_0000, l.register_pc);
    let mut c = Chip8::new();
    c.load_rom(&[0x60, 0x05, 0x12, 0x00]);
    assert_eq!(r.prepare_next_code_block(&c, &l), Ok(true));
    let size = r.code_cache.image.len();
    assert_eq!(r.prepare_next_code_block(&c, &l), Ok(false));
    assert_eq!(r.code_cache.image.len(), size);
    c.register_pc = 0x202;
    assert_eq!(r.prepare_next_code_block(&c, &l), Ok(true));
    c.register_pc = 0x206;
    assert_eq!(
        r.prepare_next_code_block(&c, &l),
        Err(RecompileError::Compile(CompileError::UnknownOpcode { address: 0x206, word: 0 }))
    );
    assert_eq!(r.recompile_next_code_block(&c, &l), Err(CompileError::UnknownOpcode { address: 0x206, word: 0 }));
}

#[test]
fn code_block_reports_its_entry() {
    let b = CodeBlock::new(vec![0xC3], 0x5000_0000);
    assert_eq!(b.get_x86address(), 0x5000_0000);
    assert_eq!(b.raw_code, vec![0xC3]);
}
