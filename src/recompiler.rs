use vstd::prelude::*;
use vstd::seq_lib::lemma_concat_associative;
use crate::chip8::{Chip8, MEMORY_SIZE, ROM_START_ADDRESS};
use crate::codecache::{stubs, CacheError, CodeCache, CACHE_CAPACITY, STUB_SIZE};
use crate::codeemitter::{CodeEmitter, x86_add_al_to_al, x86_add_ax_to_m, x86_add_cx_to_ax, x86_add_imm_to_eax, x86_add_imm_to_ecx, x86_add_imm_to_m16, x86_add_imm_to_m8, x86_and_al_imm, x86_and_cl_imm, x86_and_m_al, x86_call_eax, x86_cmp_al_with_imm, x86_cmp_ax_with_imm, x86_cmp_imm_with_m8, x86_cmp_m_with_al, x86_div_dl, x86_je, x86_jmp_eax, x86_jne, x86_mov_ah_to_m_ediecx, x86_mov_al_to_cl, x86_mov_al_to_m, x86_mov_al_to_m_ediecx, x86_mov_ax_to_m, x86_mov_cl_to_m, x86_mov_imm_to_al, x86_mov_imm_to_dl, x86_mov_imm_to_eax, x86_mov_imm_to_edi, x86_mov_imm_to_m16, x86_mov_imm_to_m16_edi2ecx, x86_mov_imm_to_m8, x86_mov_m_to_al, x86_mov_m_to_al_ediecx, x86_mov_m_to_eax, x86_mov_m_to_eax_edi4ecx, x86_movzx_ah_to_ax, x86_movzx_m16_to_eax, x86_movzx_m16_to_ecx, x86_movzx_m16_to_ecx_edi2ecx, x86_movzx_m8_to_eax, x86_movzx_m8_to_ecx, x86_movzx_m_to_ax, x86_movzx_m_to_cx, x86_mul_m8, x86_or_m_al, x86_push_eax, x86_push_imm32, x86_rdrand_ax, x86_seta_m, x86_setae_m, x86_shr_al, x86_shr_cl_imm, x86_sub_imm_to_m8, x86_sub_m_to_al, x86_xor_m_al};
use crate::decode::{instruction_word, word_of};
use crate::layout::HostLayout;
use crate::opcode::{opcode_of_word, Opcode};

verus! {

/// `push chip8; mov eax, refresh; call eax`: lets the host refresh the screen
/// and the keypad before control leaves a block.
pub open spec fn refresh_code(l: HostLayout) -> Seq<u8> {
    x86_push_imm32(l.chip8) + x86_mov_imm_to_eax(l.refresh_fn) + x86_call_eax()
}

/// The end of a skip: the branch over it lands on the second jump.
/// The first jump goes to the block at `next + 2`, the second to `next`.
pub open spec fn skip_tail_code(l: HostLayout, next: int) -> Seq<u8> {
    x86_mov_m_to_eax(l.slot(next + 2)) + x86_jmp_eax() + x86_mov_m_to_eax(l.slot(next))
        + x86_jmp_eax()
}

/// The copy loop of `FX55` for `V0` up to `V(k-1)`; `ecx` holds `I`.
pub open spec fn store_registers_code(l: HostLayout, k: nat) -> Seq<u8>
    decreases k,
{
    if k == 0 {
        Seq::empty()
    } else {
        store_registers_code(l, (k - 1) as nat) + x86_mov_m_to_al(l.v(k - 1)) + x86_mov_imm_to_edi(
            l.mem(k - 1),
        ) + x86_mov_al_to_m_ediecx()
    }
}

/// The copy loop of `FX65` for `V0` up to `V(k-1)`; `ecx` holds `I`.
pub open spec fn load_registers_code(l: HostLayout, k: nat) -> Seq<u8>
    decreases k,
{
    if k == 0 {
        Seq::empty()
    } else {
        load_registers_code(l, (k - 1) as nat) + x86_mov_imm_to_edi(l.mem(k - 1))
            + x86_mov_m_to_al_ediecx() + x86_mov_al_to_m(l.v(k - 1))
    }
}

/// The native code for one opcode; `next` is the address of the instruction
/// after it. Jumps, calls, returns and skips end in a jump through the table
/// of block addresses, so a block chains straight into the next one once that
/// one is translated, and falls back to the driver through its stub before.
/// The code checks neither the stack pointer nor accesses from `I` at run
/// time: where the interpreter reports a fault, translated code goes on.
pub open spec fn instruction_code(l: HostLayout, op: Opcode, next: u16) -> Seq<u8> {
    let vf = l.v(15);
    match op {
        Opcode::Clear => x86_push_imm32(l.display) + x86_mov_imm_to_eax(l.clear_fn) + x86_call_eax(),
        Opcode::Return => refresh_code(l) + x86_movzx_m8_to_ecx(l.register_sp) + x86_sub_imm_to_m8(
            1,
            l.register_sp,
        ) + x86_mov_imm_to_edi(l.stack) + x86_movzx_m16_to_ecx_edi2ecx() + x86_mov_imm_to_edi(
            l.block_table,
        ) + x86_mov_m_to_eax_edi4ecx() + x86_jmp_eax(),
        Opcode::Jump { nnn } => refresh_code(l) + x86_mov_m_to_eax(l.slot(nnn as int)) + x86_jmp_eax(),
        Opcode::Call { nnn } => x86_add_imm_to_m8(1, l.register_sp) + x86_movzx_m8_to_ecx(
            l.register_sp,
        ) + x86_mov_imm_to_edi(l.stack) + x86_mov_imm_to_m16_edi2ecx(next) + refresh_code(l)
            + x86_mov_m_to_eax(l.slot(nnn as int)) + x86_jmp_eax(),
        Opcode::SkipEqImm { x, kk } => refresh_code(l) + x86_cmp_imm_with_m8(kk, l.v(x as int))
            + x86_jne(7) + skip_tail_code(l, next as int),
        Opcode::SkipNeImm { x, kk } => refresh_code(l) + x86_cmp_imm_with_m8(kk, l.v(x as int))
            + x86_je(7) + skip_tail_code(l, next as int),
        Opcode::SkipEqReg { x, y } => refresh_code(l) + x86_mov_m_to_al(l.v(x as int))
            + x86_cmp_m_with_al(l.v(y as int)) + x86_jne(7) + skip_tail_code(l, next as int),
        Opcode::LoadImm { x, kk } => x86_mov_imm_to_m8(kk, l.v(x as int)),
        Opcode::AddImm { x, kk } => x86_add_imm_to_m8(kk, l.v(x as int)),
        Opcode::Move { x, y } => x86_mov_m_to_al(l.v(y as int)) + x86_mov_al_to_m(l.v(x as int)),
        Opcode::Or { x, y } => x86_mov_m_to_al(l.v(y as int)) + x86_or_m_al(l.v(x as int)),
        Opcode::And { x, y } => x86_mov_m_to_al(l.v(y as int)) + x86_and_m_al(l.v(x as int)),
        Opcode::Xor { x, y } => x86_mov_m_to_al(l.v(y as int)) + x86_xor_m_al(l.v(x as int)),
        Opcode::AddReg { x, y } => x86_movzx_m_to_ax(l.v(x as int)) + x86_movzx_m_to_cx(
            l.v(y as int),
        ) + x86_add_cx_to_ax() + x86_mov_al_to_m(l.v(x as int)) + x86_cmp_ax_with_imm(0xFF)
            + x86_seta_m(vf),
        Opcode::Sub { x, y } => x86_mov_m_to_al(l.v(x as int)) + x86_sub_m_to_al(l.v(y as int))
            + x86_setae_m(vf) + x86_mov_al_to_m(l.v(x as int)),
        Opcode::ShiftRight { x, y } => x86_mov_m_to_al(l.v(y as int)) + x86_mov_al_to_cl()
            + x86_and_cl_imm(1) + x86_mov_cl_to_m(vf) + x86_shr_al() + x86_mov_al_to_m(l.v(x as int)),
        Opcode::SubReversed { x, y } => x86_mov_m_to_al(l.v(y as int)) + x86_sub_m_to_al(
            l.v(x as int),
        ) + x86_setae_m(vf) + x86_mov_al_to_m(l.v(x as int)),
        Opcode::ShiftLeft { x, y } => x86_mov_m_to_al(l.v(y as int)) + x86_mov_al_to_cl()
            + x86_shr_cl_imm(7) + x86_mov_cl_to_m(vf) + x86_add_al_to_al() + x86_mov_al_to_m(
            l.v(x as int),
        ),
        Opcode::SkipNeReg { x, y } => refresh_code(l) + x86_mov_m_to_al(l.v(x as int))
            + x86_cmp_m_with_al(l.v(y as int)) + x86_je(7) + skip_tail_code(l, next as int),
        Opcode::LoadIndex { nnn } => x86_mov_imm_to_m16(nnn, l.register_i),
        Opcode::JumpOffset { nnn } => refresh_code(l) + x86_movzx_m8_to_ecx(l.v(0))
            + x86_add_imm_to_ecx(nnn as u32) + x86_mov_imm_to_edi(l.block_table)
            + x86_mov_m_to_eax_edi4ecx() + x86_jmp_eax(),
        Opcode::Random { x, kk } => x86_rdrand_ax() + x86_and_al_imm(kk) + x86_mov_al_to_m(
            l.v(x as int),
        ),
        Opcode::Draw { x, y, n } => x86_push_imm32(n as u32) + x86_movzx_m16_to_eax(l.register_i)
            + x86_add_imm_to_eax(l.memory) + x86_push_eax() + x86_movzx_m8_to_eax(l.v(y as int))
            + x86_push_eax() + x86_movzx_m8_to_eax(l.v(x as int)) + x86_push_eax() + x86_push_imm32(
            l.display,
        ) + x86_mov_imm_to_eax(l.draw_sprite_fn) + x86_call_eax() + x86_mov_al_to_m(vf),
        Opcode::SkipKeyPressed { x } => refresh_code(l) + x86_movzx_m8_to_eax(l.v(x as int))
            + x86_push_eax() + x86_push_imm32(l.keyboard) + x86_mov_imm_to_eax(l.is_pressed_fn)
            + x86_call_eax() + x86_cmp_al_with_imm(1) + x86_jne(7) + skip_tail_code(l, next as int),
        Opcode::SkipKeyReleased { x } => refresh_code(l) + x86_movzx_m8_to_eax(l.v(x as int))
            + x86_push_eax() + x86_push_imm32(l.keyboard) + x86_mov_imm_to_eax(l.is_pressed_fn)
            + x86_call_eax() + x86_cmp_al_with_imm(1) + x86_je(7) + skip_tail_code(l, next as int),
        Opcode::ReadDelay { x } => x86_mov_m_to_al(l.register_dt) + x86_mov_al_to_m(l.v(x as int)),
        Opcode::WaitKey { x } => x86_push_imm32(l.keyboard) + x86_mov_imm_to_eax(
            l.wait_key_press_fn,
        ) + x86_call_eax() + x86_mov_al_to_m(l.v(x as int)),
        Opcode::SetDelay { x } => x86_mov_m_to_al(l.v(x as int)) + x86_mov_al_to_m(l.register_dt),
        Opcode::SetSound { x } => x86_mov_m_to_al(l.v(x as int)) + x86_mov_al_to_m(l.register_st),
        Opcode::AddIndex { x } => x86_movzx_m_to_ax(l.v(x as int)) + x86_add_ax_to_m(l.register_i),
        Opcode::FontGlyph { x } => x86_mov_imm_to_al(5) + x86_mul_m8(l.v(x as int)) + x86_mov_ax_to_m(
            l.register_i,
        ),
        Opcode::StoreBcd { x } => x86_movzx_m_to_ax(l.v(x as int)) + x86_mov_imm_to_dl(100)
            + x86_div_dl() + x86_movzx_m16_to_ecx(l.register_i) + x86_mov_imm_to_edi(l.mem(0))
            + x86_mov_al_to_m_ediecx() + x86_movzx_ah_to_ax() + x86_mov_imm_to_dl(10) + x86_div_dl()
            + x86_mov_imm_to_edi(l.mem(1)) + x86_mov_al_to_m_ediecx() + x86_mov_imm_to_edi(l.mem(2))
            + x86_mov_ah_to_m_ediecx(),
        Opcode::StoreRegisters { x } => x86_movzx_m16_to_ecx(l.register_i) + store_registers_code(
            l,
            (x + 1) as nat,
        ) + x86_add_imm_to_m16((x + 1) as u16, l.register_i),
        Opcode::LoadRegisters { x } => x86_movzx_m16_to_ecx(l.register_i) + load_registers_code(
            l,
            (x + 1) as nat,
        ) + x86_add_imm_to_m16((x + 1) as u16, l.register_i),
    }
}

/// Why a block cannot be translated.
#[derive(Clone, Copy, Debug, PartialEq, Eq, Structural)]
pub enum CompileError {
    /// The word at `address` is no CHIP-8 instruction.
    UnknownOpcode { address: u16, word: u16 },
    /// The instruction at `address` does not lie wholly inside memory.
    EndOfMemory { address: u16 },
    /// The skip at `address` could continue past the end of memory.
    BranchOutOfRange { address: u16 },
}

/// `code` followed by the outcome `rest`, or the error of `rest`.
pub open spec fn prepend(code: Seq<u8>, rest: Result<Seq<u8>, CompileError>) -> Result<Seq<u8>, CompileError> {
    match rest {
        Ok(c) => Ok(code + c),
        Err(e) => Err(e),
    }
}

/// The translation of the basic block that starts at `cursor`: the code of
/// each instruction in turn, up to and including the first that ends the block.
pub open spec fn block_code(l: HostLayout, mem: Seq<u8>, cursor: int) -> Result<Seq<u8>, CompileError>
    decreases MEMORY_SIZE - cursor,
{
    if cursor < 0 || cursor + 1 >= MEMORY_SIZE || mem.len() != MEMORY_SIZE {
        Err(CompileError::EndOfMemory { address: cursor as u16 })
    } else {
        let word = word_of(mem[cursor], mem[cursor + 1]);
        match opcode_of_word(word) {
            None => Err(CompileError::UnknownOpcode { address: cursor as u16, word }),
            Some(op) => if op.spec_is_skip() && cursor + 4 >= MEMORY_SIZE {
                Err(CompileError::BranchOutOfRange { address: cursor as u16 })
            } else {
                let code = instruction_code(l, op, (cursor + 2) as u16);
                if op.spec_ends_block() {
                    Ok(code)
                } else {
                    prepend(code, block_code(l, mem, cursor + 2))
                }
            },
        }
    }
}

/// Appends a call of the host's refresh routine.
fn emit_call_refresh(e: &mut CodeEmitter, l: &HostLayout)
    ensures
        final(e).raw_code@ =~= old(e).raw_code@ + refresh_code(*l),
{
    e.push_imm32(l.chip8);
    e.mov_imm_to_eax(l.refresh_fn);
    e.call_eax();
}

/// Appends the two jumps that end a skip.
fn emit_skip_tail(e: &mut CodeEmitter, l: &HostLayout, next: u16)
    requires
        l.wf(),
        next + 2 < MEMORY_SIZE,
    ensures
        final(e).raw_code@ =~= old(e).raw_code@ + skip_tail_code(*l, next as int),
{
    e.mov_m_to_eax(l.block_table + 4 * (next as u32 + 2));
    e.jmp_eax();
    e.mov_m_to_eax(l.block_table + 4 * next as u32);
    e.jmp_eax();
}

/// Appends the copy of `V0..=Vx` to memory at `I`.
fn emit_store_registers(e: &mut CodeEmitter, l: &HostLayout, x: u8)
    requires
        l.wf(),
        x < 16,
    ensures
        final(e).raw_code@ =~= old(e).raw_code@ + store_registers_code(*l, (x + 1) as nat),
{
    let mut k: u8 = 0;
    while k <= x
        invariant
            l.wf(),
            x < 16,
            k <= x + 1,
            e.raw_code@ =~= old(e).raw_code@ + store_registers_code(*l, k as nat),
        decreases x + 1 - k,
    {
        e.mov_m_to_al(l.register_v + k as u32);
        e.mov_imm_to_edi(l.memory + k as u32);
        e.mov_al_to_m_ediecx();
        k = k + 1;
    }
}

/// Appends the copy of memory at `I` into `V0..=Vx`.
fn emit_load_registers(e: &mut CodeEmitter, l: &HostLayout, x: u8)
    requires
        l.wf(),
        x < 16,
    ensures
        final(e).raw_code@ =~= old(e).raw_code@ + load_registers_code(*l, (x + 1) as nat),
{
    let mut k: u8 = 0;
    while k <= x
        invariant
            l.wf(),
            x < 16,
            k <= x + 1,
            e.raw_code@ =~= old(e).raw_code@ + load_registers_code(*l, k as nat),
        decreases x + 1 - k,
    {
        e.mov_imm_to_edi(l.memory + k as u32);
        e.mov_m_to_al_ediecx();
        e.mov_al_to_m(l.register_v + k as u32);
        k = k + 1;
    }
}

/// Appends the native code of the jumps, calls and returns.
#[verifier::rlimit(40)]
fn emit_control(e: &mut CodeEmitter, l: &HostLayout, op: Opcode, next: u16)
    requires
        l.wf(),
        op.wf(),
        next <= MEMORY_SIZE,
        op.spec_is_skip() ==> next + 2 < MEMORY_SIZE,
        matches!(op, Opcode::Return | Opcode::Jump { .. } | Opcode::Call { .. } | Opcode::JumpOffset { .. }),
    ensures
        final(e).raw_code@ =~= old(e).raw_code@ + instruction_code(*l, op, next),
{
    let vf = l.register_v + 15;
    match op {
        Opcode::Return => {
            emit_call_refresh(e, l);
            e.movzx_m8_to_ecx(l.register_sp);
            e.sub_imm_to_m8(1, l.register_sp);
            e.mov_imm_to_edi(l.stack);
            e.movzx_m16_to_ecx_edi2ecx();
            e.mov_imm_to_edi(l.block_table);
            e.mov_m_to_eax_edi4ecx();
            e.jmp_eax();
        },
        Opcode::Jump { nnn } => {
            emit_call_refresh(e, l);
            e.mov_m_to_eax(l.block_table + 4 * nnn as u32);
            e.jmp_eax();
        },
        Opcode::Call { nnn } => {
            e.add_imm_to_m8(1, l.register_sp);
            e.movzx_m8_to_ecx(l.register_sp);
            e.mov_imm_to_edi(l.stack);
            e.mov_imm_to_m16_edi2ecx(next);
            emit_call_refresh(e, l);
            e.mov_m_to_eax(l.block_table + 4 * nnn as u32);
            e.jmp_eax();
        },
        Opcode::JumpOffset { nnn } => {
            emit_call_refresh(e, l);
            e.movzx_m8_to_ecx(l.register_v);
            e.add_imm_to_ecx(nnn as u32);
            e.mov_imm_to_edi(l.block_table);
            e.mov_m_to_eax_edi4ecx();
            e.jmp_eax();
        },
        _ => {},
    }
}

/// Appends the native code of the conditional skips.
#[verifier::rlimit(40)]
fn emit_skip(e: &mut CodeEmitter, l: &HostLayout, op: Opcode, next: u16)
    requires
        l.wf(),
        op.wf(),
        next <= MEMORY_SIZE,
        op.spec_is_skip() ==> next + 2 < MEMORY_SIZE,
        matches!(op, Opcode::SkipEqImm { .. } | Opcode::SkipNeImm { .. } | Opcode::SkipEqReg { .. } | Opcode::SkipNeReg { .. } | Opcode::SkipKeyPressed { .. } | Opcode::SkipKeyReleased { .. }),
    ensures
        final(e).raw_code@ =~= old(e).raw_code@ + instruction_code(*l, op, next),
{
    let vf = l.register_v + 15;
    match op {
        Opcode::SkipEqImm { x, kk } => {
            emit_call_refresh(e, l);
            e.cmp_imm_with_m8(kk, l.register_v + x as u32);
            e.jne(7);
            emit_skip_tail(e, l, next);
        },
        Opcode::SkipNeImm { x, kk } => {
            emit_call_refresh(e, l);
            e.cmp_imm_with_m8(kk, l.register_v + x as u32);
            e.je(7);
            emit_skip_tail(e, l, next);
        },
        Opcode::SkipEqReg { x, y } => {
            emit_call_refresh(e, l);
            e.mov_m_to_al(l.register_v + x as u32);
            e.cmp_m_with_al(l.register_v + y as u32);
            e.jne(7);
            emit_skip_tail(e, l, next);
        },
        Opcode::SkipNeReg { x, y } => {
            emit_call_refresh(e, l);
            e.mov_m_to_al(l.register_v + x as u32);
            e.cmp_m_with_al(l.register_v + y as u32);
            e.je(7);
            emit_skip_tail(e, l, next);
        },
        Opcode::SkipKeyPressed { x } => {
            emit_call_refresh(e, l);
            e.movzx_m8_to_eax(l.register_v + x as u32);
            e.push_eax();
            e.push_imm32(l.keyboard);
            e.mov_imm_to_eax(l.is_pressed_fn);
            e.call_eax();
            e.cmp_al_with_imm(1);
            e.jne(7);
            emit_skip_tail(e, l, next);
        },
        Opcode::SkipKeyReleased { x } => {
            emit_call_refresh(e, l);
            e.movzx_m8_to_eax(l.register_v + x as u32);
            e.push_eax();
            e.push_imm32(l.keyboard);
            e.mov_imm_to_eax(l.is_pressed_fn);
            e.call_eax();
            e.cmp_al_with_imm(1);
            e.je(7);
            emit_skip_tail(e, l, next);
        },
        _ => {},
    }
}

/// Appends the native code of the register arithmetic.
#[verifier::rlimit(40)]
fn emit_register(e: &mut CodeEmitter, l: &HostLayout, op: Opcode, next: u16)
    requires
        l.wf(),
        op.wf(),
        next <= MEMORY_SIZE,
        op.spec_is_skip() ==> next + 2 < MEMORY_SIZE,
        matches!(op, Opcode::LoadImm { .. } | Opcode::AddImm { .. } | Opcode::Move { .. } | Opcode::Or { .. } | Opcode::And { .. } | Opcode::Xor { .. } | Opcode::AddReg { .. } | Opcode::Sub { .. } | Opcode::ShiftRight { .. } | Opcode::SubReversed { .. } | Opcode::ShiftLeft { .. }),
    ensures
        final(e).raw_code@ =~= old(e).raw_code@ + instruction_code(*l, op, next),
{
    let vf = l.register_v + 15;
    match op {
        Opcode::LoadImm { x, kk } => {
            e.mov_imm_to_m8(kk, l.register_v + x as u32);
        },
        Opcode::AddImm { x, kk } => {
            e.add_imm_to_m8(kk, l.register_v + x as u32);
        },
        Opcode::Move { x, y } => {
            e.mov_m_to_al(l.register_v + y as u32);
            e.mov_al_to_m(l.register_v + x as u32);
        },
        Opcode::Or { x, y } => {
            e.mov_m_to_al(l.register_v + y as u32);
            e.or_m_al(l.register_v + x as u32);
        },
        Opcode::And { x, y } => {
            e.mov_m_to_al(l.register_v + y as u32);
            e.and_m_al(l.register_v + x as u32);
        },
        Opcode::Xor { x, y } => {
            e.mov_m_to_al(l.register_v + y as u32);
            e.xor_m_al(l.register_v + x as u32);
        },
        Opcode::AddReg { x, y } => {
            e.movzx_m_to_ax(l.register_v + x as u32);
            e.movzx_m_to_cx(l.register_v + y as u32);
            e.add_cx_to_ax();
            e.mov_al_to_m(l.register_v + x as u32);
            e.cmp_ax_with_imm(0xFF);
            e.seta_m(vf);
        },
        Opcode::Sub { x, y } => {
            e.mov_m_to_al(l.register_v + x as u32);
            e.sub_m_to_al(l.register_v + y as u32);
            e.setae_m(vf);
            e.mov_al_to_m(l.register_v + x as u32);
        },
        Opcode::ShiftRight { x, y } => {
            e.mov_m_to_al(l.register_v + y as u32);
            e.mov_al_to_cl();
            e.and_cl_imm(1);
            e.mov_cl_to_m(vf);
            e.shr_al();
            e.mov_al_to_m(l.register_v + x as u32);
        },
        Opcode::SubReversed { x, y } => {
            e.mov_m_to_al(l.register_v + y as u32);
            e.sub_m_to_al(l.register_v + x as u32);
            e.setae_m(vf);
            e.mov_al_to_m(l.register_v + x as u32);
        },
        Opcode::ShiftLeft { x, y } => {
            e.mov_m_to_al(l.register_v + y as u32);
            e.mov_al_to_cl();
            e.shr_cl_imm(7);
            e.mov_cl_to_m(vf);
            e.add_al_to_al();
            e.mov_al_to_m(l.register_v + x as u32);
        },
        _ => {},
    }
}

/// Appends the native code of the host calls, timers and the index register.
#[verifier::rlimit(40)]
fn emit_host(e: &mut CodeEmitter, l: &HostLayout, op: Opcode, next: u16)
    requires
        l.wf(),
        op.wf(),
        next <= MEMORY_SIZE,
        op.spec_is_skip() ==> next + 2 < MEMORY_SIZE,
        matches!(op, Opcode::Clear | Opcode::LoadIndex { .. } | Opcode::Random { .. } | Opcode::Draw { .. } | Opcode::ReadDelay { .. } | Opcode::WaitKey { .. } | Opcode::SetDelay { .. } | Opcode::SetSound { .. } | Opcode::AddIndex { .. } | Opcode::FontGlyph { .. }),
    ensures
        final(e).raw_code@ =~= old(e).raw_code@ + instruction_code(*l, op, next),
{
    let vf = l.register_v + 15;
    match op {
        Opcode::Clear => {
            e.push_imm32(l.display);
            e.mov_imm_to_eax(l.clear_fn);
            e.call_eax();
        },
        Opcode::LoadIndex { nnn } => {
            e.mov_imm_to_m16(nnn, l.register_i);
        },
        Opcode::Random { x, kk } => {
            e.rdrand_ax();
            e.and_al_imm(kk);
            e.mov_al_to_m(l.register_v + x as u32);
        },
        Opcode::Draw { x, y, n } => {
            e.push_imm32(n as u32);
            e.movzx_m16_to_eax(l.register_i);
            e.add_imm_to_eax(l.memory);
            e.push_eax();
            e.movzx_m8_to_eax(l.register_v + y as u32);
            e.push_eax();
            e.movzx_m8_to_eax(l.register_v + x as u32);
            e.push_eax();
            e.push_imm32(l.display);
            e.mov_imm_to_eax(l.draw_sprite_fn);
            e.call_eax();
            e.mov_al_to_m(vf);
        },
        Opcode::ReadDelay { x } => {
            e.mov_m_to_al(l.register_dt);
            e.mov_al_to_m(l.register_v + x as u32);
        },
        Opcode::WaitKey { x } => {
            e.push_imm32(l.keyboard);
            e.mov_imm_to_eax(l.wait_key_press_fn);
            e.call_eax();
            e.mov_al_to_m(l.register_v + x as u32);
        },
        Opcode::SetDelay { x } => {
            e.mov_m_to_al(l.register_v + x as u32);
            e.mov_al_to_m(l.register_dt);
        },
        Opcode::SetSound { x } => {
            e.mov_m_to_al(l.register_v + x as u32);
            e.mov_al_to_m(l.register_st);
        },
        Opcode::AddIndex { x } => {
            e.movzx_m_to_ax(l.register_v + x as u32);
            e.add_ax_to_m(l.register_i);
        },
        Opcode::FontGlyph { x } => {
            e.mov_imm_to_al(5);
            e.mul_m8(l.register_v + x as u32);
            e.mov_ax_to_m(l.register_i);
        },
        _ => {},
    }
}

/// Appends the native code of the memory transfers.
#[verifier::rlimit(40)]
fn emit_memory(e: &mut CodeEmitter, l: &HostLayout, op: Opcode, next: u16)
    requires
        l.wf(),
        op.wf(),
        next <= MEMORY_SIZE,
        op.spec_is_skip() ==> next + 2 < MEMORY_SIZE,
        matches!(op, Opcode::StoreBcd { .. } | Opcode::StoreRegisters { .. } | Opcode::LoadRegisters { .. }),
    ensures
        final(e).raw_code@ =~= old(e).raw_code@ + instruction_code(*l, op, next),
{
    let vf = l.register_v + 15;
    match op {
        Opcode::StoreBcd { x } => {
            e.movzx_m_to_ax(l.register_v + x as u32);
            e.mov_imm_to_dl(100);
            e.div_dl();
            e.movzx_m16_to_ecx(l.register_i);
            e.mov_imm_to_edi(l.memory);
            e.mov_al_to_m_ediecx();
            e.movzx_ah_to_ax();
            e.mov_imm_to_dl(10);
            e.div_dl();
            e.mov_imm_to_edi(l.memory + 1);
            e.mov_al_to_m_ediecx();
            e.mov_imm_to_edi(l.memory + 2);
            e.mov_ah_to_m_ediecx();
        },
        Opcode::StoreRegisters { x } => {
            e.movzx_m16_to_ecx(l.register_i);
            emit_store_registers(e, l, x);
            e.add_imm_to_m16(x as u16 + 1, l.register_i);
        },
        Opcode::LoadRegisters { x } => {
            e.movzx_m16_to_ecx(l.register_i);
            emit_load_registers(e, l, x);
            e.add_imm_to_m16(x as u16 + 1, l.register_i);
        },
        _ => {},
    }
}

/// Appends the native code of one opcode; `next` is the address of the
/// instruction after it.
pub fn emit_instruction(e: &mut CodeEmitter, l: &HostLayout, op: Opcode, next: u16)
    requires
        l.wf(),
        op.wf(),
        next <= MEMORY_SIZE,
        op.spec_is_skip() ==> next + 2 < MEMORY_SIZE,
    ensures
        final(e).raw_code@ =~= old(e).raw_code@ + instruction_code(*l, op, next),
{
    match op {
        Opcode::Return | Opcode::Jump { .. } | Opcode::Call { .. } | Opcode::JumpOffset { .. } => emit_control(e, l, op, next),
        Opcode::SkipEqImm { .. } | Opcode::SkipNeImm { .. } | Opcode::SkipEqReg { .. } | Opcode::SkipNeReg { .. } | Opcode::SkipKeyPressed { .. } | Opcode::SkipKeyReleased { .. } => emit_skip(e, l, op, next),
        Opcode::LoadImm { .. } | Opcode::AddImm { .. } | Opcode::Move { .. } | Opcode::Or { .. } | Opcode::And { .. } | Opcode::Xor { .. } | Opcode::AddReg { .. } | Opcode::Sub { .. } | Opcode::ShiftRight { .. } | Opcode::SubReversed { .. } | Opcode::ShiftLeft { .. } => emit_register(e, l, op, next),
        Opcode::Clear | Opcode::Draw { .. } | Opcode::WaitKey { .. } | Opcode::ReadDelay { .. } | Opcode::SetDelay { .. } | Opcode::SetSound { .. } | Opcode::LoadIndex { .. } | Opcode::AddIndex { .. } | Opcode::FontGlyph { .. } | Opcode::Random { .. } => emit_host(e, l, op, next),
        Opcode::StoreBcd { .. } | Opcode::StoreRegisters { .. } | Opcode::LoadRegisters { .. } => emit_memory(e, l, op, next),
    }
}

/// Translates the basic block that starts at `start` in `memory`.
pub fn compile_block(l: &HostLayout, memory: &Vec<u8>, start: u16) -> (r: Result<Vec<u8>, CompileError>)
    requires
        l.wf(),
        memory.len() == MEMORY_SIZE,
    ensures
        match r {
            Ok(code) => block_code(*l, memory@, start as int) == Ok::<Seq<u8>, CompileError>(code@),
            Err(e) => block_code(*l, memory@, start as int) == Err::<Seq<u8>, CompileError>(e),
        },
{
    let mut e = CodeEmitter::new();
    let mut pc: usize = start as usize;
    proof {
        assert(e.raw_code@ + Seq::<u8>::empty() =~= Seq::<u8>::empty());
        match block_code(*l, memory@, pc as int) {
            Ok(c) => assert(e.raw_code@ + c =~= c),
            Err(_) => {},
        }
    }
    loop
        invariant
            l.wf(),
            memory.len() == MEMORY_SIZE,
            start <= pc <= u16::MAX,
            block_code(*l, memory@, start as int) == prepend(e.raw_code@, block_code(*l, memory@, pc as int)),
        decreases MEMORY_SIZE + 2 - pc,
    {
        if pc + 1 >= MEMORY_SIZE {
            return Err(CompileError::EndOfMemory { address: pc as u16 });
        }
        let word = instruction_word(memory[pc], memory[pc + 1]);
        match Opcode::from_word(word) {
            None => {
                return Err(CompileError::UnknownOpcode { address: pc as u16, word });
            },
            Some(op) => {
                if op.is_skip() && pc + 4 >= MEMORY_SIZE {
                    return Err(CompileError::BranchOutOfRange { address: pc as u16 });
                }
                let ghost before = e.raw_code@;
                emit_instruction(&mut e, l, op, (pc + 2) as u16);
                let ghost code = instruction_code(*l, op, (pc + 2) as u16);
                if op.ends_block() {
                    return Ok(e.raw_code);
                }
                proof {
                    match block_code(*l, memory@, pc + 2) {
                        Ok(c) => lemma_concat_associative(before, code, c),
                        Err(_) => {},
                    }
                }
                pc = pc + 2;
            },
        }
    }
}

/// Why the driver cannot go on in translated code.
#[derive(Clone, Copy, Debug, PartialEq, Eq, Structural)]
pub enum RecompileError {
    Compile(CompileError),
    Cache(CacheError),
}

/// The translation engine: a code cache and the translator that fills it.
pub struct Recompiler {
    pub code_cache: CodeCache,
}

impl Recompiler {
    /// A recompiler whose cache region starts at native `code_base` and whose
    /// stubs store into the `pc` register at native `register_pc`.
    pub fn new(code_base: u32, register_pc: u32) -> (r: Recompiler)
        requires
            code_base + CACHE_CAPACITY <= u32::MAX,
        ensures
            r.code_cache.wf(),
            r.code_cache.base == code_base,
            r.code_cache.compiled() == Set::<int>::empty(),
            r.code_cache.image@ == stubs(register_pc, (MEMORY_SIZE - ROM_START_ADDRESS) as nat),
            forall|a: int|
                0 <= a < MEMORY_SIZE ==> #[trigger] r.code_cache.x86_block_addresses@[a] == if a
                    >= ROM_START_ADDRESS {
                    (code_base + STUB_SIZE * (a - ROM_START_ADDRESS)) as u32
                } else {
                    0u32
                },
    {
        Recompiler { code_cache: CodeCache::new(code_base, register_pc) }
    }

    /// Translates the basic block at the machine's `pc`.
    pub fn recompile_next_code_block(&self, chip8: &Chip8, layout: &HostLayout) -> (r: Result<
        Vec<u8>,
        CompileError,
    >)
        requires
            chip8.wf(),
            layout.wf(),
        ensures
            match r {
                Ok(code) => block_code(*layout, chip8@.memory, chip8@.pc as int) == Ok::<
                    Seq<u8>,
                    CompileError,
                >(code@),
                Err(e) => block_code(*layout, chip8@.memory, chip8@.pc as int) == Err::<
                    Seq<u8>,
                    CompileError,
                >(e),
            },
    {
        compile_block(layout, &chip8.memory, chip8.register_pc)
    }

    /// Makes sure that the block at the machine's `pc` is translated, so that
    /// the driver can run it. A block is translated at most once: `Ok(true)`
    /// when it was translated now, `Ok(false)` when the cache held it already.
    pub fn prepare_next_code_block(&mut self, chip8: &Chip8, layout: &HostLayout) -> (r: Result<
        bool,
        RecompileError,
    >)
        requires
            old(self).code_cache.wf(),
            chip8.wf(),
            layout.wf(),
        ensures
            final(self).code_cache.wf(),
            final(self).code_cache.base == old(self).code_cache.base,
            old(self).code_cache.compiled().contains(chip8@.pc as int) ==> r == Ok::<
                bool,
                RecompileError,
            >(false) && *final(self) == *old(self),
            !old(self).code_cache.compiled().contains(chip8@.pc as int) ==> match block_code(
                *layout,
                chip8@.memory,
                chip8@.pc as int,
            ) {
                Err(e) => r == Err::<bool, RecompileError>(RecompileError::Compile(e)) && *final(self)
                    == *old(self),
                Ok(code) => if old(self).code_cache.image.len() + code.len() > CACHE_CAPACITY {
                    r == Err::<bool, RecompileError>(RecompileError::Cache(CacheError::Overflow))
                        && *final(self) == *old(self)
                } else {
                    &&& r == Ok::<bool, RecompileError>(true)
                    &&& final(self).code_cache.compiled() == old(self).code_cache.compiled().insert(
                        chip8@.pc as int,
                    )
                    &&& final(self).code_cache.image@ == old(self).code_cache.image@ + code
                    &&& final(self).code_cache.x86_block_addresses@
                        == old(self).code_cache.x86_block_addresses@.update(
                        chip8@.pc as int,
                        (old(self).code_cache.base + old(self).code_cache.image.len()) as u32,
                    )
                },
            },
    {
        if self.code_cache.contains(chip8.register_pc) {
            return Ok(false);
        }
        match self.recompile_next_code_block(chip8, layout) {
            Err(e) => Err(RecompileError::Compile(e)),
            Ok(code) => {
                proof {
                    assert(chip8@.pc + 1 < MEMORY_SIZE);
                }
                match self.code_cache.insert(chip8.register_pc, &code) {
                    Ok(()) => Ok(true),
                    Err(e) => Err(RecompileError::Cache(e)),
                }
            },
        }
    }
}

/// The number of blocks translated while the driver reaches the addresses of
/// `trace` in turn, the addresses in `compiled` being translated already.
pub open spec fn translations(compiled: Set<int>, trace: Seq<int>) -> nat
    decreases trace.len(),
{
    if trace.len() == 0 {
        0
    } else {
        let before = trace.drop_last();
        translations(compiled, before) + if compiled.union(before.to_set()).contains(trace.last()) {
            0nat
        } else {
            1nat
        }
    }
}

proof fn lemma_translations_count(compiled: Set<int>, trace: Seq<int>)
    requires
        compiled.finite(),
    ensures
        translations(compiled, trace) + compiled.len() == compiled.union(trace.to_set()).len(),
        compiled.union(trace.to_set()).finite(),
    decreases trace.len(),
{
    broadcast use vstd::seq_lib::seq_to_set_is_finite;
    if trace.len() == 0 {
        assert(compiled.union(trace.to_set()) =~= compiled);
    } else {
        let before = trace.drop_last();
        lemma_translations_count(compiled, before);
        assert(before.push(trace.last()) =~= trace);
        before.lemma_push_to_set_commute(trace.last());
        assert(compiled.union(trace.to_set()) =~= compiled.union(before.to_set()).insert(
            trace.last(),
        ));
    }
}

/// Translate-once: however the driver moves through a program, starting from
/// an empty cache, it translates exactly one block per distinct address it
/// reaches, so never more blocks than addresses reached.
pub proof fn lemma_translate_once(trace: Seq<int>)
    ensures
        translations(Set::empty(), trace) == trace.to_set().len(),
        translations(Set::empty(), trace) <= trace.len(),
{
    lemma_translations_count(Set::empty(), trace);
    assert(Set::<int>::empty().union(trace.to_set()) =~= trace.to_set());
    trace.lemma_cardinality_of_set();
}

} // verus!
