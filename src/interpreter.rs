use vstd::prelude::*;
use crate::chip8::{Chip8, MachineState, FLAG, MEMORY_SIZE, STACK_SIZE, V_REGISTERS_COUNT};
use crate::decode::{instruction_word, word_of};
use crate::display::{drawn, erases, PIXEL_COUNT};
use crate::opcode::{opcode_of_word, Opcode};

verus! {

/// What the driver does after an instruction.
#[derive(Clone, Copy, Debug, PartialEq, Eq, Structural)]
pub enum Step {
    /// Go on with the next instruction.
    Continue,
    /// Wait for a key press and store the key in `Vx` before going on.
    WaitKey { x: u8 },
}

/// Why execution cannot go on.
#[derive(Clone, Copy, Debug, PartialEq, Eq, Structural)]
pub enum Fault {
    /// The instruction at `pc` does not lie wholly inside memory.
    PcOutOfRange { pc: u16 },
    /// The word at `address` is no CHIP-8 instruction.
    UnknownOpcode { address: u16, word: u16 },
    /// A call with all stack entries in use.
    StackOverflow,
    /// A return with an empty stack.
    StackUnderflow,
    /// An access from `I` on would run past the end of memory.
    MemoryOutOfRange { index: u16 },
}

/// `s` with `Vx` set to `value`.
pub open spec fn with_v(s: MachineState, x: int, value: u8) -> MachineState {
    MachineState { v: s.v.update(x, value), ..s }
}

/// `s` with the next instruction skipped when `cond` holds.
pub open spec fn skip_if(s: MachineState, cond: bool) -> MachineState {
    if cond {
        MachineState { pc: (s.pc + 2) as u16, ..s }
    } else {
        s
    }
}

/// Whether the key named by `key` is held.
pub open spec fn key_held(s: MachineState, key: u8) -> bool {
    key < 16 && s.keys[key as int]
}

/// `1` when `b` holds, else `0`.
pub open spec fn flag(b: bool) -> u8 {
    if b {
        1
    } else {
        0
    }
}

/// The effect of `op` on `s`, whose `pc` already points past the instruction.
/// `random` is the byte that `CXKK` masks.
pub open spec fn execute(s: MachineState, op: Opcode, random: u8) -> Result<(MachineState, Step), Fault> {
    let go = |t: MachineState| Ok::<(MachineState, Step), Fault>((t, Step::Continue));
    match op {
        Opcode::Clear => go(MachineState { frame: Seq::new(PIXEL_COUNT as nat, |i: int| 0u8), ..s }),
        Opcode::Return => if s.sp as int >= STACK_SIZE {
            Err(Fault::StackUnderflow)
        } else {
            go(MachineState { pc: s.stack[s.sp as int], sp: (if s.sp == 0 { 255 } else { s.sp - 1 }) as u8, ..s })
        },
        Opcode::Jump { nnn } => go(MachineState { pc: nnn, ..s }),
        Opcode::Call { nnn } => {
            let sp = (if s.sp == 255 { 0 } else { s.sp + 1 }) as u8;
            if sp as int >= STACK_SIZE {
                Err(Fault::StackOverflow)
            } else {
                go(MachineState { stack: s.stack.update(sp as int, s.pc), sp, pc: nnn, ..s })
            }
        },
        Opcode::SkipEqImm { x, kk } => go(skip_if(s, s.v[x as int] == kk)),
        Opcode::SkipNeImm { x, kk } => go(skip_if(s, s.v[x as int] != kk)),
        Opcode::SkipEqReg { x, y } => go(skip_if(s, s.v[x as int] == s.v[y as int])),
        Opcode::LoadImm { x, kk } => go(with_v(s, x as int, kk)),
        Opcode::AddImm { x, kk } => go(with_v(s, x as int, ((s.v[x as int] + kk) % 256) as u8)),
        Opcode::Move { x, y } => go(with_v(s, x as int, s.v[y as int])),
        Opcode::Or { x, y } => go(with_v(s, x as int, s.v[x as int] | s.v[y as int])),
        Opcode::And { x, y } => go(with_v(s, x as int, s.v[x as int] & s.v[y as int])),
        Opcode::Xor { x, y } => go(with_v(s, x as int, s.v[x as int] ^ s.v[y as int])),
        Opcode::AddReg { x, y } => {
            let sum = s.v[x as int] + s.v[y as int];
            go(with_v(with_v(s, x as int, (sum % 256) as u8), FLAG as int, flag(sum > 255)))
        },
        Opcode::Sub { x, y } => {
            let (a, b) = (s.v[x as int], s.v[y as int]);
            go(with_v(with_v(s, FLAG as int, flag(a >= b)), x as int, ((a - b + 256) % 256) as u8))
        },
        Opcode::ShiftRight { x, y } => {
            let b = s.v[y as int];
            go(with_v(with_v(s, FLAG as int, b % 2), x as int, b / 2))
        },
        Opcode::SubReversed { x, y } => {
            let (a, b) = (s.v[x as int], s.v[y as int]);
            go(with_v(with_v(s, FLAG as int, flag(a <= b)), x as int, ((b - a + 256) % 256) as u8))
        },
        Opcode::ShiftLeft { x, y } => {
            let b = s.v[y as int];
            go(with_v(with_v(s, FLAG as int, b / 128), x as int, ((b * 2) % 256) as u8))
        },
        Opcode::SkipNeReg { x, y } => go(skip_if(s, s.v[x as int] != s.v[y as int])),
        Opcode::LoadIndex { nnn } => go(MachineState { i: nnn, ..s }),
        Opcode::JumpOffset { nnn } => go(MachineState { pc: (nnn + s.v[0]) as u16, ..s }),
        Opcode::Random { x, kk } => go(with_v(s, x as int, random & kk)),
        Opcode::Draw { x, y, n } => if s.i + n > MEMORY_SIZE {
            Err(Fault::MemoryOutOfRange { index: s.i })
        } else {
            let sprite = s.memory.subrange(s.i as int, s.i + n);
            let (vx, vy) = (s.v[x as int], s.v[y as int]);
            go(
                with_v(
                    MachineState { frame: drawn(s.frame, sprite, vx, vy), ..s },
                    FLAG as int,
                    flag(erases(s.frame, sprite, vx, vy)),
                ),
            )
        },
        Opcode::SkipKeyPressed { x } => go(skip_if(s, key_held(s, s.v[x as int]))),
        Opcode::SkipKeyReleased { x } => go(skip_if(s, !key_held(s, s.v[x as int]))),
        Opcode::ReadDelay { x } => go(with_v(s, x as int, s.dt)),
        Opcode::WaitKey { x } => Ok((s, Step::WaitKey { x })),
        Opcode::SetDelay { x } => go(MachineState { dt: s.v[x as int], ..s }),
        Opcode::SetSound { x } => go(MachineState { st: s.v[x as int], ..s }),
        Opcode::AddIndex { x } => go(MachineState { i: ((s.i + s.v[x as int]) % 0x10000) as u16, ..s }),
        Opcode::FontGlyph { x } => go(MachineState { i: (s.v[x as int] * 5) as u16, ..s }),
        Opcode::StoreBcd { x } => if s.i + 3 > MEMORY_SIZE {
            Err(Fault::MemoryOutOfRange { index: s.i })
        } else {
            let v = s.v[x as int];
            go(
                MachineState {
                    memory: s.memory.update(s.i as int, v / 100).update(s.i + 1, (v % 100) / 10).update(
                        s.i + 2,
                        v % 10,
                    ),
                    ..s
                },
            )
        },
        Opcode::StoreRegisters { x } => if s.i + x + 1 > MEMORY_SIZE {
            Err(Fault::MemoryOutOfRange { index: s.i })
        } else {
            go(
                MachineState {
                    memory: Seq::new(
                        MEMORY_SIZE as nat,
                        |a: int|
                            if s.i <= a <= s.i + x {
                                s.v[a - s.i]
                            } else {
                                s.memory[a]
                            },
                    ),
                    i: (s.i + x + 1) as u16,
                    ..s
                },
            )
        },
        Opcode::LoadRegisters { x } => if s.i + x + 1 > MEMORY_SIZE {
            Err(Fault::MemoryOutOfRange { index: s.i })
        } else {
            go(
                MachineState {
                    v: Seq::new(
                        V_REGISTERS_COUNT as nat,
                        |k: int|
                            if k <= x {
                                s.memory[s.i + k]
                            } else {
                                s.v[k]
                            },
                    ),
                    i: (s.i + x + 1) as u16,
                    ..s
                },
            )
        },
    }
}

/// One fetch-decode-execute step from `s`.
pub open spec fn step(s: MachineState, random: u8) -> Result<(MachineState, Step), Fault> {
    if s.pc + 1 >= MEMORY_SIZE {
        Err(Fault::PcOutOfRange { pc: s.pc })
    } else {
        let word = word_of(s.memory[s.pc as int], s.memory[s.pc + 1]);
        match opcode_of_word(word) {
            None => Err(Fault::UnknownOpcode { address: s.pc, word }),
            Some(op) => execute(MachineState { pc: (s.pc + 2) as u16, ..s }, op, random),
        }
    }
}

/// Whether the machine state `after` and the result `r` are what `expected` says.
pub open spec fn agrees(after: MachineState, r: Result<Step, Fault>, expected: Result<(MachineState, Step), Fault>) -> bool {
    match expected {
        Ok((t, st)) => r == Ok::<Step, Fault>(st) && after == t,
        Err(f) => r == Err::<Step, Fault>(f),
    }
}

/// Executes clear, jumps, calls, returns and the key wait.
fn exec_flow(chip8: &mut Chip8, op: Opcode, random: u8) -> (r: Result<Step, Fault>)
    requires
        old(chip8).wf(),
        op.wf(),
        old(chip8)@.pc <= MEMORY_SIZE,
        matches!(op, Opcode::Clear | Opcode::Return | Opcode::Jump { .. } | Opcode::Call { .. } | Opcode::JumpOffset { .. } | Opcode::WaitKey { .. }),
    ensures
        final(chip8).wf(),
        agrees(final(chip8)@, r, execute(old(chip8)@, op, random)),
{
    match op {
        Opcode::Clear => {
            chip8.display.clear();
            Ok(Step::Continue)
        },
        Opcode::Return => {
            let sp = chip8.register_sp;
            if sp as usize >= STACK_SIZE {
                return Err(Fault::StackUnderflow);
            }
            chip8.register_pc = chip8.stack[sp as usize];
            chip8.register_sp = if sp == 0 { 255 } else { sp - 1 };
            Ok(Step::Continue)
        },
        Opcode::Jump { nnn } => {
            chip8.register_pc = nnn;
            Ok(Step::Continue)
        },
        Opcode::Call { nnn } => {
            let sp: u8 = if chip8.register_sp == 255 { 0 } else { chip8.register_sp + 1 };
            if sp as usize >= STACK_SIZE {
                return Err(Fault::StackOverflow);
            }
            let pc = chip8.register_pc;
            chip8.stack.set(sp as usize, pc);
            chip8.register_sp = sp;
            chip8.register_pc = nnn;
            Ok(Step::Continue)
        },
        Opcode::JumpOffset { nnn } => {
            chip8.register_pc = nnn + chip8.register_v[0] as u16;
            Ok(Step::Continue)
        },
        Opcode::WaitKey { x } => Ok(Step::WaitKey { x }),
        _ => Ok(Step::Continue),
    }
}

/// Executes the conditional skips.
fn exec_skip(chip8: &mut Chip8, op: Opcode, random: u8) -> (r: Result<Step, Fault>)
    requires
        old(chip8).wf(),
        op.wf(),
        old(chip8)@.pc <= MEMORY_SIZE,
        matches!(op, Opcode::SkipEqImm { .. } | Opcode::SkipNeImm { .. } | Opcode::SkipEqReg { .. } | Opcode::SkipNeReg { .. } | Opcode::SkipKeyPressed { .. } | Opcode::SkipKeyReleased { .. }),
    ensures
        final(chip8).wf(),
        agrees(final(chip8)@, r, execute(old(chip8)@, op, random)),
{
    let cond = match op {
        Opcode::SkipEqImm { x, kk } => chip8.register_v[x as usize] == kk,
        Opcode::SkipNeImm { x, kk } => chip8.register_v[x as usize] != kk,
        Opcode::SkipEqReg { x, y } => chip8.register_v[x as usize] == chip8.register_v[y as usize],
        Opcode::SkipNeReg { x, y } => chip8.register_v[x as usize] != chip8.register_v[y as usize],
        Opcode::SkipKeyPressed { x } => chip8.keyboard.is_pressed(chip8.register_v[x as usize]),
        Opcode::SkipKeyReleased { x } => !chip8.keyboard.is_pressed(chip8.register_v[x as usize]),
        _ => false,
    };
    if cond {
        chip8.register_pc = chip8.register_pc + 2;
    }
    Ok(Step::Continue)
}

/// Executes the register arithmetic.
fn exec_register(chip8: &mut Chip8, op: Opcode, random: u8) -> (r: Result<Step, Fault>)
    requires
        old(chip8).wf(),
        op.wf(),
        old(chip8)@.pc <= MEMORY_SIZE,
        matches!(op, Opcode::LoadImm { .. } | Opcode::AddImm { .. } | Opcode::Move { .. } | Opcode::Or { .. } | Opcode::And { .. } | Opcode::Xor { .. } | Opcode::AddReg { .. } | Opcode::Sub { .. } | Opcode::ShiftRight { .. } | Opcode::SubReversed { .. } | Opcode::ShiftLeft { .. } | Opcode::Random { .. } | Opcode::ReadDelay { .. }),
    ensures
        final(chip8).wf(),
        agrees(final(chip8)@, r, execute(old(chip8)@, op, random)),
{
    match op {
        Opcode::LoadImm { x, kk } => chip8.register_v.set(x as usize, kk),
        Opcode::AddImm { x, kk } => {
            let sum = chip8.register_v[x as usize] as u16 + kk as u16;
            chip8.register_v.set(x as usize, (sum % 256) as u8);
        },
        Opcode::Move { x, y } => {
            let b = chip8.register_v[y as usize];
            chip8.register_v.set(x as usize, b);
        },
        Opcode::Or { x, y } => {
            let v = chip8.register_v[x as usize] | chip8.register_v[y as usize];
            chip8.register_v.set(x as usize, v);
        },
        Opcode::And { x, y } => {
            let v = chip8.register_v[x as usize] & chip8.register_v[y as usize];
            chip8.register_v.set(x as usize, v);
        },
        Opcode::Xor { x, y } => {
            let v = chip8.register_v[x as usize] ^ chip8.register_v[y as usize];
            chip8.register_v.set(x as usize, v);
        },
        Opcode::AddReg { x, y } => {
            let sum = chip8.register_v[x as usize] as u16 + chip8.register_v[y as usize] as u16;
            chip8.register_v.set(x as usize, (sum % 256) as u8);
            chip8.register_v.set(FLAG, if sum > 255 { 1 } else { 0 });
        },
        Opcode::Sub { x, y } => {
            let a = chip8.register_v[x as usize];
            let b = chip8.register_v[y as usize];
            chip8.register_v.set(FLAG, if a >= b { 1 } else { 0 });
            chip8.register_v.set(x as usize, ((a as u16 + 256 - b as u16) % 256) as u8);
        },
        Opcode::ShiftRight { x, y } => {
            let b = chip8.register_v[y as usize];
            chip8.register_v.set(FLAG, b % 2);
            chip8.register_v.set(x as usize, b / 2);
        },
        Opcode::SubReversed { x, y } => {
            let a = chip8.register_v[x as usize];
            let b = chip8.register_v[y as usize];
            chip8.register_v.set(FLAG, if a <= b { 1 } else { 0 });
            chip8.register_v.set(x as usize, ((b as u16 + 256 - a as u16) % 256) as u8);
        },
        Opcode::ShiftLeft { x, y } => {
            let b = chip8.register_v[y as usize];
            chip8.register_v.set(FLAG, b / 128);
            chip8.register_v.set(x as usize, ((b as u16 * 2) % 256) as u8);
        },
        Opcode::Random { x, kk } => chip8.register_v.set(x as usize, random & kk),
        Opcode::ReadDelay { x } => {
            let dt = chip8.register_dt;
            chip8.register_v.set(x as usize, dt);
        },
        _ => {},
    }
    Ok(Step::Continue)
}

/// Executes timer writes and the index register.
fn exec_index(chip8: &mut Chip8, op: Opcode, random: u8) -> (r: Result<Step, Fault>)
    requires
        old(chip8).wf(),
        op.wf(),
        old(chip8)@.pc <= MEMORY_SIZE,
        matches!(op, Opcode::LoadIndex { .. } | Opcode::SetDelay { .. } | Opcode::SetSound { .. } | Opcode::AddIndex { .. } | Opcode::FontGlyph { .. }),
    ensures
        final(chip8).wf(),
        agrees(final(chip8)@, r, execute(old(chip8)@, op, random)),
{
    match op {
        Opcode::LoadIndex { nnn } => chip8.register_i = nnn,
        Opcode::SetDelay { x } => chip8.register_dt = chip8.register_v[x as usize],
        Opcode::SetSound { x } => chip8.register_st = chip8.register_v[x as usize],
        Opcode::AddIndex { x } => {
            let sum = chip8.register_i as u32 + chip8.register_v[x as usize] as u32;
            chip8.register_i = (sum % 0x10000) as u16;
        },
        Opcode::FontGlyph { x } => chip8.register_i = chip8.register_v[x as usize] as u16 * 5,
        _ => {},
    }
    Ok(Step::Continue)
}

/// Executes `DXYN`: draws the `n` bytes at `I` and sets the flag on a collision.
fn exec_draw(chip8: &mut Chip8, x: u8, y: u8, n: u8, random: u8) -> (r: Result<Step, Fault>)
    requires
        old(chip8).wf(),
        (Opcode::Draw { x, y, n }).wf(),
    ensures
        final(chip8).wf(),
        agrees(final(chip8)@, r, execute(old(chip8)@, (Opcode::Draw { x, y, n }), random)),
{
    let i = chip8.register_i as usize;
    if i + n as usize > MEMORY_SIZE {
        return Err(Fault::MemoryOutOfRange { index: chip8.register_i });
    }
    let mut sprite: Vec<u8> = Vec::new();
    let mut k: usize = 0;
    while k < n as usize
        invariant
            chip8.wf(),
            i + n <= MEMORY_SIZE,
            k <= n,
            sprite@ =~= chip8.memory@.subrange(i as int, i + k),
        decreases n - k,
    {
        sprite.push(chip8.memory[i + k]);
        k = k + 1;
    }
    let vx = chip8.register_v[x as usize];
    let vy = chip8.register_v[y as usize];
    let erased = chip8.display.draw_sprite(vx, vy, sprite.as_slice());
    chip8.register_v.set(FLAG, if erased { 1 } else { 0 });
    Ok(Step::Continue)
}

/// Executes `FX33`: the hundreds, tens and units of `Vx` go to `I`, `I + 1`, `I + 2`.
fn exec_bcd(chip8: &mut Chip8, x: u8, random: u8) -> (r: Result<Step, Fault>)
    requires
        old(chip8).wf(),
        (Opcode::StoreBcd { x }).wf(),
    ensures
        final(chip8).wf(),
        agrees(final(chip8)@, r, execute(old(chip8)@, (Opcode::StoreBcd { x }), random)),
{
    let i = chip8.register_i as usize;
    if i + 3 > MEMORY_SIZE {
        return Err(Fault::MemoryOutOfRange { index: chip8.register_i });
    }
    let v = chip8.register_v[x as usize];
    chip8.memory.set(i, v / 100);
    chip8.memory.set(i + 1, (v % 100) / 10);
    chip8.memory.set(i + 2, v % 10);
    Ok(Step::Continue)
}

/// Executes `FX55`: `V0..=Vx` go to memory from `I` on, and `I` moves past them.
fn exec_store_registers(chip8: &mut Chip8, x: u8, random: u8) -> (r: Result<Step, Fault>)
    requires
        old(chip8).wf(),
        (Opcode::StoreRegisters { x }).wf(),
    ensures
        final(chip8).wf(),
        agrees(final(chip8)@, r, execute(old(chip8)@, (Opcode::StoreRegisters { x }), random)),
{
    let i = chip8.register_i as usize;
    if i + x as usize + 1 > MEMORY_SIZE {
        return Err(Fault::MemoryOutOfRange { index: chip8.register_i });
    }
    let mut k: usize = 0;
    while k <= x as usize
        invariant
            chip8.wf(),
            x < 16,
            i == old(chip8).register_i,
            i + x + 1 <= MEMORY_SIZE,
            k <= x + 1,
            chip8@ == (MachineState { memory: chip8@.memory, ..old(chip8)@ }),
            forall|a: int|
                0 <= a < MEMORY_SIZE ==> #[trigger] chip8.memory@[a] == if i <= a < i + k {
                    old(chip8).register_v@[a - i]
                } else {
                    old(chip8).memory@[a]
                },
        decreases x + 1 - k,
    {
        let v = chip8.register_v[k];
        chip8.memory.set(i + k, v);
        k = k + 1;
    }
    chip8.register_i = (i + x as usize + 1) as u16;
    proof {
        let s = old(chip8)@;
        assert(chip8.memory@ =~= Seq::new(
            MEMORY_SIZE as nat,
            |a: int|
                if s.i <= a <= s.i + x {
                    s.v[a - s.i]
                } else {
                    s.memory[a]
                },
        ));
    }
    Ok(Step::Continue)
}

/// Executes `FX65`: `V0..=Vx` are read from memory from `I` on, and `I` moves past them.
fn exec_load_registers(chip8: &mut Chip8, x: u8, random: u8) -> (r: Result<Step, Fault>)
    requires
        old(chip8).wf(),
        (Opcode::LoadRegisters { x }).wf(),
    ensures
        final(chip8).wf(),
        agrees(final(chip8)@, r, execute(old(chip8)@, (Opcode::LoadRegisters { x }), random)),
{
    let i = chip8.register_i as usize;
    if i + x as usize + 1 > MEMORY_SIZE {
        return Err(Fault::MemoryOutOfRange { index: chip8.register_i });
    }
    let mut k: usize = 0;
    while k <= x as usize
        invariant
            chip8.wf(),
            x < 16,
            i == old(chip8).register_i,
            i + x + 1 <= MEMORY_SIZE,
            k <= x + 1,
            chip8@ == (MachineState { v: chip8@.v, ..old(chip8)@ }),
            forall|j: int|
                0 <= j < V_REGISTERS_COUNT ==> #[trigger] chip8.register_v@[j] == if j < k {
                    old(chip8).memory@[i + j]
                } else {
                    old(chip8).register_v@[j]
                },
        decreases x + 1 - k,
    {
        let b = chip8.memory[i + k];
        chip8.register_v.set(k, b);
        k = k + 1;
    }
    chip8.register_i = (i + x as usize + 1) as u16;
    proof {
        let s = old(chip8)@;
        assert(chip8.register_v@ =~= Seq::new(
            V_REGISTERS_COUNT as nat,
            |j: int|
                if j <= x {
                    s.memory[s.i + j]
                } else {
                    s.v[j]
                },
        ));
    }
    Ok(Step::Continue)
}

/// Relies on `rand::random::<u8>`: a byte from the thread-local generator.
/// Nothing is promised of its value.
#[verifier::external_body]
fn random_byte() -> u8 {
    rand::random::<u8>()
}

/// The fetch-decode-execute interpreter.
pub struct Interpreter;

impl Interpreter {
    /// Fetches the instruction at `pc`, advances `pc` past it and executes it;
    /// `random` is the byte that `CXKK` masks.
    pub fn execute_instruction(chip8: &mut Chip8, random: u8) -> (r: Result<Step, Fault>)
        requires
            old(chip8).wf(),
        ensures
            final(chip8).wf(),
            agrees(final(chip8)@, r, step(old(chip8)@, random)),
    {
        let pc = chip8.register_pc as usize;
        if pc + 1 >= MEMORY_SIZE {
            return Err(Fault::PcOutOfRange { pc: chip8.register_pc });
        }
        let word = instruction_word(chip8.memory[pc], chip8.memory[pc + 1]);
        let op = match Opcode::from_word(word) {
            Some(op) => op,
            None => {
                return Err(Fault::UnknownOpcode { address: chip8.register_pc, word });
            },
        };
        chip8.register_pc = chip8.register_pc + 2;
        match op {
            Opcode::Clear | Opcode::Return | Opcode::Jump { .. } | Opcode::Call { .. }
            | Opcode::JumpOffset { .. } | Opcode::WaitKey { .. } => exec_flow(chip8, op, random),
            Opcode::SkipEqImm { .. } | Opcode::SkipNeImm { .. } | Opcode::SkipEqReg { .. }
            | Opcode::SkipNeReg { .. } | Opcode::SkipKeyPressed { .. }
            | Opcode::SkipKeyReleased { .. } => exec_skip(chip8, op, random),
            Opcode::LoadImm { .. } | Opcode::AddImm { .. } | Opcode::Move { .. } | Opcode::Or { .. }
            | Opcode::And { .. } | Opcode::Xor { .. } | Opcode::AddReg { .. } | Opcode::Sub { .. }
            | Opcode::ShiftRight { .. } | Opcode::SubReversed { .. } | Opcode::ShiftLeft { .. }
            | Opcode::Random { .. } | Opcode::ReadDelay { .. } => exec_register(chip8, op, random),
            Opcode::LoadIndex { .. } | Opcode::SetDelay { .. } | Opcode::SetSound { .. }
            | Opcode::AddIndex { .. } | Opcode::FontGlyph { .. } => exec_index(chip8, op, random),
            Opcode::Draw { x, y, n } => exec_draw(chip8, x, y, n, random),
            Opcode::StoreBcd { x } => exec_bcd(chip8, x, random),
            Opcode::StoreRegisters { x } => exec_store_registers(chip8, x, random),
            Opcode::LoadRegisters { x } => exec_load_registers(chip8, x, random),
        }
    }

    /// Executes the next instruction, drawing a random byte for `CXKK`.
    pub fn execute_next_instruction(chip8: &mut Chip8) -> (r: Result<Step, Fault>)
        requires
            old(chip8).wf(),
        ensures
            final(chip8).wf(),
            exists|random: u8| agrees(final(chip8)@, r, #[trigger] step(old(chip8)@, random)),
    {
        let random = random_byte();
        Interpreter::execute_instruction(chip8, random)
    }

    /// Ends a key wait: stores the key that was pressed in `Vx`.
    pub fn complete_key_wait(chip8: &mut Chip8, x: u8, key: u8)
        requires
            old(chip8).wf(),
            (x as int) < V_REGISTERS_COUNT,
        ensures
            final(chip8).wf(),
            final(chip8)@ == with_v(old(chip8)@, x as int, key),
    {
        chip8.register_v.set(x as usize, key);
    }
}

/// `8XY4`: for a destination other than the flag register, `Vx` holds the sum
/// modulo 256 and the flag is 1 exactly when the unsigned sum exceeds 255.
pub proof fn lemma_add_sets_carry(s: MachineState, x: u8, y: u8, random: u8)
    requires
        s.wf(),
        (x as int) < FLAG,
        y < 16,
    ensures
        execute(s, (Opcode::AddReg { x, y }), random) matches Ok((t, Step::Continue)) && t.v[x as int]
            == (s.v[x as int] + s.v[y as int]) % 256 && (t.v[FLAG as int] == 1 <==> s.v[x as int]
            + s.v[y as int] > 255) && (t.v[FLAG as int] == 0 <==> s.v[x as int] + s.v[y as int]
            <= 255),
{
}

/// `8XY5`: for a destination other than the flag register, `Vx` holds the
/// difference modulo 256 and the flag is 1 exactly when nothing is borrowed.
pub proof fn lemma_sub_sets_no_borrow(s: MachineState, x: u8, y: u8, random: u8)
    requires
        s.wf(),
        (x as int) < FLAG,
        y < 16,
    ensures
        execute(s, (Opcode::Sub { x, y }), random) matches Ok((t, Step::Continue)) && t.v[x as int]
            == (s.v[x as int] - s.v[y as int]) % 256 && (t.v[FLAG as int] == 1 <==> s.v[x as int]
            >= s.v[y as int]) && (t.v[FLAG as int] == 0 <==> s.v[x as int] < s.v[y as int]),
{
}

/// `8XY6` and `8XYE`: for a destination other than the flag register, the flag
/// holds the bit of `Vy` that the shift drops, and `Vx` the shifted `Vy`.
pub proof fn lemma_shifts_set_dropped_bit(s: MachineState, x: u8, y: u8, random: u8)
    requires
        s.wf(),
        (x as int) < FLAG,
        y < 16,
    ensures
        execute(s, (Opcode::ShiftRight { x, y }), random) matches Ok((t, Step::Continue))
            && t.v[FLAG as int] == s.v[y as int] & 1 && t.v[x as int] == s.v[y as int] >> 1,
        execute(s, (Opcode::ShiftLeft { x, y }), random) matches Ok((t, Step::Continue))
            && t.v[FLAG as int] == s.v[y as int] >> 7 && t.v[x as int] == ((s.v[y as int] as u16)
            << 1) as u8,
{
    let b = s.v[y as int];
    assert(b & 1 == b % 2 && b >> 1 == b / 2 && b >> 7 == b / 128) by (bit_vector);
    assert(((b as u16) << 1) as u8 == ((b * 2) % 256) as u8) by (bit_vector);
}

/// A call followed at its target by a return resumes at the instruction after
/// the call, with the stack pointer as it was before the call.
pub proof fn lemma_call_then_return(s: MachineState, nnn: u16, r1: u8, r2: u8)
    requires
        s.wf(),
        s.pc + 1 < MEMORY_SIZE,
        nnn + 1 < MEMORY_SIZE,
        word_of(s.memory[s.pc as int], s.memory[s.pc + 1]) == 0x2000 + nnn,
        word_of(s.memory[nnn as int], s.memory[nnn + 1]) == 0x00EE,
        s.sp == 255 || s.sp + 1 < STACK_SIZE,
    ensures
        step(s, r1) matches Ok((t, Step::Continue)) && t.pc == nnn && (step(t, r2) matches Ok(
            (u, Step::Continue),
        ) && u.pc == s.pc + 2 && u.sp == s.sp),
{
    let w = (0x2000 + nnn) as u16;
    assert(w >> 12 == 2 && w & 0xFFF == nnn) by (bit_vector)
        requires
            nnn < 4096,
            w == 0x2000 + nnn,
    ;
    let r: u16 = 0x00EE;
    assert(r >> 12 == 0 && r & 0xFFF == 0x0EE) by (bit_vector)
        requires
            r == 0x00EE,
    ;
}

} // verus!
