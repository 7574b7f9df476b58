use vstd::prelude::*;
use crate::display::Display;
use crate::keyboard::Keyboard;

verus! {

pub const MEMORY_SIZE: usize = 0x1000;
pub const ROM_START_ADDRESS: u16 = 0x200;
pub const STACK_SIZE: usize = 16;
pub const V_REGISTERS_COUNT: usize = 16;
/// The index of the flag register `VF`.
pub const FLAG: usize = 15;
/// Milliseconds between two ticks of the 60 Hz clock.
pub const TICK_MILLIS: u64 = 16;

/// The sixteen hexadecimal digit glyphs, five bytes each, stored from address 0.
pub open spec fn font() -> Seq<u8> {
    seq![
        0xF0u8, 0x90u8, 0x90u8, 0x90u8, 0xF0u8,
        0x20u8, 0x60u8, 0x20u8, 0x20u8, 0x70u8,
        0xF0u8, 0x10u8, 0xF0u8, 0x80u8, 0xF0u8,
        0xF0u8, 0x10u8, 0xF0u8, 0x10u8, 0xF0u8,
        0x90u8, 0x90u8, 0xF0u8, 0x10u8, 0x10u8,
        0xF0u8, 0x80u8, 0xF0u8, 0x10u8, 0xF0u8,
        0xF0u8, 0x80u8, 0xF0u8, 0x90u8, 0xF0u8,
        0xF0u8, 0x10u8, 0x20u8, 0x40u8, 0x40u8,
        0xF0u8, 0x90u8, 0xF0u8, 0x90u8, 0xF0u8,
        0xF0u8, 0x90u8, 0xF0u8, 0x10u8, 0xF0u8,
        0xF0u8, 0x90u8, 0xF0u8, 0x90u8, 0x90u8,
        0xE0u8, 0x90u8, 0xE0u8, 0x90u8, 0xE0u8,
        0xF0u8, 0x80u8, 0x80u8, 0x80u8, 0xF0u8,
        0xE0u8, 0x90u8, 0x90u8, 0x90u8, 0xE0u8,
        0xF0u8, 0x80u8, 0xF0u8, 0x80u8, 0xF0u8,
        0xF0u8, 0x80u8, 0xF0u8, 0x80u8, 0x80u8
    ]
}

/// The longest ROM that fits between the load address and the end of memory.
pub open spec fn max_rom_len() -> int {
    MEMORY_SIZE - ROM_START_ADDRESS as int
}

/// The machine's registers, memory, stack, screen and keypad as values.
pub struct MachineState {
    pub memory: Seq<u8>,
    pub stack: Seq<u16>,
    pub v: Seq<u8>,
    pub i: u16,
    pub dt: u8,
    pub st: u8,
    pub pc: u16,
    pub sp: u8,
    pub frame: Seq<u8>,
    pub keys: Seq<bool>,
}

/// The state of a CHIP-8 machine.
pub struct Chip8 {
    pub memory: Vec<u8>,
    pub stack: Vec<u16>,
    pub register_v: Vec<u8>,
    pub register_i: u16,
    pub register_dt: u8,
    pub register_st: u8,
    pub register_pc: u16,
    /// Index of the top of the stack; `0xFF` when the stack is empty.
    pub register_sp: u8,
    pub keyboard: Keyboard,
    pub display: Display,
}

impl View for Chip8 {
    type V = MachineState;

    open spec fn view(&self) -> MachineState {
        MachineState {
            memory: self.memory@,
            stack: self.stack@,
            v: self.register_v@,
            i: self.register_i,
            dt: self.register_dt,
            st: self.register_st,
            pc: self.register_pc,
            sp: self.register_sp,
            frame: self.display.frame_buffer@,
            keys: self.keyboard.pressed@,
        }
    }
}

/// `n` zero values.
fn zeroes<T: Copy>(n: usize, zero: T) -> (r: Vec<T>)
    ensures
        r@ == Seq::new(n as nat, |i: int| zero),
{
    let mut r: Vec<T> = Vec::new();
    while r.len() < n
        invariant
            r.len() <= n,
            forall|i: int| 0 <= i < r.len() ==> r@[i] == zero,
        decreases n - r.len(),
    {
        r.push(zero);
    }
    assert(r@ =~= Seq::new(n as nat, |i: int| zero));
    r
}

impl MachineState {
    /// Sizes of memory, stack, registers, screen and keypad; pixels are 0 or 1.
    pub open spec fn wf(self) -> bool {
        &&& self.memory.len() == MEMORY_SIZE
        &&& self.stack.len() == STACK_SIZE
        &&& self.v.len() == V_REGISTERS_COUNT
        &&& crate::display::frame_wf(self.frame)
        &&& self.keys.len() == crate::keyboard::KEY_COUNT
    }
}

impl Chip8 {
    pub open spec fn wf(&self) -> bool {
        &&& self@.wf()
        &&& self.display.wf()
        &&& self.keyboard.wf()
    }

    /// A machine at reset: the font at address 0, the rest of memory zero,
    /// all registers zero, `pc` at the load address and the stack empty.
    pub fn new() -> (c: Chip8)
        ensures
            c.wf(),
            c@.memory == font() + Seq::new((MEMORY_SIZE - 80) as nat, |i: int| 0u8),
            c@.stack == Seq::new(STACK_SIZE as nat, |i: int| 0u16),
            c@.v == Seq::new(V_REGISTERS_COUNT as nat, |i: int| 0u8),
            c@.i == 0,
            c@.dt == 0,
            c@.st == 0,
            c@.pc == ROM_START_ADDRESS,
            c@.sp == 0xFF,
            c@.frame == Seq::new(crate::display::PIXEL_COUNT as nat, |i: int| 0u8),
            c@.keys == Seq::new(crate::keyboard::KEY_COUNT as nat, |i: int| false),
    {
        let glyphs: Vec<u8> = vec![
            0xF0u8, 0x90u8, 0x90u8, 0x90u8, 0xF0u8,
            0x20u8, 0x60u8, 0x20u8, 0x20u8, 0x70u8,
            0xF0u8, 0x10u8, 0xF0u8, 0x80u8, 0xF0u8,
            0xF0u8, 0x10u8, 0xF0u8, 0x10u8, 0xF0u8,
            0x90u8, 0x90u8, 0xF0u8, 0x10u8, 0x10u8,
            0xF0u8, 0x80u8, 0xF0u8, 0x10u8, 0xF0u8,
            0xF0u8, 0x80u8, 0xF0u8, 0x90u8, 0xF0u8,
            0xF0u8, 0x10u8, 0x20u8, 0x40u8, 0x40u8,
            0xF0u8, 0x90u8, 0xF0u8, 0x90u8, 0xF0u8,
            0xF0u8, 0x90u8, 0xF0u8, 0x10u8, 0xF0u8,
            0xF0u8, 0x90u8, 0xF0u8, 0x90u8, 0x90u8,
            0xE0u8, 0x90u8, 0xE0u8, 0x90u8, 0xE0u8,
            0xF0u8, 0x80u8, 0x80u8, 0x80u8, 0xF0u8,
            0xE0u8, 0x90u8, 0x90u8, 0x90u8, 0xE0u8,
            0xF0u8, 0x80u8, 0xF0u8, 0x80u8, 0xF0u8,
            0xF0u8, 0x80u8, 0xF0u8, 0x80u8, 0x80u8
        ];
        assert(glyphs@ =~= font());
        let mut memory = zeroes(MEMORY_SIZE, 0u8);
        let mut k: usize = 0;
        while k < glyphs.len()
            invariant
                glyphs@ == font(),
                memory.len() == MEMORY_SIZE,
                k <= glyphs.len(),
                forall|j: int| 0 <= j < k ==> memory@[j] == glyphs@[j],
                forall|j: int| k <= j < MEMORY_SIZE ==> memory@[j] == 0,
            decreases glyphs.len() - k,
        {
            memory.set(k, glyphs[k]);
            k = k + 1;
        }
        assert(memory@ =~= font() + Seq::new((MEMORY_SIZE - 80) as nat, |i: int| 0u8));
        Chip8 {
            memory,
            stack: zeroes(STACK_SIZE, 0u16),
            register_v: zeroes(V_REGISTERS_COUNT, 0u8),
            register_i: 0,
            register_dt: 0,
            register_st: 0,
            register_pc: ROM_START_ADDRESS,
            register_sp: 0xFF,
            keyboard: Keyboard::new(),
            display: Display::new(),
        }
    }

    /// Copies a ROM image into memory from the load address on.
    pub fn load_rom(&mut self, rom: &[u8])
        requires
            old(self).wf(),
            rom@.len() <= max_rom_len(),
        ensures
            final(self).wf(),
            final(self)@ == (MachineState {
                memory: old(self)@.memory.subrange(0, ROM_START_ADDRESS as int) + rom@
                    + old(self)@.memory.subrange(ROM_START_ADDRESS + rom@.len(), MEMORY_SIZE as int),
                ..old(self)@
            }),
    {
        let start = ROM_START_ADDRESS as usize;
        let mut k: usize = 0;
        while k < rom.len()
            invariant
                self.wf(),
                start == ROM_START_ADDRESS as usize,
                rom@.len() <= max_rom_len(),
                k <= rom@.len(),
                self@ == (MachineState { memory: self@.memory, ..old(self)@ }),
                forall|j: int| 0 <= j < k ==> self.memory@[start + j] == rom@[j],
                forall|j: int|
                    0 <= j < MEMORY_SIZE && !(start <= j < start + k) ==> self.memory@[j]
                        == old(self).memory@[j],
            decreases rom@.len() - k,
        {
            self.memory.set(start + k, rom[k]);
            k = k + 1;
        }
        assert(self.memory@ =~= old(self)@.memory.subrange(0, ROM_START_ADDRESS as int) + rom@
            + old(self)@.memory.subrange(ROM_START_ADDRESS + rom@.len(), MEMORY_SIZE as int));
    }

    /// One tick of the 60 Hz clock: each timer above zero counts down by one.
    pub fn tick_timers(&mut self)
        requires
            old(self).wf(),
        ensures
            final(self).wf(),
            final(self)@ == (MachineState {
                dt: if old(self)@.dt > 0 { (old(self)@.dt - 1) as u8 } else { 0 },
                st: if old(self)@.st > 0 { (old(self)@.st - 1) as u8 } else { 0 },
                ..old(self)@
            }),
    {
        if self.register_dt > 0 {
            self.register_dt = self.register_dt - 1;
        }
        if self.register_st > 0 {
            self.register_st = self.register_st - 1;
        }
    }

    /// Whether a tick of the 60 Hz clock is due, `elapsed_millis` after the last.
    pub fn tick_due(elapsed_millis: u64) -> (r: bool)
        ensures
            r == (elapsed_millis >= TICK_MILLIS),
    {
        elapsed_millis >= TICK_MILLIS
    }
}

} // verus!
