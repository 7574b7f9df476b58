use vstd::prelude::*;

verus! {

/// The absolute 32-bit addresses that translated code reads, writes and calls.
/// The host fixes them once; the objects they point at are never moved while
/// translated code exists.
#[derive(Clone, Copy, Debug, PartialEq, Eq, Structural)]
pub struct HostLayout {
    /// The machine object, handed to the refresh routine.
    pub chip8: u32,
    /// `memory[0]`.
    pub memory: u32,
    /// `stack[0]`; entries are 16-bit.
    pub stack: u32,
    /// `V0`; the other registers follow it byte by byte.
    pub register_v: u32,
    pub register_i: u32,
    pub register_dt: u32,
    pub register_st: u32,
    pub register_pc: u32,
    pub register_sp: u32,
    /// The display object, handed to the clear and draw routines.
    pub display: u32,
    /// The keyboard object, handed to the key routines.
    pub keyboard: u32,
    /// Entry 0 of the table of native block addresses; entries are 32-bit.
    pub block_table: u32,
    pub refresh_fn: u32,
    pub clear_fn: u32,
    pub draw_sprite_fn: u32,
    pub is_pressed_fn: u32,
    pub wait_key_press_fn: u32,
}

impl HostLayout {
    /// The arrays fit below the top of the 32-bit address space.
    pub open spec fn wf(self) -> bool {
        &&& self.memory + 0x1000 <= u32::MAX
        &&& self.stack + 32 <= u32::MAX
        &&& self.register_v + 16 <= u32::MAX
        &&& self.block_table + 4 * 0x1000 <= u32::MAX
    }

    /// The address of register `Vx`.
    pub open spec fn v(self, x: int) -> u32 {
        (self.register_v + x) as u32
    }

    /// The address of the table entry for CHIP-8 address `a`.
    pub open spec fn slot(self, a: int) -> u32 {
        (self.block_table + 4 * a) as u32
    }

    /// The address of `memory[k]`.
    pub open spec fn mem(self, k: int) -> u32 {
        (self.memory + k) as u32
    }
}

} // verus!
