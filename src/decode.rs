use vstd::prelude::*;

verus! {

/// The fields of one 16-bit CHIP-8 instruction word.
#[derive(Clone, Copy, Debug, PartialEq, Eq, Structural)]
pub struct Instruction {
    /// Bits 15-12.
    pub tag: u8,
    /// Bits 11-8: the first register index.
    pub x: u8,
    /// Bits 7-4: the second register index.
    pub y: u8,
    /// Bits 3-0.
    pub n: u8,
    /// Bits 7-0: the immediate byte.
    pub kk: u8,
    /// Bits 11-0: the address operand.
    pub nnn: u16,
}

/// The instruction word made of the two bytes at `pc` and `pc + 1`.
pub open spec fn word_of(high: u8, low: u8) -> u16 {
    ((high as u16) * 256 + (low as u16)) as u16
}

impl Instruction {
    /// The fields that `decode` extracts from `word`.
    pub open spec fn spec_fields(word: u16) -> Instruction {
        Instruction {
            tag: (word >> 12) as u8,
            x: ((word >> 8) & 0xF) as u8,
            y: ((word >> 4) & 0xF) as u8,
            n: (word & 0xF) as u8,
            kk: (word & 0xFF) as u8,
            nnn: word & 0xFFF,
        }
    }

    /// Every field lies in the range of its bit width.
    pub open spec fn in_range(self) -> bool {
        &&& self.tag < 16
        &&& self.x < 16
        &&& self.y < 16
        &&& self.n < 16
        &&& self.nnn < 4096
    }
}

/// Splits an instruction word into its fields. Every word decodes.
pub fn decode(word: u16) -> (ins: Instruction)
    ensures
        ins == Instruction::spec_fields(word),
        ins.tag as u16 == word >> 12,
        ins.x as u16 == (word >> 8) & 0xF,
        ins.y as u16 == (word >> 4) & 0xF,
        ins.n as u16 == word & 0xF,
        ins.kk as u16 == word & 0xFF,
        ins.nnn == word & 0xFFF,
        ins.in_range(),
{
    proof {
        assert(word >> 12 < 16) by (bit_vector);
        assert((word >> 8) & 0xF < 16) by (bit_vector);
        assert((word >> 4) & 0xF < 16) by (bit_vector);
        assert(word & 0xF < 16) by (bit_vector);
        assert(word & 0xFF < 256) by (bit_vector);
        assert(word & 0xFFF < 4096) by (bit_vector);
    }
    Instruction {
        tag: (word >> 12) as u8,
        x: ((word >> 8) & 0xF) as u8,
        y: ((word >> 4) & 0xF) as u8,
        n: (word & 0xF) as u8,
        kk: (word & 0xFF) as u8,
        nnn: word & 0xFFF,
    }
}

/// Joins the two bytes of an instruction, the high byte first.
pub fn instruction_word(high: u8, low: u8) -> (word: u16)
    ensures
        word == word_of(high, low),
{
    (high as u16) * 256 + (low as u16)
}

} // verus!
