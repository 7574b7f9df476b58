use vstd::prelude::*;

verus! {

/// A translated block as it lies in executable memory: its machine code and
/// the native address of its first byte, where control enters it.
pub struct CodeBlock {
    pub raw_code: Vec<u8>,
    pub x86_address: u32,
}

impl CodeBlock {
    /// The block holding `raw_code` placed at native address `x86_address`.
    pub fn new(raw_code: Vec<u8>, x86_address: u32) -> (b: CodeBlock)
        ensures
            b.raw_code@ == raw_code@,
            b.x86_address == x86_address,
    {
        CodeBlock { raw_code, x86_address }
    }

    /// The native address of the block's entry point.
    pub fn get_x86address(&self) -> (r: u32)
        ensures
            r == self.x86_address,
    {
        self.x86_address
    }
}

} // verus!
