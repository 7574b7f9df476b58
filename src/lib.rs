//! A CHIP-8 virtual machine that runs its programs either by interpretation
//! or by translating basic blocks into 32-bit x86 machine code.
pub mod decode;
pub mod codeemitter;
pub mod opcode;
pub mod display;
pub mod keyboard;
pub mod chip8;
pub mod layout;
pub mod recompiler;
pub mod codecache;
pub mod interpreter;
pub mod codeblock;
