use vstd::prelude::*;

verus! {

/// The two little-endian bytes of `v`.
pub open spec fn le16(v: u16) -> Seq<u8> {
    seq![v as u8, (v >> 8) as u8]
}

/// The four little-endian bytes of `v`.
pub open spec fn le32(v: u32) -> Seq<u8> {
    seq![v as u8, (v >> 8) as u8, (v >> 16) as u8, (v >> 24) as u8]
}

/// `add al, al`
pub open spec fn x86_add_al_to_al() -> Seq<u8> {
    seq![0x00u8, 0xC0u8]
}

/// `add ax, cx`
pub open spec fn x86_add_cx_to_ax() -> Seq<u8> {
    seq![0x66u8, 0x01u8, 0xC8u8]
}

/// `add ax, imm16`
pub open spec fn x86_add_imm_to_ax(imm: u16) -> Seq<u8> {
    seq![0x66u8, 0x05u8] + le16(imm)
}

/// `add eax, imm32`
pub open spec fn x86_add_imm_to_eax(imm: u32) -> Seq<u8> {
    seq![0x05u8] + le32(imm)
}

/// `add ecx, imm32`
pub open spec fn x86_add_imm_to_ecx(imm: u32) -> Seq<u8> {
    seq![0x81u8, 0xC1u8] + le32(imm)
}

/// `add word [m], ax`
pub open spec fn x86_add_ax_to_m(m: u32) -> Seq<u8> {
    seq![0x66u8, 0x01u8, 0x05u8] + le32(m)
}

/// `add byte [m], imm8`
pub open spec fn x86_add_imm_to_m8(imm: u8, m: u32) -> Seq<u8> {
    seq![0x80u8, 0x05u8] + le32(m) + seq![imm]
}

/// `add word [m], imm16`
pub open spec fn x86_add_imm_to_m16(imm: u16, m: u32) -> Seq<u8> {
    seq![0x66u8, 0x81u8, 0x05u8] + le32(m) + le16(imm)
}

/// `and al, imm8`
pub open spec fn x86_and_al_imm(imm: u8) -> Seq<u8> {
    seq![0x24u8, imm]
}

/// `and cl, imm8`
pub open spec fn x86_and_cl_imm(imm: u8) -> Seq<u8> {
    seq![0x80u8, 0xE1u8, imm]
}

/// `and byte [m], al`
pub open spec fn x86_and_m_al(m: u32) -> Seq<u8> {
    seq![0x20u8, 0x05u8] + le32(m)
}

/// `call eax`
pub open spec fn x86_call_eax() -> Seq<u8> {
    seq![0xFFu8, 0xD0u8]
}

/// `cmp al, imm8`
pub open spec fn x86_cmp_al_with_imm(imm: u8) -> Seq<u8> {
    seq![0x3Cu8, imm]
}

/// `cmp ax, imm16`
pub open spec fn x86_cmp_ax_with_imm(imm: u16) -> Seq<u8> {
    seq![0x66u8, 0x3Du8] + le16(imm)
}

/// `cmp al, byte [m]`
pub open spec fn x86_cmp_m_with_al(m: u32) -> Seq<u8> {
    seq![0x3Au8, 0x05u8] + le32(m)
}

/// `cmp byte [m], imm8`
pub open spec fn x86_cmp_imm_with_m8(imm: u8, m: u32) -> Seq<u8> {
    seq![0x80u8, 0x3Du8] + le32(m) + seq![imm]
}

/// `div dl`
pub open spec fn x86_div_dl() -> Seq<u8> {
    seq![0xF6u8, 0xF2u8]
}

/// `je rel8`
pub open spec fn x86_je(disp: i8) -> Seq<u8> {
    seq![0x74u8, (disp as u8)]
}

/// `jne rel8`
pub open spec fn x86_jne(disp: i8) -> Seq<u8> {
    seq![0x75u8, (disp as u8)]
}

/// `jmp eax`
pub open spec fn x86_jmp_eax() -> Seq<u8> {
    seq![0xFFu8, 0xE0u8]
}

/// `mov cl, al`
pub open spec fn x86_mov_al_to_cl() -> Seq<u8> {
    seq![0x88u8, 0xC1u8]
}

/// `mov al, imm8`
pub open spec fn x86_mov_imm_to_al(imm: u8) -> Seq<u8> {
    seq![0xB0u8, imm]
}

/// `mov dl, imm8`
pub open spec fn x86_mov_imm_to_dl(imm: u8) -> Seq<u8> {
    seq![0xB2u8, imm]
}

/// `mov edi, imm32`
pub open spec fn x86_mov_imm_to_edi(imm: u32) -> Seq<u8> {
    seq![0xBFu8] + le32(imm)
}

/// `mov eax, imm32`
pub open spec fn x86_mov_imm_to_eax(imm: u32) -> Seq<u8> {
    seq![0xB8u8] + le32(imm)
}

/// `mov byte [m], cl`
pub open spec fn x86_mov_cl_to_m(m: u32) -> Seq<u8> {
    seq![0x88u8, 0x0Du8] + le32(m)
}

/// `mov byte [m], al`
pub open spec fn x86_mov_al_to_m(m: u32) -> Seq<u8> {
    seq![0xA2u8] + le32(m)
}

/// `mov byte [edi+ecx], ah`
pub open spec fn x86_mov_ah_to_m_ediecx() -> Seq<u8> {
    seq![0x88u8, 0x24u8, 0x0Fu8]
}

/// `mov byte [edi+ecx], al`
pub open spec fn x86_mov_al_to_m_ediecx() -> Seq<u8> {
    seq![0x88u8, 0x04u8, 0x0Fu8]
}

/// `mov word [m], ax`
pub open spec fn x86_mov_ax_to_m(m: u32) -> Seq<u8> {
    seq![0x66u8, 0xA3u8] + le32(m)
}

/// `mov al, byte [m]`
pub open spec fn x86_mov_m_to_al(m: u32) -> Seq<u8> {
    seq![0xA0u8] + le32(m)
}

/// `mov al, byte [edi+ecx]`
pub open spec fn x86_mov_m_to_al_ediecx() -> Seq<u8> {
    seq![0x8Au8, 0x04u8, 0x0Fu8]
}

/// `mov ax, word [edi+2*ecx]`
pub open spec fn x86_mov_m_to_ax_edi2ecx() -> Seq<u8> {
    seq![0x66u8, 0x8Bu8, 0x04u8, 0x4Fu8]
}

/// `mov eax, dword [m]`
pub open spec fn x86_mov_m_to_eax(m: u32) -> Seq<u8> {
    seq![0xA1u8] + le32(m)
}

/// `mov eax, dword [edi+4*ecx]`
pub open spec fn x86_mov_m_to_eax_edi4ecx() -> Seq<u8> {
    seq![0x8Bu8, 0x04u8, 0x8Fu8]
}

/// `mov byte [m], imm8`
pub open spec fn x86_mov_imm_to_m8(imm: u8, m: u32) -> Seq<u8> {
    seq![0xC6u8, 0x05u8] + le32(m) + seq![imm]
}

/// `mov word [m], imm16`
pub open spec fn x86_mov_imm_to_m16(imm: u16, m: u32) -> Seq<u8> {
    seq![0x66u8, 0xC7u8, 0x05u8] + le32(m) + le16(imm)
}

/// `mov word [edi+2*ecx], imm16`
pub open spec fn x86_mov_imm_to_m16_edi2ecx(imm: u16) -> Seq<u8> {
    seq![0x66u8, 0xC7u8, 0x04u8, 0x4Fu8] + le16(imm)
}

/// `movzx ax, ah`
pub open spec fn x86_movzx_ah_to_ax() -> Seq<u8> {
    seq![0x66u8, 0x0Fu8, 0xB6u8, 0xC4u8]
}

/// `movzx ax, byte [m]`
pub open spec fn x86_movzx_m_to_ax(m: u32) -> Seq<u8> {
    seq![0x66u8, 0x0Fu8, 0xB6u8, 0x05u8] + le32(m)
}

/// `movzx eax, byte [m]`
pub open spec fn x86_movzx_m8_to_eax(m: u32) -> Seq<u8> {
    seq![0x0Fu8, 0xB6u8, 0x05u8] + le32(m)
}

/// `movzx eax, word [m]`
pub open spec fn x86_movzx_m16_to_eax(m: u32) -> Seq<u8> {
    seq![0x0Fu8, 0xB7u8, 0x05u8] + le32(m)
}

/// `movzx cx, byte [m]`
pub open spec fn x86_movzx_m_to_cx(m: u32) -> Seq<u8> {
    seq![0x66u8, 0x0Fu8, 0xB6u8, 0x0Du8] + le32(m)
}

/// `movzx ecx, byte [m]`
pub open spec fn x86_movzx_m8_to_ecx(m: u32) -> Seq<u8> {
    seq![0x0Fu8, 0xB6u8, 0x0Du8] + le32(m)
}

/// `movzx ecx, word [m]`
pub open spec fn x86_movzx_m16_to_ecx(m: u32) -> Seq<u8> {
    seq![0x0Fu8, 0xB7u8, 0x0Du8] + le32(m)
}

/// `movzx ecx, word [edi+2*ecx]`
pub open spec fn x86_movzx_m16_to_ecx_edi2ecx() -> Seq<u8> {
    seq![0x0Fu8, 0xB7u8, 0x0Cu8, 0x4Fu8]
}

/// `mul byte [m]`
pub open spec fn x86_mul_m8(m: u32) -> Seq<u8> {
    seq![0xF6u8, 0x25u8] + le32(m)
}

/// `or byte [m], al`
pub open spec fn x86_or_m_al(m: u32) -> Seq<u8> {
    seq![0x08u8, 0x05u8] + le32(m)
}

/// `push eax`
pub open spec fn x86_push_eax() -> Seq<u8> {
    seq![0x50u8]
}

/// `push imm32`
pub open spec fn x86_push_imm32(imm: u32) -> Seq<u8> {
    seq![0x68u8] + le32(imm)
}

/// `rdrand ax`
pub open spec fn x86_rdrand_ax() -> Seq<u8> {
    seq![0x66u8, 0x0Fu8, 0xC7u8, 0xF0u8]
}

/// `ret`
pub open spec fn x86_ret() -> Seq<u8> {
    seq![0xC3u8]
}

/// `seta byte [m]`
pub open spec fn x86_seta_m(m: u32) -> Seq<u8> {
    seq![0x0Fu8, 0x97u8, 0x05u8] + le32(m)
}

/// `setae byte [m]`
pub open spec fn x86_setae_m(m: u32) -> Seq<u8> {
    seq![0x0Fu8, 0x93u8, 0x05u8] + le32(m)
}

/// `shr al, 1`
pub open spec fn x86_shr_al() -> Seq<u8> {
    seq![0xD0u8, 0xE8u8]
}

/// `shr al, imm8`
pub open spec fn x86_shr_al_imm(imm: u8) -> Seq<u8> {
    seq![0xC0u8, 0xE8u8, imm]
}

/// `shr cl, imm8`
pub open spec fn x86_shr_cl_imm(imm: u8) -> Seq<u8> {
    seq![0xC0u8, 0xE9u8, imm]
}

/// `sub al, byte [m]`
pub open spec fn x86_sub_m_to_al(m: u32) -> Seq<u8> {
    seq![0x2Au8, 0x05u8] + le32(m)
}

/// `sub byte [m], imm8`
pub open spec fn x86_sub_imm_to_m8(imm: u8, m: u32) -> Seq<u8> {
    seq![0x80u8, 0x2Du8] + le32(m) + seq![imm]
}

/// `xor byte [m], al`
pub open spec fn x86_xor_m_al(m: u32) -> Seq<u8> {
    seq![0x30u8, 0x05u8] + le32(m)
}

/// A buffer of 32-bit x86 machine code, filled one instruction at a time.
/// Memory operands are absolute 32-bit addresses.
pub struct CodeEmitter {
    pub raw_code: Vec<u8>,
}

impl CodeEmitter {
    /// An emitter with an empty buffer.
    pub fn new() -> (e: CodeEmitter)
        ensures
            e.raw_code@ == Seq::<u8>::empty(),
    {
        CodeEmitter { raw_code: Vec::new() }
    }

    fn push_u8(&mut self, value: u8)
        ensures
            final(self).raw_code@ == old(self).raw_code@.push(value),
    {
        self.raw_code.push(value);
    }

    fn push_u16(&mut self, value: u16)
        ensures
            final(self).raw_code@ =~= old(self).raw_code@ + le16(value),
    {
        self.push_u8(value as u8);
        self.push_u8((value >> 8) as u8);
    }

    fn push_u32(&mut self, value: u32)
        ensures
            final(self).raw_code@ =~= old(self).raw_code@ + le32(value),
    {
        self.push_u8(value as u8);
        self.push_u8((value >> 8) as u8);
        self.push_u8((value >> 16) as u8);
        self.push_u8((value >> 24) as u8);
    }

    /// Appends `add al, al`.
    pub fn add_al_to_al(&mut self)
        ensures
            final(self).raw_code@ =~= old(self).raw_code@ + x86_add_al_to_al(),
    {
        self.push_u8(0x00);
        self.push_u8(0xC0);
    }

    /// Appends `add ax, cx`.
    pub fn add_cx_to_ax(&mut self)
        ensures
            final(self).raw_code@ =~= old(self).raw_code@ + x86_add_cx_to_ax(),
    {
        self.push_u8(0x66);
        self.push_u8(0x01);
        self.push_u8(0xC8);
    }

    /// Appends `add ax, imm16`.
    pub fn add_imm_to_ax(&mut self, imm: u16)
        ensures
            final(self).raw_code@ =~= old(self).raw_code@ + x86_add_imm_to_ax(imm),
    {
        self.push_u8(0x66);
        self.push_u8(0x05);
        self.push_u16(imm);
    }

    /// Appends `add eax, imm32`.
    pub fn add_imm_to_eax(&mut self, imm: u32)
        ensures
            final(self).raw_code@ =~= old(self).raw_code@ + x86_add_imm_to_eax(imm),
    {
        self.push_u8(0x05);
        self.push_u32(imm);
    }

    /// Appends `add ecx, imm32`.
    pub fn add_imm_to_ecx(&mut self, imm: u32)
        ensures
            final(self).raw_code@ =~= old(self).raw_code@ + x86_add_imm_to_ecx(imm),
    {
        self.push_u8(0x81);
        self.push_u8(0xC1);
        self.push_u32(imm);
    }

    /// Appends `add word [m], ax`.
    pub fn add_ax_to_m(&mut self, m: u32)
        ensures
            final(self).raw_code@ =~= old(self).raw_code@ + x86_add_ax_to_m(m),
    {
        self.push_u8(0x66);
        self.push_u8(0x01);
        self.push_u8(0x05);
        self.push_u32(m);
    }

    /// Appends `add byte [m], imm8`.
    pub fn add_imm_to_m8(&mut self, imm: u8, m: u32)
        ensures
            final(self).raw_code@ =~= old(self).raw_code@ + x86_add_imm_to_m8(imm, m),
    {
        self.push_u8(0x80);
        self.push_u8(0x05);
        self.push_u32(m);
        self.push_u8(imm);
    }

    /// Appends `add word [m], imm16`.
    pub fn add_imm_to_m16(&mut self, imm: u16, m: u32)
        ensures
            final(self).raw_code@ =~= old(self).raw_code@ + x86_add_imm_to_m16(imm, m),
    {
        self.push_u8(0x66);
        self.push_u8(0x81);
        self.push_u8(0x05);
        self.push_u32(m);
        self.push_u16(imm);
    }

    /// Appends `and al, imm8`.
    pub fn and_al_imm(&mut self, imm: u8)
        ensures
            final(self).raw_code@ =~= old(self).raw_code@ + x86_and_al_imm(imm),
    {
        self.push_u8(0x24);
        self.push_u8(imm);
    }

    /// Appends `and cl, imm8`.
    pub fn and_cl_imm(&mut self, imm: u8)
        ensures
            final(self).raw_code@ =~= old(self).raw_code@ + x86_and_cl_imm(imm),
    {
        self.push_u8(0x80);
        self.push_u8(0xE1);
        self.push_u8(imm);
    }

    /// Appends `and byte [m], al`.
    pub fn and_m_al(&mut self, m: u32)
        ensures
            final(self).raw_code@ =~= old(self).raw_code@ + x86_and_m_al(m),
    {
        self.push_u8(0x20);
        self.push_u8(0x05);
        self.push_u32(m);
    }

    /// Appends `call eax`.
    pub fn call_eax(&mut self)
        ensures
            final(self).raw_code@ =~= old(self).raw_code@ + x86_call_eax(),
    {
        self.push_u8(0xFF);
        self.push_u8(0xD0);
    }

    /// Appends `cmp al, imm8`.
    pub fn cmp_al_with_imm(&mut self, imm: u8)
        ensures
            final(self).raw_code@ =~= old(self).raw_code@ + x86_cmp_al_with_imm(imm),
    {
        self.push_u8(0x3C);
        self.push_u8(imm);
    }

    /// Appends `cmp ax, imm16`.
    pub fn cmp_ax_with_imm(&mut self, imm: u16)
        ensures
            final(self).raw_code@ =~= old(self).raw_code@ + x86_cmp_ax_with_imm(imm),
    {
        self.push_u8(0x66);
        self.push_u8(0x3D);
        self.push_u16(imm);
    }

    /// Appends `cmp al, byte [m]`.
    pub fn cmp_m_with_al(&mut self, m: u32)
        ensures
            final(self).raw_code@ =~= old(self).raw_code@ + x86_cmp_m_with_al(m),
    {
        self.push_u8(0x3A);
        self.push_u8(0x05);
        self.push_u32(m);
    }

    /// Appends `cmp byte [m], imm8`.
    pub fn cmp_imm_with_m8(&mut self, imm: u8, m: u32)
        ensures
            final(self).raw_code@ =~= old(self).raw_code@ + x86_cmp_imm_with_m8(imm, m),
    {
        self.push_u8(0x80);
        self.push_u8(0x3D);
        self.push_u32(m);
        self.push_u8(imm);
    }

    /// Appends `div dl`.
    pub fn div_dl(&mut self)
        ensures
            final(self).raw_code@ =~= old(self).raw_code@ + x86_div_dl(),
    {
        self.push_u8(0xF6);
        self.push_u8(0xF2);
    }

    /// Appends `je rel8`.
    pub fn je(&mut self, disp: i8)
        ensures
            final(self).raw_code@ =~= old(self).raw_code@ + x86_je(disp),
    {
        self.push_u8(0x74);
        self.push_u8(disp as u8);
    }

    /// Appends `jne rel8`.
    pub fn jne(&mut self, disp: i8)
        ensures
            final(self).raw_code@ =~= old(self).raw_code@ + x86_jne(disp),
    {
        self.push_u8(0x75);
        self.push_u8(disp as u8);
    }

    /// Appends `jmp eax`.
    pub fn jmp_eax(&mut self)
        ensures
            final(self).raw_code@ =~= old(self).raw_code@ + x86_jmp_eax(),
    {
        self.push_u8(0xFF);
        self.push_u8(0xE0);
    }

    /// Appends `mov cl, al`.
    pub fn mov_al_to_cl(&mut self)
        ensures
            final(self).raw_code@ =~= old(self).raw_code@ + x86_mov_al_to_cl(),
    {
        self.push_u8(0x88);
        self.push_u8(0xC1);
    }

    /// Appends `mov al, imm8`.
    pub fn mov_imm_to_al(&mut self, imm: u8)
        ensures
            final(self).raw_code@ =~= old(self).raw_code@ + x86_mov_imm_to_al(imm),
    {
        self.push_u8(0xB0);
        self.push_u8(imm);
    }

    /// Appends `mov dl, imm8`.
    pub fn mov_imm_to_dl(&mut self, imm: u8)
        ensures
            final(self).raw_code@ =~= old(self).raw_code@ + x86_mov_imm_to_dl(imm),
    {
        self.push_u8(0xB2);
        self.push_u8(imm);
    }

    /// Appends `mov edi, imm32`.
    pub fn mov_imm_to_edi(&mut self, imm: u32)
        ensures
            final(self).raw_code@ =~= old(self).raw_code@ + x86_mov_imm_to_edi(imm),
    {
        self.push_u8(0xBF);
        self.push_u32(imm);
    }

    /// Appends `mov eax, imm32`.
    pub fn mov_imm_to_eax(&mut self, imm: u32)
        ensures
            final(self).raw_code@ =~= old(self).raw_code@ + x86_mov_imm_to_eax(imm),
    {
        self.push_u8(0xB8);
        self.push_u32(imm);
    }

    /// Appends `mov byte [m], cl`.
    pub fn mov_cl_to_m(&mut self, m: u32)
        ensures
            final(self).raw_code@ =~= old(self).raw_code@ + x86_mov_cl_to_m(m),
    {
        self.push_u8(0x88);
        self.push_u8(0x0D);
        self.push_u32(m);
    }

    /// Appends `mov byte [m], al`.
    pub fn mov_al_to_m(&mut self, m: u32)
        ensures
            final(self).raw_code@ =~= old(self).raw_code@ + x86_mov_al_to_m(m),
    {
        self.push_u8(0xA2);
        self.push_u32(m);
    }

    /// Appends `mov byte [edi+ecx], ah`.
    pub fn mov_ah_to_m_ediecx(&mut self)
        ensures
            final(self).raw_code@ =~= old(self).raw_code@ + x86_mov_ah_to_m_ediecx(),
    {
        self.push_u8(0x88);
        self.push_u8(0x24);
        self.push_u8(0x0F);
    }

    /// Appends `mov byte [edi+ecx], al`.
    pub fn mov_al_to_m_ediecx(&mut self)
        ensures
            final(self).raw_code@ =~= old(self).raw_code@ + x86_mov_al_to_m_ediecx(),
    {
        self.push_u8(0x88);
        self.push_u8(0x04);
        self.push_u8(0x0F);
    }

    /// Appends `mov word [m], ax`.
    pub fn mov_ax_to_m(&mut self, m: u32)
        ensures
            final(self).raw_code@ =~= old(self).raw_code@ + x86_mov_ax_to_m(m),
    {
        self.push_u8(0x66);
        self.push_u8(0xA3);
        self.push_u32(m);
    }

    /// Appends `mov al, byte [m]`.
    pub fn mov_m_to_al(&mut self, m: u32)
        ensures
            final(self).raw_code@ =~= old(self).raw_code@ + x86_mov_m_to_al(m),
    {
        self.push_u8(0xA0);
        self.push_u32(m);
    }

    /// Appends `mov al, byte [edi+ecx]`.
    pub fn mov_m_to_al_ediecx(&mut self)
        ensures
            final(self).raw_code@ =~= old(self).raw_code@ + x86_mov_m_to_al_ediecx(),
    {
        self.push_u8(0x8A);
        self.push_u8(0x04);
        self.push_u8(0x0F);
    }

    /// Appends `mov ax, word [edi+2*ecx]`.
    pub fn mov_m_to_ax_edi2ecx(&mut self)
        ensures
            final(self).raw_code@ =~= old(self).raw_code@ + x86_mov_m_to_ax_edi2ecx(),
    {
        self.push_u8(0x66);
        self.push_u8(0x8B);
        self.push_u8(0x04);
        self.push_u8(0x4F);
    }

    /// Appends `mov eax, dword [m]`.
    pub fn mov_m_to_eax(&mut self, m: u32)
        ensures
            final(self).raw_code@ =~= old(self).raw_code@ + x86_mov_m_to_eax(m),
    {
        self.push_u8(0xA1);
        self.push_u32(m);
    }

    /// Appends `mov eax, dword [edi+4*ecx]`.
    pub fn mov_m_to_eax_edi4ecx(&mut self)
        ensures
            final(self).raw_code@ =~= old(self).raw_code@ + x86_mov_m_to_eax_edi4ecx(),
    {
        self.push_u8(0x8B);
        self.push_u8(0x04);
        self.push_u8(0x8F);
    }

    /// Appends `mov byte [m], imm8`.
    pub fn mov_imm_to_m8(&mut self, imm: u8, m: u32)
        ensures
            final(self).raw_code@ =~= old(self).raw_code@ + x86_mov_imm_to_m8(imm, m),
    {
        self.push_u8(0xC6);
        self.push_u8(0x05);
        self.push_u32(m);
        self.push_u8(imm);
    }

    /// Appends `mov word [m], imm16`.
    pub fn mov_imm_to_m16(&mut self, imm: u16, m: u32)
        ensures
            final(self).raw_code@ =~= old(self).raw_code@ + x86_mov_imm_to_m16(imm, m),
    {
        self.push_u8(0x66);
        self.push_u8(0xC7);
        self.push_u8(0x05);
        self.push_u32(m);
        self.push_u16(imm);
    }

    /// Appends `mov word [edi+2*ecx], imm16`.
    pub fn mov_imm_to_m16_edi2ecx(&mut self, imm: u16)
        ensures
            final(self).raw_code@ =~= old(self).raw_code@ + x86_mov_imm_to_m16_edi2ecx(imm),
    {
        self.push_u8(0x66);
        self.push_u8(0xC7);
        self.push_u8(0x04);
        self.push_u8(0x4F);
        self.push_u16(imm);
    }

    /// Appends `movzx ax, ah`.
    pub fn movzx_ah_to_ax(&mut self)
        ensures
            final(self).raw_code@ =~= old(self).raw_code@ + x86_movzx_ah_to_ax(),
    {
        self.push_u8(0x66);
        self.push_u8(0x0F);
        self.push_u8(0xB6);
        self.push_u8(0xC4);
    }

    /// Appends `movzx ax, byte [m]`.
    pub fn movzx_m_to_ax(&mut self, m: u32)
        ensures
            final(self).raw_code@ =~= old(self).raw_code@ + x86_movzx_m_to_ax(m),
    {
        self.push_u8(0x66);
        self.push_u8(0x0F);
        self.push_u8(0xB6);
        self.push_u8(0x05);
        self.push_u32(m);
    }

    /// Appends `movzx eax, byte [m]`.
    pub fn movzx_m8_to_eax(&mut self, m: u32)
        ensures
            final(self).raw_code@ =~= old(self).raw_code@ + x86_movzx_m8_to_eax(m),
    {
        self.push_u8(0x0F);
        self.push_u8(0xB6);
        self.push_u8(0x05);
        self.push_u32(m);
    }

    /// Appends `movzx eax, word [m]`.
    pub fn movzx_m16_to_eax(&mut self, m: u32)
        ensures
            final(self).raw_code@ =~= old(self).raw_code@ + x86_movzx_m16_to_eax(m),
    {
        self.push_u8(0x0F);
        self.push_u8(0xB7);
        self.push_u8(0x05);
        self.push_u32(m);
    }

    /// Appends `movzx cx, byte [m]`.
    pub fn movzx_m_to_cx(&mut self, m: u32)
        ensures
            final(self).raw_code@ =~= old(self).raw_code@ + x86_movzx_m_to_cx(m),
    {
        self.push_u8(0x66);
        self.push_u8(0x0F);
        self.push_u8(0xB6);
        self.push_u8(0x0D);
        self.push_u32(m);
    }

    /// Appends `movzx ecx, byte [m]`.
    pub fn movzx_m8_to_ecx(&mut self, m: u32)
        ensures
            final(self).raw_code@ =~= old(self).raw_code@ + x86_movzx_m8_to_ecx(m),
    {
        self.push_u8(0x0F);
        self.push_u8(0xB6);
        self.push_u8(0x0D);
        self.push_u32(m);
    }

    /// Appends `movzx ecx, word [m]`.
    pub fn movzx_m16_to_ecx(&mut self, m: u32)
        ensures
            final(self).raw_code@ =~= old(self).raw_code@ + x86_movzx_m16_to_ecx(m),
    {
        self.push_u8(0x0F);
        self.push_u8(0xB7);
        self.push_u8(0x0D);
        self.push_u32(m);
    }

    /// Appends `movzx ecx, word [edi+2*ecx]`.
    pub fn movzx_m16_to_ecx_edi2ecx(&mut self)
        ensures
            final(self).raw_code@ =~= old(self).raw_code@ + x86_movzx_m16_to_ecx_edi2ecx(),
    {
        self.push_u8(0x0F);
        self.push_u8(0xB7);
        self.push_u8(0x0C);
        self.push_u8(0x4F);
    }

    /// Appends `mul byte [m]`.
    pub fn mul_m8(&mut self, m: u32)
        ensures
            final(self).raw_code@ =~= old(self).raw_code@ + x86_mul_m8(m),
    {
        self.push_u8(0xF6);
        self.push_u8(0x25);
        self.push_u32(m);
    }

    /// Appends `or byte [m], al`.
    pub fn or_m_al(&mut self, m: u32)
        ensures
            final(self).raw_code@ =~= old(self).raw_code@ + x86_or_m_al(m),
    {
        self.push_u8(0x08);
        self.push_u8(0x05);
        self.push_u32(m);
    }

    /// Appends `push eax`.
    pub fn push_eax(&mut self)
        ensures
            final(self).raw_code@ =~= old(self).raw_code@ + x86_push_eax(),
    {
        self.push_u8(0x50);
    }

    /// Appends `push imm32`.
    pub fn push_imm32(&mut self, imm: u32)
        ensures
            final(self).raw_code@ =~= old(self).raw_code@ + x86_push_imm32(imm),
    {
        self.push_u8(0x68);
        self.push_u32(imm);
    }

    /// Appends `rdrand ax`.
    pub fn rdrand_ax(&mut self)
        ensures
            final(self).raw_code@ =~= old(self).raw_code@ + x86_rdrand_ax(),
    {
        self.push_u8(0x66);
        self.push_u8(0x0F);
        self.push_u8(0xC7);
        self.push_u8(0xF0);
    }

    /// Appends `ret`.
    pub fn ret(&mut self)
        ensures
            final(self).raw_code@ =~= old(self).raw_code@ + x86_ret(),
    {
        self.push_u8(0xC3);
    }

    /// Appends `seta byte [m]`.
    pub fn seta_m(&mut self, m: u32)
        ensures
            final(self).raw_code@ =~= old(self).raw_code@ + x86_seta_m(m),
    {
        self.push_u8(0x0F);
        self.push_u8(0x97);
        self.push_u8(0x05);
        self.push_u32(m);
    }

    /// Appends `setae byte [m]`.
    pub fn setae_m(&mut self, m: u32)
        ensures
            final(self).raw_code@ =~= old(self).raw_code@ + x86_setae_m(m),
    {
        self.push_u8(0x0F);
        self.push_u8(0x93);
        self.push_u8(0x05);
        self.push_u32(m);
    }

    /// Appends `shr al, 1`.
    pub fn shr_al(&mut self)
        ensures
            final(self).raw_code@ =~= old(self).raw_code@ + x86_shr_al(),
    {
        self.push_u8(0xD0);
        self.push_u8(0xE8);
    }

    /// Appends `shr al, imm8`.
    pub fn shr_al_imm(&mut self, imm: u8)
        ensures
            final(self).raw_code@ =~= old(self).raw_code@ + x86_shr_al_imm(imm),
    {
        self.push_u8(0xC0);
        self.push_u8(0xE8);
        self.push_u8(imm);
    }

    /// Appends `shr cl, imm8`.
    pub fn shr_cl_imm(&mut self, imm: u8)
        ensures
            final(self).raw_code@ =~= old(self).raw_code@ + x86_shr_cl_imm(imm),
    {
        self.push_u8(0xC0);
        self.push_u8(0xE9);
        self.push_u8(imm);
    }

    /// Appends `sub al, byte [m]`.
    pub fn sub_m_to_al(&mut self, m: u32)
        ensures
            final(self).raw_code@ =~= old(self).raw_code@ + x86_sub_m_to_al(m),
    {
        self.push_u8(0x2A);
        self.push_u8(0x05);
        self.push_u32(m);
    }

    /// Appends `sub byte [m], imm8`.
    pub fn sub_imm_to_m8(&mut self, imm: u8, m: u32)
        ensures
            final(self).raw_code@ =~= old(self).raw_code@ + x86_sub_imm_to_m8(imm, m),
    {
        self.push_u8(0x80);
        self.push_u8(0x2D);
        self.push_u32(m);
        self.push_u8(imm);
    }

    /// Appends `xor byte [m], al`.
    pub fn xor_m_al(&mut self, m: u32)
        ensures
            final(self).raw_code@ =~= old(self).raw_code@ + x86_xor_m_al(m),
    {
        self.push_u8(0x30);
        self.push_u8(0x05);
        self.push_u32(m);
    }
}

} // verus!
