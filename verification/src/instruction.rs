use vstd::prelude::*;

verus! {

/// A 32-bit MIPS instruction word, with accessors for its fields.
#[derive(Clone, Copy, Debug, PartialEq, Eq, Structural)]
pub struct Instruction(pub u32);

/// Bits `hi..=lo` of `word`, shifted down to bit 0.
pub open spec fn bits(word: u32, hi: u32, lo: u32) -> u32 {
    (word >> lo) & (((1u64 << ((hi - lo) + 1) as u64) - 1) as u32)
}

/// The 16-bit immediate sign-extended to 32 bits.
pub open spec fn sign_extend16(imm: u32) -> i32 {
    if imm < 0x8000 { imm as i32 } else { (imm - 0x10000) as i32 }
}

/// The bounds of the instruction fields.
proof fn lemma_fields(w: u32)
    by (bit_vector)
    ensures
        w >> 26u32 < 64,
        (w >> 21u32) & 0x1f < 32,
        (w >> 16u32) & 0x1f < 32,
        (w >> 11u32) & 0x1f < 32,
        (w >> 6u32) & 0x1f < 32,
        w & 0x3f < 64,
        w & 0xffff < 0x10000,
        w & 0x03ff_ffff < 0x0400_0000,
{
}

impl Instruction {
    /// The opcode field, bits 31..26.
    pub fn opcode(&self) -> (r: u32)
        ensures
            r == self.0 >> 26,
            r < 64,
    {
        let w = self.0;
        proof { lemma_fields(w); }
        w >> 26
    }

    /// The RS field, bits 25..21: a source register index.
    pub fn rs(&self) -> (r: usize)
        ensures
            r == (self.0 >> 21) & 0x1f,
            r < 32,
    {
        let w = self.0;
        proof { lemma_fields(w); }
        ((w >> 21) & 0x1f) as usize
    }

    /// The RT field, bits 20..16: a target register index.
    pub fn rt(&self) -> (r: usize)
        ensures
            r == (self.0 >> 16) & 0x1f,
            r < 32,
    {
        let w = self.0;
        proof { lemma_fields(w); }
        ((w >> 16) & 0x1f) as usize
    }

    /// The RD field, bits 15..11: a destination register index.
    pub fn rd(&self) -> (r: usize)
        ensures
            r == (self.0 >> 11) & 0x1f,
            r < 32,
    {
        let w = self.0;
        proof { lemma_fields(w); }
        ((w >> 11) & 0x1f) as usize
    }

    /// The shift amount field, bits 10..6.
    pub fn shamt(&self) -> (r: u32)
        ensures
            r == (self.0 >> 6) & 0x1f,
            r < 32,
    {
        let w = self.0;
        proof { lemma_fields(w); }
        (w >> 6) & 0x1f
    }

    /// The function field of R-type instructions, bits 5..0.
    pub fn funct(&self) -> (r: u32)
        ensures
            r == self.0 & 0x3f,
            r < 64,
    {
        let w = self.0;
        proof { lemma_fields(w); }
        w & 0x3f
    }

    /// The 16-bit immediate, zero-extended.
    pub fn imm16(&self) -> (r: u32)
        ensures
            r == self.0 & 0xffff,
            r < 0x10000,
    {
        let w = self.0;
        proof { lemma_fields(w); }
        w & 0xffff
    }

    /// The 16-bit immediate, sign-extended to 32 bits.
    pub fn simm16(&self) -> (r: i32)
        ensures
            r == sign_extend16(self.0 & 0xffff),
            -0x8000 <= r < 0x8000,
    {
        let imm = self.imm16();
        if imm < 0x8000 {
            imm as i32
        } else {
            (imm as i32) - 0x10000
        }
    }

    /// The 26-bit jump target of J-type instructions, bits 25..0.
    pub fn jump_target(&self) -> (r: u32)
        ensures
            r == self.0 & 0x03ff_ffff,
            r < 0x0400_0000,
    {
        let w = self.0;
        proof { lemma_fields(w); }
        w & 0x03ff_ffff
    }

    /// Bit 25: set on coprocessor "execute" instructions (COPn imm25).
    pub fn cop_execute(&self) -> (r: bool)
        ensures
            r == (self.0 & 0x0200_0000 != 0),
    {
        self.0 & 0x0200_0000 != 0
    }

    /// The coprocessor sub-operation (MFCn/CFCn/MTCn/CTCn), bits 25..21.
    pub fn cop_funct(&self) -> (r: u32)
        ensures
            r == (self.0 >> 21) & 0x1f,
            r < 32,
    {
        let w = self.0;
        proof { lemma_fields(w); }
        (w >> 21) & 0x1f
    }

    /// The command of a coprocessor execute instruction (COPn imm25),
    /// bits 24..0.
    pub fn cop_instruction(&self) -> (r: u32)
        ensures
            r == self.0 & 0x1ff_ffff,
    {
        self.0 & 0x1ff_ffff
    }
}

} // verus!
