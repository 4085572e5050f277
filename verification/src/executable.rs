use vstd::prelude::*;

use crate::bus::{Devices, in_stub, ram_offset};
use crate::cpu::{Cpu, MemoryError};
use crate::cpu::memory::physical_of;
use crate::memory::{AccessSize, read_le};

verus! {

/// The header of a PS-X EXE file.
#[derive(Debug, Clone, Copy)]
pub struct Header {
    /// "PS-X EXE" in ASCII.
    pub signature: [u8; 8],
    /// Where execution starts.
    pub pc: u32,
    /// The value of GP (r28).
    pub gp: u32,
    /// Where the program goes in memory.
    pub load_address: u32,
    /// The size of the program in bytes, without this header.
    pub file_size: u32,
    /// The start of a region to zero.
    pub bss_start: u32,
    /// The size of that region.
    pub bss_size: u32,
    /// The value of SP and FP (r29 and r30).
    pub sp_fp: u32,
}

/// Why a file is not a PS-X EXE.
#[derive(Debug, Clone, Copy, PartialEq, Eq, Structural)]
pub enum ExeError {
    /// The file is shorter than 2KB.
    TooSmall,
    /// The file does not start with "PS-X EXE".
    InvalidSignature,
    /// The file is shorter than its header says.
    Truncated,
}

/// The little-endian word at `offset` of `bytes`.
pub open spec fn word_at(bytes: Seq<u8>, offset: int) -> u32 {
    read_le(bytes, offset, AccessSize::Word)
}

/// The ASCII bytes of "PS-X EXE".
pub open spec fn exe_signature() -> Seq<u8> {
    seq![0x50u8, 0x53, 0x2d, 0x58, 0x20, 0x45, 0x58, 0x45]
}

/// The header a file starts with: the signature, then (after 8 bytes) PC,
/// GP, the load address and the size, then (after 8 more) the region to
/// zero, and the stack base and offset.
pub open spec fn header_of(bytes: Seq<u8>) -> Header {
    Header {
        signature: arbitrary(),
        pc: word_at(bytes, 16),
        gp: word_at(bytes, 20),
        load_address: word_at(bytes, 24),
        file_size: word_at(bytes, 28),
        bss_start: word_at(bytes, 40),
        bss_size: word_at(bytes, 44),
        sp_fp: ((word_at(bytes, 48) + word_at(bytes, 52)) % 0x1_0000_0000) as u32,
    }
}

/// Whether a header was read from `bytes`.
pub open spec fn header_read_from(h: Header, bytes: Seq<u8>) -> bool {
    &&& h.signature@ == bytes.subrange(0, 8)
    &&& h == Header { signature: h.signature, ..header_of(bytes) }
}

impl Header {
    /// Reads the header at the start of `bytes`.
    pub fn from_bytes(bytes: &[u8]) -> (r: Header)
        requires
            bytes@.len() >= 56,
        ensures
            header_read_from(r, bytes@),
    {
        let mut signature = [0u8; 8];
        let mut i: usize = 0;
        while i < 8
            invariant
                i <= 8,
                bytes@.len() >= 56,
                forall|k: int| 0 <= k < i ==> signature@[k] == bytes@[k],
            decreases 8 - i,
        {
            signature[i] = bytes[i];
            i = i + 1;
        }
        assert(signature@ =~= bytes@.subrange(0, 8));
        let sp_base = word(bytes, 48);
        let sp_offset = word(bytes, 52);
        Header {
            signature,
            pc: word(bytes, 16),
            gp: word(bytes, 20),
            load_address: word(bytes, 24),
            file_size: word(bytes, 28),
            bss_start: word(bytes, 40),
            bss_size: word(bytes, 44),
            sp_fp: sp_base.wrapping_add(sp_offset),
        }
    }
}

/// The little-endian word at `offset`.
fn word(bytes: &[u8], offset: usize) -> (r: u32)
    requires
        offset + 4 <= bytes@.len(),
    ensures
        r == word_at(bytes@, offset as int),
{
    (bytes[offset] as u32) | ((bytes[offset + 1] as u32) << 8) | ((bytes[offset + 2] as u32) << 16) | ((
    bytes[offset + 3] as u32) << 24)
}

/// A PS-X EXE program: its header and its code.
#[derive(Debug, Clone)]
pub struct Executable {
    pub header: Header,
    pub code: Vec<u8>,
}

/// Whether `address` is a RAM address that a byte store reaches.
pub open spec fn ram_target(address: int) -> bool {
    &&& 0x1000 <= address < 0xc000_0000
    &&& ram_offset(physical_of(address as u32)) is Some
    &&& !in_stub(physical_of(address as u32))
}

/// The RAM offset a store at `address` reaches.
pub open spec fn target_offset(address: int) -> int {
    ram_offset(physical_of(address as u32)).unwrap()
}

/// RAM after the first `n` bytes of `code` are stored from `start` on.
pub open spec fn with_code(ram: Seq<u8>, start: int, code: Seq<u8>, n: nat) -> Seq<u8>
    decreases n,
{
    if n == 0 {
        ram
    } else {
        with_code(ram, start, code, (n - 1) as nat).update(target_offset(start + n - 1), code[n - 1])
    }
}

/// RAM after `n` zero bytes are stored from `start` on.
pub open spec fn with_zeros(ram: Seq<u8>, start: int, n: nat) -> Seq<u8>
    decreases n,
{
    if n == 0 {
        ram
    } else {
        with_zeros(ram, start, (n - 1) as nat).update(target_offset(start + n - 1), 0u8)
    }
}

impl Executable {
    /// The program of a file's bytes: the file must be at least 2KB, start
    /// with "PS-X EXE" and hold the code its header sizes, from offset
    /// 0x800.
    pub fn from_image(image: &[u8]) -> (r: Result<Executable, ExeError>)
        ensures
            image@.len() < 2048 ==> r == Err::<Executable, ExeError>(ExeError::TooSmall),
            image@.len() >= 2048 && image@.subrange(0, 8) != exe_signature() ==> r == Err::<
                Executable,
                ExeError,
            >(ExeError::InvalidSignature),
            image@.len() >= 2048 && image@.subrange(0, 8) == exe_signature() && image@.len() < 0x800
                + word_at(image@, 28) ==> r == Err::<Executable, ExeError>(ExeError::Truncated),
            r matches Ok(exe) ==> header_read_from(exe.header, image@) && exe.code@ == image@.subrange(
                0x800,
                0x800 + word_at(image@, 28),
            ),
            image@.len() >= 2048 && image@.subrange(0, 8) == exe_signature() && image@.len() >= 0x800
                + word_at(image@, 28) ==> r is Ok,
    {
        if image.len() < 2048 {
            return Err(ExeError::TooSmall);
        }
        let header = Header::from_bytes(image);
        let expected: [u8; 8] = [0x50, 0x53, 0x2d, 0x58, 0x20, 0x45, 0x58, 0x45];
        assert(expected@ =~= exe_signature());
        if !crate::cdrom::cuebin::bytes_equal(&header.signature, &expected) {
            return Err(ExeError::InvalidSignature);
        }
        if image.len() - 0x800 < header.file_size as usize {
            return Err(ExeError::Truncated);
        }
        let end = 0x800 + header.file_size as usize;
        let code = vstd::slice::slice_to_vec(vstd::slice::slice_subrange(image, 0x800, end));
        Ok(Executable { header, code })
    }

    /// Whether the code and the region to zero lie in RAM.
    pub open spec fn in_ram(&self) -> bool {
        &&& forall|a: int| self.header.load_address <= a < self.header.load_address + self.code@.len()
            ==> #[trigger] ram_target(a)
        &&& forall|a: int| self.header.bss_start <= a < self.header.bss_start + self.header.bss_size
            ==> #[trigger] ram_target(a)
    }

    /// Prepares the CPU to run the program: sets PC, GP, SP and FP, copies
    /// the code to its load address and zeroes the BSS region. Fails when a
    /// store fails.
    pub fn load_into<D: Devices>(&self, cpu: &mut Cpu<D>) -> (r: Result<(), MemoryError>)
        requires
            old(cpu).wf(),
            self.header.load_address + self.code@.len() <= 0x1_0000_0000,
            self.header.bss_start + self.header.bss_size <= 0xffff_ffff,
        ensures
            final(cpu).wf(),
            final(cpu).pc == self.header.pc,
            final(cpu).registers@ == old(cpu).registers@.update(28, self.header.gp).update(29, self.header.sp_fp).update(
                30,
                self.header.sp_fp,
            ),
            self.in_ram() && old(cpu).cop0.status & 0x1_0000 == 0 ==> r is Ok && final(cpu).bus.ram.bytes() == with_zeros(
                with_code(old(cpu).bus.ram.bytes(), self.header.load_address as int, self.code@, self.code@.len()),
                self.header.bss_start as int,
                self.header.bss_size as nat,
            ),
    {
        cpu.pc = self.header.pc;
        cpu.registers[28] = self.header.gp;
        cpu.registers[29] = self.header.sp_fp;
        cpu.registers[30] = self.header.sp_fp;
        assert(cpu.wf());
        let ghost regs = cpu.registers@;
        assert(regs == old(cpu).registers@.update(28, self.header.gp).update(29, self.header.sp_fp).update(
            30,
            self.header.sp_fp,
        ));
        let ghost ram0 = old(cpu).bus.ram.bytes();
        let ghost good = self.in_ram() && old(cpu).cop0.status & 0x1_0000 == 0;
        let start_address = self.header.load_address;
        let mut i: usize = 0;
        while i < self.code.len()
            invariant
                cpu.wf(),
                cpu.pc == self.header.pc,
                cpu.registers@ == regs,
                regs == old(cpu).registers@.update(28, self.header.gp).update(29, self.header.sp_fp).update(
                    30,
                    self.header.sp_fp,
                ),
                cpu.cop0 == old(cpu).cop0,
                start_address == self.header.load_address,
                self.header.load_address + self.code@.len() <= 0x1_0000_0000,
                i <= self.code@.len(),
                good == (self.in_ram() && old(cpu).cop0.status & 0x1_0000 == 0),
                good ==> cpu.bus.ram.bytes() == with_code(ram0, start_address as int, self.code@, i as nat),
            decreases self.code@.len() - i,
        {
            let address = start_address + i as u32;
            proof {
                if good {
                    assert(ram_target(self.header.load_address + i));
                    crate::bits::lemma_and_le(physical_of(address), 0x1f_ffff);
                }
            }
            match cpu.write_memory(address, self.code[i] as u32, AccessSize::Byte) {
                Ok(()) => {},
                Err(e) => {
                    return Err(e);
                },
            }
            i = i + 1;
        }
        let ghost ram1 = cpu.bus.ram.bytes();
        let bss_start = self.header.bss_start;
        let bss_end = bss_start + self.header.bss_size;
        let mut a = bss_start;
        while a < bss_end
            invariant
                cpu.wf(),
                cpu.pc == self.header.pc,
                cpu.registers@ == regs,
                regs == old(cpu).registers@.update(28, self.header.gp).update(29, self.header.sp_fp).update(
                    30,
                    self.header.sp_fp,
                ),
                cpu.cop0 == old(cpu).cop0,
                bss_start == self.header.bss_start,
                bss_end == bss_start + self.header.bss_size,
                bss_start <= a <= bss_end,
                good == (self.in_ram() && old(cpu).cop0.status & 0x1_0000 == 0),
                good ==> cpu.bus.ram.bytes() == with_zeros(ram1, bss_start as int, (a - bss_start) as nat),
                good ==> ram1 == with_code(ram0, self.header.load_address as int, self.code@, self.code@.len()),
            decreases bss_end - a,
        {
            proof {
                if good {
                    assert(ram_target(self.header.bss_start + (a - bss_start)));
                    crate::bits::lemma_and_le(physical_of(a), 0x1f_ffff);
                }
            }
            match cpu.write_memory(a, 0, AccessSize::Byte) {
                Ok(()) => {},
                Err(e) => {
                    return Err(e);
                },
            }
            a = a + 1;
        }
        Ok(())
    }
}

} // verus!
